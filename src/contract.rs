use vstd::prelude::*;

use crate::admin::{all_valid, map_validate, AdminList};
use crate::error::ContractError;
use crate::ledger::{lists_exactly, seed_map, Ledger};
use crate::msg::{
    BankSend, CanExecuteResponse, Coin, ExecuteMsg, InstantiateMsg, Message, MessageInfo,
    QueryMsg, QueryResponse, Response,
};

verus! {

/// The price of a subscription, in units of `DENOM`.
pub const ENTRY_PRICE: u128 = 100;

/// What a subscriber gets back on cancelling; the rest of the price is kept.
pub const REFUND_AMOUNT: u128 = 95;

/// The expiry written for a new subscription: about one month, in seconds.
pub const SUBSCRIPTION_SECONDS: u64 = 2629746;

/// The expiry of the subscription that the contract's creator receives.
pub const BOOTSTRAP_EXPIRY: u64 = 100;

/// The one currency that the contract takes and pays out.
pub const DENOM: &'static str = "UST";

/// The contract's whole persisted state.
pub struct State {
    pub admins: AdminList,
    pub ledger: Ledger,
}

impl State {
    pub open spec fn wf(&self) -> bool {
        self.ledger.wf()
    }
}

/// The funds are exactly one coin: the entry price in the contract's currency.
pub open spec fn pays_entry_price(funds: Seq<Coin>) -> bool {
    funds.len() == 1 && funds[0].denom@ == DENOM@ && funds[0].amount == ENTRY_PRICE
}

/// An attribute with key `k` and value `v`.
pub open spec fn is_attr(a: (String, String), k: Seq<char>, v: Seq<char>) -> bool {
    a.0@ == k && a.1@ == v
}

/// The response records `action = name` and nothing else, and sends nothing.
pub open spec fn bare_response<A>(r: Response<A>, name: Seq<char>) -> bool {
    r.messages@.len() == 0 && r.attributes@.len() == 1 && is_attr(r.attributes@[0], "action"@, name)
}

/// `out` relays each of `msgs`, in the same order and unchanged.
pub open spec fn relays<A>(out: Seq<Message<A>>, msgs: Seq<A>) -> bool {
    out.len() == msgs.len() && forall|i: int|
        0 <= i < msgs.len() ==> #[trigger] out[i] == Message::<A>::Relay(msgs[i])
}

/// The one transfer of a refund of `REFUND_AMOUNT` to `to`.
pub open spec fn is_refund<A>(m: Message<A>, to: Seq<char>) -> bool {
    match m {
        Message::Send(b) => b.to_address@ == to && b.amount@.len() == 1 && b.amount@[0].denom@
            == DENOM@ && b.amount@[0].amount == REFUND_AMOUNT,
        Message::Relay(_) => false,
    }
}

/// The state is left as it was.
pub open spec fn unchanged(pre: State, post: State) -> bool {
    post.admins == pre.admins && post.ledger@ == pre.ledger@
}

/// The outcome of `Execute`: only an admin may relay, and what is relayed is
/// the actions as given; the state never changes.
pub open spec fn execute_outcome<A>(
    pre: State,
    sender: Seq<char>,
    msgs: Seq<A>,
    post: State,
    r: Result<Response<A>, ContractError>,
) -> bool {
    &&& unchanged(pre, post)
    &&& match r {
        Ok(res) => pre.admins.spec_is_admin(sender) && relays(res.messages@, msgs)
            && res.attributes@.len() == 1 && is_attr(res.attributes@[0], "action"@, "execute"@),
        Err(e) => !pre.admins.spec_is_admin(sender) && e == ContractError::Unauthorized,
    }
}

/// The outcome of `Freeze`: one who may modify the admin list makes it
/// immutable; anyone else is refused and nothing changes.
pub open spec fn freeze_outcome<A>(
    pre: State,
    sender: Seq<char>,
    post: State,
    r: Result<Response<A>, ContractError>,
) -> bool {
    match r {
        Ok(res) => pre.admins.spec_can_modify(sender) && post.admins.admins == pre.admins.admins
            && !post.admins.mutable && post.ledger@ == pre.ledger@ && bare_response(
            res,
            "freeze"@,
        ),
        Err(e) => !pre.admins.spec_can_modify(sender) && e == ContractError::Unauthorized
            && unchanged(pre, post),
    }
}

/// The outcome of `UpdateAdmins`: one who may modify the admin list replaces
/// it with the new addresses, provided the host accepted all of them.
pub open spec fn update_admins_outcome<A>(
    pre: State,
    sender: Seq<char>,
    admins: Seq<String>,
    verdicts: Seq<bool>,
    post: State,
    r: Result<Response<A>, ContractError>,
) -> bool {
    match r {
        Ok(res) => pre.admins.spec_can_modify(sender) && all_valid(verdicts)
            && post.admins.admins@ == admins && post.admins.mutable == pre.admins.mutable
            && post.ledger@ == pre.ledger@ && bare_response(res, "update_admins"@),
        Err(e) => unchanged(pre, post) && if !pre.admins.spec_can_modify(sender) {
            e == ContractError::Unauthorized
        } else {
            !all_valid(verdicts) && e == ContractError::InvalidAddress
        },
    }
}

/// The outcome of `Join`: a caller who pays exactly the entry price, has no
/// subscription yet and whose address the host accepts is subscribed with
/// the fixed expiry.
pub open spec fn join_outcome<A>(
    pre: State,
    sender: Seq<char>,
    funds: Seq<Coin>,
    sender_valid: bool,
    post: State,
    r: Result<Response<A>, ContractError>,
) -> bool {
    match r {
        Ok(res) => pays_entry_price(funds) && !pre.ledger@.contains_key(sender) && sender_valid
            && post.admins == pre.admins && post.ledger@ == pre.ledger@.insert(
            sender,
            SUBSCRIPTION_SECONDS,
        ) && bare_response(res, "join"@),
        Err(e) => unchanged(pre, post) && if !pays_entry_price(funds) {
            e == ContractError::InvalidAmount
        } else if pre.ledger@.contains_key(sender) {
            e == ContractError::AlreadySubscribed
        } else {
            !sender_valid && e == ContractError::InvalidAddress
        },
    }
}

/// The outcome of `Cancel`: a subscriber whose expiry has not passed loses
/// the subscription and is sent the refund.
pub open spec fn cancel_outcome<A>(
    pre: State,
    sender: Seq<char>,
    now: u64,
    post: State,
    r: Result<Response<A>, ContractError>,
) -> bool {
    match r {
        Ok(res) => pre.ledger@.contains_key(sender) && now <= pre.ledger@[sender]
            && post.admins == pre.admins && post.ledger@ == pre.ledger@.remove(sender)
            && res.messages@.len() == 1 && is_refund(res.messages@[0], sender)
            && res.attributes@.len() == 2 && is_attr(res.attributes@[0], "action"@, "refund"@)
            && is_attr(res.attributes@[1], "to"@, sender),
        Err(e) => unchanged(pre, post) && if !pre.ledger@.contains_key(sender) {
            e == ContractError::NotSubscribed
        } else {
            now > pre.ledger@[sender] && e == ContractError::AlreadyExpired
        },
    }
}

fn attr(k: &str, v: &str) -> (r: (String, String))
    ensures
        is_attr(r, k@, v@),
{
    (k.to_owned(), v.to_owned())
}

fn bare<A>(name: &str) -> (r: Response<A>)
    ensures
        bare_response(r, name@),
{
    let mut attributes: Vec<(String, String)> = Vec::new();
    attributes.push(attr("action", name));
    Response { messages: Vec::new(), attributes }
}

/// One coin of `amount` in `denom`.
pub fn coins(amount: u128, denom: &str) -> (r: Vec<Coin>)
    ensures
        r@.len() == 1,
        r@[0].denom@ == denom@,
        r@[0].amount == amount,
{
    let mut r: Vec<Coin> = Vec::new();
    r.push(Coin { denom: denom.to_owned(), amount });
    r
}

fn is_entry_price(funds: &Vec<Coin>) -> (r: bool)
    ensures
        r == pays_entry_price(funds@),
{
    if funds.len() != 1 {
        return false;
    }
    let denom = DENOM.to_owned();
    funds[0].amount == ENTRY_PRICE && funds[0].denom == denom
}

fn relay_all<A>(msgs: Vec<A>) -> (r: Vec<Message<A>>)
    ensures
        relays(r@, msgs@),
{
    let ghost orig = msgs@;
    let mut rest = msgs;
    let mut out: Vec<Message<A>> = Vec::new();
    while rest.len() > 0
        invariant
            out@.len() + rest@.len() == orig.len(),
            rest@ == orig.subrange(out@.len() as int, orig.len() as int),
            forall|i: int| 0 <= i < out@.len() ==> #[trigger] out@[i] == Message::<A>::Relay(orig[i]),
        decreases rest@.len(),
    {
        let ghost k = out@.len();
        let a = rest.remove(0);
        assert(a == orig[k as int]);
        out.push(Message::Relay(a));
        assert(rest@ =~= orig.subrange(out@.len() as int, orig.len() as int));
    }
    out
}

/// Creates the contract's state: the admin list as given, once the host has
/// accepted each address (`verdicts[i]` for `msg.admins[i]`), and the
/// subscriptions of `msg.list` together with one for the creator that
/// expires at `BOOTSTRAP_EXPIRY`.
pub fn instantiate(info: &MessageInfo, msg: &InstantiateMsg, verdicts: &Vec<bool>) -> (r: Result<
    State,
    ContractError,
>)
    requires
        verdicts@.len() == msg.admins@.len(),
    ensures
        r is Ok <==> all_valid(verdicts@),
        r is Ok ==> {
            let s = r->Ok_0;
            &&& s.wf()
            &&& s.admins.admins@ == msg.admins@
            &&& s.admins.mutable == msg.mutable
            &&& s.ledger@ == seed_map(msg.list@).insert(info.sender@, BOOTSTRAP_EXPIRY)
        },
        r is Err ==> r->Err_0 == ContractError::InvalidAddress,
{
    let mut ledger = Ledger::from_entries(&msg.list);
    ledger.insert(info.sender.clone(), BOOTSTRAP_EXPIRY);
    let admins = match map_validate(&msg.admins, verdicts) {
        Ok(a) => a,
        Err(e) => return Err(e),
    };
    Ok(State { admins: AdminList { admins, mutable: msg.mutable }, ledger })
}

/// Whether `sender` is an admin, and so may relay actions.
pub fn can_execute(state: &State, sender: &str) -> (r: bool)
    ensures
        r == state.admins.spec_is_admin(sender@),
{
    state.admins.is_admin(sender)
}

/// Relays `msgs` on behalf of an admin, whether or not the list is frozen.
pub fn execute_execute<A>(state: &State, sender: &str, msgs: Vec<A>) -> (r: Result<
    Response<A>,
    ContractError,
>)
    ensures
        execute_outcome(*state, sender@, msgs@, *state, r),
{
    if !can_execute(state, sender) {
        Err(ContractError::Unauthorized)
    } else {
        let messages = relay_all(msgs);
        let mut attributes: Vec<(String, String)> = Vec::new();
        attributes.push(attr("action", "execute"));
        Ok(Response { messages, attributes })
    }
}

/// Makes the admin list immutable, on the request of one who may modify it.
pub fn execute_freeze<A>(state: &mut State, sender: &str) -> (r: Result<Response<A>, ContractError>)
    requires
        old(state).wf(),
    ensures
        final(state).wf(),
        freeze_outcome(*old(state), sender@, *final(state), r),
{
    if !state.admins.can_modify(sender) {
        Err(ContractError::Unauthorized)
    } else {
        state.admins.mutable = false;
        Ok(bare("freeze"))
    }
}

/// Replaces the admin list, on the request of one who may modify it;
/// `verdicts[i]` is the host's verdict on `admins[i]`.
pub fn execute_update_admins<A>(
    state: &mut State,
    sender: &str,
    admins: &Vec<String>,
    verdicts: &Vec<bool>,
) -> (r: Result<Response<A>, ContractError>)
    requires
        old(state).wf(),
        verdicts@.len() == admins@.len(),
    ensures
        final(state).wf(),
        update_admins_outcome(*old(state), sender@, admins@, verdicts@, *final(state), r),
{
    if !state.admins.can_modify(sender) {
        return Err(ContractError::Unauthorized);
    }
    match map_validate(admins, verdicts) {
        Ok(list) => {
            state.admins.admins = list;
            Ok(bare("update_admins"))
        },
        Err(e) => Err(e),
    }
}

/// Subscribes the caller, who must pay exactly the entry price and must not
/// be subscribed yet; `sender_valid` is the host's verdict on its address.
pub fn join<A>(state: &mut State, info: &MessageInfo, sender_valid: bool) -> (r: Result<
    Response<A>,
    ContractError,
>)
    requires
        old(state).wf(),
    ensures
        final(state).wf(),
        join_outcome(*old(state), info.sender@, info.funds@, sender_valid, *final(state), r),
{
    if !is_entry_price(&info.funds) {
        return Err(ContractError::InvalidAmount);
    }
    if state.ledger.contains_key(info.sender.as_str()) {
        return Err(ContractError::AlreadySubscribed);
    }
    if !sender_valid {
        return Err(ContractError::InvalidAddress);
    }
    state.ledger.insert(info.sender.clone(), SUBSCRIPTION_SECONDS);
    Ok(bare("join"))
}

/// The transfers that pay `amount` to `to`: none when there is nothing to pay.
pub fn send_tokens(to: &str, amount: Vec<Coin>) -> (r: Vec<BankSend>)
    ensures
        amount@.len() == 0 ==> r@.len() == 0,
        amount@.len() > 0 ==> r@.len() == 1 && r@[0].to_address@ == to@ && r@[0].amount
            == amount,
{
    let mut r: Vec<BankSend> = Vec::new();
    if amount.len() > 0 {
        r.push(BankSend { to_address: to.to_owned(), amount });
    }
    r
}

/// Ends the caller's subscription while it has not expired (`now`, in
/// seconds, at most its expiry) and refunds `REFUND_AMOUNT`.
pub fn cancel<A>(state: &mut State, sender: &str, now: u64) -> (r: Result<
    Response<A>,
    ContractError,
>)
    requires
        old(state).wf(),
    ensures
        final(state).wf(),
        cancel_outcome(*old(state), sender@, now, *final(state), r),
{
    let expiry = match state.ledger.get(sender) {
        Some(e) => e,
        None => return Err(ContractError::NotSubscribed),
    };
    if now > expiry {
        return Err(ContractError::AlreadyExpired);
    }
    state.ledger.remove(sender);
    let mut sends = send_tokens(sender, coins(REFUND_AMOUNT, DENOM));
    let mut messages: Vec<Message<A>> = Vec::new();
    let refund = sends.remove(0);
    messages.push(Message::Send(refund));
    let mut attributes: Vec<(String, String)> = Vec::new();
    attributes.push(attr("action", "refund"));
    attributes.push(attr("to", sender));
    Ok(Response { messages, attributes })
}

/// Every subscription, each address once with its expiry.
pub fn query_admin_list(state: &State) -> (r: Vec<(String, u64)>)
    requires
        state.wf(),
    ensures
        lists_exactly(r@, state.ledger@),
{
    state.ledger.snapshot()
}

/// Whether `sender` may relay actions; which action is asked about does not
/// matter.
pub fn query_can_execute<A>(state: &State, sender: String, msg: A) -> (r: CanExecuteResponse)
    ensures
        r.can_execute == state.admins.spec_is_admin(sender@),
{
    CanExecuteResponse { can_execute: can_execute(state, sender.as_str()) }
}

/// How many addresses the host must check before `msg` is handled: the new
/// admins of `UpdateAdmins`, the caller of `Join`, none otherwise.
pub open spec fn n_checked<A>(msg: ExecuteMsg<A>) -> nat {
    match msg {
        ExecuteMsg::UpdateAdmins { admins } => admins@.len(),
        ExecuteMsg::Join => 1,
        _ => 0,
    }
}

/// The outcome of a mutating request: that of the handler it is routed to.
/// `verdicts` holds the host's verdicts on the addresses that
/// `addresses_to_check` lists.
pub open spec fn dispatch_outcome<A>(
    pre: State,
    info: MessageInfo,
    now: u64,
    msg: ExecuteMsg<A>,
    verdicts: Seq<bool>,
    post: State,
    r: Result<Response<A>, ContractError>,
) -> bool {
    match msg {
        ExecuteMsg::Execute { msgs } => execute_outcome(pre, info.sender@, msgs@, post, r),
        ExecuteMsg::Freeze => freeze_outcome(pre, info.sender@, post, r),
        ExecuteMsg::UpdateAdmins { admins } => update_admins_outcome(
            pre,
            info.sender@,
            admins@,
            verdicts,
            post,
            r,
        ),
        ExecuteMsg::Join => join_outcome(pre, info.sender@, info.funds@, verdicts[0], post, r),
        ExecuteMsg::Cancel => cancel_outcome(pre, info.sender@, now, post, r),
    }
}

/// The addresses whose format the host must check before `msg` is handled,
/// in the order in which `execute` takes the verdicts.
pub fn addresses_to_check<A>(msg: &ExecuteMsg<A>, sender: &str) -> (r: Vec<String>)
    ensures
        r@.len() == n_checked(*msg),
        msg is UpdateAdmins ==> forall|i: int|
            0 <= i < r@.len() ==> (#[trigger] r@[i])@ == msg->UpdateAdmins_admins@[i]@,
        msg is Join ==> r@[0]@ == sender@,
{
    let mut r: Vec<String> = Vec::new();
    match msg {
        ExecuteMsg::UpdateAdmins { admins } => {
            let mut i: usize = 0;
            while i < admins.len()
                invariant
                    i <= admins.len(),
                    r@.len() == i,
                    forall|j: int| 0 <= j < i ==> (#[trigger] r@[j])@ == admins@[j]@,
                decreases admins.len() - i,
            {
                r.push(admins[i].clone());
                i = i + 1;
            }
        },
        ExecuteMsg::Join => {
            r.push(sender.to_owned());
        },
        _ => {},
    }
    r
}

/// Routes a mutating request to its handler. `now` is the block time in
/// seconds; `verdicts[i]` is the host's verdict on the address that
/// `addresses_to_check` lists at `i`.
pub fn execute<A>(
    state: &mut State,
    info: &MessageInfo,
    now: u64,
    msg: ExecuteMsg<A>,
    verdicts: &Vec<bool>,
) -> (r: Result<Response<A>, ContractError>)
    requires
        old(state).wf(),
        verdicts@.len() == n_checked(msg),
    ensures
        final(state).wf(),
        dispatch_outcome(*old(state), *info, now, msg, verdicts@, *final(state), r),
{
    match msg {
        ExecuteMsg::Execute { msgs } => execute_execute(state, info.sender.as_str(), msgs),
        ExecuteMsg::Freeze => execute_freeze(state, info.sender.as_str()),
        ExecuteMsg::UpdateAdmins { admins } => execute_update_admins(
            state,
            info.sender.as_str(),
            &admins,
            verdicts,
        ),
        ExecuteMsg::Join => join(state, info, verdicts[0]),
        ExecuteMsg::Cancel => cancel(state, info.sender.as_str(), now),
    }
}

/// Answers a read-only request: `AdminList` gives every subscription,
/// `CanExecute` whether the sender is an admin.
pub fn query<A>(state: &State, msg: QueryMsg<A>) -> (r: QueryResponse)
    requires
        state.wf(),
    ensures
        match msg {
            QueryMsg::AdminList => r is AdminList && lists_exactly(r->AdminList_0@, state.ledger@),
            QueryMsg::CanExecute { sender, msg: _ } => r == QueryResponse::CanExecute(
                CanExecuteResponse { can_execute: state.admins.spec_is_admin(sender@) },
            ),
        },
{
    match msg {
        QueryMsg::AdminList => QueryResponse::AdminList(query_admin_list(state)),
        QueryMsg::CanExecute { sender, msg } => QueryResponse::CanExecute(
            query_can_execute(state, sender, msg),
        ),
    }
}

} // verus!
