use vstd::prelude::*;

use crate::contract::{dispatch_outcome, freeze_outcome, unchanged, State};
use crate::error::ContractError;
use crate::msg::{ExecuteMsg, MessageInfo, Response};

verus! {

/// One call of `execute`: who called with what funds, the block time, the
/// request and the host's address verdicts.
pub struct Call<A> {
    pub info: MessageInfo,
    pub now: u64,
    pub msg: ExecuteMsg<A>,
    pub verdicts: Vec<bool>,
}

/// `states[i + 1]` and `results[i]` are what the `i`-th call of `calls` may
/// leave and return, starting from `states[i]`.
pub open spec fn is_run<A>(
    states: Seq<State>,
    calls: Seq<Call<A>>,
    results: Seq<Result<Response<A>, ContractError>>,
) -> bool {
    &&& states.len() == calls.len() + 1
    &&& results.len() == calls.len()
    &&& forall|i: int|
        0 <= i < calls.len() ==> dispatch_outcome(
            states[i],
            (#[trigger] calls[i]).info,
            calls[i].now,
            calls[i].msg,
            calls[i].verdicts@,
            states[i + 1],
            results[i],
        )
}

/// Once the admin list is immutable, no request changes it, and every
/// `Freeze` or `UpdateAdmins` is refused as unauthorized, whoever sends it.
pub proof fn lemma_frozen_list_is_fixed<A>(
    pre: State,
    info: MessageInfo,
    now: u64,
    msg: ExecuteMsg<A>,
    verdicts: Seq<bool>,
    post: State,
    r: Result<Response<A>, ContractError>,
)
    requires
        !pre.admins.mutable,
        dispatch_outcome(pre, info, now, msg, verdicts, post, r),
    ensures
        post.admins == pre.admins,
        msg is Freeze || msg is UpdateAdmins ==> r == Err::<Response<A>, ContractError>(
            ContractError::Unauthorized,
        ),
{
}

proof fn lemma_frozen_from<A>(
    states: Seq<State>,
    calls: Seq<Call<A>>,
    results: Seq<Result<Response<A>, ContractError>>,
    f: int,
    j: int,
)
    requires
        is_run(states, calls, results),
        0 <= f < calls.len(),
        calls[f].msg is Freeze,
        results[f] is Ok,
        f < j <= calls.len(),
    ensures
        !states[j].admins.mutable,
    decreases j - f,
{
    let (i, c) = (j - 1, calls[j - 1]);
    assert(dispatch_outcome(states[i], c.info, c.now, c.msg, c.verdicts@, states[j], results[i]));
    if i > f {
        lemma_frozen_from(states, calls, results, f, i);
        lemma_frozen_list_is_fixed(
            states[i],
            c.info,
            c.now,
            c.msg,
            c.verdicts@,
            states[j],
            results[i],
        );
    }
}

/// In any run of requests, after a `Freeze` that succeeded every later
/// `Freeze` or `UpdateAdmins` fails as unauthorized, whoever sends it.
pub proof fn lemma_freeze_is_final<A>(
    states: Seq<State>,
    calls: Seq<Call<A>>,
    results: Seq<Result<Response<A>, ContractError>>,
    f: int,
    j: int,
)
    requires
        is_run(states, calls, results),
        0 <= f < j < calls.len(),
        calls[f].msg is Freeze,
        results[f] is Ok,
        calls[j].msg is Freeze || calls[j].msg is UpdateAdmins,
    ensures
        results[j] == Err::<Response<A>, ContractError>(ContractError::Unauthorized),
{
    lemma_frozen_from(states, calls, results, f, j);
    let c = calls[j];
    let next = states[j + 1];
    assert(dispatch_outcome(states[j], c.info, c.now, c.msg, c.verdicts@, next, results[j]));
    lemma_frozen_list_is_fixed(states[j], c.info, c.now, c.msg, c.verdicts@, next, results[j]);
}

/// Freezing twice ends as freezing once: the second call is refused as
/// unauthorized and leaves the state the first one made.
pub proof fn lemma_freeze_twice<A>(
    s0: State,
    a: Seq<char>,
    s1: State,
    r1: Result<Response<A>, ContractError>,
    b: Seq<char>,
    s2: State,
    r2: Result<Response<A>, ContractError>,
)
    requires
        freeze_outcome(s0, a, s1, r1),
        r1 is Ok,
        freeze_outcome(s1, b, s2, r2),
    ensures
        r2 == Err::<Response<A>, ContractError>(ContractError::Unauthorized),
        unchanged(s1, s2),
        !s2.admins.mutable,
        s2.admins.admins == s0.admins.admins,
{
}

/// A subscription whose expiry has passed stays as it is: no request at a
/// later time removes or changes it, whoever sends it.
pub proof fn lemma_expired_entry_stays<A>(
    pre: State,
    info: MessageInfo,
    now: u64,
    msg: ExecuteMsg<A>,
    verdicts: Seq<bool>,
    post: State,
    r: Result<Response<A>, ContractError>,
    addr: Seq<char>,
)
    requires
        pre.ledger@.contains_key(addr),
        now > pre.ledger@[addr],
        dispatch_outcome(pre, info, now, msg, verdicts, post, r),
    ensures
        post.ledger@.contains_key(addr),
        post.ledger@[addr] == pre.ledger@[addr],
{
}

} // verus!
