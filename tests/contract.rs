use cw1_whitelist::{
    addresses_to_check, can_execute, cancel, coins, execute, execute_execute, execute_freeze,
    execute_update_admins, instantiate, join, map_validate, query, query_admin_list,
    query_can_execute, send_tokens, AdminList, BankSend, Coin, ContractError, Empty, ExecuteMsg,
    InstantiateMsg, Message, MessageInfo, QueryMsg, QueryResponse, State, SUBSCRIPTION_SECONDS,
};

/// The block time that the host's test environment starts with, in seconds.
const MOCK_NOW: u64 = 1571797419;

#[derive(Clone, Debug, PartialEq)]
enum Action {
    Bank(BankSend),
    Wasm { contract_addr: String, msg: Vec<u8>, funds: Vec<Coin> },
    Delegate { validator: String, amount: Coin },
}

fn info(sender: &str, funds: Vec<Coin>) -> MessageInfo {
    MessageInfo { sender: sender.to_string(), funds }
}

fn strings(v: &[&str]) -> Vec<String> {
    v.iter().map(|s| s.to_string()).collect()
}

fn setup(creator: &str, admins: &[&str], mutable: bool, list: Vec<(String, u64)>) -> State {
    let msg = InstantiateMsg { admins: strings(admins), mutable, list };
    let verdicts = vec![true; admins.len()];
    instantiate(&info(creator, vec![]), &msg, &verdicts).unwrap()
}

/// Runs a request with every address accepted by the host.
fn run<A>(
    state: &mut State,
    sender: &str,
    funds: Vec<Coin>,
    now: u64,
    msg: ExecuteMsg<A>,
) -> Result<cw1_whitelist::Response<A>, ContractError> {
    let verdicts = vec![true; addresses_to_check(&msg, sender).len()];
    execute(state, &info(sender, funds), now, msg, &verdicts)
}

fn sorted(mut v: Vec<(String, u64)>) -> Vec<(String, u64)> {
    v.sort();
    v
}

#[test]
fn instantiate_and_modify_config() {
    let alice = "alice";
    let bob = "bob";
    let carl = "carl";
    let anyone = "anyone";

    let mut deps = setup(anyone, &[alice, bob, carl], true, vec![]);
    assert_eq!(deps.admins.admins, strings(&[alice, bob, carl]));
    assert!(deps.admins.mutable);

    // anyone cannot modify the contract
    let msg: ExecuteMsg<Empty> = ExecuteMsg::UpdateAdmins { admins: strings(&[anyone]) };
    let err = run(&mut deps, anyone, vec![], MOCK_NOW, msg).unwrap_err();
    assert_eq!(err, ContractError::Unauthorized {});

    // but alice can kick out carl
    let msg: ExecuteMsg<Empty> = ExecuteMsg::UpdateAdmins { admins: strings(&[alice, bob]) };
    run(&mut deps, alice, vec![], MOCK_NOW, msg).unwrap();
    assert_eq!(deps.admins.admins, strings(&[alice, bob]));
    assert!(deps.admins.mutable);

    // carl cannot freeze it
    let err = run(&mut deps, carl, vec![], MOCK_NOW, ExecuteMsg::<Empty>::Freeze {}).unwrap_err();
    assert_eq!(err, ContractError::Unauthorized {});

    // but bob can
    run(&mut deps, bob, vec![], MOCK_NOW, ExecuteMsg::<Empty>::Freeze {}).unwrap();
    assert_eq!(deps.admins.admins, strings(&[alice, bob]));
    assert!(!deps.admins.mutable);

    // and now alice cannot change it again
    let msg: ExecuteMsg<Empty> = ExecuteMsg::UpdateAdmins { admins: strings(&[alice]) };
    let err = run(&mut deps, alice, vec![], MOCK_NOW, msg).unwrap_err();
    assert_eq!(err, ContractError::Unauthorized {});
}

#[test]
fn execute_messages_has_proper_permissions() {
    let alice = "alice";
    let bob = "bob";
    let carl = "carl";

    let mut deps = setup(bob, &[alice, carl], false, vec![]);

    let msgs = vec![
        Action::Bank(BankSend { to_address: bob.to_string(), amount: coins(10000, "DAI") }),
        Action::Wasm {
            contract_addr: "some contract".to_string(),
            msg: b"{\"freeze\":{}}".to_vec(),
            funds: vec![],
        },
    ];

    // make some nice message
    let execute_msg = ExecuteMsg::Execute { msgs: msgs.clone() };

    // bob cannot execute them
    let err = run(&mut deps, bob, vec![], MOCK_NOW, execute_msg.clone()).unwrap_err();
    assert_eq!(err, ContractError::Unauthorized {});

    // but carl can
    let res = run(&mut deps, carl, vec![], MOCK_NOW, execute_msg).unwrap();
    assert_eq!(res.messages, msgs.into_iter().map(Message::Relay).collect::<Vec<_>>());
    assert_eq!(res.attributes, vec![("action".to_string(), "execute".to_string())]);
}

#[test]
fn can_execute_query_works() {
    let alice = "alice";
    let bob = "bob";
    let anyone = "anyone";

    let deps = setup(anyone, &[alice, bob], false, vec![]);

    // let us make some queries... different msg types by owner and by other
    let send_msg = Action::Bank(BankSend {
        to_address: anyone.to_string(),
        amount: coins(12345, "ushell"),
    });
    let staking_msg = Action::Delegate {
        validator: anyone.to_string(),
        amount: Coin { denom: "ureef".to_string(), amount: 70000 },
    };

    // owner can send
    let res = query_can_execute(&deps, alice.to_string(), send_msg.clone());
    assert!(res.can_execute);

    // owner can stake
    let res = query_can_execute(&deps, bob.to_string(), staking_msg.clone());
    assert!(res.can_execute);

    // anyone cannot send
    let res = query_can_execute(&deps, anyone.to_string(), send_msg);
    assert!(!res.can_execute);

    // anyone cannot stake
    let res = query_can_execute(&deps, anyone.to_string(), staking_msg);
    assert!(!res.can_execute);
}

#[test]
fn try_cancel() {
    let mut deps = setup("jack", &["jack", "john"], true, vec![("joe".to_string(), 100)]);
    assert_eq!(deps.ledger.get("joe"), Some(100));
    assert_eq!(deps.ledger.get("jack"), Some(100));

    // shouldn't work if non-member cancels
    let err = cancel::<Empty>(&mut deps, "anyone", MOCK_NOW).unwrap_err();
    assert_eq!(err, ContractError::NotSubscribed {});

    // shouldn't be already expired
    let err = cancel::<Empty>(&mut deps, "joe", 200).unwrap_err();
    assert_eq!(err, ContractError::AlreadyExpired {});

    // an expired subscription cannot be cancelled and stays in the ledger
    let err = cancel::<Empty>(&mut deps, "joe", 200).unwrap_err();
    assert_eq!(err, ContractError::AlreadyExpired {});
    assert!(deps.ledger.contains_key("joe"));

    // a subscription that has not expired is removed and refunded
    let res = cancel::<Empty>(&mut deps, "jack", 95).unwrap();
    assert!(!deps.ledger.contains_key("jack"));
    assert_eq!(("action".to_string(), "refund".to_string()), res.attributes[0]);
    assert_eq!(("to".to_string(), "jack".to_string()), res.attributes[1]);
    assert_eq!(1, res.messages.len());
    assert_eq!(
        res.messages[0],
        Message::Send(BankSend { to_address: "jack".to_string(), amount: coins(95, "UST") })
    );
}

#[test]
fn is_admin() {
    let admins = strings(&["bob", "paul", "john"]);
    let config = AdminList { admins: admins.clone(), mutable: false };

    assert!(config.is_admin(&admins[0]));
    assert!(config.is_admin(&admins[2]));
    assert!(!config.is_admin("other"));
}

#[test]
fn can_modify() {
    let alice = "alice";
    let bob = "bob";

    // admin can modify mutable contract
    let config = AdminList { admins: strings(&[bob]), mutable: true };
    assert!(!config.can_modify(alice));
    assert!(config.can_modify(bob));

    // no one can modify an immutable contract
    let config = AdminList { admins: strings(&[alice]), mutable: false };
    assert!(!config.can_modify(alice));
    assert!(!config.can_modify(bob));
}

#[test]
fn join_needs_exact_price() {
    let mut st = setup("creator", &["alice"], true, vec![]);
    let wrong = vec![
        vec![],
        coins(99, "UST"),
        coins(101, "UST"),
        coins(100, "DAI"),
        vec![Coin { denom: "UST".to_string(), amount: 100 }; 2],
    ];
    for funds in wrong {
        let err = join::<Empty>(&mut st, &info("sam", funds), true).unwrap_err();
        assert_eq!(err, ContractError::InvalidAmount);
        assert!(!st.ledger.contains_key("sam"));
    }
    let res = join::<Empty>(&mut st, &info("sam", coins(100, "UST")), true).unwrap();
    assert_eq!(st.ledger.get("sam"), Some(SUBSCRIPTION_SECONDS));
    assert_eq!(st.ledger.get("sam"), Some(2629746));
    assert!(res.messages.is_empty());
    assert_eq!(res.attributes, vec![("action".to_string(), "join".to_string())]);
}

#[test]
fn join_twice_is_refused() {
    let mut st = setup("creator", &[], true, vec![]);
    join::<Empty>(&mut st, &info("sam", coins(100, "UST")), true).unwrap();
    let err = join::<Empty>(&mut st, &info("sam", coins(100, "UST")), true).unwrap_err();
    assert_eq!(err, ContractError::AlreadySubscribed);
    // the creator holds the bootstrap subscription already
    let err = join::<Empty>(&mut st, &info("creator", coins(100, "UST")), true).unwrap_err();
    assert_eq!(err, ContractError::AlreadySubscribed);
    // a wrong amount is reported before an existing subscription
    let err = join::<Empty>(&mut st, &info("sam", coins(5, "UST")), true).unwrap_err();
    assert_eq!(err, ContractError::InvalidAmount);
}

#[test]
fn join_with_rejected_address() {
    let mut st = setup("creator", &[], true, vec![]);
    let err = join::<Empty>(&mut st, &info("Bad", coins(100, "UST")), false).unwrap_err();
    assert_eq!(err, ContractError::InvalidAddress);
    assert!(!st.ledger.contains_key("Bad"));
}

#[test]
fn cancel_on_expiry_boundary() {
    let mut st = setup("creator", &[], true, vec![("joe".to_string(), 100)]);
    let err = cancel::<Empty>(&mut st, "joe", 101).unwrap_err();
    assert_eq!(err, ContractError::AlreadyExpired);
    let res = cancel::<Empty>(&mut st, "joe", 100).unwrap();
    assert_eq!(res.messages.len(), 1);
    assert!(!st.ledger.contains_key("joe"));
    let err = cancel::<Empty>(&mut st, "joe", 0).unwrap_err();
    assert_eq!(err, ContractError::NotSubscribed);
}

#[test]
fn join_then_cancel_refunds() {
    let mut st = setup("creator", &[], true, vec![]);
    run::<Empty>(&mut st, "sam", coins(100, "UST"), MOCK_NOW, ExecuteMsg::Join).unwrap();
    let res = run::<Empty>(&mut st, "sam", vec![], 1_000_000, ExecuteMsg::Cancel).unwrap();
    assert_eq!(
        res.messages,
        vec![Message::Send(BankSend { to_address: "sam".to_string(), amount: coins(95, "UST") })]
    );
    assert!(!st.ledger.contains_key("sam"));
}

#[test]
fn relay_keeps_order_and_freeze_scenario() {
    let mut st = setup("creator", &["A", "B", "C"], true, vec![]);
    let msgs = vec!["first".to_string(), "second".to_string()];
    let res = run(&mut st, "C", vec![], MOCK_NOW, ExecuteMsg::Execute { msgs: msgs.clone() }).unwrap();
    assert_eq!(
        res.messages,
        vec![Message::Relay("first".to_string()), Message::Relay("second".to_string())]
    );
    run::<String>(&mut st, "B", vec![], MOCK_NOW, ExecuteMsg::Freeze).unwrap();
    let err = run::<String>(
        &mut st,
        "A",
        vec![],
        MOCK_NOW,
        ExecuteMsg::UpdateAdmins { admins: strings(&["A"]) },
    )
    .unwrap_err();
    assert_eq!(err, ContractError::Unauthorized);
    assert_eq!(st.admins.admins, strings(&["A", "B", "C"]));
    // relaying still works after the freeze
    let res = execute_execute(&st, "A", msgs).unwrap();
    assert_eq!(res.messages.len(), 2);
}

#[test]
fn relay_refused_for_non_admin() {
    let st = setup("creator", &["A"], true, vec![]);
    let err = execute_execute(&st, "creator", vec![1u8, 2, 3]).unwrap_err();
    assert_eq!(err, ContractError::Unauthorized);
    assert!(can_execute(&st, "A"));
    assert!(!can_execute(&st, "a"));
}

#[test]
fn freeze_twice_keeps_first_effect() {
    let mut st = setup("creator", &["A", "B"], true, vec![]);
    let first = execute_freeze::<Empty>(&mut st, "A").unwrap();
    assert_eq!(first.attributes, vec![("action".to_string(), "freeze".to_string())]);
    let err = execute_freeze::<Empty>(&mut st, "B").unwrap_err();
    assert_eq!(err, ContractError::Unauthorized);
    assert!(!st.admins.mutable);
    assert_eq!(st.admins.admins, strings(&["A", "B"]));
}

#[test]
fn update_admins_with_rejected_address() {
    let mut st = setup("creator", &["A"], true, vec![]);
    let err =
        execute_update_admins::<Empty>(&mut st, "A", &strings(&["B", "bad"]), &vec![true, false])
            .unwrap_err();
    assert_eq!(err, ContractError::InvalidAddress);
    assert_eq!(st.admins.admins, strings(&["A"]));
    let err = execute_update_admins::<Empty>(&mut st, "B", &strings(&["B"]), &vec![true])
        .unwrap_err();
    assert_eq!(err, ContractError::Unauthorized);
}

#[test]
fn instantiate_with_rejected_address() {
    let msg = InstantiateMsg { admins: strings(&["A", "B"]), mutable: true, list: vec![] };
    let err = instantiate(&info("creator", vec![]), &msg, &vec![true, false]).err().unwrap();
    assert_eq!(err, ContractError::InvalidAddress);
}

#[test]
fn instantiate_seeds_ledger() {
    let list = vec![("joe".to_string(), 100), ("ann".to_string(), 7), ("joe".to_string(), 300)];
    let st = setup("jack", &[], false, list);
    assert_eq!(
        sorted(query_admin_list(&st)),
        vec![("ann".to_string(), 7), ("jack".to_string(), 100), ("joe".to_string(), 300)]
    );
    match query::<Empty>(&st, QueryMsg::AdminList) {
        QueryResponse::AdminList(v) => assert_eq!(sorted(v).len(), 3),
        other => panic!("unexpected answer {:?}", other),
    }
    match query(&st, QueryMsg::CanExecute { sender: "jack".to_string(), msg: Empty {} }) {
        QueryResponse::CanExecute(r) => assert!(!r.can_execute),
        other => panic!("unexpected answer {:?}", other),
    }
}

#[test]
fn map_validate_keeps_order() {
    let admins = strings(&["x", "y", "z"]);
    assert_eq!(map_validate(&admins, &vec![true, true, true]), Ok(admins.clone()));
    assert_eq!(map_validate(&admins, &vec![true, false, true]), Err(ContractError::InvalidAddress));
    assert_eq!(map_validate(&vec![], &vec![]), Ok(vec![]));
}

#[test]
fn send_tokens_skips_empty_amount() {
    assert!(send_tokens("joe", vec![]).is_empty());
    assert_eq!(
        send_tokens("joe", coins(95, "UST")),
        vec![BankSend { to_address: "joe".to_string(), amount: coins(95, "UST") }]
    );
}

#[test]
fn addresses_to_check_lists_new_admins_or_caller() {
    let msg: ExecuteMsg<Empty> = ExecuteMsg::UpdateAdmins { admins: strings(&["p", "q"]) };
    assert_eq!(addresses_to_check(&msg, "me"), strings(&["p", "q"]));
    assert_eq!(addresses_to_check(&ExecuteMsg::<Empty>::Join, "me"), strings(&["me"]));
    assert!(addresses_to_check(&ExecuteMsg::<Empty>::Cancel, "me").is_empty());
}

#[test]
fn expired_subscription_is_stuck() {
    let mut st = setup("creator", &[], true, vec![("joe".to_string(), 100)]);
    let err = run::<Empty>(&mut st, "anyone", vec![], 200, ExecuteMsg::Cancel).unwrap_err();
    assert_eq!(err, ContractError::NotSubscribed);
    let err = run::<Empty>(&mut st, "joe", vec![], 200, ExecuteMsg::Cancel).unwrap_err();
    assert_eq!(err, ContractError::AlreadyExpired);
    let err = run::<Empty>(&mut st, "joe", coins(100, "UST"), 300, ExecuteMsg::Join).unwrap_err();
    assert_eq!(err, ContractError::AlreadySubscribed);
    let err = run::<Empty>(&mut st, "joe", vec![], 5000, ExecuteMsg::Cancel).unwrap_err();
    assert_eq!(err, ContractError::AlreadyExpired);
    assert_eq!(st.ledger.get("joe"), Some(100));
}
