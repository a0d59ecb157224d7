//! Access control and a paid subscription registry for a contract that
//! relays actions on behalf of its admins.
//!
//! The state is held in plain values and handed to each handler; the host
//! around the library persists it, checks address formats and carries out
//! the messages that the handlers return.

mod admin;
mod contract;
mod error;
mod laws;
mod ledger;
mod msg;

pub use admin::{all_valid, contains_addr, map_validate, AdminList};
pub use contract::{
    addresses_to_check, can_execute, cancel, cancel_outcome, coins, dispatch_outcome, execute,
    execute_execute, execute_freeze, execute_outcome, execute_update_admins, freeze_outcome,
    instantiate, join, join_outcome, n_checked, pays_entry_price, query, query_admin_list,
    query_can_execute, relays, send_tokens, unchanged, update_admins_outcome, State,
    BOOTSTRAP_EXPIRY, DENOM, ENTRY_PRICE, REFUND_AMOUNT, SUBSCRIPTION_SECONDS,
};
pub use error::ContractError;
pub use laws::{
    is_run, lemma_expired_entry_stays, lemma_freeze_is_final, lemma_freeze_twice,
    lemma_frozen_list_is_fixed, Call,
};
pub use ledger::{lists_exactly, seed_map, Ledger};
pub use msg::{
    BankSend, CanExecuteResponse, Coin, Empty, ExecuteMsg, InstantiateMsg, Message, MessageInfo,
    QueryMsg, QueryResponse, Response,
};
