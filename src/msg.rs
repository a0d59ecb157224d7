use vstd::prelude::*;

verus! {

/// An amount of one currency.
#[derive(Clone, Debug, PartialEq, Eq)]
pub struct Coin {
    pub denom: String,
    pub amount: u128,
}

/// A transfer of funds from the contract to an address.
#[derive(Clone, Debug, PartialEq, Eq)]
pub struct BankSend {
    pub to_address: String,
    pub amount: Vec<Coin>,
}

/// A message for the host to carry out after a successful call: an action
/// relayed unchanged, or a transfer made by the contract itself.
#[derive(Clone, Debug, PartialEq, Eq)]
pub enum Message<A> {
    Relay(A),
    Send(BankSend),
}

/// The payload of a relayed action that the caller never looks into.
#[derive(Clone, Copy, Debug, PartialEq, Eq, Structural)]
pub struct Empty {}

/// What a successful call hands back to the host.
#[derive(Clone, Debug, PartialEq, Eq)]
pub struct Response<A> {
    pub messages: Vec<Message<A>>,
    pub attributes: Vec<(String, String)>,
}

/// Who calls, and what funds come with the call.
#[derive(Clone, Debug, PartialEq, Eq)]
pub struct MessageInfo {
    pub sender: String,
    pub funds: Vec<Coin>,
}

/// The request that creates the contract.
#[derive(Clone, Debug, PartialEq, Eq)]
pub struct InstantiateMsg {
    pub admins: Vec<String>,
    pub mutable: bool,
    /// Subscriptions to start with: address and expiry.
    pub list: Vec<(String, u64)>,
}

/// The mutating requests.
#[derive(Clone, Debug, PartialEq, Eq)]
pub enum ExecuteMsg<A> {
    /// Relay the actions, in order, on behalf of an admin.
    Execute { msgs: Vec<A> },
    /// Make the admin list immutable for good.
    Freeze,
    /// Replace the admin list.
    UpdateAdmins { admins: Vec<String> },
    /// Subscribe, paying the entry price.
    Join,
    /// Unsubscribe before expiry and take the refund.
    Cancel,
}

/// The read-only requests.
#[derive(Clone, Debug, PartialEq, Eq)]
pub enum QueryMsg<A> {
    /// Every subscription, address and expiry.
    AdminList,
    /// Whether `sender` may relay `msg`.
    CanExecute { sender: String, msg: A },
}

/// The answer to `CanExecute`.
#[derive(Clone, Copy, Debug, PartialEq, Eq, Structural)]
pub struct CanExecuteResponse {
    pub can_execute: bool,
}

/// The answer to a read-only request.
#[derive(Clone, Debug, PartialEq, Eq)]
pub enum QueryResponse {
    AdminList(Vec<(String, u64)>),
    CanExecute(CanExecuteResponse),
}

} // verus!
