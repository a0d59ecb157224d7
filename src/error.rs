use vstd::prelude::*;

verus! {

/// Why a handler refused a request.
#[derive(Clone, Copy, Debug, PartialEq, Eq, Structural)]
pub enum ContractError {
    /// The caller lacks the privilege, or the admin list is frozen.
    Unauthorized,
    /// The funds sent are not exactly the entry price.
    InvalidAmount,
    /// The caller already has a subscription.
    AlreadySubscribed,
    /// The caller has no subscription.
    NotSubscribed,
    /// The caller's subscription has expired and can no longer be cancelled.
    AlreadyExpired,
    /// The host rejected the format of an address.
    InvalidAddress,
}

} // verus!
