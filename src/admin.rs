use vstd::prelude::*;

use crate::error::ContractError;

verus! {

/// Whether `addr` occurs in `admins`, compared character by character.
pub open spec fn contains_addr(admins: Seq<String>, addr: Seq<char>) -> bool {
    exists|i: int| 0 <= i < admins.len() && (#[trigger] admins[i])@ == addr
}

/// The set of privileged callers and whether that set may still change.
#[derive(Clone, Debug)]
pub struct AdminList {
    pub admins: Vec<String>,
    pub mutable: bool,
}

impl AdminList {
    pub open spec fn spec_is_admin(&self, addr: Seq<char>) -> bool {
        contains_addr(self.admins@, addr)
    }

    pub open spec fn spec_can_modify(&self, addr: Seq<char>) -> bool {
        self.mutable && self.spec_is_admin(addr)
    }

    /// Returns true if the address is a registered admin.
    pub fn is_admin(&self, addr: &str) -> (r: bool)
        ensures
            r == self.spec_is_admin(addr@),
    {
        let target = addr.to_owned();
        let mut i: usize = 0;
        while i < self.admins.len()
            invariant
                i <= self.admins.len(),
                target@ == addr@,
                forall|j: int| 0 <= j < i ==> (#[trigger] self.admins@[j])@ != addr@,
            decreases self.admins.len() - i,
        {
            if self.admins[i] == target {
                assert(self.admins@[i as int]@ == addr@);
                return true;
            }
            i = i + 1;
        }
        false
    }

    /// Returns true if the address is a registered admin and the list is
    /// still mutable.
    pub fn can_modify(&self, addr: &str) -> (r: bool)
        ensures
            r == self.spec_can_modify(addr@),
    {
        self.mutable && self.is_admin(addr)
    }
}

/// Whether the host accepted every address: `verdicts[i]` is its verdict on
/// `addrs[i]`.
pub open spec fn all_valid(verdicts: Seq<bool>) -> bool {
    forall|i: int| 0 <= i < verdicts.len() ==> #[trigger] verdicts[i]
}

/// Turns a list of addresses into validated admins, given the host's format
/// verdict on each of them. Fails with `InvalidAddress` as soon as one of
/// them was rejected; otherwise the addresses are kept as given, in order.
pub fn map_validate(admins: &Vec<String>, verdicts: &Vec<bool>) -> (r: Result<
    Vec<String>,
    ContractError,
>)
    requires
        verdicts@.len() == admins@.len(),
    ensures
        r is Ok <==> all_valid(verdicts@),
        r is Ok ==> r->Ok_0@ == admins@,
        r is Err ==> r->Err_0 == ContractError::InvalidAddress,
{
    let mut out: Vec<String> = Vec::new();
    let mut i: usize = 0;
    while i < admins.len()
        invariant
            i <= admins.len(),
            verdicts@.len() == admins@.len(),
            out@ == admins@.subrange(0, i as int),
            forall|j: int| 0 <= j < i ==> #[trigger] verdicts@[j],
        decreases admins.len() - i,
    {
        if !verdicts[i] {
            return Err(ContractError::InvalidAddress);
        }
        out.push(admins[i].clone());
        i = i + 1;
    }
    assert(out@ =~= admins@);
    Ok(out)
}

} // verus!
