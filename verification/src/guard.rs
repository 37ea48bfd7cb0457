//! The authorization guard: who may do what.
use crate::keys::AccountId;
use crate::storage::Pallet;
use vstd::prelude::*;

verus! {

impl Pallet {
    /// Whether the caller may settle claims of the product by hand: a named
    /// verifier may, and the administrator. The product makes no difference.
    pub fn can_resolve(&self, caller: AccountId, _product_id: &Vec<u8>) -> (allowed: bool)
        ensures
            allowed == self@.can_resolve(caller),
    {
        self.is_authorized(caller) || caller == self.config().admin_account
    }

    /// Whether the caller may revoke claims: only the administrator may.
    pub fn can_revoke(&self, caller: AccountId) -> (allowed: bool)
        ensures
            allowed == self@.is_admin(caller),
    {
        caller == self.config().admin_account
    }

    /// Whether the caller may change the fee schedule: only the
    /// administrator may.
    pub fn can_manage_fee_schedule(&self, caller: AccountId) -> (allowed: bool)
        ensures
            allowed == self@.is_admin(caller),
    {
        caller == self.config().admin_account
    }

    /// Whether the caller may name verifiers: only the administrator may.
    pub fn can_manage_verifiers(&self, caller: AccountId) -> (allowed: bool)
        ensures
            allowed == self@.is_admin(caller),
    {
        caller == self.config().admin_account
    }

    /// Whether the caller may change product `p`: its owner may, and the
    /// administrator.
    pub(crate) fn can_manage(&self, caller: AccountId, p: usize) -> (allowed: bool)
        requires
            p < self@.records.len(),
        ensures
            allowed == self@.can_manage(caller, p as int),
    {
        self.product(p).owner == caller || caller == self.config().admin_account
    }
}

} // verus!
