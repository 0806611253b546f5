//! The contract registry: for now it only records its admin.
use vstd::prelude::*;

use crate::shared::address::AccountId;
use crate::shared::auth;
use crate::shared::storage::SharedStore;

verus! {

/// The registry contract's entry points.
pub struct RegistryContract;

impl RegistryContract {
    /// Initialise the contract, setting the admin address.
    pub fn initialize(env: &mut SharedStore, admin: AccountId)
        ensures
            final(env).admin == Some(admin),
            final(env).paused == old(env).paused,
            auth::same_roles(final(env), old(env)),
    {
        auth::set_admin(env, admin);
    }
}

} // verus!
