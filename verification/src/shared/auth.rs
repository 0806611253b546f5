//! The single admin address and the contract-scoped roles.
use vstd::prelude::*;

use crate::shared::address::AccountId;
use crate::shared::errors::Error;
use crate::shared::storage::SharedStore;

verus! {

broadcast use vstd::std_specs::hash::group_hash_axioms;

/// Contract-scoped roles, narrower than "the admin".
#[derive(Clone, Copy, Debug, PartialEq, Eq, Structural)]
pub enum Role {
    TreasuryManager,
    ReferralManager,
    OracleSigner,
}

/// The holders of `role`.
pub open spec fn role_holders(env: &SharedStore, role: Role) -> Set<AccountId> {
    match role {
        Role::TreasuryManager => env.treasury_managers@,
        Role::ReferralManager => env.referral_managers@,
        Role::OracleSigner => env.oracle_signers@,
    }
}

/// `who` currently holds `role`.
pub open spec fn holds_role(env: &SharedStore, who: AccountId, role: Role) -> bool {
    role_holders(env, role).contains(who)
}

/// Two stores assign the same roles to the same accounts.
pub open spec fn same_roles(a: &SharedStore, b: &SharedStore) -> bool {
    &&& a.treasury_managers@ == b.treasury_managers@
    &&& a.referral_managers@ == b.referral_managers@
    &&& a.oracle_signers@ == b.oracle_signers@
}

/// `caller` is the admin that has been set.
pub open spec fn is_admin(env: &SharedStore, caller: AccountId) -> bool {
    env.admin == Some(caller)
}

/// Stores the admin address during contract initialisation.
pub fn set_admin(env: &mut SharedStore, admin: AccountId)
    ensures
        final(env).admin == Some(admin),
        final(env).paused == old(env).paused,
        same_roles(final(env), old(env)),
{
    env.admin = Some(admin);
}

/// Returns the current admin address. An admin must have been set.
pub fn get_admin(env: &SharedStore) -> (a: AccountId)
    requires
        env.admin is Some,
    ensures
        env.admin == Some(a),
{
    match env.admin {
        Some(a) => a,
        None => 0,
    }
}

/// Checks that `caller` is the admin: [`Error::NotAuthorized`] otherwise.
/// An admin must have been set.
pub fn require_admin(env: &SharedStore, caller: AccountId) -> (r: Result<(), Error>)
    requires
        env.admin is Some,
    ensures
        is_admin(env, caller) ==> r == Ok::<(), Error>(()),
        !is_admin(env, caller) ==> r == Err::<(), Error>(Error::NotAuthorized),
{
    let admin = get_admin(env);
    if caller == admin {
        Ok(())
    } else {
        Err(Error::NotAuthorized)
    }
}

/// Grants `role` to `who`. Callers gate access to this themselves.
pub fn grant_role(env: &mut SharedStore, who: AccountId, role: Role)
    ensures
        role_holders(final(env), role) == role_holders(old(env), role).insert(who),
        forall|other: Role| other != role ==> role_holders(final(env), other) == role_holders(old(env), other),
        final(env).admin == old(env).admin,
        final(env).paused == old(env).paused,
{
    match role {
        Role::TreasuryManager => {
            env.treasury_managers.insert(who);
        },
        Role::ReferralManager => {
            env.referral_managers.insert(who);
        },
        Role::OracleSigner => {
            env.oracle_signers.insert(who);
        },
    }
}

/// Revokes `role` from `who`.
pub fn revoke_role(env: &mut SharedStore, who: AccountId, role: Role)
    ensures
        role_holders(final(env), role) == role_holders(old(env), role).remove(who),
        forall|other: Role| other != role ==> role_holders(final(env), other) == role_holders(old(env), other),
        final(env).admin == old(env).admin,
        final(env).paused == old(env).paused,
{
    match role {
        Role::TreasuryManager => {
            env.treasury_managers.remove(&who);
        },
        Role::ReferralManager => {
            env.referral_managers.remove(&who);
        },
        Role::OracleSigner => {
            env.oracle_signers.remove(&who);
        },
    }
}

/// Returns whether `who` currently holds `role`.
pub fn has_role(env: &SharedStore, who: AccountId, role: Role) -> (r: bool)
    ensures
        r == holds_role(env, who, role),
{
    match role {
        Role::TreasuryManager => env.treasury_managers.contains(&who),
        Role::ReferralManager => env.referral_managers.contains(&who),
        Role::OracleSigner => env.oracle_signers.contains(&who),
    }
}

/// Requires that `who` holds `role`: [`Error::Unauthorized`] otherwise. The
/// host has already checked that `who` authorized the invocation.
pub fn require_role(env: &SharedStore, who: AccountId, role: Role) -> (r: Result<(), Error>)
    ensures
        holds_role(env, who, role) ==> r == Ok::<(), Error>(()),
        !holds_role(env, who, role) ==> r == Err::<(), Error>(Error::Unauthorized),
{
    if !has_role(env, who, role) {
        return Err(Error::Unauthorized);
    }
    Ok(())
}

/// What a grant gives, a revoke takes back: after granting `role` to `who`
/// it is held, and after revoking it it is not, while every other account's
/// roles stay as they were.
pub proof fn lemma_grant_then_revoke(
    before: &SharedStore,
    granted: &SharedStore,
    revoked: &SharedStore,
    who: AccountId,
    role: Role,
)
    requires
        role_holders(granted, role) == role_holders(before, role).insert(who),
        role_holders(revoked, role) == role_holders(granted, role).remove(who),
    ensures
        holds_role(granted, who, role),
        !holds_role(revoked, who, role),
        forall|other: AccountId| other != who ==> (holds_role(revoked, other, role) == holds_role(before, other, role)),
{
}

} // verus!
