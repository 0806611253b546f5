//! The protocol treasury: per-category balances moved only by treasury
//! managers within a per-transaction limit, and an emergency reserve the
//! admin can draw on while the contract is paused.
use vstd::prelude::*;

use crate::shared::address::AccountId;
use crate::shared::auth::{self, Role};
use crate::shared::errors::Error;
use crate::shared::math::fits_i128;
use crate::shared::storage::{self, SharedStore};
use crate::shared::symbol::Symbol;

verus! {

/// The balance of every category, one entry per category name.
pub struct CategoryBalances {
    names: Vec<Symbol>,
    amounts: Vec<i128>,
}

impl CategoryBalances {
    /// No category holds anything.
    pub fn new() -> (b: Self)
        ensures
            forall|name: Seq<u8>| #[trigger] b.balance(name) == 0,
    {
        CategoryBalances { names: Vec::new(), amounts: Vec::new() }
    }

    /// One amount per name, and no name twice: every value of the type
    /// keeps this.
    #[verifier::type_invariant]
    closed spec fn wf(&self) -> bool {
        &&& self.names@.len() == self.amounts@.len()
        &&& forall|i: int, j: int|
            0 <= i < self.names@.len() && 0 <= j < self.names@.len() && i != j ==> #[trigger] self.names@[i]@
                != #[trigger] self.names@[j]@
    }

    /// Whether `name` has an entry.
    pub closed spec fn has_entry(&self, name: Seq<u8>) -> bool {
        exists|i: int| 0 <= i < self.names@.len() && #[trigger] self.names@[i]@ == name
    }

    /// The balance of category `name`; a category never funded holds zero.
    pub closed spec fn balance(&self, name: Seq<u8>) -> i128 {
        if self.has_entry(name) {
            self.amounts@[choose|i: int| 0 <= i < self.names@.len() && #[trigger] self.names@[i]@ == name]
        } else {
            0
        }
    }

    /// The index of `name`'s entry, if it has one.
    fn find(&self, name: &Symbol) -> (r: Option<usize>)
        ensures
            r matches Some(i) ==> i < self.names@.len() && self.names@[i as int]@ == name@
                && self.balance(name@) == self.amounts@[i as int],
            r is None ==> !self.has_entry(name@),
    {
        proof {
            use_type_invariant(self);
        }
        let n = self.names.len();
        for i in 0..n
            invariant
                n == self.names@.len(),
                self.wf(),
                forall|j: int| 0 <= j < i ==> #[trigger] self.names@[j]@ != name@,
        {
            if self.names[i].same_as(name) {
                proof {
                    let c = choose|k: int| 0 <= k < self.names@.len() && #[trigger] self.names@[k]@ == name@;
                    assert(self.names@[c]@ == self.names@[i as int]@);
                }
                return Some(i);
            }
        }
        None
    }

    /// The balance of category `name`.
    pub fn get(&self, name: &Symbol) -> (r: i128)
        ensures
            r == self.balance(name@),
    {
        proof {
            use_type_invariant(self);
        }
        match self.find(name) {
            Some(i) => self.amounts[i],
            None => 0,
        }
    }

    /// Sets the balance of category `name` to `amount`.
    pub fn set(&mut self, name: &Symbol, amount: i128)
        ensures
            final(self).balance(name@) == amount,
            forall|other: Seq<u8>| other != name@ ==> #[trigger] final(self).balance(other) == old(
                self,
            ).balance(other),
    {
        proof {
            use_type_invariant(&*self);
        }
        let found = self.find(name);
        let mut taken = CategoryBalances::new();
        std::mem::swap(self, &mut taken);
        let CategoryBalances { mut names, mut amounts } = taken;
        match found {
            Some(i) => {
                amounts.set(i, amount);
                *self = CategoryBalances { names, amounts };
                proof {
                    assert forall|other: Seq<u8>| other != name@ implies #[trigger] self.balance(other)
                        == old(self).balance(other) by {
                        if self.has_entry(other) {
                            let c = choose|k: int| 0 <= k < self.names@.len() && #[trigger] self.names@[k]@
                                == other;
                            assert(old(self).names@[c]@ == other);
                        }
                    }
                    let c = choose|k: int| 0 <= k < self.names@.len() && #[trigger] self.names@[k]@ == name@;
                    assert(self.names@[i as int]@ == name@);
                    assert(c == i);
                }
            },
            None => {
                let copy = name.duplicate();
                let ghost n = names@.len();
                names.push(copy);
                amounts.push(amount);
                proof {
                    assert(names@[n as int]@ == name@);
                    assert forall|i: int, j: int|
                        0 <= i < names@.len() && 0 <= j < names@.len() && i != j implies #[trigger] names@[i]@
                        != #[trigger] names@[j]@ by {
                        if i < n && j < n {
                            assert(names@[i] == old(self).names@[i]);
                            assert(names@[j] == old(self).names@[j]);
                        } else if i < n {
                            assert(names@[i] == old(self).names@[i]);
                        } else {
                            assert(names@[j] == old(self).names@[j]);
                        }
                    }
                }
                *self = CategoryBalances { names, amounts };
                proof {
                    let c = choose|k: int| 0 <= k < self.names@.len() && #[trigger] self.names@[k]@ == name@;
                    if c < n {
                        assert(old(self).names@[c]@ == name@);
                    }
                    assert forall|other: Seq<u8>| other != name@ implies #[trigger] self.balance(other)
                        == old(self).balance(other) by {
                        if self.has_entry(other) {
                            let k = choose|k: int| 0 <= k < self.names@.len() && #[trigger] self.names@[k]@
                                == other;
                            assert(k < n);
                            assert(old(self).names@[k]@ == other);
                            let k0 = choose|k: int| 0 <= k < old(self).names@.len() && #[trigger] old(
                                self,
                            ).names@[k]@ == other;
                            assert(self.names@[k0]@ == other);
                        } else {
                            if old(self).has_entry(other) {
                                let k0 = choose|k: int| 0 <= k < old(self).names@.len() && #[trigger] old(
                                    self,
                                ).names@[k]@ == other;
                                assert(self.names@[k0]@ == other);
                            }
                        }
                    }
                }
            },
        }
    }
}

/// The treasury contract's storage.
pub struct TreasuryEnv {
    pub shared: SharedStore,
    /// The configured max per-transaction withdrawal; unset reads as zero.
    pub max_withdrawal: Option<i128>,
    /// Per-category balances (internal accounting).
    pub balances: CategoryBalances,
    /// The emergency reserve; unset reads as zero.
    pub reserve: i128,
}

impl TreasuryEnv {
    /// The storage of a freshly deployed contract.
    pub fn new() -> (env: Self)
        ensures
            env.shared.admin is None,
            !env.shared.paused,
            env.shared.treasury_managers@ == Set::<AccountId>::empty(),
            env.shared.referral_managers@ == Set::<AccountId>::empty(),
            env.shared.oracle_signers@ == Set::<AccountId>::empty(),
            env.max_withdrawal is None,
            forall|name: Seq<u8>| #[trigger] env.balances.balance(name) == 0,
            env.reserve == 0,
    {
        TreasuryEnv {
            shared: SharedStore::new(),
            max_withdrawal: None,
            balances: CategoryBalances::new(),
            reserve: 0,
        }
    }

    /// The per-transaction withdrawal limit in force.
    pub open spec fn limit(&self) -> i128 {
        match self.max_withdrawal {
            Some(l) => l,
            None => 0,
        }
    }

    /// The balances and the reserve are as in `other`.
    pub open spec fn same_funds(&self, other: &TreasuryEnv) -> bool {
        &&& forall|name: Seq<u8>| #[trigger] self.balances.balance(name) == other.balances.balance(name)
        &&& self.reserve == other.reserve
    }

    /// No category balance is negative.
    pub open spec fn balances_nonnegative(&self) -> bool {
        forall|name: Seq<u8>| #[trigger] self.balances.balance(name) >= 0
    }
}

/// The treasury contract's entry points.
pub struct TreasuryContract;

impl TreasuryContract {
    /// Initialise the contract: sets the admin address, grants the admin the
    /// `TreasuryManager` role and sets the max per-transaction withdrawal
    /// limit, which must be positive (`InvalidArgument`).
    pub fn initialize(env: &mut TreasuryEnv, admin: AccountId, max_withdrawal_limit: i128) -> (r: Result<
        (),
        Error,
    >)
        ensures
            max_withdrawal_limit <= 0 ==> r == Err::<(), Error>(Error::InvalidArgument)
                && final(env).shared.admin == old(env).shared.admin && final(env).max_withdrawal
                == old(env).max_withdrawal && auth::same_roles(&final(env).shared, &old(env).shared),
            max_withdrawal_limit > 0 ==> r == Ok::<(), Error>(()) && final(env).shared.admin == Some(admin)
                && final(env).max_withdrawal == Some(max_withdrawal_limit)
                && final(env).shared.treasury_managers@ == old(env).shared.treasury_managers@.insert(admin)
                && final(env).shared.referral_managers@ == old(env).shared.referral_managers@
                && final(env).shared.oracle_signers@ == old(env).shared.oracle_signers@,
            final(env).shared.paused == old(env).shared.paused,
            final(env).same_funds(old(env)),
        {
        if max_withdrawal_limit <= 0 {
            return Err(Error::InvalidArgument);
        }
        auth::set_admin(&mut env.shared, admin);
        auth::grant_role(&mut env.shared, admin, Role::TreasuryManager);
        assert(auth::role_holders(&env.shared, Role::ReferralManager) == auth::role_holders(&old(env).shared, Role::ReferralManager));
        assert(auth::role_holders(&env.shared, Role::OracleSigner) == auth::role_holders(&old(env).shared, Role::OracleSigner));

        env.max_withdrawal = Some(max_withdrawal_limit);
        Ok(())
    }

    /// Grants the `TreasuryManager` role to `who`: admin only
    /// (`Unauthorized`). An admin must have been set.
    pub fn add_treasury_manager(env: &mut TreasuryEnv, caller: AccountId, who: AccountId) -> (r: Result<
        (),
        Error,
    >)
        requires
            old(env).shared.admin is Some,
        ensures
            !auth::is_admin(&old(env).shared, caller) ==> r == Err::<(), Error>(Error::Unauthorized)
                && final(env).shared.treasury_managers@ == old(env).shared.treasury_managers@,
            auth::is_admin(&old(env).shared, caller) ==> r == Ok::<(), Error>(())
                && final(env).shared.treasury_managers@ == old(env).shared.treasury_managers@.insert(who),
            final(env).shared.admin == old(env).shared.admin,
            final(env).shared.paused == old(env).shared.paused,
            final(env).shared.referral_managers@ == old(env).shared.referral_managers@,
            final(env).shared.oracle_signers@ == old(env).shared.oracle_signers@,
            final(env).max_withdrawal == old(env).max_withdrawal,
            final(env).same_funds(old(env)),
        {
        if caller != auth::get_admin(&env.shared) {
            return Err(Error::Unauthorized);
        }
        auth::grant_role(&mut env.shared, who, Role::TreasuryManager);
        assert(auth::role_holders(&env.shared, Role::ReferralManager) == auth::role_holders(&old(env).shared, Role::ReferralManager));
        assert(auth::role_holders(&env.shared, Role::OracleSigner) == auth::role_holders(&old(env).shared, Role::OracleSigner));

        Ok(())
    }

    /// Revokes the `TreasuryManager` role from `who`: admin only
    /// (`Unauthorized`). An admin must have been set.
    pub fn remove_treasury_manager(env: &mut TreasuryEnv, caller: AccountId, who: AccountId) -> (r: Result<
        (),
        Error,
    >)
        requires
            old(env).shared.admin is Some,
        ensures
            !auth::is_admin(&old(env).shared, caller) ==> r == Err::<(), Error>(Error::Unauthorized)
                && final(env).shared.treasury_managers@ == old(env).shared.treasury_managers@,
            auth::is_admin(&old(env).shared, caller) ==> r == Ok::<(), Error>(())
                && final(env).shared.treasury_managers@ == old(env).shared.treasury_managers@.remove(who),
            final(env).shared.admin == old(env).shared.admin,
            final(env).shared.paused == old(env).shared.paused,
            final(env).shared.referral_managers@ == old(env).shared.referral_managers@,
            final(env).shared.oracle_signers@ == old(env).shared.oracle_signers@,
            final(env).max_withdrawal == old(env).max_withdrawal,
            final(env).same_funds(old(env)),
        {
        if caller != auth::get_admin(&env.shared) {
            return Err(Error::Unauthorized);
        }
        auth::revoke_role(&mut env.shared, who, Role::TreasuryManager);
        assert(auth::role_holders(&env.shared, Role::ReferralManager) == auth::role_holders(&old(env).shared, Role::ReferralManager));
        assert(auth::role_holders(&env.shared, Role::OracleSigner) == auth::role_holders(&old(env).shared, Role::OracleSigner));

        Ok(())
    }

    /// Updates the max per-transaction withdrawal limit, which must be
    /// positive (`InvalidArgument`). Only the admin may call this.
    pub fn set_withdrawal_limit(env: &mut TreasuryEnv, caller: AccountId, new_limit: i128) -> (r: Result<
        (),
        Error,
    >)
        requires
            auth::is_admin(&old(env).shared, caller),
        ensures
            new_limit <= 0 ==> r == Err::<(), Error>(Error::InvalidArgument) && final(env).max_withdrawal
                == old(env).max_withdrawal,
            new_limit > 0 ==> r == Ok::<(), Error>(()) && final(env).max_withdrawal == Some(new_limit),
            final(env).shared.admin == old(env).shared.admin,
            final(env).shared.paused == old(env).shared.paused,
            auth::same_roles(&final(env).shared, &old(env).shared),
            final(env).same_funds(old(env)),
        {
        if new_limit <= 0 {
            return Err(Error::InvalidArgument);
        }
        env.max_withdrawal = Some(new_limit);
        Ok(())
    }

    /// Credits `amount` to `category`'s balance. `TreasuryManager` only
    /// (`Unauthorized`); the amount must be positive (`InvalidArgument`) and
    /// the new balance must fit (`Overflow`).
    pub fn deposit(env: &mut TreasuryEnv, caller: AccountId, category: Symbol, amount: i128) -> (r: Result<
        (),
        Error,
    >)
        ensures
            !auth::holds_role(&old(env).shared, caller, Role::TreasuryManager) ==> r == Err::<(), Error>(
                Error::Unauthorized,
            ),
            auth::holds_role(&old(env).shared, caller, Role::TreasuryManager) && amount <= 0 ==> r
                == Err::<(), Error>(Error::InvalidArgument),
            auth::holds_role(&old(env).shared, caller, Role::TreasuryManager) && amount > 0 && !fits_i128(
                old(env).balances.balance(category@) + amount,
            ) ==> r == Err::<(), Error>(Error::Overflow),
            auth::holds_role(&old(env).shared, caller, Role::TreasuryManager) && amount > 0 && fits_i128(
                old(env).balances.balance(category@) + amount,
            ) ==> r == Ok::<(), Error>(()),
            r is Err ==> final(env).same_funds(old(env)),
            r is Ok ==> final(env).balances.balance(category@) == old(env).balances.balance(category@)
                + amount,
            r is Ok ==> auth::holds_role(&old(env).shared, caller, Role::TreasuryManager) && amount > 0
                && fits_i128(old(env).balances.balance(category@) + amount),
            forall|other: Seq<u8>| other != category@ ==> #[trigger] final(env).balances.balance(other)
                == old(env).balances.balance(other),
            final(env).reserve == old(env).reserve,
            final(env).max_withdrawal == old(env).max_withdrawal,
            final(env).shared.admin == old(env).shared.admin,
            final(env).shared.paused == old(env).shared.paused,
            auth::same_roles(&final(env).shared, &old(env).shared),
            old(env).balances_nonnegative() ==> final(env).balances_nonnegative(),
    {
        match auth::require_role(&env.shared, caller, Role::TreasuryManager) {
            Ok(()) => {},
            Err(e) => {
                return Err(e);
            },
        }
        if amount <= 0 {
            return Err(Error::InvalidArgument);
        }
        let balance = env.balances.get(&category);
        let new_balance = match balance.checked_add(amount) {
            Some(b) => b,
            None => {
                return Err(Error::Overflow);
            },
        };
        env.balances.set(&category, new_balance);
        Ok(())
    }

    /// The current balance of `category` (0 if never funded).
    pub fn category_balance(env: &TreasuryEnv, category: Symbol) -> (r: i128)
        ensures
            r == env.balances.balance(category@),
    {
        env.balances.get(&category)
    }

    /// The max per-transaction withdrawal limit in force.
    pub fn withdrawal_limit(env: &TreasuryEnv) -> (r: i128)
        ensures
            r == env.limit(),
    {
        match env.max_withdrawal {
            Some(l) => l,
            None => 0,
        }
    }

    /// Withdraws `amount` from `category` to `to`. Guards, in order: the
    /// caller must hold `TreasuryManager` (`Unauthorized`); the amount must be
    /// positive (`InvalidArgument`), at most the withdrawal limit
    /// (`WithdrawalLimitExceeded`) and at most the category's balance
    /// (`InsufficientBalance`). On success the balance drops by `amount`.
    pub fn withdraw(env: &mut TreasuryEnv, caller: AccountId, to: AccountId, amount: i128, category: Symbol) -> (r:
        Result<(), Error>)
        ensures
            !auth::holds_role(&old(env).shared, caller, Role::TreasuryManager) ==> r == Err::<(), Error>(
                Error::Unauthorized,
            ),
            auth::holds_role(&old(env).shared, caller, Role::TreasuryManager) && amount <= 0 ==> r
                == Err::<(), Error>(Error::InvalidArgument),
            auth::holds_role(&old(env).shared, caller, Role::TreasuryManager) && amount > 0 && amount
                > old(env).limit() ==> r == Err::<(), Error>(Error::WithdrawalLimitExceeded),
            auth::holds_role(&old(env).shared, caller, Role::TreasuryManager) && 0 < amount <= old(
                env,
            ).limit() && amount > old(env).balances.balance(category@) ==> r == Err::<(), Error>(
                Error::InsufficientBalance,
            ),
            auth::holds_role(&old(env).shared, caller, Role::TreasuryManager) && 0 < amount <= old(
                env,
            ).limit() && amount <= old(env).balances.balance(category@) ==> r == Ok::<(), Error>(()),
            r is Err ==> final(env).same_funds(old(env)),
            r is Ok ==> final(env).balances.balance(category@) == old(env).balances.balance(category@)
                - amount,
            forall|other: Seq<u8>| other != category@ ==> #[trigger] final(env).balances.balance(other)
                == old(env).balances.balance(other),
            final(env).reserve == old(env).reserve,
            final(env).max_withdrawal == old(env).max_withdrawal,
            final(env).shared.admin == old(env).shared.admin,
            final(env).shared.paused == old(env).shared.paused,
            auth::same_roles(&final(env).shared, &old(env).shared),
            old(env).balances_nonnegative() ==> final(env).balances_nonnegative(),
    {
        match auth::require_role(&env.shared, caller, Role::TreasuryManager) {
            Ok(()) => {},
            Err(e) => {
                return Err(e);
            },
        }
        if amount <= 0 {
            return Err(Error::InvalidArgument);
        }
        let limit: i128 = match env.max_withdrawal {
            Some(l) => l,
            None => 0,
        };
        if amount > limit {
            return Err(Error::WithdrawalLimitExceeded);
        }
        let balance = env.balances.get(&category);
        if amount > balance {
            return Err(Error::InsufficientBalance);
        }
        let remaining = balance - amount;
        env.balances.set(&category, remaining);
        Ok(())
    }

    /// Withdraw funds from the emergency reserve. Only while the contract is
    /// paused (`NotPaused`), and only by the admin; the amount must be
    /// positive (`InvalidArgument`) and at most the reserve
    /// (`InsufficientBalance`).
    pub fn emergency_withdraw(env: &mut TreasuryEnv, caller: AccountId, to: AccountId, amount: i128) -> (r:
        Result<(), Error>)
        requires
            old(env).shared.paused ==> auth::is_admin(&old(env).shared, caller),
        ensures
            !old(env).shared.paused ==> r == Err::<(), Error>(Error::NotPaused),
            old(env).shared.paused && amount <= 0 ==> r == Err::<(), Error>(Error::InvalidArgument),
            old(env).shared.paused && amount > 0 && amount > old(env).reserve ==> r == Err::<(), Error>(
                Error::InsufficientBalance,
            ),
            old(env).shared.paused && 0 < amount <= old(env).reserve ==> r == Ok::<(), Error>(())
                && final(env).reserve == old(env).reserve - amount,
            r is Err ==> final(env).reserve == old(env).reserve,
            forall|name: Seq<u8>| #[trigger] final(env).balances.balance(name) == old(env).balances.balance(
                name,
            ),
                final(env).max_withdrawal == old(env).max_withdrawal,
            final(env).shared.admin == old(env).shared.admin,
            final(env).shared.paused == old(env).shared.paused,
            auth::same_roles(&final(env).shared, &old(env).shared),
    {
        if !storage::is_paused(&env.shared) {
            return Err(Error::NotPaused);
        }
        if amount <= 0 {
            return Err(Error::InvalidArgument);
        }
        let balance = reserve_balance(env);
        let new_balance = match balance.checked_sub(amount) {
            Some(b) => {
                if b >= 0 {
                    b
                } else {
                    return Err(Error::InsufficientBalance);
                }
            },
            None => {
                return Err(Error::InsufficientBalance);
            },
        };
        set_reserve_balance(env, new_balance);
        Ok(())
    }
}

/// The emergency reserve.
pub fn reserve_balance(env: &TreasuryEnv) -> (r: i128)
    ensures
        r == env.reserve,
{
    env.reserve
}

/// Sets the emergency reserve.
pub fn set_reserve_balance(env: &mut TreasuryEnv, amount: i128)
    ensures
        final(env).reserve == amount,
        forall|name: Seq<u8>| #[trigger] final(env).balances.balance(name) == old(env).balances.balance(
            name,
        ),
        final(env).max_withdrawal == old(env).max_withdrawal,
        final(env).shared.admin == old(env).shared.admin,
        final(env).shared.paused == old(env).shared.paused,
        auth::same_roles(&final(env).shared, &old(env).shared),
{
    env.reserve = amount;
}


/// A deposit followed by a withdrawal of the same amount from the same
/// category leaves that category's balance as it was.
pub proof fn lemma_deposit_then_withdraw_restores(
    before: &TreasuryEnv,
    deposited: &TreasuryEnv,
    withdrawn: &TreasuryEnv,
    category: Seq<u8>,
    amount: i128,
)
    requires
        deposited.balances.balance(category) == before.balances.balance(category) + amount,
        withdrawn.balances.balance(category) == deposited.balances.balance(category) - amount,
    ensures
        withdrawn.balances.balance(category) == before.balances.balance(category),
{
}

} // verus!
