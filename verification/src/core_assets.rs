//! The share ledger: balances and issuance of the tokens of each core.
//!
//! Every operation either succeeds and changes the ledger as its contract says,
//! or fails with a typed error and leaves the ledger as it was.

use vstd::prelude::*;
use crate::core_assets::ledger::Ledger;
use crate::core_assets::lookup::StaticLookup;
use crate::core_assets::tokens::{
    DepositConsequence, Fortitude, Precision, Preservation, Provenance, WithdrawConsequence,
};
use crate::dispatch::{
    ensure_root, ensure_signed, ArithmeticError, DispatchError, DispatchResult, ModuleError,
    RuntimeOrigin, TokenError,
};
use crate::primitives::{AccountId, Balance, CoreId, SubAssetId};
use crate::storage::{StorageKey, StorageMap};

pub mod laws;
pub mod ledger;
pub mod lookup;
pub mod tokens;

verus! {

/// The errors of this component.
#[derive(Clone, Copy, Debug, PartialEq, Eq, Structural)]
pub enum Error {
    /// The balance is too low.
    BalanceTooLow,
    /// The amount does not fit the balance type.
    AmountIntoBalanceFailed,
    /// The balance is locked.
    LiquidityRestrictions,
    /// The transfer would end the account.
    KeepAlive,
    /// The account that is to receive must exist already.
    DeadAccount,
}

/// A token: the share of a core, or one of the share classes under it.
#[derive(Clone, Copy, Debug, PartialEq, Eq, Structural)]
pub struct CurrencyId {
    /// The core that the token belongs to.
    pub core_id: CoreId,
    /// The share class, or none for the core's own share.
    pub sub_asset: Option<SubAssetId>,
}

impl CurrencyId {
    /// The share of the core `core_id`.
    pub fn of_core(core_id: CoreId) -> (r: Self)
        ensures
            r == (CurrencyId { core_id, sub_asset: None }),
    {
        CurrencyId { core_id, sub_asset: None }
    }

    /// The share class `sub_asset` under the core `core_id`.
    pub fn of_sub_asset(core_id: CoreId, sub_asset: SubAssetId) -> (r: Self)
        ensures
            r == (CurrencyId { core_id, sub_asset: Some(sub_asset) }),
    {
        CurrencyId { core_id, sub_asset: Some(sub_asset) }
    }
}

impl StorageKey for CurrencyId {
    fn key_eq(&self, other: &Self) -> (r: bool) {
        *self == *other
    }
}

impl StorageKey for (AccountId, CurrencyId) {
    fn key_eq(&self, other: &Self) -> (r: bool) {
        self.0.key_eq(&other.0) && self.1 == other.1
    }
}

/// What has happened in the ledger.
#[derive(Clone, Copy, Debug, PartialEq, Eq)]
pub enum Event {
    /// An account got its first entry, with this balance.
    Endowed { currency_id: CurrencyId, who: AccountId, amount: Balance },
    /// An amount moved from one account to another.
    Transfer { currency_id: CurrencyId, from: AccountId, to: AccountId, amount: Balance },
    /// A balance was set.
    BalanceSet { currency_id: CurrencyId, who: AccountId, balance: Balance },
    /// The issuance of a token was set.
    TotalIssuanceSet { currency_id: CurrencyId, amount: Balance },
    /// An amount was taken from an account.
    Withdrawn { currency_id: CurrencyId, who: AccountId, amount: Balance },
    /// An amount was taken from an account as a penalty.
    Slashed {
        currency_id: CurrencyId,
        who: AccountId,
        free_amount: Balance,
        reserved_amount: Balance,
    },
    /// An amount was given to an account.
    Deposited { currency_id: CurrencyId, who: AccountId, amount: Balance },
}

/// The ledger.
pub struct Pallet {
    total_issuance: StorageMap<CurrencyId, Balance>,
    accounts: StorageMap<(AccountId, CurrencyId), Balance>,
    frozen: StorageMap<CoreId, bool>,
    events: Vec<Event>,
}

impl View for Pallet {
    type V = Ledger;

    closed spec fn view(&self) -> Ledger {
        Ledger {
            total_issuance: self.total_issuance@,
            accounts: self.accounts@,
            holders: self.accounts.keys(),
            frozen: self.frozen@,
            events: self.events@,
        }
    }
}

impl Pallet {
    /// The tables of the ledger are in order.
    pub closed spec fn inv(&self) -> bool {
        &&& self.total_issuance.wf()
        &&& self.accounts.wf()
        &&& self.frozen.wf()
    }

    /// The ledger is in order, and so is what it holds.
    pub open spec fn wf(&self) -> bool {
        &&& self.inv()
        &&& self@.wf()
    }

    proof fn lemma_inv_wf(&self)
        requires
            self.inv(),
        ensures
            self.wf(),
    {
        self.accounts.lemma_keys();
    }

    /// A ledger that holds nothing.
    pub fn new() -> (r: Self)
        ensures
            r.wf(),
            r@ == Ledger::empty(),
    {
        let r = Pallet {
            total_issuance: StorageMap::new(),
            accounts: StorageMap::new(),
            frozen: StorageMap::new(),
            events: Vec::new(),
        };
        proof {
            r.lemma_inv_wf();
            assert(r@ =~= Ledger::empty());
        }
        r
    }

    /// The amount of `currency_id` that has been issued.
    pub fn total_issuance(&self, currency_id: CurrencyId) -> (r: Balance)
        requires
            self.wf(),
        ensures
            r == self@.issuance(currency_id),
    {
        match self.total_issuance.get(&currency_id) {
            Some(amount) => *amount,
            None => 0,
        }
    }

    /// What `who` holds of `currency_id`.
    pub fn accounts(&self, who: &AccountId, currency_id: CurrencyId) -> (r: Balance)
        requires
            self.wf(),
        ensures
            r == self@.balance(currency_id, *who),
    {
        match self.accounts.get(&(*who, currency_id)) {
            Some(balance) => *balance,
            None => 0,
        }
    }

    /// Whether `who` has an entry for `currency_id`.
    pub fn accounts_by_currency(&self, currency_id: CurrencyId, who: &AccountId) -> (r: Option<()>)
        requires
            self.wf(),
        ensures
            r is Some == self@.has_account(currency_id, *who),
    {
        if self.accounts.contains_key(&(*who, currency_id)) {
            Some(())
        } else {
            None
        }
    }

    /// Whether `currency_id` is kept from moving between accounts.
    pub fn is_frozen(&self, currency_id: CurrencyId) -> (r: bool)
        requires
            self.wf(),
        ensures
            r == self@.is_frozen(currency_id),
    {
        match self.frozen.get(&currency_id.core_id) {
            Some(frozen) => *frozen,
            None => true,
        }
    }

    /// What has happened, oldest first.
    pub fn events(&self) -> (r: &Vec<Event>)
        ensures
            r@ == self@.events,
    {
        &self.events
    }

    fn deposit_event(&mut self, event: Event)
        requires
            old(self).wf(),
        ensures
            final(self).wf(),
            final(self)@ == old(self)@.with_event(event),
    {
        self.events.push(event);
        assert(self@ =~= old(self)@.with_event(event));
    }

    fn put_issuance(&mut self, currency_id: CurrencyId, amount: Balance)
        requires
            old(self).wf(),
        ensures
            final(self).wf(),
            final(self)@ == old(self)@.with_issuance(currency_id, amount),
    {
        self.total_issuance.insert(currency_id, amount);
        assert(self@ =~= old(self)@.with_issuance(currency_id, amount));
    }

    fn put_account(&mut self, currency_id: CurrencyId, who: &AccountId, balance: Balance)
        requires
            old(self).wf(),
        ensures
            final(self).wf(),
            final(self)@ == old(self)@.with_account(currency_id, *who, balance),
    {
        let existed = self.accounts.contains_key(&(*who, currency_id));
        self.accounts.insert((*who, currency_id), balance);
        if !existed {
            self.events.push(Event::Endowed { currency_id, who: *who, amount: balance });
        }
        proof {
            self.lemma_inv_wf();
            assert(self@ =~= old(self)@.with_account(currency_id, *who, balance));
        }
    }

    /// Keeps the tokens of the core of `currency_id` from moving between accounts.
    pub fn freeze_currency(&mut self, currency_id: CurrencyId)
        requires
            old(self).wf(),
        ensures
            final(self).wf(),
            final(self)@ == old(self)@.with_frozen(currency_id.core_id, true),
    {
        self.frozen.insert(currency_id.core_id, true);
        assert(self@ =~= old(self)@.with_frozen(currency_id.core_id, true));
    }

    /// Lets the tokens of the core of `currency_id` move between accounts.
    pub fn unfreeze_currency(&mut self, currency_id: CurrencyId)
        requires
            old(self).wf(),
        ensures
            final(self).wf(),
            final(self)@ == old(self)@.with_frozen(currency_id.core_id, false),
    {
        self.frozen.insert(currency_id.core_id, false);
        assert(self@ =~= old(self)@.with_frozen(currency_id.core_id, false));
    }

    /// What depositing `amount` into an account that holds `balance` would come to.
    pub fn deposit_consequence(&self, currency_id: CurrencyId, amount: Balance, balance: &Balance) -> (r:
        DepositConsequence)
        requires
            self.wf(),
        ensures
            r == self@.deposit_consequence(currency_id, amount, *balance),
    {
        if amount == 0 {
            return DepositConsequence::Success;
        }
        if self.total_issuance(currency_id) > Balance::MAX - amount {
            return DepositConsequence::Overflow;
        }
        if *balance > Balance::MAX - amount {
            return DepositConsequence::Overflow;
        }
        DepositConsequence::Success
    }

    /// What withdrawing `amount` from an account that holds `balance` would come to.
    pub fn withdraw_consequence(
        &self,
        currency_id: CurrencyId,
        amount: Balance,
        balance: &Balance,
    ) -> (r: WithdrawConsequence)
        requires
            self.wf(),
        ensures
            r == self@.withdraw_consequence(currency_id, amount, *balance),
    {
        if amount == 0 {
            return WithdrawConsequence::Success;
        }
        if self.total_issuance(currency_id) < amount {
            return WithdrawConsequence::Underflow;
        }
        if *balance < amount {
            return WithdrawConsequence::BalanceLow;
        }
        WithdrawConsequence::Success
    }

    /// Succeeds if `who` can part with `amount` of `currency_id`: always for an
    /// amount of zero.
    pub fn ensure_can_withdraw(&self, currency_id: CurrencyId, who: &AccountId, amount: Balance) -> (r:
        DispatchResult)
        requires
            self.wf(),
        ensures
            r == self@.can_withdraw(currency_id, *who, amount),
    {
        if amount == 0 {
            return Ok(());
        }
        if self.free_balance(currency_id, who) < amount {
            return Err(DispatchError::Module(ModuleError::CoreAssets(Error::BalanceTooLow)));
        }
        Ok(())
    }

    /// Lets `f` decide the new balance of `who` from the present one and from
    /// whether the account has an entry. Where `f` succeeds, the balance that it
    /// gives is written, and an account without an entry gets one and is recorded
    /// as endowed; where `f` fails, nothing changes.
    pub fn try_mutate_account<R, E, F: FnOnce(Balance, bool) -> Result<(Balance, R), E>>(
        &mut self,
        who: &AccountId,
        currency_id: CurrencyId,
        f: F,
    ) -> (r: Result<R, E>)
        requires
            old(self).wf(),
            f.requires(
                (old(self)@.balance(currency_id, *who), old(self)@.has_account(currency_id, *who)),
            ),
        ensures
            final(self).wf(),
            match r {
                Ok(x) => {
                    &&& f.ensures(
                        (
                            old(self)@.balance(currency_id, *who),
                            old(self)@.has_account(currency_id, *who),
                        ),
                        Ok((final(self)@.balance(currency_id, *who), x)),
                    )
                    &&& final(self)@ == old(self)@.with_account(
                        currency_id,
                        *who,
                        final(self)@.balance(currency_id, *who),
                    )
                },
                Err(e) => {
                    &&& f.ensures(
                        (
                            old(self)@.balance(currency_id, *who),
                            old(self)@.has_account(currency_id, *who),
                        ),
                        Err(e),
                    )
                    &&& final(self)@ == old(self)@
                },
            },
    {
        let existed = self.accounts.contains_key(&(*who, currency_id));
        let balance = self.accounts(who, currency_id);
        let outcome = f(balance, existed);
        match outcome {
            Ok((new_balance, result)) => {
                self.put_account(currency_id, who, new_balance);
                proof {
                    assert(f.ensures((balance, existed), Ok((new_balance, result))));
                    assert(self@ == old(self)@.with_account(currency_id, *who, new_balance));
                }
                Ok(result)
            },
            Err(e) => Err(e),
        }
    }

    /// Moves `amount` of `currency_id` from `from` to `to`. Nothing happens where
    /// the amount is zero or the two accounts are one. Fails where the token is
    /// frozen, where `from` holds too little, and where `to` would hold more than
    /// the maximum.
    pub fn do_transfer(
        &mut self,
        currency_id: CurrencyId,
        from: &AccountId,
        to: &AccountId,
        amount: Balance,
    ) -> (r: DispatchResult)
        requires
            old(self).wf(),
        ensures
            final(self).wf(),
            match old(self)@.transfer(currency_id, *from, *to, amount) {
                Ok(after) => r is Ok && final(self)@ == after,
                Err(e) => r == Err::<(), DispatchError>(e) && final(self)@ == old(self)@,
            },
    {
        if amount == 0 || from.key_eq(to) {
            return Ok(());
        }
        if self.is_frozen(currency_id) {
            return Err(DispatchError::Token(TokenError::Frozen));
        }
        let to_balance = self.accounts(to, currency_id);
        let moved = self.try_mutate_account(
            from,
            currency_id,
            |from_balance: Balance, _existed: bool| -> (res: Result<(Balance, Balance), DispatchError>)
                ensures
                    res == ledger::transfer_step(from_balance, to_balance, amount),
                {
                    if from_balance < amount {
                        Err(DispatchError::Module(ModuleError::CoreAssets(Error::BalanceTooLow)))
                    } else if to_balance > Balance::MAX - amount {
                        Err(DispatchError::Arithmetic(ArithmeticError::Overflow))
                    } else {
                        Ok((from_balance - amount, to_balance + amount))
                    }
                }
        );
        match moved {
            Err(e) => Err(e),
            Ok(new_to_balance) => {
                self.put_account(currency_id, to, new_to_balance);
                self.deposit_event(Event::Transfer { currency_id, from: *from, to: *to, amount });
                Ok(())
            },
        }
    }

    /// Takes `amount` of `currency_id` from `who`, and out of the issuance where
    /// `change_total_issuance` is set. Nothing happens where the amount is zero.
    /// Fails with `BalanceTooLow` where `who` holds too little, and with
    /// `Underflow` where the issuance is to go down and is less than the amount.
    pub fn do_withdraw(
        &mut self,
        currency_id: CurrencyId,
        who: &AccountId,
        amount: Balance,
        change_total_issuance: bool,
    ) -> (r: DispatchResult)
        requires
            old(self).wf(),
        ensures
            final(self).wf(),
            match old(self)@.withdraw(currency_id, *who, amount, change_total_issuance) {
                Ok(after) => r is Ok && final(self)@ == after,
                Err(e) => r == Err::<(), DispatchError>(e) && final(self)@ == old(self)@,
            },
    {
        if amount == 0 {
            return Ok(());
        }
        let issuance = self.total_issuance(currency_id);
        let taken = self.try_mutate_account(
            who,
            currency_id,
            |balance: Balance, _existed: bool| -> (res: Result<(Balance, Balance), DispatchError>)
                ensures
                    res == ledger::withdraw_step(balance, issuance, amount, change_total_issuance),
                {
                    if balance < amount {
                        Err(DispatchError::Module(ModuleError::CoreAssets(Error::BalanceTooLow)))
                    } else if change_total_issuance && issuance < amount {
                        Err(DispatchError::Arithmetic(ArithmeticError::Underflow))
                    } else if change_total_issuance {
                        Ok((balance - amount, issuance - amount))
                    } else {
                        Ok((balance - amount, issuance))
                    }
                }
        );
        match taken {
            Err(e) => Err(e),
            Ok(new_total_issuance) => {
                if change_total_issuance {
                    self.put_issuance(currency_id, new_total_issuance);
                }
                self.deposit_event(Event::Withdrawn { currency_id, who: *who, amount });
                proof {
                    assert(self@ =~= old(self)@.withdraw(
                        currency_id,
                        *who,
                        amount,
                        change_total_issuance,
                    )->Ok_0);
                }
                Ok(())
            },
        }
    }

    /// Gives `amount` of `currency_id` to `who`, and adds it to the issuance where
    /// `change_total_issuance` is set. Nothing happens where the amount is zero.
    /// Fails with `DeadAccount` where `require_existed` is set and `who` has no
    /// entry, and with `Overflow` where the issuance or the balance would exceed
    /// the maximum.
    pub fn do_deposit(
        &mut self,
        currency_id: CurrencyId,
        who: &AccountId,
        amount: Balance,
        require_existed: bool,
        change_total_issuance: bool,
    ) -> (r: Result<Balance, DispatchError>)
        requires
            old(self).wf(),
        ensures
            final(self).wf(),
            match old(self)@.deposit(
                currency_id,
                *who,
                amount,
                require_existed,
                change_total_issuance,
            ) {
                Ok(after) => r == Ok::<Balance, DispatchError>(amount) && final(self)@ == after,
                Err(e) => r == Err::<Balance, DispatchError>(e) && final(self)@ == old(self)@,
            },
    {
        if amount == 0 {
            return Ok(amount);
        }
        let issuance = self.total_issuance(currency_id);
        let given = self.try_mutate_account(
            who,
            currency_id,
            |balance: Balance, existed: bool| -> (res: Result<(Balance, Balance), DispatchError>)
                ensures
                    res == ledger::deposit_step(
                        balance,
                        existed,
                        issuance,
                        amount,
                        require_existed,
                    ),
                {
                    if require_existed && !existed {
                        Err(DispatchError::Module(ModuleError::CoreAssets(Error::DeadAccount)))
                    } else if issuance > Balance::MAX - amount || balance > Balance::MAX - amount {
                        Err(DispatchError::Arithmetic(ArithmeticError::Overflow))
                    } else {
                        Ok((balance + amount, issuance + amount))
                    }
                }
        );
        match given {
            Err(e) => Err(e),
            Ok(new_total_issuance) => {
                if change_total_issuance {
                    self.put_issuance(currency_id, new_total_issuance);
                }
                self.deposit_event(Event::Deposited { currency_id, who: *who, amount });
                proof {
                    assert(self@ =~= old(self)@.deposit(
                        currency_id,
                        *who,
                        amount,
                        require_existed,
                        change_total_issuance,
                    )->Ok_0);
                }
                Ok(amount)
            },
        }
    }

    /// What `who` holds of `currency_id`, all of it free.
    pub fn free_balance(&self, currency_id: CurrencyId, who: &AccountId) -> (r: Balance)
        requires
            self.wf(),
        ensures
            r == self@.balance(currency_id, *who),
    {
        self.accounts(who, currency_id)
    }

    /// Moves `amount` of `currency_id` from the account that signed the call to
    /// the account that `dest` means. Fails with `BadOrigin` where no account
    /// signed, with `CannotLookup` where `dest` means no account, and as
    /// `do_transfer` does.
    pub fn transfer<L: StaticLookup>(
        &mut self,
        origin: RuntimeOrigin,
        dest: L::Source,
        currency_id: CurrencyId,
        amount: Balance,
    ) -> (r: DispatchResult)
        requires
            old(self).wf(),
        ensures
            final(self).wf(),
            match old(self)@.signed_transfer(origin, L::resolved(dest), currency_id, amount) {
                Ok(after) => r is Ok && final(self)@ == after,
                Err(e) => r == Err::<(), DispatchError>(e) && final(self)@ == old(self)@,
            },
    {
        let from = match ensure_signed(origin) {
            Ok(from) => from,
            Err(_) => {
                return Err(DispatchError::BadOrigin);
            },
        };
        let to = match L::lookup(dest) {
            Ok(to) => to,
            Err(_) => {
                return Err(DispatchError::CannotLookup);
            },
        };
        self.do_transfer(currency_id, &from, &to, amount)
    }

    /// Moves all that the account that signed the call holds of `currency_id` to
    /// the account that `dest` means. Fails with `BadOrigin` where no account
    /// signed, with `CannotLookup` where `dest` means no account, and as
    /// `do_transfer` does.
    pub fn transfer_all<L: StaticLookup>(
        &mut self,
        origin: RuntimeOrigin,
        dest: L::Source,
        currency_id: CurrencyId,
    ) -> (r: DispatchResult)
        requires
            old(self).wf(),
        ensures
            final(self).wf(),
            match old(self)@.signed_transfer_all(origin, L::resolved(dest), currency_id) {
                Ok(after) => r is Ok && final(self)@ == after,
                Err(e) => r == Err::<(), DispatchError>(e) && final(self)@ == old(self)@,
            },
    {
        let from = match ensure_signed(origin) {
            Ok(from) => from,
            Err(_) => {
                return Err(DispatchError::BadOrigin);
            },
        };
        let to = match L::lookup(dest) {
            Ok(to) => to,
            Err(_) => {
                return Err(DispatchError::CannotLookup);
            },
        };
        let reducible_balance = self.reducible_balance(
            currency_id,
            &from,
            Preservation::Expendable,
            Fortitude::Polite,
        );
        match self.transfer_preserving(
            currency_id,
            &from,
            &to,
            reducible_balance,
            Preservation::Expendable,
        ) {
            Ok(_) => Ok(()),
            Err(e) => Err(e),
        }
    }

    /// Moves `amount` of `currency_id` between the accounts that `source` and
    /// `dest` mean, on the word of the system itself. Fails with `BadOrigin` for
    /// any other caller, with `CannotLookup` where `source` or `dest` means no
    /// account, and as `do_transfer` does.
    pub fn force_transfer<L: StaticLookup>(
        &mut self,
        origin: RuntimeOrigin,
        source: L::Source,
        dest: L::Source,
        currency_id: CurrencyId,
        amount: Balance,
    ) -> (r: DispatchResult)
        requires
            old(self).wf(),
        ensures
            final(self).wf(),
            match old(self)@.forced_transfer(
                origin,
                L::resolved(source),
                L::resolved(dest),
                currency_id,
                amount,
            ) {
                Ok(after) => r is Ok && final(self)@ == after,
                Err(e) => r == Err::<(), DispatchError>(e) && final(self)@ == old(self)@,
            },
    {
        if ensure_root(origin).is_err() {
            return Err(DispatchError::BadOrigin);
        }
        let from = match L::lookup(source) {
            Ok(from) => from,
            Err(_) => {
                return Err(DispatchError::CannotLookup);
            },
        };
        let to = match L::lookup(dest) {
            Ok(to) => to,
            Err(_) => {
                return Err(DispatchError::CannotLookup);
            },
        };
        self.do_transfer(currency_id, &from, &to, amount)
    }

    /// Sets the balance of the account that `who` means, on the word of the
    /// system itself, and moves the issuance by the difference. Fails with
    /// `BadOrigin` for any other caller, with `CannotLookup` where `who` means no
    /// account, and where the issuance would leave its range.
    pub fn set_balance<L: StaticLookup>(
        &mut self,
        origin: RuntimeOrigin,
        who: L::Source,
        currency_id: CurrencyId,
        new_balance: Balance,
    ) -> (r: DispatchResult)
        requires
            old(self).wf(),
        ensures
            final(self).wf(),
            match old(self)@.forced_set_balance(origin, L::resolved(who), currency_id, new_balance) {
                Ok(after) => r is Ok && final(self)@ == after,
                Err(e) => r == Err::<(), DispatchError>(e) && final(self)@ == old(self)@,
            },
    {
        if ensure_root(origin).is_err() {
            return Err(DispatchError::BadOrigin);
        }
        let who = match L::lookup(who) {
            Ok(who) => who,
            Err(_) => {
                return Err(DispatchError::CannotLookup);
            },
        };
        let issuance = self.total_issuance(currency_id);
        let old_balance = self.accounts(&who, currency_id);
        if new_balance > old_balance {
            if issuance > Balance::MAX - (new_balance - old_balance) {
                return Err(DispatchError::Arithmetic(ArithmeticError::Overflow));
            }
            self.put_issuance(currency_id, issuance + (new_balance - old_balance));
        } else if new_balance < old_balance {
            if issuance < old_balance - new_balance {
                return Err(DispatchError::Arithmetic(ArithmeticError::Underflow));
            }
            self.put_issuance(currency_id, issuance - (old_balance - new_balance));
        }
        self.deposit_event(Event::BalanceSet { currency_id, who, balance: new_balance });
        self.put_account(currency_id, &who, new_balance);
        proof {
            assert(self@ =~= old(self)@.set_balance(currency_id, who, new_balance)->Ok_0);
        }
        Ok(())
    }

    /// The least balance that an account may hold: none is asked for.
    pub fn minimum_balance(&self, _asset_id: CurrencyId) -> (r: Balance)
        ensures
            r == 0,
    {
        0
    }

    /// What `who` holds of `asset_id`.
    pub fn balance(&self, asset_id: CurrencyId, who: &AccountId) -> (r: Balance)
        requires
            self.wf(),
        ensures
            r == self@.balance(asset_id, *who),
    {
        self.accounts(who, asset_id)
    }

    /// What `who` holds of `asset_id` in all.
    pub fn total_balance(&self, asset_id: CurrencyId, who: &AccountId) -> (r: Balance)
        requires
            self.wf(),
        ensures
            r == self@.balance(asset_id, *who),
    {
        self.accounts(who, asset_id)
    }

    /// How much of `asset_id` can be taken from `who`: all that the account holds.
    pub fn reducible_balance(
        &self,
        asset_id: CurrencyId,
        who: &AccountId,
        _preservation: Preservation,
        _force: Fortitude,
    ) -> (r: Balance)
        requires
            self.wf(),
        ensures
            r == self@.balance(asset_id, *who),
    {
        self.accounts(who, asset_id)
    }

    /// What depositing `amount` of `asset_id` with `who` would come to.
    pub fn can_deposit(
        &self,
        asset_id: CurrencyId,
        who: &AccountId,
        amount: Balance,
        _provenance: Provenance,
    ) -> (r: DepositConsequence)
        requires
            self.wf(),
        ensures
            r == self@.deposit_consequence(asset_id, amount, self@.balance(asset_id, *who)),
    {
        let balance = self.accounts(who, asset_id);
        self.deposit_consequence(asset_id, amount, &balance)
    }

    /// What withdrawing `amount` of `asset_id` from `who` would come to.
    pub fn can_withdraw(&self, asset_id: CurrencyId, who: &AccountId, amount: Balance) -> (r:
        WithdrawConsequence)
        requires
            self.wf(),
        ensures
            r == self@.withdraw_consequence(asset_id, amount, self@.balance(asset_id, *who)),
    {
        let balance = self.accounts(who, asset_id);
        self.withdraw_consequence(asset_id, amount, &balance)
    }

    /// Whether the issuance of `asset` has ever been written.
    pub fn asset_exists(&self, asset: CurrencyId) -> (r: bool)
        requires
            self.wf(),
        ensures
            r == self@.total_issuance.contains_key(asset),
    {
        self.total_issuance.contains_key(&asset)
    }

    /// How much of `asset` is frozen for an account: all that has been issued
    /// where the token is frozen, else nothing.
    pub fn balance_frozen(&self, asset: CurrencyId, _who: &AccountId) -> (r: Balance)
        requires
            self.wf(),
        ensures
            r == if self@.is_frozen(asset) {
                self@.issuance(asset)
            } else {
                0
            },
    {
        if self.is_frozen(asset) {
            self.total_issuance(asset)
        } else {
            0
        }
    }

    /// Whether `asset` is frozen.
    pub fn can_freeze(&self, asset: CurrencyId, _who: &AccountId) -> (r: bool)
        requires
            self.wf(),
        ensures
            r == self@.is_frozen(asset),
    {
        self.is_frozen(asset)
    }

    /// Freezes `asset`, whatever the account and the amount.
    pub fn set_freeze(&mut self, asset: CurrencyId, _who: &AccountId, _amount: Balance) -> (r:
        DispatchResult)
        requires
            old(self).wf(),
        ensures
            final(self).wf(),
            r is Ok,
            final(self)@ == old(self)@.with_frozen(asset.core_id, true),
    {
        self.freeze_currency(asset);
        Ok(())
    }

    /// Does nothing, and succeeds.
    pub fn extend_freeze(&mut self, _asset: CurrencyId, _who: &AccountId, _amount: Balance) -> (r:
        DispatchResult)
        ensures
            r is Ok,
            *final(self) == *old(self),
    {
        Ok(())
    }

    /// Lets `asset` move again, whatever the account.
    pub fn thaw(&mut self, asset: CurrencyId, _who: &AccountId) -> (r: DispatchResult)
        requires
            old(self).wf(),
        ensures
            final(self).wf(),
            r is Ok,
            final(self)@ == old(self)@.with_frozen(asset.core_id, false),
    {
        self.unfreeze_currency(asset);
        Ok(())
    }

    /// Issues `amount` of `asset_id` to `who`: the balance and the issuance go up
    /// by the amount. Fails where either would exceed the maximum. Whether the
    /// token is frozen is of no account.
    pub fn mint_into(&mut self, asset_id: CurrencyId, who: &AccountId, amount: Balance) -> (r: Result<
        Balance,
        DispatchError,
    >)
        requires
            old(self).wf(),
        ensures
            final(self).wf(),
            match old(self)@.mint(asset_id, *who, amount) {
                Ok(after) => r == Ok::<Balance, DispatchError>(amount) && final(self)@ == after,
                Err(e) => r == Err::<Balance, DispatchError>(e) && final(self)@ == old(self)@,
            },
    {
        let balance = self.accounts(who, asset_id);
        match self.deposit_consequence(asset_id, amount, &balance).into_result() {
            Err(e) => Err(e),
            Ok(_) => self.do_deposit(asset_id, who, amount, false, true),
        }
    }

    /// Takes `amount` of `asset_id` from `who` and out of the issuance. Fails
    /// where the issuance or the balance would fall below zero. Whether the token
    /// is frozen is of no account.
    pub fn burn_from(
        &mut self,
        asset_id: CurrencyId,
        who: &AccountId,
        amount: Balance,
        _precision: Precision,
        _fortitude: Fortitude,
    ) -> (r: Result<Balance, DispatchError>)
        requires
            old(self).wf(),
        ensures
            final(self).wf(),
            match old(self)@.burn(asset_id, *who, amount) {
                Ok(after) => r == Ok::<Balance, DispatchError>(amount) && final(self)@ == after,
                Err(e) => r == Err::<Balance, DispatchError>(e) && final(self)@ == old(self)@,
            },
    {
        let balance = self.accounts(who, asset_id);
        match self.withdraw_consequence(asset_id, amount, &balance).into_result(false) {
            Err(e) => Err(e),
            Ok(extra) => {
                let actual = amount + extra;
                match self.do_withdraw(asset_id, who, actual, true) {
                    Ok(_) => Ok(actual),
                    Err(e) => Err(e),
                }
            },
        }
    }

    /// Moves `amount` of `asset_id` from `source` to `dest`, as `do_transfer`
    /// does, and returns the amount.
    pub fn transfer_preserving(
        &mut self,
        asset_id: CurrencyId,
        source: &AccountId,
        dest: &AccountId,
        amount: Balance,
        _preservation: Preservation,
    ) -> (r: Result<Balance, DispatchError>)
        requires
            old(self).wf(),
        ensures
            final(self).wf(),
            match old(self)@.transfer(asset_id, *source, *dest, amount) {
                Ok(after) => r == Ok::<Balance, DispatchError>(amount) && final(self)@ == after,
                Err(e) => r == Err::<Balance, DispatchError>(e) && final(self)@ == old(self)@,
            },
    {
        match self.do_transfer(asset_id, source, dest, amount) {
            Ok(_) => Ok(amount),
            Err(e) => Err(e),
        }
    }

    /// Writes the balance of `who` as `amount` and leaves the issuance as it is.
    pub fn write_balance(&mut self, asset_id: CurrencyId, who: &AccountId, amount: Balance) -> (r:
        Result<Option<Balance>, DispatchError>)
        requires
            old(self).wf(),
        ensures
            final(self).wf(),
            r == Ok::<Option<Balance>, DispatchError>(None),
            final(self)@ == old(self)@.write_balance(asset_id, *who, amount),
    {
        self.deposit_event(Event::BalanceSet { currency_id: asset_id, who: *who, balance: amount });
        self.put_account(asset_id, who, amount);
        Ok(None)
    }

    /// Writes the issuance of `asset_id` as `amount`.
    pub fn set_total_issuance(&mut self, asset_id: CurrencyId, amount: Balance)
        requires
            old(self).wf(),
        ensures
            final(self).wf(),
            final(self)@ == old(self)@.set_total_issuance(asset_id, amount),
    {
        self.put_issuance(asset_id, amount);
        self.deposit_event(Event::TotalIssuanceSet { currency_id: asset_id, amount });
    }

    /// Decreases the balance of `who` by `amount`, or with `BestEffort` by as
    /// much of it as the account holds, and leaves the issuance as it is. Returns
    /// what was taken. Fails where the account holds less than is to be taken.
    pub fn decrease_balance(
        &mut self,
        asset: CurrencyId,
        who: &AccountId,
        amount: Balance,
        precision: Precision,
        preservation: Preservation,
        force: Fortitude,
    ) -> (r: Result<Balance, DispatchError>)
        requires
            old(self).wf(),
        ensures
            final(self).wf(),
            match old(self)@.decrease_balance(asset, *who, amount, precision) {
                Ok(after) => r == Ok::<Balance, DispatchError>(
                    old(self)@.decrease_amount(asset, *who, amount, precision),
                ) && final(self)@ == after,
                Err(e) => r == Err::<Balance, DispatchError>(e) && final(self)@ == old(self)@,
            },
    {
        let old_balance = self.balance(asset, who);
        let free = self.reducible_balance(asset, who, preservation, force);
        let mut amount = amount;
        match precision {
            Precision::BestEffort => {
                if free < amount {
                    amount = free;
                }
            },
            Precision::Exact => {},
        }
        if old_balance < amount {
            return Err(DispatchError::Token(TokenError::FundsUnavailable));
        }
        let new_balance = old_balance - amount;
        let _dust = self.write_balance(asset, who, new_balance);
        Ok(old_balance - new_balance)
    }
}

} // verus!
