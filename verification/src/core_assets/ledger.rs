//! The ledger as a mathematical object: what it holds, and what each operation
//! makes of it.

use vstd::prelude::*;
use crate::core_assets::tokens::{DepositConsequence, Precision, WithdrawConsequence};
use crate::core_assets::{CurrencyId, Error, Event};
use crate::dispatch::{
    ArithmeticError, DispatchError, ModuleError, RawOrigin, RuntimeOrigin, TokenError,
};
use crate::primitives::{AccountId, Balance, CoreId};
use crate::storage::sum_values;

verus! {

/// What the ledger holds.
#[verifier::ext_equal]
pub struct Ledger {
    /// The amount of each token that has been issued. A token without an entry
    /// has an issuance of zero.
    pub total_issuance: Map<CurrencyId, Balance>,
    /// The balance of each account in each token. An account without an entry
    /// holds nothing.
    pub accounts: Map<(AccountId, CurrencyId), Balance>,
    /// The accounts that have an entry, in the order in which the entries came.
    pub holders: Seq<(AccountId, CurrencyId)>,
    /// Whether the tokens of a core are kept from moving between accounts. The
    /// tokens of a core without an entry are.
    pub frozen: Map<CoreId, bool>,
    /// What has happened, oldest first.
    pub events: Seq<Event>,
}

/// The error of an account that holds too little.
pub open spec fn balance_too_low() -> DispatchError {
    DispatchError::Module(ModuleError::CoreAssets(Error::BalanceTooLow))
}

/// The error of an account that should exist and does not.
pub open spec fn dead_account() -> DispatchError {
    DispatchError::Module(ModuleError::CoreAssets(Error::DeadAccount))
}

/// The error of an amount that exceeds the maximum.
pub open spec fn overflow() -> DispatchError {
    DispatchError::Arithmetic(ArithmeticError::Overflow)
}

/// The error of an amount that falls below zero.
pub open spec fn underflow() -> DispatchError {
    DispatchError::Arithmetic(ArithmeticError::Underflow)
}

/// Picks the entries of the accounts that are held in `currency_id`.
pub open spec fn held_in(currency_id: CurrencyId) -> spec_fn((AccountId, CurrencyId)) -> bool {
    |k: (AccountId, CurrencyId)| k.1 == currency_id
}

/// What a transfer of `amount` makes of the two balances: the new balance of
/// the sender and that of the receiver.
pub open spec fn transfer_step(from_balance: Balance, to_balance: Balance, amount: Balance) -> Result<
    (Balance, Balance),
    DispatchError,
> {
    if from_balance < amount {
        Err(balance_too_low())
    } else if to_balance + amount > Balance::MAX {
        Err(overflow())
    } else {
        Ok(((from_balance - amount) as Balance, (to_balance + amount) as Balance))
    }
}

/// What a withdrawal of `amount` makes of a balance and of the issuance, where
/// the issuance goes down with the balance.
pub open spec fn withdraw_step(
    balance: Balance,
    issuance: Balance,
    amount: Balance,
    change_total_issuance: bool,
) -> Result<(Balance, Balance), DispatchError> {
    if balance < amount {
        Err(balance_too_low())
    } else if change_total_issuance && issuance < amount {
        Err(underflow())
    } else {
        Ok(
            (
                (balance - amount) as Balance,
                if change_total_issuance {
                    (issuance - amount) as Balance
                } else {
                    issuance
                },
            ),
        )
    }
}

/// What a deposit of `amount` makes of a balance and of the issuance.
pub open spec fn deposit_step(
    balance: Balance,
    existed: bool,
    issuance: Balance,
    amount: Balance,
    require_existed: bool,
) -> Result<(Balance, Balance), DispatchError> {
    if require_existed && !existed {
        Err(dead_account())
    } else if issuance + amount > Balance::MAX || balance + amount > Balance::MAX {
        Err(overflow())
    } else {
        Ok(((balance + amount) as Balance, (issuance + amount) as Balance))
    }
}

impl Ledger {
    /// The accounts listed are those that have an entry, each listed once.
    pub open spec fn wf(self) -> bool {
        &&& self.holders.no_duplicates()
        &&& forall|k: (AccountId, CurrencyId)|
            self.holders.contains(k) <==> #[trigger] self.accounts.contains_key(k)
    }

    /// The ledger that holds nothing.
    pub open spec fn empty() -> Ledger {
        Ledger {
            total_issuance: Map::empty(),
            accounts: Map::empty(),
            holders: Seq::empty(),
            frozen: Map::empty(),
            events: Seq::empty(),
        }
    }

    /// The amount of `currency_id` that has been issued.
    pub open spec fn issuance(self, currency_id: CurrencyId) -> Balance {
        if self.total_issuance.contains_key(currency_id) {
            self.total_issuance[currency_id]
        } else {
            0
        }
    }

    /// What `who` holds of `currency_id`.
    pub open spec fn balance(self, currency_id: CurrencyId, who: AccountId) -> Balance {
        if self.accounts.contains_key((who, currency_id)) {
            self.accounts[(who, currency_id)]
        } else {
            0
        }
    }

    /// Whether `who` has an entry for `currency_id`.
    pub open spec fn has_account(self, currency_id: CurrencyId, who: AccountId) -> bool {
        self.accounts.contains_key((who, currency_id))
    }

    /// Whether `currency_id` is kept from moving between accounts: whether the
    /// core that it belongs to is frozen.
    pub open spec fn is_frozen(self, currency_id: CurrencyId) -> bool {
        if self.frozen.contains_key(currency_id.core_id) {
            self.frozen[currency_id.core_id]
        } else {
            true
        }
    }

    /// The sum of what all accounts hold of `currency_id`.
    pub open spec fn sum_of_balances(self, currency_id: CurrencyId) -> nat {
        sum_values(self.holders, self.accounts, held_in(currency_id))
    }

    /// What the accounts hold of `currency_id` adds up to what has been issued of it.
    pub open spec fn balanced(self, currency_id: CurrencyId) -> bool {
        self.sum_of_balances(currency_id) == self.issuance(currency_id)
    }

    /// The ledger with one more event.
    pub open spec fn with_event(self, event: Event) -> Ledger {
        Ledger { events: self.events.push(event), ..self }
    }

    /// The ledger in which the issuance of `currency_id` is `amount`.
    pub open spec fn with_issuance(self, currency_id: CurrencyId, amount: Balance) -> Ledger {
        Ledger { total_issuance: self.total_issuance.insert(currency_id, amount), ..self }
    }

    /// The ledger in which the tokens of the core `core_id` are frozen, or are not.
    pub open spec fn with_frozen(self, core_id: CoreId, frozen: bool) -> Ledger {
        Ledger { frozen: self.frozen.insert(core_id, frozen), ..self }
    }

    /// The ledger in which `who` holds `balance` of `currency_id`. An account
    /// that had no entry gets one, and the endowment is recorded.
    pub open spec fn with_account(
        self,
        currency_id: CurrencyId,
        who: AccountId,
        balance: Balance,
    ) -> Ledger {
        if self.has_account(currency_id, who) {
            Ledger { accounts: self.accounts.insert((who, currency_id), balance), ..self }
        } else {
            Ledger {
                accounts: self.accounts.insert((who, currency_id), balance),
                holders: self.holders.push((who, currency_id)),
                events: self.events.push(Event::Endowed { currency_id, who, amount: balance }),
                ..self
            }
        }
    }

    /// What depositing `amount` into an account that holds `balance` would come to.
    pub open spec fn deposit_consequence(
        self,
        currency_id: CurrencyId,
        amount: Balance,
        balance: Balance,
    ) -> DepositConsequence {
        if amount == 0 {
            DepositConsequence::Success
        } else if self.issuance(currency_id) + amount > Balance::MAX {
            DepositConsequence::Overflow
        } else if balance + amount > Balance::MAX {
            DepositConsequence::Overflow
        } else {
            DepositConsequence::Success
        }
    }

    /// What withdrawing `amount` from an account that holds `balance` would come to.
    pub open spec fn withdraw_consequence(
        self,
        currency_id: CurrencyId,
        amount: Balance,
        balance: Balance,
    ) -> WithdrawConsequence {
        if amount == 0 {
            WithdrawConsequence::Success
        } else if self.issuance(currency_id) < amount {
            WithdrawConsequence::Underflow
        } else if balance < amount {
            WithdrawConsequence::BalanceLow
        } else {
            WithdrawConsequence::Success
        }
    }

    /// Whether `who` can part with `amount` of `currency_id`.
    pub open spec fn can_withdraw(
        self,
        currency_id: CurrencyId,
        who: AccountId,
        amount: Balance,
    ) -> Result<(), DispatchError> {
        if amount == 0 || self.balance(currency_id, who) >= amount {
            Ok(())
        } else {
            Err(balance_too_low())
        }
    }

    /// The ledger after `amount` of `currency_id` has moved from `from` to `to`,
    /// or the reason for which it cannot. Nothing happens where the amount is
    /// zero or the two accounts are one.
    pub open spec fn transfer(
        self,
        currency_id: CurrencyId,
        from: AccountId,
        to: AccountId,
        amount: Balance,
    ) -> Result<Ledger, DispatchError> {
        if amount == 0 || from == to {
            Ok(self)
        } else if self.is_frozen(currency_id) {
            Err(DispatchError::Token(TokenError::Frozen))
        } else if self.balance(currency_id, from) < amount {
            Err(balance_too_low())
        } else if self.balance(currency_id, to) + amount > Balance::MAX {
            Err(overflow())
        } else {
            Ok(
                self.with_account(
                    currency_id,
                    from,
                    (self.balance(currency_id, from) - amount) as Balance,
                ).with_account(
                    currency_id,
                    to,
                    (self.balance(currency_id, to) + amount) as Balance,
                ).with_event(Event::Transfer { currency_id, from, to, amount }),
            )
        }
    }

    /// The ledger after `amount` of `currency_id` has been taken from `who`, or
    /// the reason for which it cannot: the account holds too little, or the
    /// issuance is to go down with the balance, as it does where
    /// `change_total_issuance` is set, and is less than the amount.
    pub open spec fn withdraw(
        self,
        currency_id: CurrencyId,
        who: AccountId,
        amount: Balance,
        change_total_issuance: bool,
    ) -> Result<Ledger, DispatchError> {
        if amount == 0 {
            Ok(self)
        } else if self.balance(currency_id, who) < amount {
            Err(balance_too_low())
        } else if change_total_issuance && self.issuance(currency_id) < amount {
            Err(underflow())
        } else {
            let taken = self.with_account(
                currency_id,
                who,
                (self.balance(currency_id, who) - amount) as Balance,
            );
            let settled = if change_total_issuance {
                taken.with_issuance(currency_id, (self.issuance(currency_id) - amount) as Balance)
            } else {
                taken
            };
            Ok(settled.with_event(Event::Withdrawn { currency_id, who, amount }))
        }
    }

    /// The ledger after `amount` of `currency_id` has been given to `who`, or the
    /// reason for which it cannot: the account should exist and does not, or the
    /// issuance or the balance would exceed the maximum. The issuance goes up with
    /// the balance where `change_total_issuance` is set.
    pub open spec fn deposit(
        self,
        currency_id: CurrencyId,
        who: AccountId,
        amount: Balance,
        require_existed: bool,
        change_total_issuance: bool,
    ) -> Result<Ledger, DispatchError> {
        if amount == 0 {
            Ok(self)
        } else if require_existed && !self.has_account(currency_id, who) {
            Err(dead_account())
        } else if self.issuance(currency_id) + amount > Balance::MAX || self.balance(
            currency_id,
            who,
        ) + amount > Balance::MAX {
            Err(overflow())
        } else {
            let issued = if change_total_issuance {
                self.with_issuance(currency_id, (self.issuance(currency_id) + amount) as Balance)
            } else {
                self
            };
            Ok(
                issued.with_account(
                    currency_id,
                    who,
                    (self.balance(currency_id, who) + amount) as Balance,
                ).with_event(Event::Deposited { currency_id, who, amount }),
            )
        }
    }

    /// The ledger after `amount` of `currency_id` has been issued to `who`, or the
    /// reason for which it cannot: the issuance or the balance would exceed the
    /// maximum.
    pub open spec fn mint(self, currency_id: CurrencyId, who: AccountId, amount: Balance) -> Result<
        Ledger,
        DispatchError,
    > {
        match self.deposit_consequence(
            currency_id,
            amount,
            self.balance(currency_id, who),
        ).result() {
            Err(e) => Err(e),
            Ok(_) => self.deposit(currency_id, who, amount, false, true),
        }
    }

    /// The ledger after `amount` of `currency_id` has been taken from `who` and
    /// out of the issuance, or the reason for which it cannot: the issuance or
    /// the balance would fall below zero.
    pub open spec fn burn(self, currency_id: CurrencyId, who: AccountId, amount: Balance) -> Result<
        Ledger,
        DispatchError,
    > {
        match self.withdraw_consequence(
            currency_id,
            amount,
            self.balance(currency_id, who),
        ).result(false) {
            Err(e) => Err(e),
            Ok(_) => self.withdraw(currency_id, who, amount, true),
        }
    }

    /// The ledger after the balance of `who` has been set to `new_balance` and the
    /// issuance moved by the difference, or the reason for which it cannot.
    pub open spec fn set_balance(
        self,
        currency_id: CurrencyId,
        who: AccountId,
        new_balance: Balance,
    ) -> Result<Ledger, DispatchError> {
        let old_balance = self.balance(currency_id, who);
        let issuance = self.issuance(currency_id);
        if new_balance > old_balance && issuance + (new_balance - old_balance) > Balance::MAX {
            Err(overflow())
        } else if new_balance < old_balance && issuance < old_balance - new_balance {
            Err(underflow())
        } else {
            let issued = if new_balance != old_balance {
                self.with_issuance(
                    currency_id,
                    (issuance + new_balance - old_balance) as Balance,
                )
            } else {
                self
            };
            Ok(
                issued.with_event(
                    Event::BalanceSet { currency_id, who, balance: new_balance },
                ).with_account(currency_id, who, new_balance),
            )
        }
    }

    /// The ledger after the balance of `who` has been written as `amount`, the
    /// issuance left as it is.
    pub open spec fn write_balance(
        self,
        currency_id: CurrencyId,
        who: AccountId,
        amount: Balance,
    ) -> Ledger {
        self.with_event(Event::BalanceSet { currency_id, who, balance: amount }).with_account(
            currency_id,
            who,
            amount,
        )
    }

    /// The ledger after the issuance of `currency_id` has been written as `amount`.
    pub open spec fn set_total_issuance(self, currency_id: CurrencyId, amount: Balance) -> Ledger {
        self.with_issuance(currency_id, amount).with_event(
            Event::TotalIssuanceSet { currency_id, amount },
        )
    }

    /// How much a decrease by `amount` takes from `who`: the amount, or with
    /// `BestEffort` no more than the account holds.
    pub open spec fn decrease_amount(
        self,
        currency_id: CurrencyId,
        who: AccountId,
        amount: Balance,
        precision: Precision,
    ) -> Balance {
        if precision == Precision::BestEffort && amount > self.balance(currency_id, who) {
            self.balance(currency_id, who)
        } else {
            amount
        }
    }

    /// The ledger after the balance of `who` has been decreased, the issuance
    /// left as it is, or the reason for which it cannot.
    pub open spec fn decrease_balance(
        self,
        currency_id: CurrencyId,
        who: AccountId,
        amount: Balance,
        precision: Precision,
    ) -> Result<Ledger, DispatchError> {
        let taken = self.decrease_amount(currency_id, who, amount, precision);
        if self.balance(currency_id, who) < taken {
            Err(DispatchError::Token(TokenError::FundsUnavailable))
        } else {
            Ok(
                self.write_balance(
                    currency_id,
                    who,
                    (self.balance(currency_id, who) - taken) as Balance,
                ),
            )
        }
    }

    /// The ledger after a signed call to move `amount` of `currency_id` to the
    /// account that the destination means, if it means one.
    pub open spec fn signed_transfer(
        self,
        origin: RuntimeOrigin,
        dest: Option<AccountId>,
        currency_id: CurrencyId,
        amount: Balance,
    ) -> Result<Ledger, DispatchError> {
        match (origin, dest) {
            (RuntimeOrigin::System(RawOrigin::Signed(from)), Some(to)) => self.transfer(
                currency_id,
                from,
                to,
                amount,
            ),
            (RuntimeOrigin::System(RawOrigin::Signed(_)), None) => Err(DispatchError::CannotLookup),
            _ => Err(DispatchError::BadOrigin),
        }
    }

    /// The ledger after a signed call to move all that the caller holds of
    /// `currency_id` to the account that the destination means, if it means one.
    pub open spec fn signed_transfer_all(
        self,
        origin: RuntimeOrigin,
        dest: Option<AccountId>,
        currency_id: CurrencyId,
    ) -> Result<Ledger, DispatchError> {
        match (origin, dest) {
            (RuntimeOrigin::System(RawOrigin::Signed(from)), Some(to)) => self.transfer(
                currency_id,
                from,
                to,
                self.balance(currency_id, from),
            ),
            (RuntimeOrigin::System(RawOrigin::Signed(_)), None) => Err(DispatchError::CannotLookup),
            _ => Err(DispatchError::BadOrigin),
        }
    }

    /// The ledger after a call of the system itself to move `amount` of
    /// `currency_id` between the accounts that the source and the destination
    /// mean, if they mean accounts.
    pub open spec fn forced_transfer(
        self,
        origin: RuntimeOrigin,
        source: Option<AccountId>,
        dest: Option<AccountId>,
        currency_id: CurrencyId,
        amount: Balance,
    ) -> Result<Ledger, DispatchError> {
        match (origin, source, dest) {
            (RuntimeOrigin::System(RawOrigin::Root), Some(from), Some(to)) => self.transfer(
                currency_id,
                from,
                to,
                amount,
            ),
            (RuntimeOrigin::System(RawOrigin::Root), _, _) => Err(DispatchError::CannotLookup),
            _ => Err(DispatchError::BadOrigin),
        }
    }

    /// The ledger after a call of the system itself to set the balance of the
    /// account that the address means, if it means one.
    pub open spec fn forced_set_balance(
        self,
        origin: RuntimeOrigin,
        who: Option<AccountId>,
        currency_id: CurrencyId,
        new_balance: Balance,
    ) -> Result<Ledger, DispatchError> {
        match (origin, who) {
            (RuntimeOrigin::System(RawOrigin::Root), Some(account)) => self.set_balance(
                currency_id,
                account,
                new_balance,
            ),
            (RuntimeOrigin::System(RawOrigin::Root), None) => Err(DispatchError::CannotLookup),
            _ => Err(DispatchError::BadOrigin),
        }
    }
}

} // verus!
