//! What holds of the ledger whatever is done with it.

use vstd::prelude::*;
use crate::core_assets::ledger::{held_in, Ledger};
use crate::core_assets::CurrencyId;
use crate::dispatch::{DispatchError, TokenError};
use crate::primitives::{AccountId, Balance, CoreId};
use crate::storage::{
    lemma_sum_values_other_key, lemma_sum_values_push, lemma_sum_values_two,
    lemma_sum_values_update,
};

verus! {

/// One of the operations that issue, destroy and move tokens.
pub enum LedgerOp {
    /// Issue an amount to an account.
    Mint { currency_id: CurrencyId, who: AccountId, amount: Balance },
    /// Take an amount from an account and out of the issuance.
    Burn { currency_id: CurrencyId, who: AccountId, amount: Balance },
    /// Move an amount from one account to another.
    Transfer { currency_id: CurrencyId, from: AccountId, to: AccountId, amount: Balance },
    /// Freeze the tokens of a core.
    Freeze { core_id: CoreId },
    /// Let the tokens of a core move again.
    Thaw { core_id: CoreId },
}

/// The ledger after `op`: changed where the operation succeeds, as it was where
/// the operation fails.
pub open spec fn apply(ledger: Ledger, op: LedgerOp) -> Ledger {
    match op {
        LedgerOp::Mint { currency_id, who, amount } => match ledger.mint(currency_id, who, amount) {
            Ok(after) => after,
            Err(_) => ledger,
        },
        LedgerOp::Burn { currency_id, who, amount } => match ledger.burn(currency_id, who, amount) {
            Ok(after) => after,
            Err(_) => ledger,
        },
        LedgerOp::Transfer { currency_id, from, to, amount } => match ledger.transfer(
            currency_id,
            from,
            to,
            amount,
        ) {
            Ok(after) => after,
            Err(_) => ledger,
        },
        LedgerOp::Freeze { core_id } => ledger.with_frozen(core_id, true),
        LedgerOp::Thaw { core_id } => ledger.with_frozen(core_id, false),
    }
}

/// The ledger after the operations `ops`, one after another.
pub open spec fn apply_all(ledger: Ledger, ops: Seq<LedgerOp>) -> Ledger
    decreases ops.len(),
{
    if ops.len() == 0 {
        ledger
    } else {
        apply(apply_all(ledger, ops.drop_last()), ops.last())
    }
}

/// Writing a balance keeps the ledger in order, and changes the sum of the
/// balances of that token by the difference between the new balance and the old.
pub proof fn lemma_with_account(
    ledger: Ledger,
    currency_id: CurrencyId,
    who: AccountId,
    balance: Balance,
    other: CurrencyId,
)
    requires
        ledger.wf(),
    ensures
        ledger.with_account(currency_id, who, balance).wf(),
        ledger.with_account(currency_id, who, balance).issuance(other) == ledger.issuance(other),
        ledger.with_account(currency_id, who, balance).frozen == ledger.frozen,
        other != currency_id ==> ledger.with_account(currency_id, who, balance).sum_of_balances(
            other,
        ) == ledger.sum_of_balances(other),
        ledger.sum_of_balances(currency_id) >= ledger.balance(currency_id, who),
        ledger.with_account(currency_id, who, balance).sum_of_balances(currency_id)
            == ledger.sum_of_balances(currency_id) - ledger.balance(currency_id, who) + balance,
{
    let after = ledger.with_account(currency_id, who, balance);
    let key = (who, currency_id);
    let picks_other = held_in(other);
    let picks = held_in(currency_id);
    if ledger.has_account(currency_id, who) {
        assert(ledger.holders.contains(key));
        lemma_sum_values_update(ledger.holders, ledger.accounts, picks, key, balance);
        if other != currency_id {
            lemma_sum_values_other_key(ledger.holders, ledger.accounts, picks_other, key, balance);
        }
        assert forall|k: (AccountId, CurrencyId)|
            after.holders.contains(k) <==> #[trigger] after.accounts.contains_key(k) by {
            assert(ledger.holders.contains(k) <==> ledger.accounts.contains_key(k));
        }
    } else {
        assert(!ledger.holders.contains(key));
        lemma_sum_values_push(ledger.holders, ledger.accounts, picks, key, balance);
        lemma_sum_values_push(ledger.holders, ledger.accounts, picks_other, key, balance);
        let n = ledger.holders.len() as int;
        assert(after.holders.no_duplicates()) by {
            assert forall|a: int, b: int|
                0 <= a < after.holders.len() && 0 <= b < after.holders.len() && a
                    != b implies after.holders[a] != after.holders[b] by {
                if a == n {
                    assert(ledger.holders[b] == after.holders[b]);
                } else if b == n {
                    assert(ledger.holders[a] == after.holders[a]);
                }
            }
        }
        assert forall|k: (AccountId, CurrencyId)|
            after.holders.contains(k) <==> #[trigger] after.accounts.contains_key(k) by {
            assert(ledger.holders.contains(k) <==> ledger.accounts.contains_key(k));
            if ledger.holders.contains(k) {
                let j = ledger.holders.index_of(k);
                assert(after.holders[j] == k);
            }
            if k == key {
                assert(after.holders[n] == k);
            }
            if after.holders.contains(k) {
                let j = after.holders.index_of(k);
                if j < n {
                    assert(ledger.holders[j] == k);
                }
            }
        }
    }
}

/// In a token whose balances add up to its issuance, no account holds more than
/// has been issued, and no two accounts do together.
pub proof fn lemma_balances_within_issuance(
    ledger: Ledger,
    currency_id: CurrencyId,
    one: AccountId,
    other: AccountId,
)
    requires
        ledger.wf(),
        ledger.balanced(currency_id),
        one != other,
    ensures
        ledger.balance(currency_id, one) <= ledger.issuance(currency_id),
        ledger.balance(currency_id, one) + ledger.balance(currency_id, other) <= ledger.issuance(
            currency_id,
        ),
{
    let picks = held_in(currency_id);
    let a = (one, currency_id);
    let b = (other, currency_id);
    if ledger.has_account(currency_id, one) {
        assert(ledger.holders.contains(a));
        lemma_sum_values_update(ledger.holders, ledger.accounts, picks, a, ledger.accounts[a]);
    }
    if ledger.has_account(currency_id, other) {
        assert(ledger.holders.contains(b));
        lemma_sum_values_update(ledger.holders, ledger.accounts, picks, b, ledger.accounts[b]);
    }
    if ledger.has_account(currency_id, one) && ledger.has_account(currency_id, other) {
        lemma_sum_values_two(ledger.holders, ledger.accounts, picks, a, b);
    }
}

/// A mint that succeeds keeps the ledger in order, every balanced token balanced,
/// and every freeze as it is.
pub proof fn lemma_mint_keeps_balance(
    ledger: Ledger,
    currency_id: CurrencyId,
    who: AccountId,
    amount: Balance,
    other: CurrencyId,
)
    requires
        ledger.wf(),
        ledger.mint(currency_id, who, amount) is Ok,
    ensures
        ledger.mint(currency_id, who, amount)->Ok_0.wf(),
        ledger.balanced(other) ==> ledger.mint(currency_id, who, amount)->Ok_0.balanced(other),
        ledger.mint(currency_id, who, amount)->Ok_0.frozen == ledger.frozen,
{
    if amount != 0 {
        let issued = ledger.with_issuance(
            currency_id,
            (ledger.issuance(currency_id) + amount) as Balance,
        );
        assert(issued.wf());
        assert(issued.sum_of_balances(other) == ledger.sum_of_balances(other));
        assert(issued.balance(currency_id, who) == ledger.balance(currency_id, who));
        lemma_with_account(
            issued,
            currency_id,
            who,
            (ledger.balance(currency_id, who) + amount) as Balance,
            other,
        );
    }
}

/// A burn that succeeds keeps the ledger in order, every balanced token balanced,
/// and every freeze as it is.
pub proof fn lemma_burn_keeps_balance(
    ledger: Ledger,
    currency_id: CurrencyId,
    who: AccountId,
    amount: Balance,
    other: CurrencyId,
)
    requires
        ledger.wf(),
        ledger.burn(currency_id, who, amount) is Ok,
    ensures
        ledger.burn(currency_id, who, amount)->Ok_0.wf(),
        ledger.balanced(other) ==> ledger.burn(currency_id, who, amount)->Ok_0.balanced(other),
        ledger.burn(currency_id, who, amount)->Ok_0.frozen == ledger.frozen,
{
    if amount != 0 {
        lemma_with_account(
            ledger,
            currency_id,
            who,
            (ledger.balance(currency_id, who) - amount) as Balance,
            other,
        );
        let taken = ledger.with_account(
            currency_id,
            who,
            (ledger.balance(currency_id, who) - amount) as Balance,
        );
        let settled = taken.with_issuance(
            currency_id,
            (ledger.issuance(currency_id) - amount) as Balance,
        );
        assert(settled.sum_of_balances(other) == taken.sum_of_balances(other));
    }
}

/// A transfer that succeeds keeps the ledger in order, every balanced token
/// balanced, and every freeze and every issuance as it is.
pub proof fn lemma_transfer_keeps_balance(
    ledger: Ledger,
    currency_id: CurrencyId,
    from: AccountId,
    to: AccountId,
    amount: Balance,
    other: CurrencyId,
)
    requires
        ledger.wf(),
        ledger.transfer(currency_id, from, to, amount) is Ok,
    ensures
        ledger.transfer(currency_id, from, to, amount)->Ok_0.wf(),
        ledger.balanced(other) ==> ledger.transfer(currency_id, from, to, amount)->Ok_0.balanced(
            other,
        ),
        ledger.transfer(currency_id, from, to, amount)->Ok_0.frozen == ledger.frozen,
        ledger.transfer(currency_id, from, to, amount)->Ok_0.total_issuance
            == ledger.total_issuance,
{
    if amount != 0 && from != to {
        let new_from = (ledger.balance(currency_id, from) - amount) as Balance;
        let new_to = (ledger.balance(currency_id, to) + amount) as Balance;
        lemma_with_account(ledger, currency_id, from, new_from, other);
        let taken = ledger.with_account(currency_id, from, new_from);
        assert(taken.balance(currency_id, to) == ledger.balance(currency_id, to));
        lemma_with_account(taken, currency_id, to, new_to, other);
        let given = taken.with_account(currency_id, to, new_to);
        let done = given.with_event(crate::core_assets::Event::Transfer { currency_id, from, to, amount });
        assert(done.sum_of_balances(other) == given.sum_of_balances(other));
    }
}

/// A freeze or a thaw keeps the ledger in order and every balanced token balanced.
pub proof fn lemma_frozen_keeps_balance(after: Ledger, ledger: Ledger, core_id: CoreId, frozen: bool)
    requires
        after == ledger.with_frozen(core_id, frozen),
    ensures
        ledger.wf() ==> after.wf(),
        forall|c: CurrencyId| ledger.balanced(c) ==> #[trigger] after.balanced(c),
{
    assert forall|c: CurrencyId| ledger.balanced(c) implies #[trigger] after.balanced(c) by {
        assert(after.sum_of_balances(c) == ledger.sum_of_balances(c));
    }
}

/// Whatever is minted, burned, moved, frozen and thawed, in whatever order and
/// whether each step succeeds or fails: a token whose balances added up to its
/// issuance before still has balances that add up to its issuance.
pub proof fn lemma_issuance_invariant(ledger: Ledger, ops: Seq<LedgerOp>, currency_id: CurrencyId)
    requires
        ledger.wf(),
        ledger.balanced(currency_id),
    ensures
        apply_all(ledger, ops).wf(),
        apply_all(ledger, ops).balanced(currency_id),
    decreases ops.len(),
{
    if ops.len() > 0 {
        lemma_issuance_invariant(ledger, ops.drop_last(), currency_id);
        let before = apply_all(ledger, ops.drop_last());
        match ops.last() {
            LedgerOp::Mint { currency_id: c, who, amount } => {
                if before.mint(c, who, amount) is Ok {
                    lemma_mint_keeps_balance(before, c, who, amount, currency_id);
                }
            },
            LedgerOp::Burn { currency_id: c, who, amount } => {
                if before.burn(c, who, amount) is Ok {
                    lemma_burn_keeps_balance(before, c, who, amount, currency_id);
                }
            },
            LedgerOp::Transfer { currency_id: c, from, to, amount } => {
                if before.transfer(c, from, to, amount) is Ok {
                    lemma_transfer_keeps_balance(before, c, from, to, amount, currency_id);
                }
            },
            LedgerOp::Freeze { core_id } => {
                assert(before.with_frozen(core_id, true).sum_of_balances(currency_id)
                    == before.sum_of_balances(currency_id));
            },
            LedgerOp::Thaw { core_id } => {
                assert(before.with_frozen(core_id, false).sum_of_balances(currency_id)
                    == before.sum_of_balances(currency_id));
            },
        }
    }
}

/// The ledger that holds nothing is in order, and every token in it is balanced.
pub proof fn lemma_empty_is_balanced(currency_id: CurrencyId)
    ensures
        Ledger::empty().wf(),
        Ledger::empty().balanced(currency_id),
{
}

/// A freeze stands in the way of transfers and of nothing else: while the tokens
/// of a core are frozen, a transfer that would move anything fails with
/// `Frozen`, and a mint or a burn does what it does when they are not.
pub proof fn lemma_freeze_blocks_transfer_only(
    ledger: Ledger,
    currency_id: CurrencyId,
    from: AccountId,
    to: AccountId,
    amount: Balance,
    thawed: bool,
)
    ensures
        amount != 0 && from != to ==> ledger.with_frozen(currency_id.core_id, true).transfer(
            currency_id,
            from,
            to,
            amount,
        ) == Err::<Ledger, DispatchError>(DispatchError::Token(TokenError::Frozen)),
        match ledger.mint(currency_id, to, amount) {
            Ok(after) => ledger.with_frozen(currency_id.core_id, thawed).mint(
                currency_id,
                to,
                amount,
            ) == Ok::<Ledger, DispatchError>(after.with_frozen(currency_id.core_id, thawed)),
            Err(e) => ledger.with_frozen(currency_id.core_id, thawed).mint(currency_id, to, amount)
                == Err::<Ledger, DispatchError>(e),
        },
        match ledger.burn(currency_id, from, amount) {
            Ok(after) => ledger.with_frozen(currency_id.core_id, thawed).burn(
                currency_id,
                from,
                amount,
            ) == Ok::<Ledger, DispatchError>(after.with_frozen(currency_id.core_id, thawed)),
            Err(e) => ledger.with_frozen(currency_id.core_id, thawed).burn(
                currency_id,
                from,
                amount,
            ) == Err::<Ledger, DispatchError>(e),
        },
{
    let iced = ledger.with_frozen(currency_id.core_id, thawed);
    match ledger.mint(currency_id, to, amount) {
        Ok(after) => {
            assert(iced.mint(currency_id, to, amount)->Ok_0 =~= after.with_frozen(
                currency_id.core_id,
                thawed,
            ));
        },
        Err(_) => {},
    }
    match ledger.burn(currency_id, from, amount) {
        Ok(after) => {
            assert(iced.burn(currency_id, from, amount)->Ok_0 =~= after.with_frozen(
                currency_id.core_id,
                thawed,
            ));
        },
        Err(_) => {},
    }
}

} // verus!
