use invarch::core_assets::lookup::{
    AccountIdLookup, IdentityLookup, LookupError, MultiAddress, StaticLookup,
};
use invarch::core_assets::tokens::{
    DepositConsequence, Fortitude, Precision, Preservation, Provenance, WithdrawConsequence,
};
use invarch::core_assets::{CurrencyId, Error, Event, Pallet};
use invarch::dispatch::{ArithmeticError, DispatchError, ModuleError, RuntimeOrigin, TokenError};
use invarch::primitives::AccountId;

fn account(n: u8) -> AccountId {
    AccountId([n; 32])
}

fn too_low() -> DispatchError {
    DispatchError::Module(ModuleError::CoreAssets(Error::BalanceTooLow))
}

fn thawed_ledger() -> (Pallet, CurrencyId) {
    let mut ledger = Pallet::new();
    let share = CurrencyId::of_core(0);
    ledger.unfreeze_currency(share);
    (ledger, share)
}

fn sum(ledger: &Pallet, share: CurrencyId, who: &[AccountId]) -> u128 {
    who.iter().map(|w| ledger.accounts(w, share)).sum()
}

#[test]
fn frozen_asset_blocks_transfer_not_mint_or_burn() {
    let mut ledger = Pallet::new();
    let share = CurrencyId::of_core(0);
    ledger.freeze_currency(share);
    assert!(ledger.is_frozen(share));
    assert_eq!(ledger.mint_into(share, &account(1), 100), Ok(100));
    assert_eq!(
        ledger.do_transfer(share, &account(1), &account(2), 10),
        Err(DispatchError::Token(TokenError::Frozen))
    );
    assert_eq!(ledger.accounts(&account(1), share), 100);
    assert_eq!(ledger.accounts(&account(2), share), 0);
    assert_eq!(
        ledger.burn_from(share, &account(1), 40, Precision::Exact, Fortitude::Polite),
        Ok(40)
    );
    assert_eq!(ledger.total_issuance(share), 60);
    assert_eq!(ledger.accounts(&account(1), share), 60);
}

#[test]
fn a_token_is_frozen_until_it_is_thawed() {
    let mut ledger = Pallet::new();
    let share = CurrencyId::of_core(3);
    assert!(ledger.is_frozen(share));
    assert!(ledger.can_freeze(share, &account(1)));
    assert_eq!(ledger.mint_into(share, &account(1), 5), Ok(5));
    assert_eq!(ledger.balance_frozen(share, &account(1)), 5);
    assert_eq!(ledger.thaw(share, &account(1)), Ok(()));
    assert!(!ledger.is_frozen(share));
    assert_eq!(ledger.balance_frozen(share, &account(1)), 0);
    assert_eq!(ledger.set_freeze(share, &account(1), 0), Ok(()));
    assert!(ledger.is_frozen(share));
    assert_eq!(ledger.extend_freeze(share, &account(1), 0), Ok(()));
    assert!(ledger.is_frozen(share));
}

#[test]
fn freezing_a_share_class_freezes_the_whole_core() {
    let mut ledger = Pallet::new();
    ledger.unfreeze_currency(CurrencyId::of_core(1));
    assert!(!ledger.is_frozen(CurrencyId::of_sub_asset(1, 7)));
    ledger.freeze_currency(CurrencyId::of_sub_asset(1, 7));
    assert!(ledger.is_frozen(CurrencyId::of_core(1)));
    assert!(ledger.is_frozen(CurrencyId::of_core(2)));
}

#[test]
fn mint_raises_balance_and_issuance() {
    let (mut ledger, share) = thawed_ledger();
    assert!(!ledger.asset_exists(share));
    assert_eq!(ledger.mint_into(share, &account(1), 1_000), Ok(1_000));
    assert_eq!(ledger.mint_into(share, &account(2), 500), Ok(500));
    assert_eq!(ledger.mint_into(share, &account(1), 1), Ok(1));
    assert!(ledger.asset_exists(share));
    assert_eq!(ledger.accounts(&account(1), share), 1_001);
    assert_eq!(ledger.accounts(&account(2), share), 500);
    assert_eq!(ledger.total_issuance(share), 1_501);
    assert_eq!(
        ledger.events().clone(),
        vec![
            Event::Endowed { currency_id: share, who: account(1), amount: 1_000 },
            Event::Deposited { currency_id: share, who: account(1), amount: 1_000 },
            Event::Endowed { currency_id: share, who: account(2), amount: 500 },
            Event::Deposited { currency_id: share, who: account(2), amount: 500 },
            Event::Deposited { currency_id: share, who: account(1), amount: 1 },
        ]
    );
}

#[test]
fn mint_of_zero_changes_nothing() {
    let (mut ledger, share) = thawed_ledger();
    assert_eq!(ledger.mint_into(share, &account(1), 0), Ok(0));
    assert_eq!(ledger.total_issuance(share), 0);
    assert_eq!(ledger.accounts_by_currency(share, &account(1)), None);
    assert!(ledger.events().is_empty());
}

#[test]
fn mint_fails_on_overflow_of_issuance_or_balance() {
    let (mut ledger, share) = thawed_ledger();
    assert_eq!(ledger.mint_into(share, &account(1), u128::MAX), Ok(u128::MAX));
    assert_eq!(
        ledger.mint_into(share, &account(2), 1),
        Err(DispatchError::Arithmetic(ArithmeticError::Overflow))
    );
    assert_eq!(ledger.accounts(&account(2), share), 0);
    assert_eq!(ledger.total_issuance(share), u128::MAX);
    ledger.set_total_issuance(share, 0);
    assert_eq!(
        ledger.mint_into(share, &account(1), 1),
        Err(DispatchError::Arithmetic(ArithmeticError::Overflow))
    );
    assert_eq!(ledger.accounts(&account(1), share), u128::MAX);
}

#[test]
fn burn_lowers_balance_and_issuance() {
    let (mut ledger, share) = thawed_ledger();
    ledger.mint_into(share, &account(1), 100).unwrap();
    assert_eq!(
        ledger.burn_from(share, &account(1), 30, Precision::Exact, Fortitude::Polite),
        Ok(30)
    );
    assert_eq!(ledger.accounts(&account(1), share), 70);
    assert_eq!(ledger.total_issuance(share), 70);
    assert_eq!(
        ledger.events().last(),
        Some(&Event::Withdrawn { currency_id: share, who: account(1), amount: 30 })
    );
    assert_eq!(
        ledger.burn_from(share, &account(1), 0, Precision::Exact, Fortitude::Polite),
        Ok(0)
    );
    assert_eq!(ledger.total_issuance(share), 70);
}

#[test]
fn burn_fails_when_balance_or_issuance_is_too_low() {
    let (mut ledger, share) = thawed_ledger();
    ledger.mint_into(share, &account(1), 100).unwrap();
    ledger.mint_into(share, &account(2), 100).unwrap();
    assert_eq!(
        ledger.burn_from(share, &account(1), 101, Precision::Exact, Fortitude::Polite),
        Err(too_low())
    );
    assert_eq!(
        ledger.burn_from(share, &account(1), 201, Precision::Exact, Fortitude::Polite),
        Err(DispatchError::Arithmetic(ArithmeticError::Underflow))
    );
    assert_eq!(ledger.accounts(&account(1), share), 100);
    assert_eq!(ledger.total_issuance(share), 200);
}

#[test]
fn transfer_moves_the_amount() {
    let (mut ledger, share) = thawed_ledger();
    ledger.mint_into(share, &account(1), 100).unwrap();
    let before = ledger.events().len();
    assert_eq!(
        ledger.transfer::<IdentityLookup>(RuntimeOrigin::signed(account(1)), account(2), share, 60),
        Ok(())
    );
    assert_eq!(ledger.accounts(&account(1), share), 40);
    assert_eq!(ledger.accounts(&account(2), share), 60);
    assert_eq!(ledger.total_issuance(share), 100);
    assert_eq!(
        ledger.events()[before..].to_vec(),
        vec![
            Event::Endowed { currency_id: share, who: account(2), amount: 60 },
            Event::Transfer { currency_id: share, from: account(1), to: account(2), amount: 60 },
        ]
    );
}

#[test]
fn transfer_of_nothing_or_to_oneself_is_a_no_op() {
    let mut ledger = Pallet::new();
    let share = CurrencyId::of_core(0);
    ledger.mint_into(share, &account(1), 100).unwrap();
    let before = ledger.events().len();
    assert!(ledger.is_frozen(share));
    assert_eq!(ledger.do_transfer(share, &account(1), &account(2), 0), Ok(()));
    assert_eq!(ledger.do_transfer(share, &account(1), &account(1), 500), Ok(()));
    assert_eq!(ledger.accounts(&account(1), share), 100);
    assert_eq!(ledger.accounts_by_currency(share, &account(2)), None);
    assert_eq!(ledger.events().len(), before);
}

#[test]
fn transfer_fails_when_balance_is_too_low_or_receiver_overflows() {
    let (mut ledger, share) = thawed_ledger();
    ledger.mint_into(share, &account(1), 100).unwrap();
    assert_eq!(ledger.do_transfer(share, &account(1), &account(2), 101), Err(too_low()));
    assert_eq!(ledger.do_transfer(share, &account(3), &account(2), 1), Err(too_low()));
    assert_eq!(ledger.write_balance(share, &account(2), u128::MAX), Ok(None));
    assert_eq!(
        ledger.do_transfer(share, &account(1), &account(2), 1),
        Err(DispatchError::Arithmetic(ArithmeticError::Overflow))
    );
    assert_eq!(ledger.accounts(&account(1), share), 100);
    assert_eq!(ledger.accounts(&account(2), share), u128::MAX);
}

#[test]
fn transfer_needs_a_signature() {
    let (mut ledger, share) = thawed_ledger();
    ledger.mint_into(share, &account(1), 100).unwrap();
    assert_eq!(
        ledger.transfer::<IdentityLookup>(RuntimeOrigin::root(), account(2), share, 60),
        Err(DispatchError::BadOrigin)
    );
    assert_eq!(
        ledger.transfer::<IdentityLookup>(RuntimeOrigin::unsigned(), account(2), share, 60),
        Err(DispatchError::BadOrigin)
    );
    assert_eq!(
        ledger.transfer_all::<IdentityLookup>(RuntimeOrigin::root(), account(2), share),
        Err(DispatchError::BadOrigin)
    );
    assert_eq!(ledger.accounts(&account(1), share), 100);
}

#[test]
fn transfer_all_empties_the_sender() {
    let (mut ledger, share) = thawed_ledger();
    ledger.mint_into(share, &account(1), 100).unwrap();
    assert_eq!(ledger.transfer_all::<IdentityLookup>(RuntimeOrigin::signed(account(1)), account(2), share), Ok(()));
    assert_eq!(ledger.accounts(&account(1), share), 0);
    assert_eq!(ledger.accounts(&account(2), share), 100);
    assert_eq!(ledger.accounts_by_currency(share, &account(1)), Some(()));
    assert_eq!(ledger.transfer_all::<IdentityLookup>(RuntimeOrigin::signed(account(3)), account(2), share), Ok(()));
    assert_eq!(ledger.accounts(&account(2), share), 100);
}

#[test]
fn force_transfer_is_for_root() {
    let (mut ledger, share) = thawed_ledger();
    ledger.mint_into(share, &account(1), 100).unwrap();
    assert_eq!(
        ledger.force_transfer::<IdentityLookup>(RuntimeOrigin::signed(account(1)), account(1), account(2), share, 10),
        Err(DispatchError::BadOrigin)
    );
    assert_eq!(
        ledger.force_transfer::<IdentityLookup>(RuntimeOrigin::root(), account(1), account(2), share, 10),
        Ok(())
    );
    assert_eq!(ledger.accounts(&account(1), share), 90);
    assert_eq!(ledger.accounts(&account(2), share), 10);
}

#[test]
fn set_balance_moves_the_issuance_by_the_difference() {
    let (mut ledger, share) = thawed_ledger();
    ledger.mint_into(share, &account(1), 100).unwrap();
    assert_eq!(
        ledger.set_balance::<IdentityLookup>(RuntimeOrigin::signed(account(1)), account(1), share, 1),
        Err(DispatchError::BadOrigin)
    );
    assert_eq!(ledger.set_balance::<IdentityLookup>(RuntimeOrigin::root(), account(2), share, 50), Ok(()));
    assert_eq!(ledger.total_issuance(share), 150);
    assert_eq!(ledger.set_balance::<IdentityLookup>(RuntimeOrigin::root(), account(1), share, 30), Ok(()));
    assert_eq!(ledger.total_issuance(share), 80);
    assert_eq!(ledger.accounts(&account(1), share), 30);
    assert_eq!(ledger.set_balance::<IdentityLookup>(RuntimeOrigin::root(), account(1), share, 30), Ok(()));
    assert_eq!(ledger.total_issuance(share), 80);
    let n = ledger.events().len();
    assert_eq!(
        ledger.events()[2..4].to_vec(),
        vec![
            Event::BalanceSet { currency_id: share, who: account(2), balance: 50 },
            Event::Endowed { currency_id: share, who: account(2), amount: 50 },
        ]
    );
    assert_eq!(
        ledger.events()[n - 1],
        Event::BalanceSet { currency_id: share, who: account(1), balance: 30 }
    );
}

#[test]
fn set_balance_fails_when_the_issuance_leaves_its_range() {
    let (mut ledger, share) = thawed_ledger();
    ledger.mint_into(share, &account(1), 100).unwrap();
    ledger.set_total_issuance(share, u128::MAX);
    assert_eq!(
        ledger.set_balance::<IdentityLookup>(RuntimeOrigin::root(), account(1), share, 101),
        Err(DispatchError::Arithmetic(ArithmeticError::Overflow))
    );
    ledger.set_total_issuance(share, 10);
    assert_eq!(
        ledger.set_balance::<IdentityLookup>(RuntimeOrigin::root(), account(1), share, 50),
        Err(DispatchError::Arithmetic(ArithmeticError::Underflow))
    );
    assert_eq!(ledger.accounts(&account(1), share), 100);
    assert_eq!(ledger.total_issuance(share), 10);
}

#[test]
fn consequences_of_deposits_and_withdrawals() {
    let (mut ledger, share) = thawed_ledger();
    ledger.mint_into(share, &account(1), 100).unwrap();
    assert_eq!(ledger.deposit_consequence(share, 0, &u128::MAX), DepositConsequence::Success);
    assert_eq!(ledger.deposit_consequence(share, 1, &5), DepositConsequence::Success);
    assert_eq!(ledger.deposit_consequence(share, 1, &u128::MAX), DepositConsequence::Overflow);
    assert_eq!(ledger.deposit_consequence(share, u128::MAX, &0), DepositConsequence::Overflow);
    assert_eq!(ledger.withdraw_consequence(share, 0, &0), WithdrawConsequence::Success);
    assert_eq!(ledger.withdraw_consequence(share, 101, &200), WithdrawConsequence::Underflow);
    assert_eq!(ledger.withdraw_consequence(share, 50, &49), WithdrawConsequence::BalanceLow);
    assert_eq!(ledger.withdraw_consequence(share, 50, &50), WithdrawConsequence::Success);
    assert_eq!(
        ledger.can_deposit(share, &account(1), 1, Provenance::Minted),
        DepositConsequence::Success
    );
    assert_eq!(ledger.can_withdraw(share, &account(1), 101), WithdrawConsequence::Underflow);
    assert_eq!(ledger.can_withdraw(share, &account(2), 1), WithdrawConsequence::BalanceLow);
    assert_eq!(ledger.ensure_can_withdraw(share, &account(1), 100), Ok(()));
    assert_eq!(ledger.ensure_can_withdraw(share, &account(1), 101), Err(too_low()));
    assert_eq!(ledger.ensure_can_withdraw(share, &account(2), 0), Ok(()));
}

#[test]
fn consequences_become_results() {
    assert_eq!(DepositConsequence::Success.into_result(), Ok(()));
    assert_eq!(
        DepositConsequence::Overflow.into_result(),
        Err(DispatchError::Arithmetic(ArithmeticError::Overflow))
    );
    assert_eq!(
        DepositConsequence::BelowMinimum.into_result(),
        Err(DispatchError::Token(TokenError::BelowMinimum))
    );
    assert_eq!(
        DepositConsequence::CannotCreate.into_result(),
        Err(DispatchError::Token(TokenError::CannotCreate))
    );
    assert_eq!(
        DepositConsequence::UnknownAsset.into_result(),
        Err(DispatchError::Token(TokenError::UnknownAsset))
    );
    assert_eq!(
        DepositConsequence::Blocked.into_result(),
        Err(DispatchError::Token(TokenError::Blocked))
    );
    assert_eq!(WithdrawConsequence::Success.into_result(false), Ok(0));
    assert_eq!(WithdrawConsequence::ReducedToZero(3).into_result(false), Ok(3));
    assert_eq!(
        WithdrawConsequence::ReducedToZero(3).into_result(true),
        Err(DispatchError::Token(TokenError::NotExpendable))
    );
    assert_eq!(WithdrawConsequence::BalanceLow.into_result(false), Err(too_low()));
    assert_eq!(
        WithdrawConsequence::Underflow.into_result(false),
        Err(DispatchError::Arithmetic(ArithmeticError::Underflow))
    );
    assert_eq!(
        WithdrawConsequence::Overflow.into_result(false),
        Err(DispatchError::Arithmetic(ArithmeticError::Overflow))
    );
    assert_eq!(
        WithdrawConsequence::Frozen.into_result(false),
        Err(DispatchError::Token(TokenError::Frozen))
    );
    assert_eq!(
        WithdrawConsequence::WouldDie.into_result(false),
        Err(DispatchError::Token(TokenError::OnlyProvider))
    );
    assert_eq!(
        WithdrawConsequence::UnknownAsset.into_result(false),
        Err(DispatchError::Token(TokenError::UnknownAsset))
    );
}

#[test]
fn deposit_and_withdraw_without_touching_the_issuance() {
    let (mut ledger, share) = thawed_ledger();
    assert_eq!(
        ledger.do_deposit(share, &account(1), 10, true, false),
        Err(DispatchError::Module(ModuleError::CoreAssets(Error::DeadAccount)))
    );
    assert_eq!(ledger.do_deposit(share, &account(1), 10, false, false), Ok(10));
    assert_eq!(ledger.do_deposit(share, &account(1), 5, true, true), Ok(5));
    assert_eq!(ledger.accounts(&account(1), share), 15);
    assert_eq!(ledger.total_issuance(share), 5);
    assert_eq!(ledger.do_withdraw(share, &account(1), 16, false), Err(too_low()));
    assert_eq!(ledger.do_withdraw(share, &account(1), 6, false), Ok(()));
    assert_eq!(ledger.accounts(&account(1), share), 9);
    assert_eq!(ledger.total_issuance(share), 5);
    assert_eq!(ledger.do_withdraw(share, &account(1), 5, true), Ok(()));
    assert_eq!(ledger.accounts(&account(1), share), 4);
    assert_eq!(ledger.total_issuance(share), 0);
    assert_eq!(ledger.do_deposit(share, &account(1), 0, true, true), Ok(0));
    assert_eq!(ledger.do_withdraw(share, &account(1), 0, true), Ok(()));
}

#[test]
fn withdraw_fails_when_the_issuance_would_fall_below_zero() {
    let (mut ledger, share) = thawed_ledger();
    assert_eq!(ledger.do_deposit(share, &account(1), 10, false, false), Ok(10));
    let events = ledger.events().len();
    assert_eq!(
        ledger.do_withdraw(share, &account(1), 5, true),
        Err(DispatchError::Arithmetic(ArithmeticError::Underflow))
    );
    assert_eq!(ledger.accounts(&account(1), share), 10);
    assert_eq!(ledger.total_issuance(share), 0);
    assert_eq!(ledger.events().len(), events);
    assert_eq!(ledger.do_withdraw(share, &account(1), 11, true), Err(too_low()));
    assert_eq!(ledger.do_withdraw(share, &account(1), 5, false), Ok(()));
    assert_eq!(ledger.accounts(&account(1), share), 5);
}

#[test]
fn deposit_fails_when_the_balance_would_pass_the_maximum() {
    let (mut ledger, share) = thawed_ledger();
    assert_eq!(ledger.do_deposit(share, &account(1), u128::MAX, false, false), Ok(u128::MAX));
    let events = ledger.events().len();
    assert_eq!(
        ledger.do_deposit(share, &account(1), 1, false, true),
        Err(DispatchError::Arithmetic(ArithmeticError::Overflow))
    );
    assert_eq!(
        ledger.do_deposit(share, &account(1), 1, false, false),
        Err(DispatchError::Arithmetic(ArithmeticError::Overflow))
    );
    assert_eq!(ledger.accounts(&account(1), share), u128::MAX);
    assert_eq!(ledger.total_issuance(share), 0);
    assert_eq!(ledger.events().len(), events);
    ledger.set_total_issuance(share, u128::MAX);
    assert_eq!(
        ledger.do_deposit(share, &account(2), 1, false, false),
        Err(DispatchError::Arithmetic(ArithmeticError::Overflow))
    );
    assert_eq!(ledger.accounts_by_currency(share, &account(2)), None);
}

#[test]
fn try_mutate_account_writes_what_the_closure_gives() {
    let (mut ledger, share) = thawed_ledger();
    let r: Result<bool, u8> =
        ledger.try_mutate_account(&account(1), share, |balance, existed| {
            Ok((balance + 7, existed))
        });
    assert_eq!(r, Ok(false));
    assert_eq!(ledger.accounts(&account(1), share), 7);
    assert_eq!(
        ledger.events().clone(),
        vec![Event::Endowed { currency_id: share, who: account(1), amount: 7 }]
    );
    let r: Result<bool, u8> =
        ledger.try_mutate_account(&account(1), share, |balance, existed| {
            Ok((balance * 2, existed))
        });
    assert_eq!(r, Ok(true));
    assert_eq!(ledger.accounts(&account(1), share), 14);
    let r: Result<(), u8> = ledger.try_mutate_account(&account(1), share, |_, _| Err(9));
    assert_eq!(r, Err(9));
    assert_eq!(ledger.accounts(&account(1), share), 14);
    assert_eq!(ledger.events().len(), 1);
}

#[test]
fn decrease_balance_exactly_or_as_far_as_it_goes() {
    let (mut ledger, share) = thawed_ledger();
    ledger.mint_into(share, &account(1), 100).unwrap();
    assert_eq!(
        ledger.decrease_balance(
            share,
            &account(1),
            150,
            Precision::Exact,
            Preservation::Expendable,
            Fortitude::Polite
        ),
        Err(DispatchError::Token(TokenError::FundsUnavailable))
    );
    assert_eq!(
        ledger.decrease_balance(
            share,
            &account(1),
            30,
            Precision::Exact,
            Preservation::Expendable,
            Fortitude::Polite
        ),
        Ok(30)
    );
    assert_eq!(
        ledger.decrease_balance(
            share,
            &account(1),
            150,
            Precision::BestEffort,
            Preservation::Expendable,
            Fortitude::Polite
        ),
        Ok(70)
    );
    assert_eq!(ledger.accounts(&account(1), share), 0);
    assert_eq!(ledger.total_issuance(share), 100);
}

#[test]
fn queries_report_what_is_held() {
    let (mut ledger, share) = thawed_ledger();
    ledger.mint_into(share, &account(1), 100).unwrap();
    assert_eq!(ledger.minimum_balance(share), 0);
    assert_eq!(ledger.balance(share, &account(1)), 100);
    assert_eq!(ledger.total_balance(share, &account(1)), 100);
    assert_eq!(ledger.free_balance(share, &account(1)), 100);
    assert_eq!(
        ledger.reducible_balance(share, &account(1), Preservation::Preserve, Fortitude::Force),
        100
    );
    assert_eq!(
        ledger.transfer_preserving(share, &account(1), &account(2), 1, Preservation::Protect),
        Ok(1)
    );
    assert_eq!(ledger.balance(CurrencyId::of_sub_asset(0, 1), &account(1)), 0);
}

#[test]
fn balances_add_up_to_the_issuance_after_any_sequence() {
    let (mut ledger, share) = thawed_ledger();
    let other = CurrencyId::of_sub_asset(0, 1);
    let all = [account(1), account(2), account(3)];
    let check = |ledger: &Pallet| {
        assert_eq!(sum(ledger, share, &all), ledger.total_issuance(share));
        assert_eq!(sum(ledger, other, &all), ledger.total_issuance(other));
    };
    check(&ledger);
    ledger.mint_into(share, &account(1), 1_000).unwrap();
    check(&ledger);
    ledger.mint_into(other, &account(2), 77).unwrap();
    check(&ledger);
    ledger.do_transfer(share, &account(1), &account(2), 400).unwrap();
    check(&ledger);
    assert!(ledger.do_transfer(share, &account(3), &account(2), 1).is_err());
    check(&ledger);
    ledger.burn_from(share, &account(2), 150, Precision::Exact, Fortitude::Polite).unwrap();
    check(&ledger);
    assert!(ledger
        .burn_from(share, &account(1), 601, Precision::Exact, Fortitude::Polite)
        .is_err());
    check(&ledger);
    ledger.freeze_currency(share);
    assert!(ledger.do_transfer(other, &account(2), &account(3), 7).is_err());
    check(&ledger);
    ledger.do_transfer(share, &account(2), &account(2), 7).unwrap();
    check(&ledger);
    assert_eq!(ledger.total_issuance(share), 850);
    assert_eq!(ledger.total_issuance(other), 77);
}

#[test]
fn an_address_means_an_account_where_it_is_one() {
    assert_eq!(IdentityLookup::lookup(account(1)), Ok(account(1)));
    assert_eq!(AccountIdLookup::lookup(MultiAddress::Id(account(1))), Ok(account(1)));
    assert_eq!(AccountIdLookup::lookup(MultiAddress::Index(1)), Err(LookupError));
    assert_eq!(AccountIdLookup::lookup(MultiAddress::Raw(vec![1; 32])), Err(LookupError));
    assert_eq!(AccountIdLookup::lookup(MultiAddress::Address32([1; 32])), Err(LookupError));
    assert_eq!(AccountIdLookup::lookup(MultiAddress::Address20([1; 20])), Err(LookupError));
}

#[test]
fn calls_fail_where_an_address_means_no_account() {
    let (mut ledger, share) = thawed_ledger();
    ledger.mint_into(share, &account(1), 100).unwrap();
    let events = ledger.events().len();
    assert_eq!(
        ledger.transfer::<AccountIdLookup>(
            RuntimeOrigin::signed(account(1)),
            MultiAddress::Index(2),
            share,
            10
        ),
        Err(DispatchError::CannotLookup)
    );
    assert_eq!(
        ledger.transfer::<AccountIdLookup>(RuntimeOrigin::root(), MultiAddress::Index(2), share, 10),
        Err(DispatchError::BadOrigin)
    );
    assert_eq!(
        ledger.transfer_all::<AccountIdLookup>(
            RuntimeOrigin::signed(account(1)),
            MultiAddress::Address32([2; 32]),
            share
        ),
        Err(DispatchError::CannotLookup)
    );
    assert_eq!(
        ledger.force_transfer::<AccountIdLookup>(
            RuntimeOrigin::root(),
            MultiAddress::Raw(vec![]),
            MultiAddress::Id(account(2)),
            share,
            10
        ),
        Err(DispatchError::CannotLookup)
    );
    assert_eq!(
        ledger.force_transfer::<AccountIdLookup>(
            RuntimeOrigin::root(),
            MultiAddress::Id(account(1)),
            MultiAddress::Address20([2; 20]),
            share,
            10
        ),
        Err(DispatchError::CannotLookup)
    );
    assert_eq!(
        ledger.set_balance::<AccountIdLookup>(RuntimeOrigin::root(), MultiAddress::Index(1), share, 5),
        Err(DispatchError::CannotLookup)
    );
    assert_eq!(ledger.accounts(&account(1), share), 100);
    assert_eq!(ledger.total_issuance(share), 100);
    assert_eq!(ledger.events().len(), events);
    assert_eq!(
        ledger.transfer::<AccountIdLookup>(
            RuntimeOrigin::signed(account(1)),
            MultiAddress::Id(account(2)),
            share,
            10
        ),
        Ok(())
    );
    assert_eq!(
        ledger.set_balance::<AccountIdLookup>(
            RuntimeOrigin::root(),
            MultiAddress::Id(account(1)),
            share,
            5
        ),
        Ok(())
    );
    assert_eq!(ledger.accounts(&account(1), share), 5);
    assert_eq!(ledger.accounts(&account(2), share), 10);
    assert_eq!(ledger.total_issuance(share), 15);
}
