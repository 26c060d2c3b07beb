//! What a deposit or a withdrawal would come to, and the ways such an operation
//! can be asked for.

use vstd::prelude::*;
use crate::core_assets::Error;
use crate::dispatch::{ArithmeticError, DispatchError, ModuleError, TokenError};
use crate::primitives::Balance;

verus! {

/// What a deposit would come to.
#[derive(Clone, Copy, Debug, PartialEq, Eq, Structural)]
pub enum DepositConsequence {
    /// The balance would stay below the minimum.
    BelowMinimum,
    /// The account cannot be created.
    CannotCreate,
    /// The asset is not known.
    UnknownAsset,
    /// The balance or the issuance would exceed the maximum.
    Overflow,
    /// The deposit can be made.
    Success,
    /// The account cannot receive the asset.
    Blocked,
}

impl DepositConsequence {
    /// The verdict as a result: success, or the error that stands for the obstacle.
    pub open spec fn result(self) -> Result<(), DispatchError> {
        match self {
            DepositConsequence::BelowMinimum => Err(DispatchError::Token(TokenError::BelowMinimum)),
            DepositConsequence::CannotCreate => Err(DispatchError::Token(TokenError::CannotCreate)),
            DepositConsequence::UnknownAsset => Err(DispatchError::Token(TokenError::UnknownAsset)),
            DepositConsequence::Overflow => Err(
                DispatchError::Arithmetic(ArithmeticError::Overflow),
            ),
            DepositConsequence::Blocked => Err(DispatchError::Token(TokenError::Blocked)),
            DepositConsequence::Success => Ok(()),
        }
    }

    /// The verdict as a result.
    pub fn into_result(self) -> (r: Result<(), DispatchError>)
        ensures
            r == self.result(),
    {
        match self {
            DepositConsequence::BelowMinimum => Err(DispatchError::Token(TokenError::BelowMinimum)),
            DepositConsequence::CannotCreate => Err(DispatchError::Token(TokenError::CannotCreate)),
            DepositConsequence::UnknownAsset => Err(DispatchError::Token(TokenError::UnknownAsset)),
            DepositConsequence::Overflow => Err(
                DispatchError::Arithmetic(ArithmeticError::Overflow),
            ),
            DepositConsequence::Blocked => Err(DispatchError::Token(TokenError::Blocked)),
            DepositConsequence::Success => Ok(()),
        }
    }
}

/// What a withdrawal would come to.
#[derive(Clone, Copy, Debug, PartialEq, Eq, Structural)]
pub enum WithdrawConsequence {
    /// The account holds less than the amount.
    BalanceLow,
    /// The account would be left without a provider.
    WouldDie,
    /// The asset is not known.
    UnknownAsset,
    /// The issuance would fall below zero.
    Underflow,
    /// The issuance would exceed the maximum.
    Overflow,
    /// The funds are frozen.
    Frozen,
    /// The account would be emptied, and this much more would go with the amount.
    ReducedToZero(Balance),
    /// The withdrawal can be made.
    Success,
}

impl WithdrawConsequence {
    /// The verdict as a result: what goes beyond the amount asked for, or the
    /// error that stands for the obstacle. Where `keep_nonzero` is set, emptying
    /// the account is an obstacle too.
    pub open spec fn result(self, keep_nonzero: bool) -> Result<Balance, DispatchError> {
        match self {
            WithdrawConsequence::BalanceLow => Err(
                DispatchError::Module(ModuleError::CoreAssets(Error::BalanceTooLow)),
            ),
            WithdrawConsequence::WouldDie => Err(DispatchError::Token(TokenError::OnlyProvider)),
            WithdrawConsequence::UnknownAsset => Err(DispatchError::Token(TokenError::UnknownAsset)),
            WithdrawConsequence::Underflow => Err(
                DispatchError::Arithmetic(ArithmeticError::Underflow),
            ),
            WithdrawConsequence::Overflow => Err(
                DispatchError::Arithmetic(ArithmeticError::Overflow),
            ),
            WithdrawConsequence::Frozen => Err(DispatchError::Token(TokenError::Frozen)),
            WithdrawConsequence::ReducedToZero(extra) => if keep_nonzero {
                Err(DispatchError::Token(TokenError::NotExpendable))
            } else {
                Ok(extra)
            },
            WithdrawConsequence::Success => Ok(0),
        }
    }

    /// The verdict as a result.
    pub fn into_result(self, keep_nonzero: bool) -> (r: Result<Balance, DispatchError>)
        ensures
            r == self.result(keep_nonzero),
    {
        match self {
            WithdrawConsequence::BalanceLow => Err(
                DispatchError::Module(ModuleError::CoreAssets(Error::BalanceTooLow)),
            ),
            WithdrawConsequence::WouldDie => Err(DispatchError::Token(TokenError::OnlyProvider)),
            WithdrawConsequence::UnknownAsset => Err(DispatchError::Token(TokenError::UnknownAsset)),
            WithdrawConsequence::Underflow => Err(
                DispatchError::Arithmetic(ArithmeticError::Underflow),
            ),
            WithdrawConsequence::Overflow => Err(
                DispatchError::Arithmetic(ArithmeticError::Overflow),
            ),
            WithdrawConsequence::Frozen => Err(DispatchError::Token(TokenError::Frozen)),
            WithdrawConsequence::ReducedToZero(extra) => if keep_nonzero {
                Err(DispatchError::Token(TokenError::NotExpendable))
            } else {
                Ok(extra)
            },
            WithdrawConsequence::Success => Ok(0),
        }
    }
}

/// How exactly an amount is meant.
#[derive(Clone, Copy, Debug, PartialEq, Eq, Structural)]
pub enum Precision {
    /// The amount, or nothing.
    Exact,
    /// As much of the amount as there is.
    BestEffort,
}

/// Whether the account must outlive the operation.
#[derive(Clone, Copy, Debug, PartialEq, Eq, Structural)]
pub enum Preservation {
    /// The account may end.
    Expendable,
    /// The account may end only if something else keeps it.
    Protect,
    /// The account must stay.
    Preserve,
}

/// Whether the operation respects freezes.
#[derive(Clone, Copy, Debug, PartialEq, Eq, Structural)]
pub enum Fortitude {
    /// Freezes are respected.
    Polite,
    /// Freezes are overridden.
    Force,
}

/// Where the funds of a deposit come from.
#[derive(Clone, Copy, Debug, PartialEq, Eq, Structural)]
pub enum Provenance {
    /// The funds are newly minted.
    Minted,
    /// The funds exist already.
    Extant,
}

} // verus!
