//! Origins of calls and the errors with which a call is turned down.

use vstd::prelude::*;
use crate::inv4::origin::INV4Origin;
use crate::nft_origins::origin::NftOrigin;
use crate::primitives::AccountId;

verus! {

/// An error of the token ledger that no component owns.
#[derive(Clone, Copy, Debug, PartialEq, Eq, Structural)]
pub enum TokenError {
    /// Funds are unavailable.
    FundsUnavailable,
    /// The account would be left without a provider.
    OnlyProvider,
    /// The balance would fall below the minimum.
    BelowMinimum,
    /// The account cannot be created.
    CannotCreate,
    /// The asset is not known.
    UnknownAsset,
    /// The asset is frozen: its balances cannot move between accounts.
    Frozen,
    /// The operation is not supported by the asset.
    Unsupported,
    /// The account cannot be created for a held balance.
    CannotCreateHold,
    /// The account must stay alive.
    NotExpendable,
    /// The account cannot receive the asset.
    Blocked,
}

/// An arithmetic error.
#[derive(Clone, Copy, Debug, PartialEq, Eq, Structural)]
pub enum ArithmeticError {
    /// A result would be below zero.
    Underflow,
    /// A result would exceed the type's maximum.
    Overflow,
    /// Division by zero.
    DivisionByZero,
}

/// An error raised by one of the components.
#[derive(Clone, Copy, Debug, PartialEq, Eq, Structural)]
pub enum ModuleError {
    CoreAssets(crate::core_assets::Error),
    Inv4(crate::inv4::Error),
    NftOrigins(crate::nft_origins::Error),
    Rules(crate::rules::Error),
    Donations(crate::donations::Error),
}

/// The reason for which a call is turned down.
#[derive(Clone, Copy, Debug, PartialEq, Eq, Structural)]
pub enum DispatchError {
    /// The caller is not who the call requires.
    BadOrigin,
    /// An address could not be resolved.
    CannotLookup,
    /// An error of one of the components.
    Module(ModuleError),
    /// An error of the token ledger.
    Token(TokenError),
    /// An arithmetic error.
    Arithmetic(ArithmeticError),
}

/// The outcome of a call that returns nothing.
pub type DispatchResult = Result<(), DispatchError>;

/// The caller is not who the call requires.
#[derive(Clone, Copy, Debug, PartialEq, Eq, Structural)]
pub struct BadOrigin;

/// The origins that the system itself knows.
#[derive(Clone, Copy, Debug)]
pub enum RawOrigin {
    /// The system itself.
    Root,
    /// An account that signed the call.
    Signed(AccountId),
    /// No one: a call that nobody signed.
    Unsigned,
}

/// Who makes a call.
#[derive(Clone, Copy, Debug)]
pub enum RuntimeOrigin {
    /// An origin of the system.
    System(RawOrigin),
    /// The collective will of a core.
    Inv4(INV4Origin),
    /// A token on another chain, or the chain that vouches for such tokens.
    NftOrigins(NftOrigin),
}

impl RuntimeOrigin {
    /// The origin of a call signed by `who`.
    pub fn signed(who: AccountId) -> (r: Self)
        ensures
            r == RuntimeOrigin::System(RawOrigin::Signed(who)),
    {
        RuntimeOrigin::System(RawOrigin::Signed(who))
    }

    /// The origin of the system itself.
    pub fn root() -> (r: Self)
        ensures
            r == RuntimeOrigin::System(RawOrigin::Root),
    {
        RuntimeOrigin::System(RawOrigin::Root)
    }

    /// The origin of a call that nobody signed.
    pub fn unsigned() -> (r: Self)
        ensures
            r == RuntimeOrigin::System(RawOrigin::Unsigned),
    {
        RuntimeOrigin::System(RawOrigin::Unsigned)
    }
}

/// The account that signed the call, for a signed origin; `BadOrigin` for any other.
pub fn ensure_signed(o: RuntimeOrigin) -> (r: Result<AccountId, BadOrigin>)
    ensures
        r == match o {
            RuntimeOrigin::System(RawOrigin::Signed(who)) => Ok::<AccountId, BadOrigin>(who),
            _ => Err::<AccountId, BadOrigin>(BadOrigin),
        },
{
    match o {
        RuntimeOrigin::System(RawOrigin::Signed(who)) => Ok(who),
        _ => Err(BadOrigin),
    }
}

/// Succeeds for the origin of the system itself; `BadOrigin` for any other.
pub fn ensure_root(o: RuntimeOrigin) -> (r: Result<(), BadOrigin>)
    ensures
        r == match o {
            RuntimeOrigin::System(RawOrigin::Root) => Ok::<(), BadOrigin>(()),
            _ => Err::<(), BadOrigin>(BadOrigin),
        },
{
    match o {
        RuntimeOrigin::System(RawOrigin::Root) => Ok(()),
        _ => Err(BadOrigin),
    }
}

} // verus!
