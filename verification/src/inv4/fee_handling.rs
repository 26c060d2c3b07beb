//! The assets in which a fee can be paid.

use vstd::prelude::*;
use crate::primitives::{AccountId, Balance, CoreId};

verus! {

/// An asset in which a fee can be paid.
#[derive(Clone, Copy, Debug, PartialEq, Eq, Structural)]
pub enum FeeAsset {
    /// The chain's own token.
    TNKR,
    /// The relay chain's token.
    KSM,
}

/// A fee that is due: the environment takes it from the payer and hands it to
/// its fee handler before it commits what the call has changed.
#[derive(Clone, Copy, Debug, PartialEq, Eq)]
pub struct CreationFee {
    /// The asset in which the fee is paid.
    pub asset: FeeAsset,
    /// The account that pays.
    pub payer: AccountId,
    /// The amount that is due.
    pub amount: Balance,
}

/// What the creation of a core comes to.
#[derive(Clone, Copy, Debug, PartialEq, Eq)]
pub struct CoreCreation {
    /// The number of the new core.
    pub core_id: CoreId,
    /// The account of the new core.
    pub core_account: AccountId,
    /// The fee that is due for the creation.
    pub fee: CreationFee,
}

} // verus!
