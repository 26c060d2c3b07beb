//! Fees paid in the asset that the payer prefers.

use vstd::prelude::*;
use crate::dispatch::{ensure_signed, DispatchError, DispatchResult, RawOrigin, RuntimeOrigin};
use crate::primitives::{AccountId, Balance};
use crate::storage::StorageMap;

pub mod traits;

verus! {

/// A fee that is to be taken: how much, and in which asset.
#[derive(Clone, Copy, Debug, PartialEq, Eq)]
pub struct LiquidityInfo<Balance, AssetId> {
    pub fee: Balance,
    pub asset_id: AssetId,
}

/// Takes care of a fee that has been paid.
pub trait HandleFee<AccountId, AssetId, Balance> {
    fn handle_fee(currency: AssetId, amount: Balance) -> DispatchResult;
}

/// The asset that each account prefers to pay its fees in.
pub struct Pallet<AssetId> {
    preferred_asset: StorageMap<AccountId, AssetId>,
}

/// What becomes of a fee that was taken in advance, once the fee that is really
/// due is known: the part that is kept, never more than was taken, and the part
/// that goes back.
pub open spec fn settled(paid: Balance, corrected_fee: Balance) -> (Balance, Balance) {
    if corrected_fee <= paid {
        (corrected_fee, (paid - corrected_fee) as Balance)
    } else {
        (paid, 0)
    }
}

impl<AssetId: Copy> Pallet<AssetId> {
    /// The table of preferences is in order.
    pub closed spec fn wf(&self) -> bool {
        self.preferred_asset.wf()
    }

    /// The preferred asset of each account that has one.
    pub closed spec fn preferences(&self) -> Map<AccountId, AssetId> {
        self.preferred_asset@
    }

    /// A component in which no account has a preference.
    pub fn new() -> (r: Self)
        ensures
            r.wf(),
            r.preferences() == Map::<AccountId, AssetId>::empty(),
    {
        Pallet { preferred_asset: StorageMap::new() }
    }

    /// The asset that `who` prefers, if the account has said so.
    pub fn preferred_asset(&self, who: &AccountId) -> (r: Option<AssetId>)
        requires
            self.wf(),
        ensures
            r == if self.preferences().contains_key(*who) {
                Some(self.preferences()[*who])
            } else {
                None
            },
    {
        match self.preferred_asset.get(who) {
            Some(asset) => Some(*asset),
            None => None,
        }
    }

    /// Records the asset of `asset` as the one that the account that signed the
    /// call prefers. Fails with `BadOrigin` where no account signed; nothing
    /// changes then.
    pub fn set_preferred_asset<Call, A: traits::FeeAssets<AssetId, Call>>(
        &mut self,
        origin: RuntimeOrigin,
        asset: A,
    ) -> (r: DispatchResult)
        requires
            old(self).wf(),
        ensures
            final(self).wf(),
            match origin {
                RuntimeOrigin::System(RawOrigin::Signed(who)) => r is Ok && final(
                    self).preferences() == old(self).preferences().insert(who, asset.asset_id()),
                _ => r == Err::<(), DispatchError>(DispatchError::BadOrigin) && final(
                    self).preferences() == old(self).preferences(),
            },
    {
        match ensure_signed(origin) {
            Err(_) => Err(DispatchError::BadOrigin),
            Ok(o) => {
                self.preferred_asset.insert(o, asset.get_asset_id());
                Ok(())
            },
        }
    }

    /// The fee to take from `who` for `call`, and the asset to take it in: the
    /// asset that the account prefers, as far as it can be used for the call, or
    /// the default asset where the account has no preference.
    pub fn withdraw_fee<Call, A: traits::FeeAssets<AssetId, Call>>(
        &self,
        who: &AccountId,
        call: &Call,
        fee: Balance,
    ) -> (r: LiquidityInfo<Balance, AssetId>)
        requires
            self.wf(),
        ensures
            r.fee == fee,
            r.asset_id == if self.preferences().contains_key(*who) {
                A::usable_for(self.preferences()[*who], call)
            } else {
                A::default_asset_id()
            },
    {
        let asset_id = match self.preferred_asset.get(who) {
            Some(a) => A::can_be_used(*a, call),
            None => A::default_asset(),
        };
        LiquidityInfo { fee, asset_id }
    }

    /// Splits the fee `paid` in advance into the part that is kept and the part
    /// that goes back to the payer, given the fee `corrected_fee` that is really
    /// due.
    pub fn correct_and_deposit_fee(paid: Balance, corrected_fee: Balance) -> (r: (Balance, Balance))
        ensures
            r == settled(paid, corrected_fee),
            r.0 + r.1 == paid,
    {
        if corrected_fee <= paid {
            (corrected_fee, paid - corrected_fee)
        } else {
            (paid, 0)
        }
    }
}

} // verus!
