//! The assets in which fees can be paid.

use vstd::prelude::*;

verus! {

/// The assets in which fees can be paid.
pub trait FeeAssets<AssetId, Call> {
    /// The asset in which a payer without a preference pays.
    spec fn default_asset_id() -> AssetId;

    /// The asset in which the fee for `call` is paid by one who prefers `asset_id`.
    spec fn usable_for(asset_id: AssetId, call: &Call) -> AssetId;

    /// The asset that this value stands for.
    spec fn asset_id(&self) -> AssetId;

    fn default_asset() -> (r: AssetId)
        ensures
            r == Self::default_asset_id(),
    ;

    fn can_be_used(asset_id: AssetId, call: &Call) -> (r: AssetId)
        ensures
            r == Self::usable_for(asset_id, call),
    ;

    fn get_asset_id(&self) -> (r: AssetId)
        ensures
            r == self.asset_id(),
    ;
}

} // verus!
