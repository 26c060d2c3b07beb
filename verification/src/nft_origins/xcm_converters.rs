//! From the place that a message comes from to the caller that it speaks for.

use vstd::prelude::*;
use crate::dispatch::RuntimeOrigin;
use crate::nft_origins::chains::ChainVerifier;
use crate::nft_origins::junction::{Junction, Junctions, MultiLocation, OriginKind};
use crate::nft_origins::location::{Chain, Collection, Nft, NftLocation};
use crate::nft_origins::origin::NftOrigin;

verus! {

/// Reads a place as a token.
pub struct NftMultilocationAsOrigin;

/// Reads a place as a chain that vouches for tokens.
pub struct VerifierMultilocationAsOrigin;

/// The token that `origin` names, if it names one natively: one step up, then
/// down through a parachain, its verifier, a contract of 20 bytes on no network
/// in particular, and the token's index.
pub open spec fn nft_of<C: ChainVerifier>(
    verifier: &C,
    origin: MultiLocation,
    kind: OriginKind,
) -> Option<NftLocation> {
    match (kind, origin) {
        (
            OriginKind::Native,
            MultiLocation {
                parents: 1,
                interior: Junctions::X4(
                    Junction::Parachain(para_id),
                    verifier_junction,
                    Junction::AccountKey20 { network: None, key: collection_key },
                    Junction::GeneralIndex(nft_id),
                ),
            },
        ) => match verifier.chain_from_verifier(para_id, verifier_junction) {
            Some(chain) => Some(
                NftLocation {
                    chain,
                    collection: Collection::Contract20(collection_key),
                    nft: Nft::U128Id(nft_id),
                },
            ),
            None => None,
        },
        _ => None,
    }
}

/// The vouching chain that `origin` names, if it names one natively: one step
/// up, then down through a parachain and its verifier.
pub open spec fn verifier_of<C: ChainVerifier>(
    verifier: &C,
    origin: MultiLocation,
    kind: OriginKind,
) -> Option<Chain> {
    match (kind, origin) {
        (
            OriginKind::Native,
            MultiLocation {
                parents: 1,
                interior: Junctions::X2(Junction::Parachain(para_id), verifier_junction),
            },
        ) => verifier.chain_from_verifier(para_id, verifier_junction),
        _ => None,
    }
}

impl NftMultilocationAsOrigin {
    /// The token that a message from `origin` speaks for, as a caller; or
    /// `origin` itself where it names no token that `verifier` knows.
    pub fn convert_origin<C: ChainVerifier>(verifier: &C, origin: MultiLocation, kind: OriginKind) -> (r:
        Result<RuntimeOrigin, MultiLocation>)
        requires
            verifier.usable(),
        ensures
            r == match nft_of(verifier, origin, kind) {
                Some(location) => Ok::<RuntimeOrigin, MultiLocation>(
                    RuntimeOrigin::NftOrigins(NftOrigin::Nft(location)),
                ),
                None => Err::<RuntimeOrigin, MultiLocation>(origin),
            },
    {
        match (kind, origin) {
            (
                OriginKind::Native,
                MultiLocation {
                    parents: 1,
                    interior: Junctions::X4(
                        Junction::Parachain(para_id),
                        verifier_junction,
                        Junction::AccountKey20 { network: None, key: collection_key },
                        Junction::GeneralIndex(nft_id),
                    ),
                },
            ) => match NftLocation::new_verified(
                verifier,
                para_id,
                verifier_junction,
                Collection::Contract20(collection_key),
                Nft::U128Id(nft_id),
            ) {
                Some(location) => Ok(RuntimeOrigin::NftOrigins(NftOrigin::Nft(location))),
                None => Err(origin),
            },
            (_, origin) => Err(origin),
        }
    }
}

impl VerifierMultilocationAsOrigin {
    /// The vouching chain that a message from `origin` speaks for, as a caller;
    /// or `origin` itself where it names no chain that `verifier` knows.
    pub fn convert_origin<C: ChainVerifier>(verifier: &C, origin: MultiLocation, kind: OriginKind) -> (r:
        Result<RuntimeOrigin, MultiLocation>)
        requires
            verifier.usable(),
        ensures
            r == match verifier_of(verifier, origin, kind) {
                Some(chain) => Ok::<RuntimeOrigin, MultiLocation>(
                    RuntimeOrigin::NftOrigins(NftOrigin::Verifier(chain)),
                ),
                None => Err::<RuntimeOrigin, MultiLocation>(origin),
            },
    {
        match (kind, origin) {
            (
                OriginKind::Native,
                MultiLocation {
                    parents: 1,
                    interior: Junctions::X2(Junction::Parachain(para_id), verifier_junction),
                },
            ) => match Chain::new_parachain_verified(verifier, para_id, verifier_junction) {
                Some(chain) => Ok(RuntimeOrigin::NftOrigins(NftOrigin::Verifier(chain))),
                None => Err(origin),
            },
            (_, origin) => Err(origin),
        }
    }
}

} // verus!
