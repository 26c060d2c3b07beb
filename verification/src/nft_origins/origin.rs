//! The origins of calls made by tokens and by the chains that vouch for them.

use vstd::prelude::*;
use crate::dispatch::{BadOrigin, RuntimeOrigin};
use crate::nft_origins::location::{NftLocation, Parachain};

verus! {

/// A caller that is a token, or a chain that vouches for tokens.
#[derive(Clone, Copy, Debug)]
pub enum NftOrigin {
    Nft(NftLocation),
    Verifier(Parachain),
}

impl PartialEq for NftOrigin {
    fn eq(&self, other: &Self) -> (r: bool) {
        match (self, other) {
            (NftOrigin::Nft(a), NftOrigin::Nft(b)) => *a == *b,
            (NftOrigin::Verifier(a), NftOrigin::Verifier(b)) => a.0 == b.0,
            _ => false,
        }
    }
}

impl Eq for NftOrigin {}

impl vstd::std_specs::cmp::PartialEqSpecImpl for NftOrigin {
    open spec fn obeys_eq_spec() -> bool {
        true
    }

    open spec fn eq_spec(&self, other: &Self) -> bool {
        *self == *other
    }
}

/// The token that makes the call; `BadOrigin` for any other caller.
pub fn ensure_nft(o: RuntimeOrigin) -> (r: Result<NftLocation, BadOrigin>)
    ensures
        r == match o {
            RuntimeOrigin::NftOrigins(NftOrigin::Nft(location)) => Ok::<NftLocation, BadOrigin>(
                location,
            ),
            _ => Err::<NftLocation, BadOrigin>(BadOrigin),
        },
{
    match o {
        RuntimeOrigin::NftOrigins(NftOrigin::Nft(nft_location)) => Ok(nft_location),
        _ => Err(BadOrigin),
    }
}

/// The vouching chain that makes the call; `BadOrigin` for any other caller.
pub fn ensure_verifier(o: RuntimeOrigin) -> (r: Result<Parachain, BadOrigin>)
    ensures
        r == match o {
            RuntimeOrigin::NftOrigins(NftOrigin::Verifier(chain)) => Ok::<Parachain, BadOrigin>(
                chain,
            ),
            _ => Err::<Parachain, BadOrigin>(BadOrigin),
        },
{
    match o {
        RuntimeOrigin::NftOrigins(NftOrigin::Verifier(chain)) => Ok(chain),
        _ => Err(BadOrigin),
    }
}

} // verus!
