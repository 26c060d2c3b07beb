//! Which chains may vouch for tokens.

use vstd::prelude::*;
use crate::nft_origins::junction::Junction;
use crate::nft_origins::location::Chain;

verus! {

/// Knows which junction speaks for which chain.
pub trait ChainVerifier {
    /// The verifier is in order and can be asked.
    spec fn usable(&self) -> bool;

    /// The chain that `verifier_part` speaks for, if it is the chain numbered
    /// `para_id_part`.
    spec fn chain_from_verifier(&self, para_id_part: u32, verifier_part: Junction) -> Option<Chain>;

    fn get_chain_from_verifier(&self, para_id_part: u32, verifier_part: Junction) -> (r: Option<
        Chain,
    >)
        requires
            self.usable(),
        ensures
            r == self.chain_from_verifier(para_id_part, verifier_part),
    ;
}

} // verus!
