//! The 256-bit BLAKE2b digest, computed by the runtime's hashing interface.

use vstd::prelude::*;

verus! {

/// The 256-bit BLAKE2b digest of `data`: 32 bytes that depend on `data` alone.
pub uninterp spec fn blake2_256_digest(data: Seq<u8>) -> Seq<u8>;

/// Hashes `data` with `sp_io::hashing::blake2_256`. The digest is taken on trust to
/// be the one that `blake2_256_digest` names: nothing more is claimed of it.
#[verifier::external_body]
pub(crate) fn blake2_256(data: &[u8]) -> (digest: [u8; 32])
    ensures
        digest@ == blake2_256_digest(data@),
{
    sp_io::hashing::blake2_256(data)
}

} // verus!
