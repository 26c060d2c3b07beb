//! SCALE encodings of the tagged values from which accounts are derived.
//!
//! SCALE writes a fixed-width integer as its bytes in little-endian order, a
//! fixed-size byte array as its bytes, and a tuple as its fields one after another.

use vstd::prelude::*;

verus! {

/// The `n` low-order bytes of `x`, least significant first.
pub open spec fn le_bytes(x: nat, n: nat) -> Seq<u8>
    decreases n,
{
    if n == 0 {
        Seq::empty()
    } else {
        seq![(x % 256) as u8] + le_bytes(x / 256, (n - 1) as nat)
    }
}

/// The 32 bytes of a 256-bit number given as four 64-bit limbs, least significant first.
pub open spec fn u256_le_bytes(limbs: [u64; 4]) -> Seq<u8> {
    le_bytes(limbs[0] as nat, 8) + le_bytes(limbs[1] as nat, 8) + le_bytes(limbs[2] as nat, 8)
        + le_bytes(limbs[3] as nat, 8)
}

/// Encodes the pair `(tag, value)` with `parity_scale_codec::Encode::encode`: the
/// tag's bytes, then the four bytes of `value` in little-endian order.
#[verifier::external_body]
pub(crate) fn encode_tagged_u32<const N: usize>(tag: &[u8; N], value: u32) -> (r: Vec<u8>)
    ensures
        r@ == tag@ + le_bytes(value as nat, 4),
{
    parity_scale_codec::Encode::encode(&(tag, value))
}

/// Encodes the pair `(tag, value)` with `parity_scale_codec::Encode::encode`: the
/// tag's bytes, then the sixteen bytes of `value` in little-endian order.
#[verifier::external_body]
pub(crate) fn encode_tagged_u128<const N: usize>(tag: &[u8; N], value: u128) -> (r: Vec<u8>)
    ensures
        r@ == tag@ + le_bytes(value as nat, 16),
{
    parity_scale_codec::Encode::encode(&(tag, value))
}

/// Encodes the pair `(tag, value)` with `parity_scale_codec::Encode::encode`, the
/// value being `sp_core::U256` made of `limbs`: the tag's bytes, then the number's
/// 32 bytes in little-endian order.
#[verifier::external_body]
pub(crate) fn encode_tagged_u256<const N: usize>(tag: &[u8; N], limbs: [u64; 4]) -> (r: Vec<u8>)
    ensures
        r@ == tag@ + u256_le_bytes(limbs),
{
    parity_scale_codec::Encode::encode(&(tag, sp_core::U256(limbs)))
}

/// Encodes the pair `(tag, key)` with `parity_scale_codec::Encode::encode`: the
/// tag's bytes, then the key's bytes.
#[verifier::external_body]
pub(crate) fn encode_tagged_bytes<const N: usize, const M: usize>(
    tag: &[u8; N],
    key: [u8; M],
) -> (r: Vec<u8>)
    ensures
        r@ == tag@ + key@,
{
    parity_scale_codec::Encode::encode(&(tag, key))
}

/// Encodes the triple `(tag, value, account)` with
/// `parity_scale_codec::Encode::encode`: the tag's bytes, the four bytes of
/// `value` in little-endian order, then the account's 32 bytes.
#[verifier::external_body]
pub(crate) fn encode_tagged_u32_account<const N: usize>(
    tag: &[u8; N],
    value: u32,
    account: [u8; 32],
) -> (r: Vec<u8>)
    ensures
        r@ == tag@ + le_bytes(value as nat, 4) + account@,
{
    parity_scale_codec::Encode::encode(&(tag, value, account))
}

/// Encodes the pair `(salt, value)` with `parity_scale_codec::Encode::encode`: the
/// salt's 32 bytes, then the four bytes of `value` in little-endian order.
#[verifier::external_body]
pub(crate) fn encode_salted_u32(salt: [u8; 32], value: u32) -> (r: Vec<u8>)
    ensures
        r@ == salt@ + le_bytes(value as nat, 4),
{
    parity_scale_codec::Encode::encode(&(sp_core::H256(salt), value))
}

/// Encodes the triple `(salt, value, account)` with
/// `parity_scale_codec::Encode::encode`: the salt's 32 bytes, the four bytes of
/// `value` in little-endian order, then the account's 32 bytes.
#[verifier::external_body]
pub(crate) fn encode_salted_u32_account(salt: [u8; 32], value: u32, account: [u8; 32]) -> (r: Vec<
    u8,
>)
    ensures
        r@ == salt@ + le_bytes(value as nat, 4) + account@,
{
    parity_scale_codec::Encode::encode(&(sp_core::H256(salt), value, account))
}

/// Decodes 32 bytes of account identifier from `entropy` with
/// `parity_scale_codec::Decode::decode`, reading through
/// `sp_runtime::traits::TrailingZeroInput`. The input never runs out, so decoding
/// cannot fail; with 32 bytes of entropy the identifier is the entropy itself.
#[verifier::external_body]
pub(crate) fn decode_account(entropy: &[u8; 32]) -> (r: [u8; 32])
    ensures
        r == *entropy,
{
    let mut input = sp_runtime::traits::TrailingZeroInput::new(entropy.as_ref());
    match <[u8; 32] as parity_scale_codec::Decode>::decode(&mut input) {
        Ok(id) => id,
        Err(_) => [0u8; 32],
    }
}

} // verus!
