//! Derivation of the keyless accounts.

use vstd::prelude::*;
use crate::codec::{decode_account, encode_tagged_u32, encode_tagged_u32_account, le_bytes};
use crate::hashing::{blake2_256, blake2_256_digest};
use crate::primitives::AccountId;

verus! {

/// The tag under which accounts are derived.
pub open spec fn account_tag() -> Seq<u8> {
    seq![109u8, 111, 100, 108, 112, 121, 47, 117, 116, 105, 108, 105, 115, 117, 98, 97]
}

/// The bytes that are hashed to derive the account of `ips_id`, on behalf of
/// `original_caller` where there is one.
pub open spec fn account_preimage(ips_id: u32, original_caller: Option<AccountId>) -> Seq<u8> {
    match original_caller {
        Some(caller) => account_tag() + le_bytes(ips_id as nat, 4) + caller.0@,
        None => account_tag() + le_bytes(ips_id as nat, 4),
    }
}

/// The account derived from `ips_id`, on behalf of `original_caller` where there
/// is one: the BLAKE2b digest of the tag, the number and the caller. No key
/// signs for such an account.
pub fn multi_account_id(ips_id: u32, original_caller: Option<AccountId>) -> (r: AccountId)
    ensures
        r.0@ == blake2_256_digest(account_preimage(ips_id, original_caller)),
{
    let tag: [u8; 16] = [
        109u8, 111, 100, 108, 112, 121, 47, 117, 116, 105, 108, 105, 115, 117, 98, 97,
    ];
    assert(tag@ =~= account_tag());
    let preimage = match original_caller {
        Some(caller) => encode_tagged_u32_account(&tag, ips_id, caller.0),
        None => encode_tagged_u32(&tag, ips_id),
    };
    let entropy = blake2_256(preimage.as_slice());
    AccountId(decode_account(&entropy))
}

} // verus!
