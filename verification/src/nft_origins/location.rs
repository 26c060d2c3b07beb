//! Where a token lives: its chain, its collection and its identifier.

use vstd::prelude::*;
use crate::codec::{
    decode_account, encode_tagged_bytes, encode_tagged_u128, encode_tagged_u256, encode_tagged_u32,
    le_bytes, u256_le_bytes,
};
use crate::hashing::{blake2_256, blake2_256_digest};
use crate::nft_origins::chains::ChainVerifier;
use crate::nft_origins::junction::Junction;
use crate::primitives::AccountId;
use crate::storage::bytes_eq;

verus! {

/// A parachain, by its number.
#[derive(Clone, Copy, Debug, PartialEq, Eq, Structural)]
pub struct Parachain(pub u32);

/// A chain on which tokens live.
pub type Chain = Parachain;

impl Parachain {
    /// The parachain `para_id`, if `verifier` knows `verifier_junction` to speak for it.
    pub fn new_parachain_verified<C: ChainVerifier>(
        verifier: &C,
        para_id: u32,
        verifier_junction: Junction,
    ) -> (r: Option<Self>)
        requires
            verifier.usable(),
        ensures
            r == verifier.chain_from_verifier(para_id, verifier_junction),
    {
        verifier.get_chain_from_verifier(para_id, verifier_junction)
    }

    /// The number of the parachain.
    pub fn para_id(&self) -> (r: u32)
        ensures
            r == self.0,
    {
        self.0
    }
}

/// A 256-bit number: four 64-bit limbs, least significant first.
#[derive(Clone, Copy, Debug)]
pub struct U256(pub [u64; 4]);

impl PartialEq for U256 {
    fn eq(&self, other: &Self) -> (r: bool) {
        let r = self.0[0] == other.0[0] && self.0[1] == other.0[1] && self.0[2] == other.0[2]
            && self.0[3] == other.0[3];
        assert(r ==> self.0 =~= other.0);
        r
    }
}

impl Eq for U256 {}

impl vstd::std_specs::cmp::PartialEqSpecImpl for U256 {
    open spec fn obeys_eq_spec() -> bool {
        true
    }

    open spec fn eq_spec(&self, other: &Self) -> bool {
        *self == *other
    }
}

/// A collection of tokens.
#[derive(Clone, Copy, Debug)]
pub enum Collection {
    /// A collection kept by a pallet.
    Id(u128),
    /// A collection kept by an EVM contract.
    Contract20([u8; 20]),
    /// A collection kept by a WASM contract.
    Contract32([u8; 32]),
}

impl PartialEq for Collection {
    fn eq(&self, other: &Self) -> (r: bool) {
        match (self, other) {
            (Collection::Id(a), Collection::Id(b)) => *a == *b,
            (Collection::Contract20(a), Collection::Contract20(b)) => bytes_eq(a, b),
            (Collection::Contract32(a), Collection::Contract32(b)) => bytes_eq(a, b),
            _ => false,
        }
    }
}

impl Eq for Collection {}

impl vstd::std_specs::cmp::PartialEqSpecImpl for Collection {
    open spec fn obeys_eq_spec() -> bool {
        true
    }

    open spec fn eq_spec(&self, other: &Self) -> bool {
        *self == *other
    }
}

/// A token of a collection.
#[derive(Clone, Copy, Debug)]
pub enum Nft {
    /// A token with a 128-bit number.
    U128Id(u128),
    /// A token with a 256-bit number.
    U256Id(U256),
    /// A token with a key of 20 bytes.
    Key20([u8; 20]),
    /// A token with a key of 32 bytes.
    Key32([u8; 32]),
}

impl PartialEq for Nft {
    fn eq(&self, other: &Self) -> (r: bool) {
        match (self, other) {
            (Nft::U128Id(a), Nft::U128Id(b)) => *a == *b,
            (Nft::U256Id(a), Nft::U256Id(b)) => *a == *b,
            (Nft::Key20(a), Nft::Key20(b)) => bytes_eq(a, b),
            (Nft::Key32(a), Nft::Key32(b)) => bytes_eq(a, b),
            _ => false,
        }
    }
}

impl Eq for Nft {}

impl vstd::std_specs::cmp::PartialEqSpecImpl for Nft {
    open spec fn obeys_eq_spec() -> bool {
        true
    }

    open spec fn eq_spec(&self, other: &Self) -> bool {
        *self == *other
    }
}

/// Where a token lives.
#[derive(Clone, Copy, Debug)]
pub struct NftLocation {
    /// The chain on which the collection and the token live.
    pub chain: Parachain,
    /// The collection.
    pub collection: Collection,
    /// The token.
    pub nft: Nft,
}

impl PartialEq for NftLocation {
    fn eq(&self, other: &Self) -> (r: bool) {
        self.chain == other.chain && self.collection == other.collection && self.nft == other.nft
    }
}

impl Eq for NftLocation {}

impl vstd::std_specs::cmp::PartialEqSpecImpl for NftLocation {
    open spec fn obeys_eq_spec() -> bool {
        true
    }

    open spec fn eq_spec(&self, other: &Self) -> bool {
        *self == *other
    }
}

/// The bytes that stand for a chain in the derivation of an account.
pub open spec fn chain_bytes(chain: Parachain) -> Seq<u8> {
    seq![112u8, 97, 114, 97] + le_bytes(chain.0 as nat, 4)
}

/// The bytes that stand for a collection in the derivation of an account.
pub open spec fn collection_bytes(collection: Collection) -> Seq<u8> {
    match collection {
        Collection::Id(id) => seq![105u8, 100] + le_bytes(id as nat, 16),
        Collection::Contract20(key) => seq![99u8, 111, 110, 116, 114, 97, 99, 116, 50, 48] + key@,
        Collection::Contract32(key) => seq![99u8, 111, 110, 116, 114, 97, 99, 116, 51, 50] + key@,
    }
}

/// The bytes that stand for a token in the derivation of an account.
pub open spec fn nft_bytes(nft: Nft) -> Seq<u8> {
    match nft {
        Nft::U128Id(id) => seq![117u8, 49, 50, 56, 105, 100] + le_bytes(id as nat, 16),
        Nft::U256Id(id) => seq![117u8, 50, 53, 54, 105, 100] + u256_le_bytes(id.0),
        Nft::Key20(key) => seq![107u8, 101, 121, 50, 48] + key@,
        Nft::Key32(key) => seq![107u8, 101, 121, 51, 50] + key@,
    }
}

/// The account through which the token at `location` acts: the account whose 32
/// bytes are the digest of the token's chain, collection and identifier.
pub open spec fn nft_account(location: NftLocation) -> AccountId {
    choose|account: AccountId| account.0@ == blake2_256_digest(location.account_preimage())
}

impl NftLocation {
    /// The location of the token on the parachain `para_id`, if `verifier` knows
    /// `verifier_junction` to speak for that chain.
    pub fn new_verified<C: ChainVerifier>(
        verifier: &C,
        para_id: u32,
        verifier_junction: Junction,
        collection: Collection,
        nft: Nft,
    ) -> (r: Option<Self>)
        requires
            verifier.usable(),
        ensures
            r == match verifier.chain_from_verifier(para_id, verifier_junction) {
                Some(chain) => Some(NftLocation { chain, collection, nft }),
                None => None,
            },
    {
        match verifier.get_chain_from_verifier(para_id, verifier_junction) {
            Some(chain) => Some(NftLocation { chain, collection, nft }),
            None => None,
        }
    }

    /// The location made of its three parts.
    pub fn new(chain: Parachain, collection: Collection, nft: Nft) -> (r: Self)
        ensures
            r == (NftLocation { chain, collection, nft }),
    {
        NftLocation { chain, collection, nft }
    }

    /// The bytes that are hashed to derive the token's account.
    pub open spec fn account_preimage(self) -> Seq<u8> {
        chain_bytes(self.chain) + collection_bytes(self.collection) + nft_bytes(self.nft)
    }

    /// The account that the token acts through: the BLAKE2b digest of its chain,
    /// its collection and its identifier, each under its tag.
    pub fn derive_account(&self) -> (r: AccountId)
        ensures
            r.0@ == blake2_256_digest(self.account_preimage()),
            r == nft_account(*self),
    {
        let para: [u8; 4] = [112u8, 97, 114, 97];
        let mut bytes = encode_tagged_u32(&para, self.chain.para_id());
        assert(bytes@ =~= chain_bytes(self.chain));
        let collection = match self.collection {
            Collection::Id(id) => {
                let tag: [u8; 2] = [105u8, 100];
                let b = encode_tagged_u128(&tag, id);
                assert(b@ =~= collection_bytes(self.collection));
                b
            },
            Collection::Contract20(key) => {
                let tag: [u8; 10] = [99u8, 111, 110, 116, 114, 97, 99, 116, 50, 48];
                let b = encode_tagged_bytes(&tag, key);
                assert(b@ =~= collection_bytes(self.collection));
                b
            },
            Collection::Contract32(key) => {
                let tag: [u8; 10] = [99u8, 111, 110, 116, 114, 97, 99, 116, 51, 50];
                let b = encode_tagged_bytes(&tag, key);
                assert(b@ =~= collection_bytes(self.collection));
                b
            },
        };
        let nft = match self.nft {
            Nft::U128Id(id) => {
                let tag: [u8; 6] = [117u8, 49, 50, 56, 105, 100];
                let b = encode_tagged_u128(&tag, id);
                assert(b@ =~= nft_bytes(self.nft));
                b
            },
            Nft::U256Id(id) => {
                let tag: [u8; 6] = [117u8, 50, 53, 54, 105, 100];
                let b = encode_tagged_u256(&tag, id.0);
                assert(b@ =~= nft_bytes(self.nft));
                b
            },
            Nft::Key20(key) => {
                let tag: [u8; 5] = [107u8, 101, 121, 50, 48];
                let b = encode_tagged_bytes(&tag, key);
                assert(b@ =~= nft_bytes(self.nft));
                b
            },
            Nft::Key32(key) => {
                let tag: [u8; 5] = [107u8, 101, 121, 51, 50];
                let b = encode_tagged_bytes(&tag, key);
                assert(b@ =~= nft_bytes(self.nft));
                b
            },
        };
        bytes.extend_from_slice(collection.as_slice());
        bytes.extend_from_slice(nft.as_slice());
        assert(bytes@ =~= self.account_preimage());
        let entropy = blake2_256(bytes.as_slice());
        let r = AccountId(decode_account(&entropy));
        proof {
            let chosen = nft_account(*self);
            assert(chosen.0@ == r.0@);
            assert(chosen.0 =~= r.0);
        }
        r
    }
}

} // verus!
