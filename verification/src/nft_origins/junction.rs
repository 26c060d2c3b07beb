//! Places in the network of chains, as far as calls made by tokens speak of them.

use vstd::prelude::*;
use crate::storage::{bytes_eq, StorageKey};

verus! {

/// A network of chains.
#[derive(Clone, Copy, Debug)]
pub enum NetworkId {
    ByGenesis([u8; 32]),
    ByFork { block_number: u64, block_hash: [u8; 32] },
    Polkadot,
    Kusama,
    Westend,
    Rococo,
    Wococo,
    Ethereum { chain_id: u64 },
    BitcoinCore,
    BitcoinCash,
}

impl PartialEq for NetworkId {
    fn eq(&self, other: &Self) -> (r: bool) {
        match (self, other) {
            (NetworkId::ByGenesis(a), NetworkId::ByGenesis(b)) => bytes_eq(a, b),
            (
                NetworkId::ByFork { block_number: n, block_hash: h },
                NetworkId::ByFork { block_number: m, block_hash: g },
            ) => *n == *m && bytes_eq(h, g),
            (NetworkId::Polkadot, NetworkId::Polkadot) => true,
            (NetworkId::Kusama, NetworkId::Kusama) => true,
            (NetworkId::Westend, NetworkId::Westend) => true,
            (NetworkId::Rococo, NetworkId::Rococo) => true,
            (NetworkId::Wococo, NetworkId::Wococo) => true,
            (NetworkId::Ethereum { chain_id: a }, NetworkId::Ethereum { chain_id: b }) => *a == *b,
            (NetworkId::BitcoinCore, NetworkId::BitcoinCore) => true,
            (NetworkId::BitcoinCash, NetworkId::BitcoinCash) => true,
            _ => false,
        }
    }
}

impl Eq for NetworkId {}

impl vstd::std_specs::cmp::PartialEqSpecImpl for NetworkId {
    open spec fn obeys_eq_spec() -> bool {
        true
    }

    open spec fn eq_spec(&self, other: &Self) -> bool {
        *self == *other
    }
}

/// A body of people on a chain.
#[derive(Clone, Copy, Debug)]
pub enum BodyId {
    Unit,
    Moniker([u8; 4]),
    Index(u32),
    Executive,
    Technical,
    Legislative,
    Judicial,
    Defense,
    Administration,
    Treasury,
}

impl PartialEq for BodyId {
    fn eq(&self, other: &Self) -> (r: bool) {
        match (self, other) {
            (BodyId::Unit, BodyId::Unit) => true,
            (BodyId::Moniker(a), BodyId::Moniker(b)) => bytes_eq(a, b),
            (BodyId::Index(a), BodyId::Index(b)) => *a == *b,
            (BodyId::Executive, BodyId::Executive) => true,
            (BodyId::Technical, BodyId::Technical) => true,
            (BodyId::Legislative, BodyId::Legislative) => true,
            (BodyId::Judicial, BodyId::Judicial) => true,
            (BodyId::Defense, BodyId::Defense) => true,
            (BodyId::Administration, BodyId::Administration) => true,
            (BodyId::Treasury, BodyId::Treasury) => true,
            _ => false,
        }
    }
}

impl Eq for BodyId {}

impl vstd::std_specs::cmp::PartialEqSpecImpl for BodyId {
    open spec fn obeys_eq_spec() -> bool {
        true
    }

    open spec fn eq_spec(&self, other: &Self) -> bool {
        *self == *other
    }
}

/// A part of a body.
#[derive(Clone, Copy, Debug, PartialEq, Eq, Structural)]
pub enum BodyPart {
    Voice,
    Members { count: u32 },
    Fraction { nom: u32, denom: u32 },
    AtLeastProportion { nom: u32, denom: u32 },
    MoreThanProportion { nom: u32, denom: u32 },
}

/// One step on the way to a place.
#[derive(Clone, Copy, Debug)]
pub enum Junction {
    Parachain(u32),
    AccountId32 { network: Option<NetworkId>, id: [u8; 32] },
    AccountIndex64 { network: Option<NetworkId>, index: u64 },
    AccountKey20 { network: Option<NetworkId>, key: [u8; 20] },
    PalletInstance(u8),
    GeneralIndex(u128),
    GeneralKey { length: u8, data: [u8; 32] },
    OnlyChild,
    Plurality { id: BodyId, part: BodyPart },
    GlobalConsensus(NetworkId),
}

fn network_eq(a: &Option<NetworkId>, b: &Option<NetworkId>) -> (r: bool)
    ensures
        r == (*a == *b),
{
    match (a, b) {
        (Some(x), Some(y)) => *x == *y,
        (None, None) => true,
        _ => false,
    }
}

impl PartialEq for Junction {
    fn eq(&self, other: &Self) -> (r: bool) {
        match (self, other) {
            (Junction::Parachain(a), Junction::Parachain(b)) => *a == *b,
            (
                Junction::AccountId32 { network: n, id: a },
                Junction::AccountId32 { network: m, id: b },
            ) => network_eq(n, m) && bytes_eq(a, b),
            (
                Junction::AccountIndex64 { network: n, index: a },
                Junction::AccountIndex64 { network: m, index: b },
            ) => network_eq(n, m) && *a == *b,
            (
                Junction::AccountKey20 { network: n, key: a },
                Junction::AccountKey20 { network: m, key: b },
            ) => network_eq(n, m) && bytes_eq(a, b),
            (Junction::PalletInstance(a), Junction::PalletInstance(b)) => *a == *b,
            (Junction::GeneralIndex(a), Junction::GeneralIndex(b)) => *a == *b,
            (
                Junction::GeneralKey { length: l, data: a },
                Junction::GeneralKey { length: k, data: b },
            ) => *l == *k && bytes_eq(a, b),
            (Junction::OnlyChild, Junction::OnlyChild) => true,
            (Junction::Plurality { id: a, part: p }, Junction::Plurality { id: b, part: q }) => *a
                == *b && *p == *q,
            (Junction::GlobalConsensus(a), Junction::GlobalConsensus(b)) => *a == *b,
            _ => false,
        }
    }
}

impl Eq for Junction {}

impl vstd::std_specs::cmp::PartialEqSpecImpl for Junction {
    open spec fn obeys_eq_spec() -> bool {
        true
    }

    open spec fn eq_spec(&self, other: &Self) -> bool {
        *self == *other
    }
}

impl StorageKey for Junction {
    fn key_eq(&self, other: &Self) -> (r: bool) {
        *self == *other
    }
}

/// The steps from a starting point down to a place.
#[derive(Clone, Copy, Debug)]
pub enum Junctions {
    Here,
    X1(Junction),
    X2(Junction, Junction),
    X3(Junction, Junction, Junction),
    X4(Junction, Junction, Junction, Junction),
    X5(Junction, Junction, Junction, Junction, Junction),
    X6(Junction, Junction, Junction, Junction, Junction, Junction),
    X7(Junction, Junction, Junction, Junction, Junction, Junction, Junction),
    X8(Junction, Junction, Junction, Junction, Junction, Junction, Junction, Junction),
}

/// A place, seen from where one stands: so many steps up, then the steps down.
#[derive(Clone, Copy, Debug)]
pub struct MultiLocation {
    pub parents: u8,
    pub interior: Junctions,
}

/// In what capacity a place asks for a call to be made.
#[derive(Clone, Copy, Debug, PartialEq, Eq, Structural)]
pub enum OriginKind {
    Native,
    SovereignAccount,
    Superuser,
    Xcm,
}

} // verus!
