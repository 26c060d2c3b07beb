//! The types that the components share.

use vstd::prelude::*;
use crate::storage::{bytes_eq, StorageKey};

pub mod utils;

verus! {

/// An amount of a token.
pub type Balance = u128;

/// The number of a core.
pub type CoreId = u32;

/// The number of a share class under a core.
pub type SubAssetId = u32;

/// The identifier of an account: 32 bytes.
#[derive(Clone, Copy, Debug)]
pub struct AccountId(pub [u8; 32]);

impl PartialEq for AccountId {
    fn eq(&self, other: &Self) -> (r: bool) {
        bytes_eq(&self.0, &other.0)
    }
}

impl Eq for AccountId {}

impl vstd::std_specs::cmp::PartialEqSpecImpl for AccountId {
    open spec fn obeys_eq_spec() -> bool {
        true
    }

    open spec fn eq_spec(&self, other: &Self) -> bool {
        *self == *other
    }
}

impl StorageKey for AccountId {
    fn key_eq(&self, other: &Self) -> (r: bool) {
        bytes_eq(&self.0, &other.0)
    }
}

/// A 256-bit digest.
#[derive(Clone, Copy, Debug)]
pub struct H256(pub [u8; 32]);

impl PartialEq for H256 {
    fn eq(&self, other: &Self) -> (r: bool) {
        bytes_eq(&self.0, &other.0)
    }
}

impl Eq for H256 {}

impl vstd::std_specs::cmp::PartialEqSpecImpl for H256 {
    open spec fn obeys_eq_spec() -> bool {
        true
    }

    open spec fn eq_spec(&self, other: &Self) -> bool {
        *self == *other
    }
}

impl StorageKey for H256 {
    fn key_eq(&self, other: &Self) -> (r: bool) {
        bytes_eq(&self.0, &other.0)
    }
}

/// A proportion in whole percent, never more than 100.
#[derive(Clone, Copy, Debug, PartialEq, Eq, Structural)]
pub struct Percent {
    parts: u8,
}

impl Percent {
    /// The number of percent that this proportion stands for.
    pub closed spec fn value(self) -> nat {
        if self.parts <= 100 {
            self.parts as nat
        } else {
            100
        }
    }

    /// The proportion of `x` percent; more than 100 counts as 100.
    pub fn from_percent(x: u8) -> (r: Self)
        ensures
            r.value() == if x <= 100 {
                x as nat
            } else {
                100
            },
    {
        Percent { parts: if x <= 100 { x } else { 100 } }
    }

    /// A proportion is never more than 100 percent.
    pub proof fn lemma_value_bound(self)
        ensures
            self.value() <= 100,
    {
    }

    /// The number of percent that this proportion stands for.
    pub fn deconstruct(self) -> (r: u8)
        ensures
            r == self.value(),
            r <= 100,
    {
        if self.parts <= 100 {
            self.parts
        } else {
            100
        }
    }
}

/// A proportion in parts per billion, never more than the whole.
#[derive(Clone, Copy, Debug, PartialEq, Eq, Structural)]
pub struct Perbill {
    parts: u32,
}

impl Perbill {
    /// The number of parts per billion that this proportion stands for.
    pub closed spec fn value(self) -> nat {
        if self.parts <= 1_000_000_000 {
            self.parts as nat
        } else {
            1_000_000_000
        }
    }

    /// A proportion is never more than the whole.
    pub proof fn lemma_value_bound(self)
        ensures
            self.value() <= 1_000_000_000,
    {
    }

    /// The proportion of `parts` parts per billion; more than a billion counts
    /// as the whole.
    pub fn from_parts(parts: u32) -> (r: Self)
        ensures
            r.value() == if parts <= 1_000_000_000 {
                parts as nat
            } else {
                1_000_000_000
            },
    {
        Perbill { parts: if parts <= 1_000_000_000 { parts } else { 1_000_000_000 } }
    }

    /// The proportion of `x` percent; more than 100 counts as the whole.
    pub fn from_percent(x: u32) -> (r: Self)
        ensures
            r.value() == if x <= 100 {
                x * 10_000_000
            } else {
                1_000_000_000
            },
    {
        Perbill { parts: if x <= 100 { x * 10_000_000 } else { 1_000_000_000 } }
    }

    /// The whole.
    pub fn one() -> (r: Self)
        ensures
            r.value() == 1_000_000_000,
    {
        Perbill { parts: 1_000_000_000 }
    }

    /// Nothing.
    pub fn zero() -> (r: Self)
        ensures
            r.value() == 0,
    {
        Perbill { parts: 0 }
    }

    /// The number of parts per billion that this proportion stands for.
    pub fn deconstruct(self) -> (r: u32)
        ensures
            r == self.value(),
            r <= 1_000_000_000,
    {
        if self.parts <= 1_000_000_000 {
            self.parts
        } else {
            1_000_000_000
        }
    }

    /// Whether this proportion is nothing.
    pub fn is_zero(self) -> (r: bool)
        ensures
            r == (self.value() == 0),
    {
        self.parts == 0
    }

    /// This proportion of `total`, rounded up: the least amount that is no less
    /// than the proportion.
    pub open spec fn of(self, total: Balance) -> nat {
        ((self.value() * total + 999_999_999) / 1_000_000_000) as nat
    }

    /// This proportion of `total`, rounded up.
    pub fn mul_ceil(self, total: Balance) -> (r: Balance)
        ensures
            r == self.of(total),
            r <= total,
    {
        let parts: u128 = self.deconstruct() as u128;
        let whole: u128 = total / 1_000_000_000;
        let rest: u128 = total % 1_000_000_000;
        assert(parts * whole <= 1_000_000_000 * whole) by (nonlinear_arith)
            requires
                parts <= 1_000_000_000,
        ;
        assert(parts * rest <= 1_000_000_000 * 999_999_999) by (nonlinear_arith)
            requires
                parts <= 1_000_000_000,
                rest <= 999_999_999,
        ;
        let low: u128 = (parts * rest + 999_999_999) / 1_000_000_000;
        assert(parts * whole + low == (parts * total + 999_999_999) / 1_000_000_000 && parts
            * whole + low <= total) by (nonlinear_arith)
            requires
                parts <= 1_000_000_000,
                total == 1_000_000_000 * whole + rest,
                0 <= rest <= 999_999_999,
                low == (parts * rest + 999_999_999) / 1_000_000_000,
        ;
        parts * whole + low
    }
}

/// A threshold: the whole, or a proportion of it.
#[derive(Clone, Copy, Debug, PartialEq, Eq, Structural)]
pub enum OneOrPercent {
    /// All of it.
    One,
    /// A proportion of it.
    ZeroPoint(Percent),
}

impl OneOrPercent {
    /// The least amount that meets this threshold of `total`: all of `total`, or
    /// the proportion of it, rounded up.
    pub open spec fn of(self, total: Balance) -> nat {
        match self {
            OneOrPercent::One => total as nat,
            OneOrPercent::ZeroPoint(p) => ((p.value() * total + 99) / 100) as nat,
        }
    }

    /// This threshold in parts per billion: all of them for the whole, ten
    /// million for each percent.
    pub open spec fn parts(self) -> nat {
        match self {
            OneOrPercent::One => 1_000_000_000,
            OneOrPercent::ZeroPoint(p) => p.value() * 10_000_000,
        }
    }

    /// This threshold as a proportion in parts per billion.
    pub fn ratio(self) -> (r: Perbill)
        ensures
            r.value() == self.parts(),
    {
        match self {
            OneOrPercent::One => Perbill::one(),
            OneOrPercent::ZeroPoint(p) => Perbill::from_percent(p.deconstruct() as u32),
        }
    }

    /// The least amount that meets this threshold of `total`.
    pub fn threshold(self, total: Balance) -> (needed: Balance)
        ensures
            needed == self.of(total),
            needed <= total,
    {
        match self {
            OneOrPercent::One => total,
            OneOrPercent::ZeroPoint(p) => {
                let parts: u128 = p.deconstruct() as u128;
                let whole: u128 = total / 100;
                let rest: u128 = total % 100;
                assert(parts * whole <= 100 * whole) by (nonlinear_arith)
                    requires
                        parts <= 100,
                ;
                assert(parts * rest <= 100 * 99) by (nonlinear_arith)
                    requires
                        parts <= 100,
                        rest <= 99,
                ;
                let low: u128 = (parts * rest + 99) / 100;
                assert(parts * whole + low == (parts * total + 99) / 100 && parts * whole + low
                    <= total) by (nonlinear_arith)
                    requires
                        parts <= 100,
                        total == 100 * whole + rest,
                        0 <= rest <= 99,
                        low == (parts * rest + 99) / 100,
                ;
                parts * whole + low
            },
        }
    }
}

/// Where an IP set stands among the others.
#[derive(Clone, Debug, PartialEq, Eq)]
pub enum Parentage<AccountId, IpsId> {
    /// A parent: the account of the set itself.
    Parent(AccountId),
    /// A child: the immediate parent, and the account of the topmost parent.
    Child(IpsId, AccountId),
}

/// The kind of an IP set.
#[derive(Clone, Debug, PartialEq, Eq)]
pub enum IpsType<IpsId> {
    /// An ordinary set.
    Normal,
    /// A replica of the set with this number.
    Replica(IpsId),
}

/// An IP set.
#[derive(Clone, Debug, PartialEq, Eq)]
pub struct IpsInfo<AccountId, Data, IpsMetadataOf, IpsId> {
    /// Where the set stands among the others.
    pub parentage: Parentage<AccountId, IpsId>,
    /// The set's metadata.
    pub metadata: IpsMetadataOf,
    /// What the set holds.
    pub data: Data,
    /// The kind of the set.
    pub ips_type: IpsType<IpsId>,
    /// Whether the set may be replicated.
    pub allow_replica: bool,
}

/// An IP file.
#[derive(Clone, Debug, PartialEq, Eq)]
pub struct IpfInfo<AccountId, Data, IpfMetadataOf> {
    /// The file's owner.
    pub owner: AccountId,
    /// The file's first author.
    pub author: AccountId,
    /// The file's metadata.
    pub metadata: IpfMetadataOf,
    /// The file's data.
    pub data: Data,
}

/// An IP token.
#[derive(Clone, Debug, PartialEq, Eq)]
pub struct IptInfo<AccountId, Balance> {
    /// The token's owner.
    pub owner: AccountId,
    /// The supply over all accounts.
    pub supply: Balance,
}

/// A share class under a token.
#[derive(Clone, Debug, PartialEq, Eq)]
pub struct SubIptInfo<IptId, SubAssetMetadata> {
    /// The number of the share class.
    pub id: IptId,
    /// The metadata of the share class.
    pub metadata: SubAssetMetadata,
}

/// An IP licence.
#[derive(Debug, PartialEq, Eq)]
pub struct IplInfo<AccountId, IplId, LicenseMetadata, Hash> {
    pub owner: AccountId,
    pub id: IplId,
    pub license: (LicenseMetadata, Hash),
    pub execution_threshold: OneOrPercent,
    pub default_asset_weight: OneOrPercent,
    pub default_permission: bool,
}

impl<AccountId: Clone, IplId: Clone, LicenseMetadata: Clone, Hash: Clone> Clone for IplInfo<
    AccountId,
    IplId,
    LicenseMetadata,
    Hash,
> {
    fn clone(&self) -> Self {
        IplInfo {
            owner: self.owner.clone(),
            id: self.id.clone(),
            license: (self.license.0.clone(), self.license.1.clone()),
            execution_threshold: self.execution_threshold,
            default_asset_weight: self.default_asset_weight,
            default_permission: self.default_permission,
        }
    }
}

/// The name of a call: its component and its function.
#[derive(Clone, Debug, PartialEq, Eq)]
pub struct CallInfo<Data> {
    pub pallet: Data,
    pub function: Data,
}

/// The number of a set or of a file.
#[derive(Clone, Debug, PartialEq, Eq)]
pub enum AnyId<IpsId, IpfId> {
    IpsId(IpsId),
    IpfId(IpfId),
}

/// A core: a shared account and the rules by which its holders decide.
#[derive(Clone, Debug, PartialEq, Eq)]
pub struct CoreInfo {
    /// The core's account, derived from its number.
    pub account: AccountId,
    /// The core's metadata.
    pub metadata: Vec<u8>,
    /// The share of the issuance that must back a proposal.
    pub minimum_support: Perbill,
    /// The share of the votes cast that must be in favour. Votes are cast in
    /// favour only, so every tally meets it; what a proposal needs is the
    /// minimum support.
    pub required_approval: Perbill,
    /// Whether the core's tokens are kept from moving between accounts.
    pub frozen_tokens: bool,
}

/// A list of licences, each with a name and the IPFS hash of its text.
pub trait LicenseList {
    type IpfsHash;

    type LicenseMetadata;

    fn get_hash_and_metadata(&self) -> (Self::LicenseMetadata, Self::IpfsHash);
}

/// The licences on offer.
#[derive(Clone, Debug, PartialEq, Eq)]
pub enum InvArchLicenses {
    Apache2,
    GPLv3,
    Custom(Vec<u8>, H256),
}

impl InvArchLicenses {
    /// The name of the licence.
    pub open spec fn metadata(self) -> Seq<u8> {
        match self {
            InvArchLicenses::Apache2 => seq![65u8, 112, 97, 99, 104, 97, 32, 118, 50, 46, 48],
            InvArchLicenses::GPLv3 => seq![71u8, 78, 85, 32, 71, 80, 76, 32, 118, 51],
            InvArchLicenses::Custom(metadata, _) => metadata@,
        }
    }

    /// The IPFS hash of the licence's text.
    pub open spec fn ipfs_hash(self) -> Seq<u8> {
        match self {
            InvArchLicenses::Apache2 => seq![
                7u8, 57, 92, 251, 234, 183, 217, 144, 220, 196, 201, 132, 176, 249, 18, 224, 237,
                201, 2, 113, 146, 78, 111, 152, 92, 71, 16, 228, 87, 39, 81, 142,
            ],
            InvArchLicenses::GPLv3 => seq![
                72u8, 7, 169, 24, 30, 7, 200, 69, 232, 27, 10, 138, 130, 253, 91, 158, 210, 95,
                127, 37, 85, 41, 106, 136, 66, 116, 64, 35, 252, 195, 69, 253,
            ],
            InvArchLicenses::Custom(_, hash) => hash.0@,
        }
    }
}

impl LicenseList for InvArchLicenses {
    type IpfsHash = H256;

    type LicenseMetadata = Vec<u8>;

    fn get_hash_and_metadata(&self) -> (r: (Vec<u8>, H256))
        ensures
            r.0@ == self.metadata(),
            r.1.0@ == self.ipfs_hash(),
    {
        match self {
            InvArchLicenses::Apache2 => {
                let name: Vec<u8> = vec![65u8, 112, 97, 99, 104, 97, 32, 118, 50, 46, 48];
                let hash: [u8; 32] = [
                    7u8, 57, 92, 251, 234, 183, 217, 144, 220, 196, 201, 132, 176, 249, 18, 224,
                    237, 201, 2, 113, 146, 78, 111, 152, 92, 71, 16, 228, 87, 39, 81, 142,
                ];
                assert(name@ =~= self.metadata());
                assert(hash@ =~= self.ipfs_hash());
                (name, H256(hash))
            },
            InvArchLicenses::GPLv3 => {
                let name: Vec<u8> = vec![71u8, 78, 85, 32, 71, 80, 76, 32, 118, 51];
                let hash: [u8; 32] = [
                    72u8, 7, 169, 24, 30, 7, 200, 69, 232, 27, 10, 138, 130, 253, 91, 158, 210,
                    95, 127, 37, 85, 41, 106, 136, 66, 116, 64, 35, 252, 195, 69, 253,
                ];
                assert(name@ =~= self.metadata());
                assert(hash@ =~= self.ipfs_hash());
                (name, H256(hash))
            },
            InvArchLicenses::Custom(metadata, hash) => (metadata.clone(), *hash),
        }
    }
}

} // verus!
