//! From the address that a call names to the account that it means.

use vstd::prelude::*;
use crate::primitives::AccountId;

verus! {

/// The address names no account.
#[derive(Clone, Copy, Debug, PartialEq, Eq, Structural)]
pub struct LookupError;

/// An address: an account, or something that may stand for one.
#[derive(Debug, PartialEq, Eq)]
pub enum MultiAddress {
    /// An account.
    Id(AccountId),
    /// The index of an account.
    Index(u32),
    /// Some bytes.
    Raw(Vec<u8>),
    /// 32 bytes.
    Address32([u8; 32]),
    /// 20 bytes.
    Address20([u8; 20]),
}

/// A way from addresses to accounts.
pub trait StaticLookup {
    /// The addresses.
    type Source;

    /// The account that `s` means, if it means one.
    spec fn resolved(s: Self::Source) -> Option<AccountId>;

    fn lookup(s: Self::Source) -> (r: Result<AccountId, LookupError>)
        ensures
            r == match Self::resolved(s) {
                Some(account) => Ok::<AccountId, LookupError>(account),
                None => Err::<AccountId, LookupError>(LookupError),
            },
    ;
}

/// Every account is its own address.
pub struct IdentityLookup;

impl StaticLookup for IdentityLookup {
    type Source = AccountId;

    open spec fn resolved(s: AccountId) -> Option<AccountId> {
        Some(s)
    }

    fn lookup(s: AccountId) -> (r: Result<AccountId, LookupError>) {
        Ok(s)
    }
}

/// An address means an account where it is one.
pub struct AccountIdLookup;

/// The account that `x` is, if it is one.
pub open spec fn account_of(x: MultiAddress) -> Option<AccountId> {
    match x {
        MultiAddress::Id(account) => Some(account),
        _ => None,
    }
}

/// Resolves `x` with `sp_runtime::traits::AccountIdLookup::lookup`: an address
/// that is an account resolves to that account, and no other address resolves.
#[verifier::external_body]
fn account_id_lookup(x: MultiAddress) -> (r: Result<AccountId, LookupError>)
    ensures
        r == match account_of(x) {
            Some(account) => Ok::<AccountId, LookupError>(account),
            None => Err::<AccountId, LookupError>(LookupError),
        },
{
    let address: sp_runtime::MultiAddress<[u8; 32], u32> = match x {
        MultiAddress::Id(account) => sp_runtime::MultiAddress::Id(account.0),
        MultiAddress::Index(index) => sp_runtime::MultiAddress::Index(index),
        MultiAddress::Raw(bytes) => sp_runtime::MultiAddress::Raw(bytes),
        MultiAddress::Address32(bytes) => sp_runtime::MultiAddress::Address32(bytes),
        MultiAddress::Address20(bytes) => sp_runtime::MultiAddress::Address20(bytes),
    };
    match <sp_runtime::traits::AccountIdLookup<[u8; 32], u32> as sp_runtime::traits::StaticLookup>::lookup(
        address,
    ) {
        Ok(account) => Ok(AccountId(account)),
        Err(_) => Err(LookupError),
    }
}

impl StaticLookup for AccountIdLookup {
    type Source = MultiAddress;

    open spec fn resolved(s: MultiAddress) -> Option<AccountId> {
        account_of(s)
    }

    fn lookup(s: MultiAddress) -> (r: Result<AccountId, LookupError>) {
        account_id_lookup(s)
    }
}

} // verus!
