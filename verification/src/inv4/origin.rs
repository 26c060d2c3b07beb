//! The identity under which a core acts once its holders have agreed.

use vstd::prelude::*;
use crate::dispatch::{BadOrigin, RawOrigin, RuntimeOrigin};
use crate::hashing::blake2_256_digest;
use crate::nft_origins::location::{nft_account, NftLocation};
use crate::nft_origins::origin::NftOrigin;
use crate::primitives::utils::{account_preimage, multi_account_id};
use crate::primitives::{AccountId, CoreId};

verus! {

/// A caller that is a core.
#[derive(Clone, Copy, Debug, PartialEq, Eq, Structural)]
pub enum INV4Origin {
    Multisig(MultisigInternalOrigin),
}

/// The collective will of the core with this number.
#[derive(Clone, Copy, Debug, PartialEq, Eq, Structural)]
pub struct MultisigInternalOrigin {
    pub id: CoreId,
}

/// The bytes that are hashed to derive the account of the core `core_id`.
pub open spec fn core_account_preimage(core_id: CoreId) -> Seq<u8> {
    account_preimage(core_id, None)
}

/// The account of the core `core_id`: the account whose 32 bytes are the digest
/// of the core's number under the derivation tag.
pub open spec fn core_account(core_id: CoreId) -> AccountId {
    choose|account: AccountId| account.0@ == blake2_256_digest(core_account_preimage(core_id))
}

/// The account of the core `core_id`: a digest of the number alone, which anyone
/// can compute and for which no key signs.
pub fn derive_core_account(core_id: CoreId) -> (r: AccountId)
    ensures
        r.0@ == blake2_256_digest(core_account_preimage(core_id)),
        r == core_account(core_id),
{
    let r = multi_account_id(core_id, None);
    proof {
        let chosen = core_account(core_id);
        assert(chosen.0@ == r.0@);
        assert(chosen.0 =~= r.0);
    }
    r
}

impl MultisigInternalOrigin {
    /// The will of the core `id`.
    pub fn new(id: CoreId) -> (r: Self)
        ensures
            r.id == id,
    {
        MultisigInternalOrigin { id }
    }

    /// The account of the core.
    pub fn to_account_id(&self) -> (r: AccountId)
        ensures
            r.0@ == blake2_256_digest(core_account_preimage(self.id)),
            r == core_account(self.id),
    {
        derive_core_account(self.id)
    }
}

/// One who may vote in a core.
#[derive(Clone, Copy, Debug)]
pub enum MultisigMember {
    AccountId(AccountId),
    Nft(NftLocation),
}

impl MultisigMember {
    /// The account under which the member votes: the account itself, or the
    /// account through which the token acts. One member has one such account.
    pub open spec fn voter(self) -> AccountId {
        match self {
            MultisigMember::AccountId(account) => account,
            MultisigMember::Nft(location) => nft_account(location),
        }
    }

    /// The account under which the member votes.
    pub fn account(&self) -> (r: AccountId)
        ensures
            r == self.voter(),
    {
        match self {
            MultisigMember::AccountId(account) => *account,
            MultisigMember::Nft(location) => location.derive_account(),
        }
    }
}

/// The member that makes the call: the account that signed it, or the token
/// that makes it; none for any other caller.
pub open spec fn member_of(o: RuntimeOrigin) -> Option<MultisigMember> {
    match o {
        RuntimeOrigin::System(RawOrigin::Signed(account)) => Some(
            MultisigMember::AccountId(account),
        ),
        RuntimeOrigin::NftOrigins(NftOrigin::Nft(location)) => Some(MultisigMember::Nft(location)),
        _ => None,
    }
}

/// The account under which the caller votes, if the caller is a member.
pub open spec fn voter_of(o: RuntimeOrigin) -> Option<AccountId> {
    match member_of(o) {
        Some(member) => Some(member.voter()),
        None => None,
    }
}

/// The member that makes the call; `BadOrigin` for a caller that is neither an
/// account that signed nor a token.
pub fn ensure_multisig_member(o: RuntimeOrigin) -> (r: Result<MultisigMember, BadOrigin>)
    ensures
        r == match member_of(o) {
            Some(member) => Ok::<MultisigMember, BadOrigin>(member),
            None => Err::<MultisigMember, BadOrigin>(BadOrigin),
        },
{
    match ensure_multisig_member_account_id(o) {
        Ok(member) => Ok(member),
        Err(_) => ensure_multisig_member_nft(o),
    }
}

/// The core whose will the call carries; `BadOrigin` for any other caller.
pub fn ensure_multisig(o: RuntimeOrigin) -> (r: Result<MultisigInternalOrigin, BadOrigin>)
    ensures
        r == match o {
            RuntimeOrigin::Inv4(INV4Origin::Multisig(internal)) => Ok::<
                MultisigInternalOrigin,
                BadOrigin,
            >(internal),
            _ => Err::<MultisigInternalOrigin, BadOrigin>(BadOrigin),
        },
{
    match o {
        RuntimeOrigin::Inv4(INV4Origin::Multisig(internal)) => Ok(internal),
        _ => Err(BadOrigin),
    }
}

/// The member that signed the call; `BadOrigin` for any other caller.
pub fn ensure_multisig_member_account_id(o: RuntimeOrigin) -> (r: Result<
    MultisigMember,
    BadOrigin,
>)
    ensures
        r == match o {
            RuntimeOrigin::System(RawOrigin::Signed(account_id)) => Ok::<MultisigMember, BadOrigin>(
                MultisigMember::AccountId(account_id),
            ),
            _ => Err::<MultisigMember, BadOrigin>(BadOrigin),
        },
{
    match o {
        RuntimeOrigin::System(RawOrigin::Signed(account_id)) => Ok(
            MultisigMember::AccountId(account_id),
        ),
        _ => Err(BadOrigin),
    }
}

/// The member that is the token making the call; `BadOrigin` for any other caller.
pub fn ensure_multisig_member_nft(o: RuntimeOrigin) -> (r: Result<MultisigMember, BadOrigin>)
    ensures
        r == match o {
            RuntimeOrigin::NftOrigins(NftOrigin::Nft(nft)) => Ok::<MultisigMember, BadOrigin>(
                MultisigMember::Nft(nft),
            ),
            _ => Err::<MultisigMember, BadOrigin>(BadOrigin),
        },
{
    match o {
        RuntimeOrigin::NftOrigins(NftOrigin::Nft(nft)) => Ok(MultisigMember::Nft(nft)),
        _ => Err(BadOrigin),
    }
}

} // verus!
