//! Calls made by tokens that live on other chains.
//!
//! A chain that is registered here vouches for the tokens that live on it; a
//! call that such a chain passes on is made with the token as its caller.

use vstd::prelude::*;
use crate::dispatch::{DispatchError, DispatchResult, RuntimeOrigin};
use crate::nft_origins::chains::ChainVerifier;
use crate::nft_origins::junction::{Junction, Junctions, MultiLocation, OriginKind};
use crate::nft_origins::location::{Chain, Collection, Nft, NftLocation, Parachain};
use crate::nft_origins::origin::{ensure_nft, ensure_verifier, NftOrigin};
use crate::storage::StorageMap;

pub mod chains;
pub mod junction;
pub mod location;
pub mod origin;
pub mod xcm_converters;

verus! {

/// The errors of this component.
#[derive(Clone, Copy, Debug, PartialEq, Eq, Structural)]
pub enum Error {
    /// A message could not be sent.
    SendingFailed,
}

/// What has happened in this component.
#[derive(Clone, Copy, Debug, PartialEq, Eq)]
pub enum Event {
    /// A token made the test call.
    NftCalledTestFunction { nft_location: NftLocation },
}

/// A call to make, with the caller under which it is to be made.
#[derive(Debug, PartialEq, Eq)]
pub struct NftDispatch<Call> {
    /// The caller.
    pub origin: NftOrigin,
    /// The call.
    pub call: Call,
}

/// How much computation a call may take.
#[derive(Clone, Copy, Debug, PartialEq, Eq, Structural)]
pub struct Weight {
    pub ref_time: u64,
    pub proof_size: u64,
}

/// A message that asks another chain to make a call.
#[derive(Debug)]
pub struct Transact {
    /// In what capacity the sender asks.
    pub origin_kind: OriginKind,
    /// The most that the call may take.
    pub require_weight_at_most: Weight,
    /// The call, encoded.
    pub call: Vec<u8>,
}

/// A message to send: from where, to where, and what.
#[derive(Debug)]
pub struct Outbound {
    /// The place, below this chain, in whose name the message goes.
    pub interior: Junctions,
    /// The place to which the message goes.
    pub dest: MultiLocation,
    /// The message.
    pub message: Transact,
}

/// The chain to which the test messages go.
pub open spec fn test_destination() -> MultiLocation {
    MultiLocation { parents: 1, interior: Junctions::X1(Junction::Parachain(2125)) }
}

/// The most that a test call may take.
pub open spec fn test_weight() -> Weight {
    Weight { ref_time: 50000000, proof_size: 10000 }
}

/// The chains that vouch for tokens, and what their tokens have done here.
pub struct Pallet {
    registered_chains: StorageMap<Junction, Parachain>,
    events: Vec<Event>,
}

impl Pallet {
    /// The table of chains is in order.
    pub closed spec fn wf(&self) -> bool {
        self.registered_chains.wf()
    }

    /// The chain that each registered junction speaks for.
    pub closed spec fn registered(&self) -> Map<Junction, Parachain> {
        self.registered_chains@
    }

    /// What has happened, oldest first.
    pub closed spec fn happened(&self) -> Seq<Event> {
        self.events@
    }

    /// A component without registered chains.
    pub fn new() -> (r: Self)
        ensures
            r.wf(),
            r.registered() == Map::<Junction, Parachain>::empty(),
            r.happened() == Seq::<Event>::empty(),
    {
        Pallet { registered_chains: StorageMap::new(), events: Vec::new() }
    }

    /// What has happened, oldest first.
    pub fn events(&self) -> (r: &Vec<Event>)
        ensures
            r@ == self.happened(),
    {
        &self.events
    }

    /// The chain that `verifier` speaks for, if it is registered.
    pub fn get_registered_chain(&self, verifier: &Junction) -> (r: Option<Parachain>)
        requires
            self.wf(),
        ensures
            r == if self.registered().contains_key(*verifier) {
                Some(self.registered()[*verifier])
            } else {
                None
            },
    {
        match self.registered_chains.get(verifier) {
            Some(chain) => Some(*chain),
            None => None,
        }
    }

    /// Hands back `call` to be made with the token `nft` of `collection` as its
    /// caller, on the word of the chain that makes this call. Fails with
    /// `BadOrigin` where the caller is no vouching chain.
    pub fn dispatch_as_nft<Call>(verifier: RuntimeOrigin, collection: Collection, nft: Nft, call: Call) -> (r:
        Result<NftDispatch<Call>, DispatchError>)
        ensures
            r == match verifier {
                RuntimeOrigin::NftOrigins(NftOrigin::Verifier(chain)) => Ok::<
                    NftDispatch<Call>,
                    DispatchError,
                >(NftDispatch { origin: NftOrigin::Nft(NftLocation { chain, collection, nft }), call }),
                _ => Err::<NftDispatch<Call>, DispatchError>(DispatchError::BadOrigin),
            },
    {
        match ensure_verifier(verifier) {
            Err(_) => Err(DispatchError::BadOrigin),
            Ok(chain) => {
                let nft_location = NftLocation::new(chain, collection, nft);
                Ok(NftDispatch { origin: NftOrigin::Nft(nft_location), call })
            },
        }
    }

    /// Hands back the registered call `registered_call` to be made with the token
    /// `nft` of `collection` as its caller, on the word of the chain that makes
    /// this call. Fails with `BadOrigin` where the caller is no vouching chain.
    pub fn dispatch_registered_call_as_nft<Call>(
        verifier: RuntimeOrigin,
        collection: Collection,
        nft: Nft,
        registered_call: Call,
    ) -> (r: Result<NftDispatch<Call>, DispatchError>)
        ensures
            r == match verifier {
                RuntimeOrigin::NftOrigins(NftOrigin::Verifier(chain)) => Ok::<
                    NftDispatch<Call>,
                    DispatchError,
                >(
                    NftDispatch {
                        origin: NftOrigin::Nft(NftLocation { chain, collection, nft }),
                        call: registered_call,
                    },
                ),
                _ => Err::<NftDispatch<Call>, DispatchError>(DispatchError::BadOrigin),
            },
    {
        match ensure_verifier(verifier) {
            Err(_) => Err(DispatchError::BadOrigin),
            Ok(chain) => {
                let nft_location = NftLocation::new(chain, collection, nft);
                Ok(NftDispatch { origin: NftOrigin::Nft(nft_location), call: registered_call })
            },
        }
    }

    /// Registers `chain` as the chain that `verifier` speaks for, or with no
    /// chain takes the registration of `verifier` away. Any caller may.
    pub fn set_registered_chain(
        &mut self,
        _origin: RuntimeOrigin,
        verifier: Junction,
        chain: Option<Parachain>,
    ) -> (r: DispatchResult)
        requires
            old(self).wf(),
        ensures
            final(self).wf(),
            r is Ok,
            final(self).happened() == old(self).happened(),
            final(self).registered() == match chain {
                Some(c) => old(self).registered().insert(verifier, c),
                None => old(self).registered().remove(verifier),
            },
    {
        match chain {
            Some(c) => {
                self.registered_chains.insert(verifier, c);
            },
            None => {
                let _ = self.registered_chains.remove(&verifier);
            },
        }
        Ok(())
    }

    /// Records that the token that makes this call made it. Fails with
    /// `BadOrigin` where the caller is no token; nothing is recorded then.
    pub fn test_nft_location(&mut self, nft: RuntimeOrigin) -> (r: DispatchResult)
        requires
            old(self).wf(),
        ensures
            final(self).wf(),
            final(self).registered() == old(self).registered(),
            match nft {
                RuntimeOrigin::NftOrigins(NftOrigin::Nft(nft_location)) => r is Ok && final(
                    self).happened() == old(self).happened().push(
                    Event::NftCalledTestFunction { nft_location },
                ),
                _ => r == Err::<(), DispatchError>(DispatchError::BadOrigin) && final(self).happened()
                    == old(self).happened(),
            },
    {
        match ensure_nft(nft) {
            Err(_) => Err(DispatchError::BadOrigin),
            Ok(nft_location) => {
                self.events.push(Event::NftCalledTestFunction { nft_location });
                Ok(())
            },
        }
    }

    /// The message that asks the test chain to make `call` in the name of a
    /// token: the token's verifier, collection and identifier are the place in
    /// whose name it goes.
    pub fn test_send_xcm_as_nft(
        _origin: RuntimeOrigin,
        verifier: Junction,
        collection: Junction,
        nft: Junction,
        call: Vec<u8>,
    ) -> (r: Outbound)
        ensures
            r.interior == Junctions::X3(verifier, collection, nft),
            r.dest == test_destination(),
            r.message.origin_kind == OriginKind::Native,
            r.message.require_weight_at_most == test_weight(),
            r.message.call == call,
    {
        Outbound {
            interior: Junctions::X3(verifier, collection, nft),
            dest: MultiLocation { parents: 1, interior: Junctions::X1(Junction::Parachain(2125)) },
            message: Transact {
                origin_kind: OriginKind::Native,
                require_weight_at_most: Weight { ref_time: 50000000, proof_size: 10000 },
                call,
            },
        }
    }

    /// The message that asks the test chain to make `call` in the name of a
    /// vouching chain: the verifier is the place in whose name it goes.
    pub fn test_send_xcm_as_verifier(_origin: RuntimeOrigin, verifier: Junction, call: Vec<u8>) -> (r:
        Outbound)
        ensures
            r.interior == Junctions::X1(verifier),
            r.dest == test_destination(),
            r.message.origin_kind == OriginKind::Native,
            r.message.require_weight_at_most == test_weight(),
            r.message.call == call,
    {
        Outbound {
            interior: Junctions::X1(verifier),
            dest: MultiLocation { parents: 1, interior: Junctions::X1(Junction::Parachain(2125)) },
            message: Transact {
                origin_kind: OriginKind::Native,
                require_weight_at_most: Weight { ref_time: 50000000, proof_size: 10000 },
                call,
            },
        }
    }
}

impl ChainVerifier for Pallet {
    open spec fn usable(&self) -> bool {
        self.wf()
    }

    /// A registered junction speaks for its chain, where that is the chain asked
    /// about.
    open spec fn chain_from_verifier(&self, para_id_part: u32, verifier_part: Junction) -> Option<
        Chain,
    > {
        if self.registered().contains_key(verifier_part) && self.registered()[verifier_part].0
            == para_id_part {
            Some(self.registered()[verifier_part])
        } else {
            None
        }
    }

    fn get_chain_from_verifier(&self, para_id_part: u32, verifier_part: Junction) -> (r: Option<
        Chain,
    >) {
        match self.registered_chains.get(&verifier_part) {
            Some(chain) => if chain.0 == para_id_part {
                Some(*chain)
            } else {
                None
            },
            None => None,
        }
    }
}

} // verus!
