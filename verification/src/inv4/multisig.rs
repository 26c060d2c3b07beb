//! Proposals, votes and the moment at which a call is agreed on.

use vstd::prelude::*;
use crate::core_assets::CurrencyId;
use crate::dispatch::{
    ArithmeticError, DispatchError, DispatchResult, ModuleError, RuntimeOrigin,
};
use crate::hashing::{blake2_256, blake2_256_digest};
use crate::inv4::fee_handling::FeeAsset;
use crate::inv4::origin::{ensure_multisig_member, MultisigInternalOrigin};
use crate::inv4::state::{any_voter, Proposal};
use crate::inv4::{approved_of, Dispatch, Error, Event, MultisigOperation, Pallet};
use crate::primitives::{AccountId, Balance, CoreId, H256};
use crate::storage::{lemma_sum_values_push, lemma_sum_values_remove, StorageMap};

verus! {

/// The hash by which a call is known: the hash whose 32 bytes are the digest of
/// the call.
pub open spec fn call_hash(call: Seq<u8>) -> H256 {
    choose|hash: H256| hash.0@ == blake2_256_digest(call)
}

/// The hash by which `call` is known.
pub fn hash_call(call: &Vec<u8>) -> (r: H256)
    ensures
        r.0@ == blake2_256_digest(call@),
        r == call_hash(call@),
{
    let r = H256(blake2_256(call.as_slice()));
    proof {
        let chosen = call_hash(call@);
        assert(chosen.0@ == r.0@);
        assert(chosen.0 =~= r.0);
    }
    r
}

impl MultisigOperation {
    fn open(call: Vec<u8>, fee_asset: FeeAsset, voter: AccountId, weight: Balance) -> (r: Self)
        ensures
            r.voters.wf(),
            r@ == Proposal::opened(call@, fee_asset, voter, weight),
            r@.wf(),
    {
        let mut voters: StorageMap<AccountId, Balance> = StorageMap::new();
        voters.insert(voter, weight);
        let r = MultisigOperation { stored_call: call, fee_asset, yes_weight: weight, voters };
        proof {
            r.voters.lemma_keys();
            lemma_sum_values_push(
                Seq::<AccountId>::empty(),
                Map::<AccountId, Balance>::empty(),
                any_voter(),
                voter,
                weight,
            );
            assert(r@ =~= Proposal::opened(call@, fee_asset, voter, weight));
        }
        r
    }
}

impl Pallet {
    fn add_vote(&mut self, key: (CoreId, H256), voter: AccountId, weight: Balance, needed: Balance) -> (r:
        Result<Option<Dispatch>, DispatchError>)
        requires
            old(self).wf(),
            old(self)@.proposals.contains_key(key),
        ensures
            final(self).wf(),
            match old(self)@.add_vote(key, voter, weight, needed as nat) {
                Ok((after, approved)) => r is Ok && approved_of(r->Ok_0) == approved && final(self)@
                    == after,
                Err(e) => r == Err::<Option<Dispatch>, DispatchError>(e) && final(self)@ == old(
                    self)@,
            },
    {
        let (voted, yes_weight) = match self.multisig.get(&key) {
            Some(operation) => (operation.voters.contains_key(&voter), operation.yes_weight),
            None => (false, 0),
        };
        if voted {
            return Err(DispatchError::Module(ModuleError::Inv4(Error::AlreadyVoted)));
        }
        if yes_weight > Balance::MAX - weight {
            return Err(DispatchError::Arithmetic(ArithmeticError::Overflow));
        }
        let mut operation = self.multisig.remove(&key).unwrap();
        if yes_weight + weight >= needed {
            self.events.push(Event::MultisigExecuted { core_id: key.0, voter, call_hash: key.1 });
            proof {
                assert(self@ =~~= old(self)@.add_vote(key, voter, weight, needed as nat)->Ok_0.0);
            }
            Ok(
                Some(
                    Dispatch {
                        origin: MultisigInternalOrigin::new(key.0),
                        call: operation.stored_call,
                        fee_asset: operation.fee_asset,
                    },
                ),
            )
        } else {
            let ghost before = operation@;
            proof {
                operation.voters.lemma_keys();
                lemma_sum_values_push(
                    operation.voters.keys(),
                    operation.voters@,
                    any_voter(),
                    voter,
                    weight,
                );
            }
            operation.voters.insert(voter, weight);
            operation.yes_weight = yes_weight + weight;
            proof {
                operation.voters.lemma_keys();
                assert(operation@ =~= before.with_vote(voter, weight));
                assert(operation@.wf());
            }
            self.multisig.insert(key, operation);
            self.events.push(
                Event::MultisigVoteAdded {
                    core_id: key.0,
                    voter,
                    votes_added: weight,
                    current_votes: yes_weight + weight,
                    call_hash: key.1,
                },
            );
            proof {
                assert(self@ =~~= old(self)@.add_vote(key, voter, weight, needed as nat)->Ok_0.0);
            }
            Ok(None)
        }
    }

    /// Puts `call`, whose hash is `call_hash`, to the core of `scope` in the name
    /// of the member that calls: the account that signed, or for a token the
    /// account through which it acts. The caller's weight is what that account
    /// holds of `scope` now; the weight needed is the core's minimum support, taken of
    /// what has been issued of `scope` now.
    ///
    /// Where the caller's weight alone is enough, the call is handed back to be
    /// made at once and no proposal stays behind. Otherwise the vote opens a
    /// proposal that stores the call, or joins the proposal that is open for the
    /// same hash; where the votes are enough then, the stored call is handed back
    /// and the proposal removed.
    ///
    /// Fails with `BadOrigin` where the caller is no member, with `CoreNotFound` where
    /// there is no such core, with `AlreadyVoted` where the caller
    /// has a vote on the open proposal, and with `Overflow` where the tally would
    /// exceed the maximum; nothing changes then.
    pub fn operate_hashed(
        &mut self,
        origin: RuntimeOrigin,
        fee_asset: FeeAsset,
        scope: CurrencyId,
        call: Vec<u8>,
        call_hash: H256,
    ) -> (r: Result<Option<Dispatch>, DispatchError>)
        requires
            old(self).wf(),
        ensures
            final(self).wf(),
            match old(self)@.operate(origin, fee_asset, scope, call@, call_hash) {
                Ok((after, approved)) => r is Ok && approved_of(r->Ok_0) == approved && final(self)@
                    == after,
                Err(e) => r == Err::<Option<Dispatch>, DispatchError>(e) && final(self)@ == old(
                    self)@,
            },
    {
        let caller = match ensure_multisig_member(origin) {
            Ok(member) => member.account(),
            Err(_) => {
                return Err(DispatchError::BadOrigin);
            },
        };
        let key = (scope.core_id, call_hash);
        let minimum_support = match self.cores.get(&scope.core_id) {
            Some(c) => c.minimum_support,
            None => {
                return Err(DispatchError::Module(ModuleError::Inv4(Error::CoreNotFound)));
            },
        };
        let weight = self.assets.accounts(&caller, scope);
        let needed = minimum_support.mul_ceil(self.assets.total_issuance(scope));
        if weight >= needed {
            let _ = self.multisig.remove(&key);
            self.events.push(
                Event::MultisigExecuted { core_id: scope.core_id, voter: caller, call_hash },
            );
            proof {
                assert(self@ =~~= old(self)@.operate(
                    origin,
                    fee_asset,
                    scope,
                    call@,
                    call_hash,
                )->Ok_0.0);
            }
            return Ok(
                Some(Dispatch { origin: MultisigInternalOrigin::new(scope.core_id), call, fee_asset }),
            );
        }
        if self.multisig.contains_key(&key) {
            return self.add_vote(key, caller, weight, needed);
        }
        let operation = MultisigOperation::open(call, fee_asset, caller, weight);
        self.multisig.insert(key, operation);
        self.events.push(
            Event::MultisigVoteStarted {
                core_id: scope.core_id,
                voter: caller,
                votes_added: weight,
                call_hash,
            },
        );
        proof {
            assert(self@ =~~= old(self)@.operate(origin, fee_asset, scope, call@, call_hash)->Ok_0.0);
        }
        Ok(None)
    }

    /// Puts `call` to the core of `scope` in the name of the member that calls:
    /// hashes the call, and does with the hash what `operate_hashed` does.
    pub fn operate(
        &mut self,
        origin: RuntimeOrigin,
        fee_asset: FeeAsset,
        scope: CurrencyId,
        call: Vec<u8>,
    ) -> (r: Result<Option<Dispatch>, DispatchError>)
        requires
            old(self).wf(),
        ensures
            final(self).wf(),
            match old(self)@.operate(origin, fee_asset, scope, call@, call_hash(call@)) {
                Ok((after, approved)) => r is Ok && approved_of(r->Ok_0) == approved && final(self)@
                    == after,
                Err(e) => r == Err::<Option<Dispatch>, DispatchError>(e) && final(self)@ == old(
                    self)@,
            },
    {
        let hash = hash_call(&call);
        self.operate_hashed(origin, fee_asset, scope, call, hash)
    }

    /// Adds the vote of the member that calls to the proposal `call_hash` of the
    /// core of `scope`, with the weight that the member's account holds of
    /// `scope` now. Where the votes reach the weight needed, the stored call is handed
    /// back to be made and the proposal removed.
    ///
    /// Fails with `BadOrigin` where no account signed, with
    /// `ProposalNotFound` where there is no such proposal, with
    /// `AlreadyVoted` where the caller has a vote on it, with
    /// `CoreNotFound` where there is no such core, and with `Overflow` where the
    /// tally would exceed the maximum; nothing changes then.
    pub fn vote(&mut self, origin: RuntimeOrigin, scope: CurrencyId, call_hash: H256) -> (r: Result<
        Option<Dispatch>,
        DispatchError,
    >)
        requires
            old(self).wf(),
        ensures
            final(self).wf(),
            match old(self)@.vote(origin, scope, call_hash) {
                Ok((after, approved)) => r is Ok && approved_of(r->Ok_0) == approved && final(self)@
                    == after,
                Err(e) => r == Err::<Option<Dispatch>, DispatchError>(e) && final(self)@ == old(
                    self)@,
            },
    {
        let caller = match ensure_multisig_member(origin) {
            Ok(member) => member.account(),
            Err(_) => {
                return Err(DispatchError::BadOrigin);
            },
        };
        let key = (scope.core_id, call_hash);
        match self.multisig.get(&key) {
            None => {
                return Err(DispatchError::Module(ModuleError::Inv4(Error::ProposalNotFound)));
            },
            Some(operation) => {
                if operation.voters.contains_key(&caller) {
                    return Err(
                        DispatchError::Module(ModuleError::Inv4(Error::AlreadyVoted)),
                    );
                }
            },
        }
        let minimum_support = match self.cores.get(&scope.core_id) {
            Some(c) => c.minimum_support,
            None => {
                return Err(DispatchError::Module(ModuleError::Inv4(Error::CoreNotFound)));
            },
        };
        let weight = self.assets.accounts(&caller, scope);
        let needed = minimum_support.mul_ceil(self.assets.total_issuance(scope));
        self.add_vote(key, caller, weight, needed)
    }

    /// Takes the vote of the member that calls back from the proposal
    /// `call_hash` of the core of `scope`. The tally goes down by the weight that
    /// the vote had when it was cast, whatever the account holds now. A proposal
    /// that is left without votes is removed.
    ///
    /// Fails with `BadOrigin` where the caller is no member, with
    /// `ProposalNotFound` where there is no such proposal, and with
    /// `NotAVoter` where the caller has no vote on it; nothing changes then.
    pub fn withdraw_vote(&mut self, origin: RuntimeOrigin, scope: CurrencyId, call_hash: H256) -> (r:
        DispatchResult)
        requires
            old(self).wf(),
        ensures
            final(self).wf(),
            match old(self)@.withdraw_vote(origin, scope, call_hash) {
                Ok(after) => r is Ok && final(self)@ == after,
                Err(e) => r == Err::<(), DispatchError>(e) && final(self)@ == old(self)@,
            },
    {
        let caller = match ensure_multisig_member(origin) {
            Ok(member) => member.account(),
            Err(_) => {
                return Err(DispatchError::BadOrigin);
            },
        };
        let key = (scope.core_id, call_hash);
        match self.multisig.get(&key) {
            None => {
                return Err(DispatchError::Module(ModuleError::Inv4(Error::ProposalNotFound)));
            },
            Some(operation) => {
                if !operation.voters.contains_key(&caller) {
                    return Err(DispatchError::Module(ModuleError::Inv4(Error::NotAVoter)));
                }
            },
        }
        let mut operation = self.multisig.remove(&key).unwrap();
        let ghost before = operation@;
        proof {
            operation.voters.lemma_keys();
            let i = before.order.index_of(caller);
            assert(before.order.contains(caller));
            lemma_sum_values_remove(before.order, before.voters, any_voter(), i);
        }
        let weight = operation.voters.remove(&caller).unwrap();
        operation.yes_weight = operation.yes_weight - weight;
        proof {
            operation.voters.lemma_keys();
            assert(operation@ =~= before.without_vote(caller));
            assert(operation@.order.len() > 0 ==> operation@.wf());
        }
        self.events.push(
            Event::MultisigVoteWithdrawn {
                core_id: scope.core_id,
                voter: caller,
                votes_removed: weight,
                call_hash,
            },
        );
        if operation.voters.len() == 0 {
            self.events.push(Event::MultisigCanceled { core_id: scope.core_id, call_hash });
        } else {
            self.multisig.insert(key, operation);
        }
        proof {
            assert(self@ =~~= old(self)@.withdraw_vote(origin, scope, call_hash)->Ok_0);
        }
        Ok(())
    }
}

} // verus!
