//! The engine as a mathematical object: the cores, their ledger and the
//! proposals in flight, and what each call makes of them.

use vstd::prelude::*;
use crate::core_assets::ledger::Ledger;
use crate::core_assets::CurrencyId;
use crate::dispatch::{ArithmeticError, DispatchError, ModuleError, RuntimeOrigin};
use crate::inv4::fee_handling::{CoreCreation, CreationFee, FeeAsset};
use crate::inv4::origin::{core_account, voter_of, INV4Origin, MultisigInternalOrigin};
use crate::inv4::{Config, Error};
use crate::primitives::{AccountId, Balance, CoreId, Perbill, SubAssetId, H256};
use crate::storage::sum_values;

verus! {

/// A core, as the registry records it.
#[verifier::ext_equal]
pub struct CoreRecord {
    /// The core's account.
    pub account: AccountId,
    /// The core's metadata.
    pub metadata: Seq<u8>,
    /// The share of the issuance that must back a proposal.
    pub minimum_support: Perbill,
    /// The share of the votes cast that must be in favour. Votes are cast in
    /// favour only, so every tally meets it; what a proposal needs is the
    /// minimum support.
    pub required_approval: Perbill,
    /// Whether the core's tokens are kept from moving between accounts.
    pub frozen_tokens: bool,
}

/// A proposal that waits for more votes.
#[verifier::ext_equal]
pub struct Proposal {
    /// The call that is proposed, as it was handed in.
    pub stored_call: Seq<u8>,
    /// The asset in which the fee for the call is to be paid.
    pub fee_asset: FeeAsset,
    /// The weight of all votes in favour.
    pub yes_weight: Balance,
    /// Who has voted, each with the weight that the vote had when it was cast.
    pub voters: Map<AccountId, Balance>,
    /// Who has voted, in the order of the votes.
    pub order: Seq<AccountId>,
}

/// A call that the holders of a core have agreed on: the environment makes the
/// call with the core as its caller.
#[verifier::ext_equal]
pub struct Approved {
    /// The core that makes the call.
    pub origin: MultisigInternalOrigin,
    /// The call.
    pub call: Seq<u8>,
    /// The asset in which the fee for the call is to be paid.
    pub fee_asset: FeeAsset,
}

/// What has happened in the engine.
#[verifier::ext_equal]
#[allow(inconsistent_fields)]
pub enum Happened {
    CoreCreated {
        core_account: AccountId,
        metadata: Seq<u8>,
        core_id: CoreId,
        minimum_support: Perbill,
        required_approval: Perbill,
    },
    ParametersSet {
        core_id: CoreId,
        metadata: Option<Seq<u8>>,
        minimum_support: Option<Perbill>,
        required_approval: Option<Perbill>,
        frozen_tokens: Option<bool>,
    },
    MultisigVoteStarted {
        core_id: CoreId,
        voter: AccountId,
        votes_added: Balance,
        call_hash: H256,
    },
    MultisigVoteAdded {
        core_id: CoreId,
        voter: AccountId,
        votes_added: Balance,
        current_votes: Balance,
        call_hash: H256,
    },
    MultisigVoteWithdrawn {
        core_id: CoreId,
        voter: AccountId,
        votes_removed: Balance,
        call_hash: H256,
    },
    MultisigExecuted { core_id: CoreId, voter: AccountId, call_hash: H256 },
    MultisigCanceled { core_id: CoreId, call_hash: H256 },
    SubAssetCreated { core_id: CoreId, sub_asset: SubAssetId },
}

/// What the engine holds.
#[verifier::ext_equal]
pub struct State {
    /// The configured bounds and amounts.
    pub config: Config,
    /// The number that the next core gets.
    pub next_core_id: CoreId,
    /// The cores, by number.
    pub cores: Map<CoreId, CoreRecord>,
    /// The number of each core, by its account.
    pub core_by_account: Map<AccountId, CoreId>,
    /// The metadata of each share class under a core.
    pub sub_assets: Map<(CoreId, SubAssetId), Seq<u8>>,
    /// The proposals in flight, by core and by the hash of the call.
    pub proposals: Map<(CoreId, H256), Proposal>,
    /// The share ledger.
    pub ledger: Ledger,
    /// What has happened, oldest first.
    pub events: Seq<Happened>,
}

/// Picks every voter.
pub open spec fn any_voter() -> spec_fn(AccountId) -> bool {
    |who: AccountId| true
}

/// The error of a call that the caller may not make.
pub open spec fn inv4_error(e: Error) -> DispatchError {
    DispatchError::Module(ModuleError::Inv4(e))
}

impl Proposal {
    /// There is a vote; the voters listed are those that have a vote, each listed
    /// once; and the weight in favour is the sum of the weights of their votes.
    pub open spec fn wf(self) -> bool {
        &&& self.order.len() > 0
        &&& self.order.no_duplicates()
        &&& forall|who: AccountId| self.order.contains(who) <==> #[trigger] self.voters.contains_key(who)
        &&& self.yes_weight == self.tally()
    }

    /// The sum of the weights of the votes.
    pub open spec fn tally(self) -> nat {
        sum_values(self.order, self.voters, any_voter())
    }

    /// The proposal with the vote of `who`, of weight `weight`, besides the others.
    pub open spec fn with_vote(self, who: AccountId, weight: Balance) -> Proposal {
        Proposal {
            yes_weight: (self.yes_weight + weight) as Balance,
            voters: self.voters.insert(who, weight),
            order: self.order.push(who),
            ..self
        }
    }

    /// The proposal without the vote of `who`.
    pub open spec fn without_vote(self, who: AccountId) -> Proposal {
        Proposal {
            yes_weight: (self.yes_weight - self.voters[who]) as Balance,
            voters: self.voters.remove(who),
            order: self.order.remove(self.order.index_of(who)),
            ..self
        }
    }

    /// The proposal that `who` opens with a vote of weight `weight`.
    pub open spec fn opened(call: Seq<u8>, fee_asset: FeeAsset, who: AccountId, weight: Balance) -> Proposal {
        Proposal {
            stored_call: call,
            fee_asset,
            yes_weight: weight,
            voters: Map::<AccountId, Balance>::empty().insert(who, weight),
            order: Seq::<AccountId>::empty().push(who),
        }
    }
}

impl State {
    /// The engine is in order: the ledger and every proposal are; the balances of
    /// every token add up to its issuance; every core has a number below the next
    /// one and the account derived from its number; and the ledger keeps the
    /// tokens of a core from moving just when the core's record says so.
    pub open spec fn wf(self) -> bool {
        &&& self.ledger.wf()
        &&& forall|currency_id: CurrencyId| #[trigger] self.ledger.balanced(currency_id)
        &&& forall|key: (CoreId, H256)| #[trigger]
            self.proposals.contains_key(key) ==> self.proposals[key].wf()
        &&& forall|id: CoreId| #[trigger]
            self.cores.contains_key(id) ==> {
                &&& id < self.next_core_id
                &&& self.cores[id].account == core_account(id)
                &&& self.ledger.is_frozen(CurrencyId { core_id: id, sub_asset: None })
                    == self.cores[id].frozen_tokens
            }
    }

    /// Whether the tokens of the core `core_id` are frozen, if there is such a core.
    pub open spec fn is_asset_frozen(self, core_id: CoreId) -> Option<bool> {
        if self.cores.contains_key(core_id) {
            Some(self.cores[core_id].frozen_tokens)
        } else {
            None
        }
    }

    /// The engine with one more event.
    pub open spec fn with_event(self, event: Happened) -> State {
        State { events: self.events.push(event), ..self }
    }

    /// The fee that is due for the creation of a core, in `asset`.
    pub open spec fn creation_fee(self, asset: FeeAsset) -> Balance {
        match asset {
            FeeAsset::TNKR => self.config.core_creation_fee,
            FeeAsset::KSM => self.config.ksm_core_creation_fee,
        }
    }

    /// The fee that `creator` owes for the creation of a core, in `asset`.
    pub open spec fn fee_due(self, creator: AccountId, asset: FeeAsset) -> CreationFee {
        CreationFee { asset, payer: creator, amount: self.creation_fee(asset) }
    }

    /// What the creation of the next core comes to for `creator`.
    pub open spec fn creation(
        self,
        creator: AccountId,
        asset: FeeAsset,
        core_account: AccountId,
    ) -> CoreCreation {
        CoreCreation {
            core_id: self.next_core_id,
            core_account,
            fee: self.fee_due(creator, asset),
        }
    }

    /// The engine after `creator` has created a core, or the reason for which the
    /// core cannot be created: the metadata is too long, no number is left, or
    /// the seed balance cannot be minted. The thresholds are recorded as they are
    /// given, whatever they are.
    pub open spec fn create_core(
        self,
        creator: AccountId,
        metadata: Seq<u8>,
        minimum_support: Perbill,
        required_approval: Perbill,
        core_account: AccountId,
    ) -> Result<State, DispatchError> {
        let core_id = self.next_core_id;
        let share = CurrencyId { core_id, sub_asset: None };
        if metadata.len() > self.config.max_metadata {
            Err(inv4_error(Error::MaxMetadataExceeded))
        } else if core_id == CoreId::MAX {
            Err(inv4_error(Error::NoAvailableCoreId))
        } else {
            match self.ledger.mint(share, creator, self.config.core_seed_balance) {
                Err(e) => Err(e),
                Ok(minted) => Ok(
                    State {
                        next_core_id: (core_id + 1) as CoreId,
                        cores: self.cores.insert(
                            core_id,
                            CoreRecord {
                                account: core_account,
                                metadata,
                                minimum_support,
                                required_approval,
                                frozen_tokens: true,
                            },
                        ),
                        core_by_account: self.core_by_account.insert(core_account, core_id),
                        ledger: minted.with_frozen(core_id, true),
                        events: self.events.push(
                            Happened::CoreCreated {
                                core_account,
                                metadata,
                                core_id,
                                minimum_support,
                                required_approval,
                            },
                        ),
                        ..self
                    },
                ),
            }
        }
    }

    /// The record `core` with the parameters that are given replaced.
    pub open spec fn updated(
        core: CoreRecord,
        metadata: Option<Seq<u8>>,
        minimum_support: Option<Perbill>,
        required_approval: Option<Perbill>,
        frozen_tokens: Option<bool>,
    ) -> CoreRecord {
        CoreRecord {
            account: core.account,
            metadata: match metadata {
                Some(m) => m,
                None => core.metadata,
            },
            minimum_support: match minimum_support {
                Some(ms) => ms,
                None => core.minimum_support,
            },
            required_approval: match required_approval {
                Some(ra) => ra,
                None => core.required_approval,
            },
            frozen_tokens: match frozen_tokens {
                Some(f) => f,
                None => core.frozen_tokens,
            },
        }
    }

    /// The engine after a core has set its own parameters, or the reason for
    /// which it cannot: the caller is not a core, the core is not recorded, or
    /// the metadata is too long. A threshold that is given replaces the one that
    /// was there, whatever it is.
    pub open spec fn set_parameters(
        self,
        origin: RuntimeOrigin,
        metadata: Option<Seq<u8>>,
        minimum_support: Option<Perbill>,
        required_approval: Option<Perbill>,
        frozen_tokens: Option<bool>,
    ) -> Result<State, DispatchError> {
        match origin {
            RuntimeOrigin::Inv4(INV4Origin::Multisig(core_origin)) => {
                let core_id = core_origin.id;
                if !self.cores.contains_key(core_id) {
                    Err(inv4_error(Error::CoreNotFound))
                } else if metadata is Some && metadata->Some_0.len() > self.config.max_metadata {
                    Err(inv4_error(Error::MaxMetadataExceeded))
                } else {
                    Ok(
                        State {
                            cores: self.cores.insert(
                                core_id,
                                Self::updated(
                                    self.cores[core_id],
                                    metadata,
                                    minimum_support,
                                    required_approval,
                                    frozen_tokens,
                                ),
                            ),
                            ledger: match frozen_tokens {
                                Some(f) => self.ledger.with_frozen(core_id, f),
                                None => self.ledger,
                            },
                            events: self.events.push(
                                Happened::ParametersSet {
                                    core_id,
                                    metadata,
                                    minimum_support,
                                    required_approval,
                                    frozen_tokens,
                                },
                            ),
                            ..self
                        },
                    )
                }
            },
            _ => Err(DispatchError::BadOrigin),
        }
    }

    /// The engine after a signed call to move `amount` of `currency_id` to `dest`.
    pub open spec fn transfer(
        self,
        origin: RuntimeOrigin,
        dest: AccountId,
        currency_id: CurrencyId,
        amount: Balance,
    ) -> Result<State, DispatchError> {
        match self.ledger.signed_transfer(origin, Some(dest), currency_id, amount) {
            Ok(ledger) => Ok(State { ledger, ..self }),
            Err(e) => Err(e),
        }
    }

    /// The engine after a core has issued `amount` of its own share to `target`,
    /// or the reason for which it cannot: the caller is not a core, or the
    /// issuance or the balance would exceed the maximum.
    pub open spec fn token_mint(self, origin: RuntimeOrigin, amount: Balance, target: AccountId) -> Result<
        State,
        DispatchError,
    > {
        match origin {
            RuntimeOrigin::Inv4(INV4Origin::Multisig(core_origin)) => match self.ledger.mint(
                CurrencyId { core_id: core_origin.id, sub_asset: None },
                target,
                amount,
            ) {
                Ok(ledger) => Ok(State { ledger, ..self }),
                Err(e) => Err(e),
            },
            _ => Err(DispatchError::BadOrigin),
        }
    }

    /// The engine after a core has taken `amount` of its own share from `target`
    /// and out of the issuance, or the reason for which it cannot: the caller is
    /// not a core, or the issuance or the balance would fall below zero.
    pub open spec fn token_burn(self, origin: RuntimeOrigin, amount: Balance, target: AccountId) -> Result<
        State,
        DispatchError,
    > {
        match origin {
            RuntimeOrigin::Inv4(INV4Origin::Multisig(core_origin)) => match self.ledger.burn(
                CurrencyId { core_id: core_origin.id, sub_asset: None },
                target,
                amount,
            ) {
                Ok(ledger) => Ok(State { ledger, ..self }),
                Err(e) => Err(e),
            },
            _ => Err(DispatchError::BadOrigin),
        }
    }

    /// The weight that a proposal of the core of `scope` needs: the core's
    /// minimum support, taken of what has been issued of `scope` at this moment.
    pub open spec fn needed(self, scope: CurrencyId) -> nat {
        self.cores[scope.core_id].minimum_support.of(self.ledger.issuance(scope))
    }

    /// The call that is made once the proposal is agreed on.
    pub open spec fn approved(core_id: CoreId, call: Seq<u8>, fee_asset: FeeAsset) -> Approved {
        Approved { origin: MultisigInternalOrigin { id: core_id }, call, fee_asset }
    }

    /// The engine after the vote of `voter`, of weight `weight`, has been added
    /// to the proposal `key`, and the call to make if the proposal is now agreed
    /// on; or the reason for which the vote cannot be added.
    pub open spec fn add_vote(
        self,
        key: (CoreId, H256),
        voter: AccountId,
        weight: Balance,
        needed: nat,
    ) -> Result<(State, Option<Approved>), DispatchError> {
        let proposal = self.proposals[key];
        if proposal.voters.contains_key(voter) {
            Err(inv4_error(Error::AlreadyVoted))
        } else if proposal.yes_weight + weight > Balance::MAX {
            Err(DispatchError::Arithmetic(ArithmeticError::Overflow))
        } else if proposal.yes_weight + weight >= needed {
            Ok(
                (
                    State { proposals: self.proposals.remove(key), ..self }.with_event(
                        Happened::MultisigExecuted { core_id: key.0, voter, call_hash: key.1 },
                    ),
                    Some(Self::approved(key.0, proposal.stored_call, proposal.fee_asset)),
                ),
            )
        } else {
            Ok(
                (
                    State {
                        proposals: self.proposals.insert(key, proposal.with_vote(voter, weight)),
                        ..self
                    }.with_event(
                        Happened::MultisigVoteAdded {
                            core_id: key.0,
                            voter,
                            votes_added: weight,
                            current_votes: (proposal.yes_weight + weight) as Balance,
                            call_hash: key.1,
                        },
                    ),
                    None,
                ),
            )
        }
    }

    /// The engine after a member, an account that signed or a token, has put
    /// `call`, whose hash is `call_hash`, to the core of `scope`, and the call to
    /// make if it is agreed on at once; or the reason for which the call cannot
    /// be put. A token votes under the account through which it acts.
    ///
    /// A caller whose balance alone meets the threshold has the call made at
    /// once, and no proposal stays behind. Otherwise the caller's vote opens a
    /// proposal, or joins the one that is open for the same call.
    pub open spec fn operate(
        self,
        origin: RuntimeOrigin,
        fee_asset: FeeAsset,
        scope: CurrencyId,
        call: Seq<u8>,
        call_hash: H256,
    ) -> Result<(State, Option<Approved>), DispatchError> {
        match voter_of(origin) {
            Some(caller) => {
                let key = (scope.core_id, call_hash);
                let weight = self.ledger.balance(scope, caller);
                if !self.cores.contains_key(scope.core_id) {
                    Err(inv4_error(Error::CoreNotFound))
                } else if weight >= self.needed(scope) {
                    Ok(
                        (
                            State { proposals: self.proposals.remove(key), ..self }.with_event(
                                Happened::MultisigExecuted {
                                    core_id: scope.core_id,
                                    voter: caller,
                                    call_hash,
                                },
                            ),
                            Some(Self::approved(scope.core_id, call, fee_asset)),
                        ),
                    )
                } else if self.proposals.contains_key(key) {
                    self.add_vote(key, caller, weight, self.needed(scope))
                } else {
                    Ok(
                        (
                            State {
                                proposals: self.proposals.insert(
                                    key,
                                    Proposal::opened(call, fee_asset, caller, weight),
                                ),
                                ..self
                            }.with_event(
                                Happened::MultisigVoteStarted {
                                    core_id: scope.core_id,
                                    voter: caller,
                                    votes_added: weight,
                                    call_hash,
                                },
                            ),
                            None,
                        ),
                    )
                }
            },
            None => Err(DispatchError::BadOrigin),
        }
    }

    /// The engine after a holder has voted for the proposal `call_hash` of the
    /// core of `scope`, and the call to make if the proposal is now agreed on; or
    /// the reason for which the vote cannot be cast: there is no such proposal,
    /// or the caller has voted on it already.
    pub open spec fn vote(self, origin: RuntimeOrigin, scope: CurrencyId, call_hash: H256) -> Result<
        (State, Option<Approved>),
        DispatchError,
    > {
        match voter_of(origin) {
            Some(caller) => {
                let key = (scope.core_id, call_hash);
                if !self.proposals.contains_key(key) {
                    Err(inv4_error(Error::ProposalNotFound))
                } else if self.proposals[key].voters.contains_key(caller) {
                    Err(inv4_error(Error::AlreadyVoted))
                } else if !self.cores.contains_key(scope.core_id) {
                    Err(inv4_error(Error::CoreNotFound))
                } else {
                    self.add_vote(
                        key,
                        caller,
                        self.ledger.balance(scope, caller),
                        self.needed(scope),
                    )
                }
            },
            None => Err(DispatchError::BadOrigin),
        }
    }

    /// The engine after a holder has taken back the vote on the proposal
    /// `call_hash` of the core of `scope`; or the reason for which the vote
    /// cannot be taken back: there is no such proposal, or the caller has no vote
    /// on it. The tally goes down by the weight that the vote had when it was
    /// cast. A proposal that is left without votes is removed.
    pub open spec fn withdraw_vote(
        self,
        origin: RuntimeOrigin,
        scope: CurrencyId,
        call_hash: H256,
    ) -> Result<State, DispatchError> {
        match voter_of(origin) {
            Some(caller) => {
                let key = (scope.core_id, call_hash);
                if !self.proposals.contains_key(key) {
                    Err(inv4_error(Error::ProposalNotFound))
                } else if !self.proposals[key].voters.contains_key(caller) {
                    Err(inv4_error(Error::NotAVoter))
                } else {
                    let left = self.proposals[key].without_vote(caller);
                    let withdrawn = self.with_event(
                        Happened::MultisigVoteWithdrawn {
                            core_id: scope.core_id,
                            voter: caller,
                            votes_removed: self.proposals[key].voters[caller],
                            call_hash,
                        },
                    );
                    if left.order.len() == 0 {
                        Ok(
                            State {
                                proposals: self.proposals.remove(key),
                                ..withdrawn
                            }.with_event(
                                Happened::MultisigCanceled { core_id: scope.core_id, call_hash },
                            ),
                        )
                    } else {
                        Ok(State { proposals: self.proposals.insert(key, left), ..withdrawn })
                    }
                }
            },
            None => Err(DispatchError::BadOrigin),
        }
    }
}

} // verus!
