//! Cores: shared accounts that act by the weighted vote of their holders.
//!
//! A core has a number, an account derived from that number and a share of its
//! own. Holders of the share put calls to the core and vote on them; a call
//! whose votes reach the core's threshold is handed back to the environment to
//! be made with the core as its caller.

use vstd::prelude::*;
use crate::inv4::fee_handling::FeeAsset;
use crate::inv4::origin::MultisigInternalOrigin;
use crate::inv4::state::{Approved, CoreRecord, Happened, Proposal, State};
use crate::primitives::{AccountId, Balance, CoreId, CoreInfo, Perbill, SubAssetId, H256};
use crate::storage::{StorageKey, StorageMap};

pub mod fee_handling;
pub mod inv4_core;
pub mod laws;
pub mod multisig;
pub mod origin;
pub mod state;
pub mod sub_assets;
pub mod traits;

verus! {

/// The errors of this component.
#[derive(Clone, Copy, Debug, PartialEq, Eq, Structural)]
pub enum Error {
    /// No core number is left to give out.
    NoAvailableCoreId,
    /// There is no core with this number.
    CoreNotFound,
    /// The metadata is longer than the bound allows.
    MaxMetadataExceeded,
    /// There is no proposal for this call.
    ProposalNotFound,
    /// The caller has voted on this proposal already.
    AlreadyVoted,
    /// The caller has no vote on this proposal.
    NotAVoter,
    /// The core has a share class with this number already.
    SubAssetAlreadyExists,
}

/// The configured bounds and amounts.
#[derive(Clone, Copy, Debug, PartialEq, Eq, Structural)]
pub struct Config {
    /// The greatest length of a core's or a share class's metadata, in bytes.
    pub max_metadata: u32,
    /// The amount of its own share that a new core mints to its creator.
    pub core_seed_balance: Balance,
    /// The fee for creating a core, in the chain's own token.
    pub core_creation_fee: Balance,
    /// The fee for creating a core, in the relay chain's token.
    pub ksm_core_creation_fee: Balance,
}

/// What has happened in the engine.
#[derive(Clone, Debug, PartialEq, Eq)]
pub enum Event {
    /// A core was created.
    CoreCreated {
        core_account: AccountId,
        metadata: Vec<u8>,
        core_id: CoreId,
        minimum_support: Perbill,
        required_approval: Perbill,
    },
    /// A core set its parameters.
    ParametersSet {
        core_id: CoreId,
        metadata: Option<Vec<u8>>,
        minimum_support: Option<Perbill>,
        required_approval: Option<Perbill>,
        frozen_tokens: Option<bool>,
    },
    /// A proposal was opened with a first vote.
    MultisigVoteStarted { core_id: CoreId, voter: AccountId, votes_added: Balance, call_hash: H256 },
    /// A vote was added to a proposal.
    MultisigVoteAdded {
        core_id: CoreId,
        voter: AccountId,
        votes_added: Balance,
        current_votes: Balance,
        call_hash: H256,
    },
    /// A vote was taken back from a proposal.
    MultisigVoteWithdrawn {
        core_id: CoreId,
        voter: AccountId,
        votes_removed: Balance,
        call_hash: H256,
    },
    /// A call was agreed on and handed out to be made.
    MultisigExecuted { core_id: CoreId, voter: AccountId, call_hash: H256 },
    /// A proposal was left without votes and removed.
    MultisigCanceled { core_id: CoreId, call_hash: H256 },
    /// A share class was created under a core.
    SubAssetCreated { core_id: CoreId, sub_asset: SubAssetId },
}

impl View for Event {
    type V = Happened;

    open spec fn view(&self) -> Happened {
        match *self {
            Event::CoreCreated {
                core_account,
                metadata,
                core_id,
                minimum_support,
                required_approval,
            } => Happened::CoreCreated {
                core_account,
                metadata: metadata@,
                core_id,
                minimum_support,
                required_approval,
            },
            Event::ParametersSet {
                core_id,
                metadata,
                minimum_support,
                required_approval,
                frozen_tokens,
            } => Happened::ParametersSet {
                core_id,
                metadata: match metadata {
                    Some(m) => Some(m@),
                    None => None,
                },
                minimum_support,
                required_approval,
                frozen_tokens,
            },
            Event::MultisigVoteStarted {
                core_id,
                voter,
                votes_added,
                call_hash,
            } => Happened::MultisigVoteStarted { core_id, voter, votes_added, call_hash },
            Event::MultisigVoteAdded {
                core_id,
                voter,
                votes_added,
                current_votes,
                call_hash,
            } => Happened::MultisigVoteAdded {
                core_id,
                voter,
                votes_added,
                current_votes,
                call_hash,
            },
            Event::MultisigVoteWithdrawn {
                core_id,
                voter,
                votes_removed,
                call_hash,
            } => Happened::MultisigVoteWithdrawn { core_id, voter, votes_removed, call_hash },
            Event::MultisigExecuted { core_id, voter, call_hash } => Happened::MultisigExecuted {
                core_id,
                voter,
                call_hash,
            },
            Event::MultisigCanceled { core_id, call_hash } => Happened::MultisigCanceled {
                core_id,
                call_hash,
            },
            Event::SubAssetCreated { core_id, sub_asset } => Happened::SubAssetCreated {
                core_id,
                sub_asset,
            },
        }
    }
}

/// A call that the holders of a core have agreed on. The environment makes the
/// call with `origin` as its caller, whatever comes of the call.
#[derive(Clone, Debug, PartialEq, Eq)]
pub struct Dispatch {
    /// The core that makes the call.
    pub origin: MultisigInternalOrigin,
    /// The call.
    pub call: Vec<u8>,
    /// The asset in which the fee for the call is to be paid.
    pub fee_asset: FeeAsset,
}

impl View for Dispatch {
    type V = Approved;

    open spec fn view(&self) -> Approved {
        Approved { origin: self.origin, call: self.call@, fee_asset: self.fee_asset }
    }
}

/// The view of what a call hands back: the call to make, if one was agreed on.
pub open spec fn approved_of(dispatch: Option<Dispatch>) -> Option<Approved> {
    match dispatch {
        Some(d) => Some(d@),
        None => None,
    }
}

/// A proposal that waits for more votes.
pub struct MultisigOperation {
    stored_call: Vec<u8>,
    fee_asset: FeeAsset,
    yes_weight: Balance,
    voters: StorageMap<AccountId, Balance>,
}

impl View for MultisigOperation {
    type V = Proposal;

    closed spec fn view(&self) -> Proposal {
        Proposal {
            stored_call: self.stored_call@,
            fee_asset: self.fee_asset,
            yes_weight: self.yes_weight,
            voters: self.voters@,
            order: self.voters.keys(),
        }
    }
}

impl StorageKey for (CoreId, H256) {
    fn key_eq(&self, other: &Self) -> (r: bool) {
        self.0 == other.0 && self.1.key_eq(&other.1)
    }
}

/// The record of `core`.
pub open spec fn record_of(core: CoreInfo) -> CoreRecord {
    CoreRecord {
        account: core.account,
        metadata: core.metadata@,
        minimum_support: core.minimum_support,
        required_approval: core.required_approval,
        frozen_tokens: core.frozen_tokens,
    }
}

/// The engine.
pub struct Pallet {
    config: Config,
    next_core_id: CoreId,
    cores: StorageMap<CoreId, CoreInfo>,
    core_by_account: StorageMap<AccountId, CoreId>,
    sub_assets: StorageMap<(CoreId, SubAssetId), Vec<u8>>,
    multisig: StorageMap<(CoreId, H256), MultisigOperation>,
    assets: crate::core_assets::Pallet,
    events: Vec<Event>,
}

impl View for Pallet {
    type V = State;

    closed spec fn view(&self) -> State {
        State {
            config: self.config,
            next_core_id: self.next_core_id,
            cores: Map::new(
                |id: CoreId| self.cores@.contains_key(id),
                |id: CoreId| record_of(self.cores@[id]),
            ),
            core_by_account: self.core_by_account@,
            sub_assets: Map::new(
                |key: (CoreId, SubAssetId)| self.sub_assets@.contains_key(key),
                |key: (CoreId, SubAssetId)| self.sub_assets@[key]@,
            ),
            proposals: Map::new(
                |key: (CoreId, H256)| self.multisig@.contains_key(key),
                |key: (CoreId, H256)| self.multisig@[key]@,
            ),
            ledger: self.assets@,
            events: Seq::new(self.events@.len(), |i: int| self.events@[i]@),
        }
    }
}

impl Pallet {
    /// The tables of the engine are in order.
    pub closed spec fn inv(&self) -> bool {
        &&& self.cores.wf()
        &&& self.core_by_account.wf()
        &&& self.sub_assets.wf()
        &&& self.multisig.wf()
        &&& self.assets.wf()
        &&& forall|key: (CoreId, H256)| #[trigger]
            self.multisig@.contains_key(key) ==> self.multisig@[key].voters.wf()
    }

    /// The engine is in order, and so is what it holds.
    pub open spec fn wf(&self) -> bool {
        &&& self.inv()
        &&& self@.wf()
    }

    /// An engine without cores, with an empty ledger, in which the first core
    /// gets the number 0.
    pub fn new(config: Config) -> (r: Self)
        ensures
            r.wf(),
            r@.config == config,
            r@.next_core_id == 0,
            r@.cores == Map::<CoreId, CoreRecord>::empty(),
            r@.core_by_account == Map::<AccountId, CoreId>::empty(),
            r@.sub_assets == Map::<(CoreId, SubAssetId), Seq<u8>>::empty(),
            r@.proposals == Map::<(CoreId, H256), Proposal>::empty(),
            r@.ledger == crate::core_assets::ledger::Ledger::empty(),
            r@.events == Seq::<Happened>::empty(),
    {
        Self::starting_at(config, 0)
    }

    /// An engine without cores, with an empty ledger, in which the first core
    /// gets the number `next_core_id`.
    pub fn starting_at(config: Config, next_core_id: CoreId) -> (r: Self)
        ensures
            r.wf(),
            r@.config == config,
            r@.next_core_id == next_core_id,
            r@.cores == Map::<CoreId, CoreRecord>::empty(),
            r@.core_by_account == Map::<AccountId, CoreId>::empty(),
            r@.sub_assets == Map::<(CoreId, SubAssetId), Seq<u8>>::empty(),
            r@.proposals == Map::<(CoreId, H256), Proposal>::empty(),
            r@.ledger == crate::core_assets::ledger::Ledger::empty(),
            r@.events == Seq::<Happened>::empty(),
    {
        let r = Pallet {
            config,
            next_core_id,
            cores: StorageMap::new(),
            core_by_account: StorageMap::new(),
            sub_assets: StorageMap::new(),
            multisig: StorageMap::new(),
            assets: crate::core_assets::Pallet::new(),
            events: Vec::new(),
        };
        proof {
            assert(r@.cores =~= Map::<CoreId, CoreRecord>::empty());
            assert(r@.sub_assets =~= Map::<(CoreId, SubAssetId), Seq<u8>>::empty());
            assert(r@.proposals =~= Map::<(CoreId, H256), Proposal>::empty());
            assert(r@.events =~= Seq::<Happened>::empty());
        }
        r
    }

    /// The share ledger.
    pub fn assets(&self) -> (r: &crate::core_assets::Pallet)
        requires
            self.wf(),
        ensures
            r.wf(),
            r@ == self@.ledger,
    {
        &self.assets
    }

    /// What has happened, oldest first.
    pub fn events(&self) -> (r: &Vec<Event>)
        ensures
            r@.len() == self@.events.len(),
            forall|i: int| 0 <= i < r@.len() ==> (#[trigger] r@[i])@ == self@.events[i],
    {
        &self.events
    }

    /// The number that the next core gets.
    pub fn next_core_id(&self) -> (r: CoreId)
        ensures
            r == self@.next_core_id,
    {
        self.next_core_id
    }

    /// The record of the core `core_id`, if there is such a core.
    pub fn core_storage(&self, core_id: CoreId) -> (r: Option<&CoreInfo>)
        requires
            self.wf(),
        ensures
            match r {
                Some(core) => self@.cores.contains_key(core_id) && record_of(*core)
                    == self@.cores[core_id],
                None => !self@.cores.contains_key(core_id),
            },
    {
        self.cores.get(&core_id)
    }

    /// The number of the core whose account is `account`, if there is such a core.
    pub fn core_by_account(&self, account: &AccountId) -> (r: Option<CoreId>)
        requires
            self.wf(),
        ensures
            match r {
                Some(id) => self@.core_by_account.contains_key(*account)
                    && self@.core_by_account[*account] == id,
                None => !self@.core_by_account.contains_key(*account),
            },
    {
        match self.core_by_account.get(account) {
            Some(id) => Some(*id),
            None => None,
        }
    }

    /// The weight in favour of the proposal `call_hash` of the core `core_id`, if
    /// there is such a proposal.
    pub fn yes_weight(&self, core_id: CoreId, call_hash: &H256) -> (r: Option<Balance>)
        requires
            self.wf(),
        ensures
            match r {
                Some(weight) => self@.proposals.contains_key((core_id, *call_hash))
                    && self@.proposals[(core_id, *call_hash)].yes_weight == weight,
                None => !self@.proposals.contains_key((core_id, *call_hash)),
            },
    {
        match self.multisig.get(&(core_id, *call_hash)) {
            Some(operation) => Some(operation.yes_weight),
            None => None,
        }
    }

    /// The weight of the vote of `who` on the proposal `call_hash` of the core
    /// `core_id`, if there is such a vote.
    pub fn vote_of(&self, core_id: CoreId, call_hash: &H256, who: &AccountId) -> (r: Option<Balance>)
        requires
            self.wf(),
        ensures
            match r {
                Some(weight) => {
                    &&& self@.proposals.contains_key((core_id, *call_hash))
                    &&& self@.proposals[(core_id, *call_hash)].voters.contains_key(*who)
                    &&& self@.proposals[(core_id, *call_hash)].voters[*who] == weight
                },
                None => !self@.proposals.contains_key((core_id, *call_hash))
                    || !self@.proposals[(core_id, *call_hash)].voters.contains_key(*who),
            },
    {
        match self.multisig.get(&(core_id, *call_hash)) {
            Some(operation) => match operation.voters.get(who) {
                Some(weight) => Some(*weight),
                None => None,
            },
            None => None,
        }
    }

    fn deposit_event(&mut self, event: Event)
        requires
            old(self).wf(),
        ensures
            final(self).wf(),
            final(self)@ == old(self)@.with_event(event@),
    {
        self.events.push(event);
        assert(self@ =~~= old(self)@.with_event(event@));
    }
}

} // verus!
