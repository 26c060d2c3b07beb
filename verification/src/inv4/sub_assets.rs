//! Share classes under a core.

use vstd::prelude::*;
use crate::core_assets::laws::lemma_mint_keeps_balance;
use crate::core_assets::CurrencyId;
use crate::dispatch::{DispatchError, DispatchResult, ModuleError, RuntimeOrigin};
use crate::inv4::origin::{ensure_multisig, INV4Origin, MultisigInternalOrigin};
use crate::inv4::state::{inv4_error, Happened, State};
use crate::inv4::{Error, Event, Pallet};
use crate::primitives::{AccountId, Balance, CoreId, SubAssetId, SubIptInfo};

verus! {

/// A share class to create: its number and metadata.
pub type SubAssetInfo = SubIptInfo<SubAssetId, Vec<u8>>;

/// A share class to create, with the account that is endowed and the amount.
pub struct Endowed {
    /// The number of the share class.
    pub id: SubAssetId,
    /// The metadata of the share class.
    pub metadata: Seq<u8>,
    /// The account that gets the first balance.
    pub who: AccountId,
    /// The first balance.
    pub amount: Balance,
}

/// The share classes that a call asks for, as plain values.
pub open spec fn endowments(entries: Seq<(SubAssetInfo, (AccountId, Balance))>) -> Seq<Endowed> {
    Seq::new(
        entries.len(),
        |i: int|
            Endowed {
                id: entries[i].0.id,
                metadata: entries[i].0.metadata@,
                who: entries[i].1.0,
                amount: entries[i].1.1,
            },
    )
}

impl State {
    /// Whether one of the entries before entry `i` has the number of entry `i`.
    pub open spec fn repeats(entries: Seq<Endowed>, i: int) -> bool {
        exists|j: int| 0 <= j < i && #[trigger] entries[j].id == entries[i].id
    }

    /// The reason for which entry `i` cannot be created under the core
    /// `core_id`, if there is one: its number is taken, by a share class of the
    /// core or by an earlier entry; its metadata is too long; or its endowment
    /// cannot be minted.
    pub open spec fn sub_asset_error(self, core_id: CoreId, entries: Seq<Endowed>, i: int) -> Option<
        DispatchError,
    > {
        let entry = entries[i];
        if self.sub_assets.contains_key((core_id, entry.id)) || Self::repeats(entries, i) {
            Some(inv4_error(Error::SubAssetAlreadyExists))
        } else if entry.metadata.len() > self.config.max_metadata {
            Some(inv4_error(Error::MaxMetadataExceeded))
        } else {
            match self.ledger.mint(
                CurrencyId { core_id, sub_asset: Some(entry.id) },
                entry.who,
                entry.amount,
            ) {
                Err(e) => Some(e),
                Ok(_) => None,
            }
        }
    }

    /// The reason for which the first `n` entries cannot all be created, if there
    /// is one: the reason of the first entry that has one.
    pub open spec fn first_sub_asset_error(self, core_id: CoreId, entries: Seq<Endowed>, n: nat) -> Option<
        DispatchError,
    >
        decreases n,
    {
        if n == 0 {
            None
        } else {
            match self.first_sub_asset_error(core_id, entries, (n - 1) as nat) {
                Some(e) => Some(e),
                None => self.sub_asset_error(core_id, entries, n - 1),
            }
        }
    }

    /// The engine with the share class `entry` under the core `core_id`, its
    /// endowment minted.
    pub open spec fn with_sub_asset(self, core_id: CoreId, entry: Endowed) -> State {
        State {
            sub_assets: self.sub_assets.insert((core_id, entry.id), entry.metadata),
            ledger: match self.ledger.mint(
                CurrencyId { core_id, sub_asset: Some(entry.id) },
                entry.who,
                entry.amount,
            ) {
                Ok(minted) => minted,
                Err(_) => self.ledger,
            },
            events: self.events.push(Happened::SubAssetCreated { core_id, sub_asset: entry.id }),
            ..self
        }
    }

    /// The engine with the first `n` entries created under the core `core_id`,
    /// one after another.
    pub open spec fn with_sub_assets(self, core_id: CoreId, entries: Seq<Endowed>, n: nat) -> State
        decreases n,
    {
        if n == 0 {
            self
        } else {
            self.with_sub_assets(core_id, entries, (n - 1) as nat).with_sub_asset(
                core_id,
                entries[n - 1],
            )
        }
    }

    /// The engine after a core has created the share classes `entries` under
    /// itself, all of them or none; or the reason for which it cannot: the
    /// caller is not a core, the core is not recorded, or one of the entries
    /// cannot be created.
    pub open spec fn create_sub_asset(self, origin: RuntimeOrigin, entries: Seq<Endowed>) -> Result<
        State,
        DispatchError,
    > {
        match origin {
            RuntimeOrigin::Inv4(INV4Origin::Multisig(core_origin)) => {
                if !self.cores.contains_key(core_origin.id) {
                    Err(inv4_error(Error::CoreNotFound))
                } else {
                    match self.first_sub_asset_error(core_origin.id, entries, entries.len()) {
                        Some(e) => Err(e),
                        None => Ok(self.with_sub_assets(core_origin.id, entries, entries.len())),
                    }
                }
            },
            _ => Err(DispatchError::BadOrigin),
        }
    }
}

/// A share class is created with its endowment in full: where none of the
/// first `n` entries has a reason against it, the balance of each endowed
/// account in its share class is what it was, and the amount.
pub proof fn lemma_sub_assets_endowed(state: State, core_id: CoreId, entries: Seq<Endowed>, n: nat, i: int)
    requires
        state.ledger.wf(),
        n <= entries.len(),
        0 <= i < n,
        state.first_sub_asset_error(core_id, entries, n) is None,
    ensures
        ({
            let after = state.with_sub_assets(core_id, entries, n);
            let class = CurrencyId { core_id, sub_asset: Some(entries[i].id) };
            &&& after.sub_assets.contains_key((core_id, entries[i].id))
            &&& after.sub_assets[(core_id, entries[i].id)] == entries[i].metadata
            &&& after.ledger.balance(class, entries[i].who) == state.ledger.balance(
                class,
                entries[i].who,
            ) + entries[i].amount
            &&& after.ledger.issuance(class) == state.ledger.issuance(class) + entries[i].amount
        }),
    decreases n,
{
    let last = entries[n - 1];
    let before = state.with_sub_assets(core_id, entries, (n - 1) as nat);
    let last_class = CurrencyId { core_id, sub_asset: Some(last.id) };
    lemma_sub_assets_frame(state, core_id, entries, (n - 1) as nat, last_class);
    assert(!State::repeats(entries, n - 1));
    assert(forall|j: int| 0 <= j < n - 1 ==> #[trigger] entries[j].id != last.id);
    assert(before.ledger.mint(last_class, last.who, last.amount) is Ok);
    if i < n - 1 {
        lemma_sub_assets_endowed(state, core_id, entries, (n - 1) as nat, i);
        assert(entries[i].id != last.id);
    }
}

/// Creating share classes leaves the other tokens alone: a token that is none
/// of the first `n` entries has the issuance and the balances that it had.
pub proof fn lemma_sub_assets_frame(
    state: State,
    core_id: CoreId,
    entries: Seq<Endowed>,
    n: nat,
    other: CurrencyId,
)
    requires
        n <= entries.len(),
        forall|j: int|
            0 <= j < n ==> (CurrencyId { core_id, sub_asset: Some(#[trigger] entries[j].id) })
                != other,
    ensures
        state.with_sub_assets(core_id, entries, n).ledger.issuance(other) == state.ledger.issuance(
            other,
        ),
        forall|who: AccountId|
            state.with_sub_assets(core_id, entries, n).ledger.balance(other, who)
                == #[trigger] state.ledger.balance(other, who),
        state.with_sub_assets(core_id, entries, n).ledger.frozen == state.ledger.frozen,
        state.with_sub_assets(core_id, entries, n).cores == state.cores,
        state.with_sub_assets(core_id, entries, n).proposals == state.proposals,
        state.with_sub_assets(core_id, entries, n).next_core_id == state.next_core_id,
        state.with_sub_assets(core_id, entries, n).config == state.config,
    decreases n,
{
    if n > 0 {
        lemma_sub_assets_frame(state, core_id, entries, (n - 1) as nat, other);
        assert((CurrencyId { core_id, sub_asset: Some(entries[n - 1].id) }) != other);
    }
}

impl Pallet {
    /// Whether the core `core_id` has the share class `sub_asset`.
    pub fn sub_asset_exists(&self, core_id: CoreId, sub_asset: SubAssetId) -> (r: bool)
        requires
            self.wf(),
        ensures
            r == self@.sub_assets.contains_key((core_id, sub_asset)),
    {
        self.sub_assets.contains_key(&(core_id, sub_asset))
    }

    fn check_sub_asset(
        &self,
        core_id: CoreId,
        sub_assets: &Vec<(SubAssetInfo, (AccountId, Balance))>,
        i: usize,
    ) -> (r: Option<DispatchError>)
        requires
            self.wf(),
            i < sub_assets@.len(),
        ensures
            r == self@.sub_asset_error(core_id, endowments(sub_assets@), i as int),
    {
        let ghost entries = endowments(sub_assets@);
        let entry = &sub_assets[i];
        let id = entry.0.id;
        if self.sub_assets.contains_key(&(core_id, id)) {
            return Some(DispatchError::Module(ModuleError::Inv4(Error::SubAssetAlreadyExists)));
        }
        let mut j: usize = 0;
        while j < i
            invariant
                j <= i,
                i < sub_assets@.len(),
                entries == endowments(sub_assets@),
                id == entries[i as int].id,
                forall|k: int| 0 <= k < j ==> #[trigger] entries[k].id != id,
            decreases i - j,
        {
            if sub_assets[j].0.id == id {
                assert(entries[j as int].id == entries[i as int].id);
                return Some(
                    DispatchError::Module(ModuleError::Inv4(Error::SubAssetAlreadyExists)),
                );
            }
            j += 1;
        }
        assert(!State::repeats(entries, i as int));
        if entry.0.metadata.len() > self.config.max_metadata as usize {
            return Some(DispatchError::Module(ModuleError::Inv4(Error::MaxMetadataExceeded)));
        }
        let class = CurrencyId::of_sub_asset(core_id, id);
        let balance = self.assets.accounts(&entry.1.0, class);
        match self.assets.deposit_consequence(class, entry.1.1, &balance).into_result() {
            Err(e) => Some(e),
            Ok(_) => None,
        }
    }

    /// Creates the share classes `sub_assets` under the calling core, each with
    /// its metadata and with its endowment minted to the account named: all of
    /// them, or none. Fails with `BadOrigin` where the caller is not a core, with
    /// `CoreNotFound` where the core is not recorded, and with the reason of the
    /// first entry that cannot be created: `SubAssetAlreadyExists` where its
    /// number is taken, `MaxMetadataExceeded` where its metadata is too long,
    /// `Overflow` where its endowment cannot be minted. Nothing changes then.
    pub fn create_sub_asset(
        &mut self,
        origin: RuntimeOrigin,
        sub_assets: Vec<(SubAssetInfo, (AccountId, Balance))>,
    ) -> (r: DispatchResult)
        requires
            old(self).wf(),
        ensures
            final(self).wf(),
            match old(self)@.create_sub_asset(origin, endowments(sub_assets@)) {
                Ok(after) => r is Ok && final(self)@ == after,
                Err(e) => r == Err::<(), DispatchError>(e) && final(self)@ == old(self)@,
            },
    {
        let core_id = match ensure_multisig(origin) {
            Ok(core_origin) => core_origin.id,
            Err(_) => {
                return Err(DispatchError::BadOrigin);
            },
        };
        if !self.cores.contains_key(&core_id) {
            return Err(DispatchError::Module(ModuleError::Inv4(Error::CoreNotFound)));
        }
        let ghost entries = endowments(sub_assets@);
        let n = sub_assets.len();
        let mut i: usize = 0;
        while i < n
            invariant
                i <= n,
                n == sub_assets@.len(),
                entries == endowments(sub_assets@),
                self.wf(),
                *self == *old(self),
                origin == RuntimeOrigin::Inv4(
                    INV4Origin::Multisig(MultisigInternalOrigin { id: core_id }),
                ),
                self@.cores.contains_key(core_id),
                self@.first_sub_asset_error(core_id, entries, i as nat) is None,
            decreases n - i,
        {
            match self.check_sub_asset(core_id, &sub_assets, i) {
                Some(e) => {
                    proof {
                        assert(self@.first_sub_asset_error(core_id, entries, i as nat) is None);
                        assert(self@.sub_asset_error(core_id, entries, i as int) == Some(e));
                        assert(self@.first_sub_asset_error(core_id, entries, (i + 1) as nat)
                            == self@.sub_asset_error(core_id, entries, (i + 1) - 1));
                        lemma_first_error_stays(self@, core_id, entries, (i + 1) as nat, n as nat);
                    }
                    return Err(e);
                },
                None => {},
            }
            i += 1;
        }
        let mut k: usize = 0;
        while k < n
            invariant
                k <= n,
                n == sub_assets@.len(),
                entries == endowments(sub_assets@),
                self.wf(),
                old(self).wf(),
                self@ == old(self)@.with_sub_assets(core_id, entries, k as nat),
            decreases n - k,
        {
            let ghost before = self@;
            let entry = &sub_assets[k];
            let id = entry.0.id;
            let class = CurrencyId::of_sub_asset(core_id, id);
            let _ = self.assets.mint_into(class, &entry.1.0, entry.1.1);
            proof {
                if before.ledger.mint(class, entry.1.0, entry.1.1) is Ok {
                    assert forall|c: CurrencyId| #[trigger] self.assets@.balanced(c) by {
                        assert(before.ledger.balanced(c));
                        lemma_mint_keeps_balance(before.ledger, class, entry.1.0, entry.1.1, c);
                    }
                }
            }
            self.sub_assets.insert((core_id, id), entry.0.metadata.clone());
            self.events.push(Event::SubAssetCreated { core_id, sub_asset: id });
            proof {
                assert(self@ =~~= before.with_sub_asset(core_id, entries[k as int]));
            }
            k += 1;
        }
        Ok(())
    }
}

/// A reason found among the first `n` entries is the reason found among more.
proof fn lemma_first_error_stays(state: State, core_id: CoreId, entries: Seq<Endowed>, n: nat, m: nat)
    requires
        n <= m,
        state.first_sub_asset_error(core_id, entries, n) is Some,
    ensures
        state.first_sub_asset_error(core_id, entries, m) == state.first_sub_asset_error(
            core_id,
            entries,
            n,
        ),
    decreases m,
{
    if n < m {
        lemma_first_error_stays(state, core_id, entries, n, (m - 1) as nat);
    }
}

} // verus!
