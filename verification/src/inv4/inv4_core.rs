//! The registry of cores, and the calls on the share ledger that go through
//! the engine.

use vstd::prelude::*;
use crate::core_assets::laws::{
    lemma_burn_keeps_balance, lemma_frozen_keeps_balance, lemma_mint_keeps_balance,
    lemma_transfer_keeps_balance,
};
use crate::core_assets::lookup::IdentityLookup;
use crate::core_assets::tokens::{Fortitude, Precision, Provenance};
use crate::core_assets::CurrencyId;
use crate::dispatch::{ensure_signed, DispatchError, DispatchResult, ModuleError, RawOrigin, RuntimeOrigin};
use crate::inv4::fee_handling::{CoreCreation, CreationFee, FeeAsset};
use crate::inv4::origin::{core_account, derive_core_account, ensure_multisig};
use crate::inv4::{Error, Event, Pallet};
use crate::primitives::{AccountId, Balance, CoreId, CoreInfo, Perbill};

verus! {

fn clone_metadata(metadata: &Option<Vec<u8>>) -> (r: Option<Vec<u8>>)
    ensures
        r is Some == metadata is Some,
        r is Some ==> r->Some_0@ == metadata->Some_0@,
{
    match metadata {
        Some(m) => Some(m.clone()),
        None => None,
    }
}

/// The view of metadata that may be absent.
pub open spec fn metadata_of(metadata: Option<Vec<u8>>) -> Option<Seq<u8>> {
    match metadata {
        Some(m) => Some(m@),
        None => None,
    }
}

impl Pallet {
    /// Records a new core for `creator`, with `core_account` as its account, once
    /// `charge` has taken the fee that is due: gives the core the next number,
    /// mints the seed balance of its share to the creator, with the share frozen,
    /// and returns the core's number and account and the fee.
    ///
    /// Fails with `MaxMetadataExceeded` where the metadata is too long, with
    /// `NoAvailableCoreId` where no number is left, and with `Overflow` where the
    /// seed balance cannot be minted. Where none of these stands in the way,
    /// `charge` is handed the fee, and its error, if it gives one, is the error
    /// of the call. Nothing changes where the call fails.
    pub fn register_core<F: FnOnce(CreationFee) -> Result<(), DispatchError>>(
        &mut self,
        creator: AccountId,
        metadata: Vec<u8>,
        minimum_support: Perbill,
        required_approval: Perbill,
        creation_fee_asset: FeeAsset,
        core_account: AccountId,
        charge: F,
    ) -> (r: Result<CoreCreation, DispatchError>)
        requires
            old(self).wf(),
            core_account == crate::inv4::origin::core_account(old(self)@.next_core_id),
            old(self)@.create_core(
                creator,
                metadata@,
                minimum_support,
                required_approval,
                core_account,
            ) is Ok ==> charge.requires((old(self)@.fee_due(creator, creation_fee_asset),)),
        ensures
            final(self).wf(),
            match old(self)@.create_core(
                creator,
                metadata@,
                minimum_support,
                required_approval,
                core_account,
            ) {
                Ok(after) => match r {
                    Ok(created) => {
                        &&& charge.ensures(
                            (old(self)@.fee_due(creator, creation_fee_asset),),
                            Ok(()),
                        )
                        &&& created == old(self)@.creation(creator, creation_fee_asset, core_account)
                        &&& final(self)@ == after
                    },
                    Err(e) => {
                        &&& charge.ensures(
                            (old(self)@.fee_due(creator, creation_fee_asset),),
                            Err(e),
                        )
                        &&& final(self)@ == old(self)@
                    },
                },
                Err(e) => r == Err::<CoreCreation, DispatchError>(e) && final(self)@ == old(self)@,
            },
    {
        let core_id = self.next_core_id;
        if metadata.len() > self.config.max_metadata as usize {
            return Err(DispatchError::Module(ModuleError::Inv4(Error::MaxMetadataExceeded)));
        }
        if core_id == CoreId::MAX {
            return Err(DispatchError::Module(ModuleError::Inv4(Error::NoAvailableCoreId)));
        }
        let share = CurrencyId::of_core(core_id);
        let seed_balance = self.config.core_seed_balance;
        match self.assets.can_deposit(share, &creator, seed_balance, Provenance::Minted).into_result() {
            Err(e) => {
                return Err(e);
            },
            Ok(_) => {},
        }
        let amount = match creation_fee_asset {
            FeeAsset::TNKR => self.config.core_creation_fee,
            FeeAsset::KSM => self.config.ksm_core_creation_fee,
        };
        let fee = CreationFee { asset: creation_fee_asset, payer: creator, amount };
        assert(fee == old(self)@.fee_due(creator, creation_fee_asset));
        let charged = charge(fee);
        assert(charge.ensures((fee,), charged));
        match charged {
            Err(e) => {
                return Err(e);
            },
            Ok(paid) => {
                assert(charged == Ok::<(), DispatchError>(()));
            },
        }
        match self.assets.mint_into(share, &creator, seed_balance) {
            Err(e) => {
                return Err(e);
            },
            Ok(_) => {},
        }
        proof {
            assert forall|c: CurrencyId| #[trigger] self.assets@.balanced(c) by {
                assert(old(self)@.ledger.balanced(c));
                lemma_mint_keeps_balance(old(self)@.ledger, share, creator, seed_balance, c);
            }
        }
        self.assets.freeze_currency(share);
        proof {
            lemma_frozen_keeps_balance(
                self.assets@,
                old(self)@.ledger.mint(share, creator, seed_balance)->Ok_0,
                core_id,
                true,
            );
        }
        self.next_core_id = core_id + 1;
        let info = CoreInfo {
            account: core_account,
            metadata: metadata.clone(),
            minimum_support,
            required_approval,
            frozen_tokens: true,
        };
        self.cores.insert(core_id, info);
        self.core_by_account.insert(core_account, core_id);
        self.events.push(
            Event::CoreCreated {
                core_account,
                metadata,
                core_id,
                minimum_support,
                required_approval,
            },
        );
        proof {
            let after = old(self)@.create_core(
                creator,
                metadata@,
                minimum_support,
                required_approval,
                core_account,
            )->Ok_0;
            assert(self@ =~~= after);
        }
        Ok(CoreCreation { core_id, core_account, fee })
    }

    /// Creates a core for the account that signed the call, once `charge` has
    /// taken the fee that is due. The core's account is derived from its number.
    /// Fails with `BadOrigin` where no account signed, and as `register_core`
    /// does.
    pub fn inner_create_core<F: FnOnce(CreationFee) -> Result<(), DispatchError>>(
        &mut self,
        origin: RuntimeOrigin,
        metadata: Vec<u8>,
        minimum_support: Perbill,
        required_approval: Perbill,
        creation_fee_asset: FeeAsset,
        charge: F,
    ) -> (r: Result<CoreCreation, DispatchError>)
        requires
            old(self).wf(),
            forall|fee: CreationFee| charge.requires((fee,)),
        ensures
            final(self).wf(),
            match origin {
                RuntimeOrigin::System(RawOrigin::Signed(creator)) => match old(self)@.create_core(
                    creator,
                    metadata@,
                    minimum_support,
                    required_approval,
                    core_account(old(self)@.next_core_id),
                ) {
                    Ok(after) => match r {
                        Ok(created) => {
                            &&& charge.ensures(
                                (old(self)@.fee_due(creator, creation_fee_asset),),
                                Ok(()),
                            )
                            &&& created == old(self)@.creation(
                                creator,
                                creation_fee_asset,
                                core_account(old(self)@.next_core_id),
                            )
                            &&& final(self)@ == after
                        },
                        Err(e) => {
                            &&& charge.ensures(
                                (old(self)@.fee_due(creator, creation_fee_asset),),
                                Err(e),
                            )
                            &&& final(self)@ == old(self)@
                        },
                    },
                    Err(e) => r == Err::<CoreCreation, DispatchError>(e) && final(self)@ == old(
                        self)@,
                },
                _ => r == Err::<CoreCreation, DispatchError>(DispatchError::BadOrigin) && final(
                    self)@ == old(self)@,
            },
    {
        match ensure_signed(origin) {
            Err(_) => Err(DispatchError::BadOrigin),
            Ok(creator) => {
                let account = derive_core_account(self.next_core_id);
                self.register_core(
                    creator,
                    metadata,
                    minimum_support,
                    required_approval,
                    creation_fee_asset,
                    account,
                    charge,
                )
            },
        }
    }

    /// Replaces those parameters of the calling core that are given, and leaves
    /// the others. A freeze or a thaw reaches the ledger with it. Fails with
    /// `BadOrigin` where the caller is not a core, with `CoreNotFound` where the
    /// core is not recorded, and with `MaxMetadataExceeded` where the metadata is
    /// too long; nothing changes then.
    pub fn inner_set_parameters(
        &mut self,
        origin: RuntimeOrigin,
        metadata: Option<Vec<u8>>,
        minimum_support: Option<Perbill>,
        required_approval: Option<Perbill>,
        frozen_tokens: Option<bool>,
    ) -> (r: DispatchResult)
        requires
            old(self).wf(),
        ensures
            final(self).wf(),
            match old(self)@.set_parameters(
                origin,
                metadata_of(metadata),
                minimum_support,
                required_approval,
                frozen_tokens,
            ) {
                Ok(after) => r is Ok && final(self)@ == after,
                Err(e) => r == Err::<(), DispatchError>(e) && final(self)@ == old(self)@,
            },
    {
        let core_id = match ensure_multisig(origin) {
            Ok(core_origin) => core_origin.id,
            Err(_) => {
                return Err(DispatchError::BadOrigin);
            },
        };
        if !self.cores.contains_key(&core_id) {
            return Err(DispatchError::Module(ModuleError::Inv4(Error::CoreNotFound)));
        }
        match &metadata {
            Some(m) => {
                if m.len() > self.config.max_metadata as usize {
                    return Err(
                        DispatchError::Module(ModuleError::Inv4(Error::MaxMetadataExceeded)),
                    );
                }
            },
            None => {},
        }
        let mut c = self.cores.remove(&core_id).unwrap();
        match minimum_support {
            Some(ms) => {
                c.minimum_support = ms;
            },
            None => {},
        }
        match required_approval {
            Some(ra) => {
                c.required_approval = ra;
            },
            None => {},
        }
        match clone_metadata(&metadata) {
            Some(m) => {
                c.metadata = m;
            },
            None => {},
        }
        match frozen_tokens {
            Some(f) => {
                c.frozen_tokens = f;
                if f {
                    self.assets.freeze_currency(CurrencyId::of_core(core_id));
                } else {
                    self.assets.unfreeze_currency(CurrencyId::of_core(core_id));
                }
                proof {
                    lemma_frozen_keeps_balance(self.assets@, old(self)@.ledger, core_id, f);
                }
            },
            None => {},
        }
        self.cores.insert(core_id, c);
        self.events.push(
            Event::ParametersSet {
                core_id,
                metadata,
                minimum_support,
                required_approval,
                frozen_tokens,
            },
        );
        proof {
            let after = old(self)@.set_parameters(
                origin,
                metadata_of(metadata),
                minimum_support,
                required_approval,
                frozen_tokens,
            )->Ok_0;
            assert(self@ =~~= after);
        }
        Ok(())
    }

    /// Whether the tokens of the core `core_id` are frozen, if there is such a
    /// core. The ledger lets the core's tokens move just when this says `false`.
    pub fn is_asset_frozen(&self, core_id: CoreId) -> (r: Option<bool>)
        requires
            self.wf(),
        ensures
            r == self@.is_asset_frozen(core_id),
            r is Some ==> r->Some_0 == self@.ledger.is_frozen(
                CurrencyId { core_id, sub_asset: None },
            ),
    {
        match self.cores.get(&core_id) {
            Some(c) => Some(c.frozen_tokens),
            None => None,
        }
    }

    /// Moves `amount` of `currency_id` from the account that signed the call to
    /// `dest`, as the ledger's `transfer` does.
    pub fn transfer(
        &mut self,
        origin: RuntimeOrigin,
        dest: AccountId,
        currency_id: CurrencyId,
        amount: Balance,
    ) -> (r: DispatchResult)
        requires
            old(self).wf(),
        ensures
            final(self).wf(),
            match old(self)@.transfer(origin, dest, currency_id, amount) {
                Ok(after) => r is Ok && final(self)@ == after,
                Err(e) => r == Err::<(), DispatchError>(e) && final(self)@ == old(self)@,
            },
    {
        let r = self.assets.transfer::<IdentityLookup>(origin, dest, currency_id, amount);
        proof {
            match origin {
                RuntimeOrigin::System(RawOrigin::Signed(from)) => {
                    if old(self)@.ledger.transfer(currency_id, from, dest, amount) is Ok {
                        assert forall|c: CurrencyId| #[trigger] self.assets@.balanced(c) by {
                            assert(old(self)@.ledger.balanced(c));
                            lemma_transfer_keeps_balance(
                                old(self)@.ledger,
                                currency_id,
                                from,
                                dest,
                                amount,
                                c,
                            );
                        }
                    }
                },
                _ => {},
            }
            if r is Ok {
                assert(self@ =~~= old(self)@.transfer(origin, dest, currency_id, amount)->Ok_0);
            } else {
                assert(self@ =~~= old(self)@);
            }
        }
        r
    }

    /// Issues `amount` of the calling core's share to `target`. Fails with
    /// `BadOrigin` where the caller is not a core, and as the ledger's `mint_into`
    /// does.
    pub fn token_mint(&mut self, origin: RuntimeOrigin, amount: Balance, target: AccountId) -> (r:
        DispatchResult)
        requires
            old(self).wf(),
        ensures
            final(self).wf(),
            match old(self)@.token_mint(origin, amount, target) {
                Ok(after) => r is Ok && final(self)@ == after,
                Err(e) => r == Err::<(), DispatchError>(e) && final(self)@ == old(self)@,
            },
    {
        let core_id = match ensure_multisig(origin) {
            Ok(core_origin) => core_origin.id,
            Err(_) => {
                return Err(DispatchError::BadOrigin);
            },
        };
        let share = CurrencyId::of_core(core_id);
        match self.assets.mint_into(share, &target, amount) {
            Ok(_) => {
                proof {
                    assert forall|c: CurrencyId| #[trigger] self.assets@.balanced(c) by {
                        assert(old(self)@.ledger.balanced(c));
                        lemma_mint_keeps_balance(old(self)@.ledger, share, target, amount, c);
                    }
                    assert(self@ =~~= old(self)@.token_mint(origin, amount, target)->Ok_0);
                }
                Ok(())
            },
            Err(e) => {
                assert(self@ =~~= old(self)@);
                Err(e)
            },
        }
    }

    /// Takes `amount` of the calling core's share from `target` and out of the
    /// issuance. Fails with `BadOrigin` where the caller is not a core, and as
    /// the ledger's `burn_from` does.
    pub fn token_burn(&mut self, origin: RuntimeOrigin, amount: Balance, target: AccountId) -> (r:
        DispatchResult)
        requires
            old(self).wf(),
        ensures
            final(self).wf(),
            match old(self)@.token_burn(origin, amount, target) {
                Ok(after) => r is Ok && final(self)@ == after,
                Err(e) => r == Err::<(), DispatchError>(e) && final(self)@ == old(self)@,
            },
    {
        let core_id = match ensure_multisig(origin) {
            Ok(core_origin) => core_origin.id,
            Err(_) => {
                return Err(DispatchError::BadOrigin);
            },
        };
        let share = CurrencyId::of_core(core_id);
        match self.assets.burn_from(share, &target, amount, Precision::Exact, Fortitude::Polite) {
            Ok(_) => {
                proof {
                    assert forall|c: CurrencyId| #[trigger] self.assets@.balanced(c) by {
                        assert(old(self)@.ledger.balanced(c));
                        lemma_burn_keeps_balance(old(self)@.ledger, share, target, amount, c);
                    }
                    assert(self@ =~~= old(self)@.token_burn(origin, amount, target)->Ok_0);
                }
                Ok(())
            },
            Err(e) => {
                assert(self@ =~~= old(self)@);
                Err(e)
            },
        }
    }
}

} // verus!
