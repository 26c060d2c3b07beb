//! Rule sets: what calls an account lets through.

use vstd::prelude::*;
use crate::codec::{decode_account, encode_salted_u32, encode_salted_u32_account, le_bytes};
use crate::dispatch::{ensure_signed, DispatchError, DispatchResult, ModuleError, RuntimeOrigin, RawOrigin};
use crate::hashing::{blake2_256, blake2_256_digest};
use crate::primitives::{AccountId, H256};
use crate::rules::traits::{Rule, RulesetManagement};
use crate::storage::{StorageKey, StorageMap};

pub mod traits;
pub mod transfers;

verus! {

/// The errors of this component.
#[derive(Clone, Copy, Debug, PartialEq, Eq, Structural)]
pub enum Error {
    HashNotFound,
    /// There is no rule set with this number.
    SetNotFound,
    /// There is a rule set with this number already.
    SetAlreadyExists,
    /// The caller may not change this rule set.
    NoPermission,
    Error,
}

/// What has happened in this component.
#[derive(Clone, Copy, Debug, PartialEq, Eq, Structural)]
pub enum Event {
    /// A call was held against a rule set, with this result.
    EvalResult { result: bool },
}

/// The number of a rule set: the number of its owner, and its own.
pub type RulesetId = (u32, u32);

/// The bytes that are hashed to derive the account of `ips_id` on the chain
/// whose first block has the hash `genesis`, on behalf of `original_caller` where
/// there is one.
pub open spec fn ips_account_preimage(genesis: H256, ips_id: u32, original_caller: Option<AccountId>) -> Seq<
    u8,
> {
    match original_caller {
        Some(caller) => genesis.0@ + le_bytes(ips_id as nat, 4) + caller.0@,
        None => genesis.0@ + le_bytes(ips_id as nat, 4),
    }
}

/// The account of `ips_id` on the chain whose first block has the hash `genesis`.
pub open spec fn ips_account(genesis: H256, ips_id: u32) -> AccountId {
    choose|account: AccountId|
        account.0@ == blake2_256_digest(ips_account_preimage(genesis, ips_id, None))
}

/// Derives the account of `ips_id`, with the hash of the chain's first block as
/// salt, on behalf of `original_caller` where there is one.
pub fn derive_ips_account(genesis: H256, ips_id: u32, original_caller: Option<&AccountId>) -> (r:
    AccountId)
    ensures
        r.0@ == blake2_256_digest(
            ips_account_preimage(
                genesis,
                ips_id,
                match original_caller {
                    Some(caller) => Some(*caller),
                    None => None,
                },
            ),
        ),
        original_caller is None ==> r == ips_account(genesis, ips_id),
{
    let preimage = match original_caller {
        Some(caller) => encode_salted_u32_account(genesis.0, ips_id, caller.0),
        None => encode_salted_u32(genesis.0, ips_id),
    };
    let entropy = blake2_256(preimage.as_slice());
    let r = AccountId(decode_account(&entropy));
    proof {
        if original_caller is None {
            let chosen = ips_account(genesis, ips_id);
            assert(chosen.0@ == r.0@);
            assert(chosen.0 =~= r.0);
        }
    }
    r
}

/// The rule sets, by number, for calls of the kind `C`.
pub struct Pallet<C: Rule> {
    genesis: H256,
    ruleset: StorageMap<RulesetId, C::RuleSet>,
}

impl<C: Rule> Pallet<C> {
    /// The table of rule sets is in order.
    pub closed spec fn wf(&self) -> bool {
        self.ruleset.wf()
    }

    /// The rule sets, by number.
    pub closed spec fn rulesets(&self) -> Map<RulesetId, C::RuleSet> {
        self.ruleset@
    }

    /// The hash of the chain's first block.
    pub closed spec fn genesis(&self) -> H256 {
        self.genesis
    }

    /// A component without rule sets, on the chain whose first block has the
    /// hash `genesis`.
    pub fn new(genesis: H256) -> (r: Self)
        ensures
            r.wf(),
            r.genesis() == genesis,
            r.rulesets() == Map::<RulesetId, C::RuleSet>::empty(),
    {
        Pallet { genesis, ruleset: StorageMap::new() }
    }

    /// The rule set `id`, if there is one.
    pub fn ruleset(&self, id: &RulesetId) -> (r: Option<&C::RuleSet>)
        requires
            self.wf(),
        ensures
            match r {
                Some(set) => self.rulesets().contains_key(*id) && *set == self.rulesets()[*id],
                None => !self.rulesets().contains_key(*id),
            },
    {
        self.ruleset.get(id)
    }

    /// Adds `rule` to the rule set `id`, where `account` is the account derived
    /// for the owner of the set. Fails with `BadOrigin` where no account signed,
    /// with `NoPermission` where the signer is not `account`, and with
    /// `SetNotFound` where there is no such set; nothing changes then.
    pub fn new_rule_for(
        &mut self,
        origin: RuntimeOrigin,
        id: RulesetId,
        rule: C::CallRule,
        account: AccountId,
    ) -> (r: DispatchResult)
        requires
            old(self).wf(),
        ensures
            final(self).wf(),
            final(self).genesis() == old(self).genesis(),
            match origin {
                RuntimeOrigin::System(RawOrigin::Signed(who)) => if who != account {
                    r == Err::<(), DispatchError>(rules_error(Error::NoPermission)) && final(
                        self).rulesets() == old(self).rulesets()
                } else if !old(self).rulesets().contains_key(id) {
                    r == Err::<(), DispatchError>(rules_error(Error::SetNotFound)) && final(
                        self).rulesets() == old(self).rulesets()
                } else {
                    r is Ok && final(self).rulesets() == old(self).rulesets().insert(
                        id,
                        old(self).rulesets()[id].with_rule(rule),
                    )
                },
                _ => r == Err::<(), DispatchError>(DispatchError::BadOrigin) && final(
                    self).rulesets() == old(self).rulesets(),
            },
    {
        let who = match ensure_signed(origin) {
            Ok(who) => who,
            Err(_) => {
                return Err(DispatchError::BadOrigin);
            },
        };
        if !who.key_eq(&account) {
            return Err(DispatchError::Module(ModuleError::Rules(Error::NoPermission)));
        }
        match self.ruleset.remove(&id) {
            None => {
                assert(self.ruleset@ =~= old(self).ruleset@);
                Err(DispatchError::Module(ModuleError::Rules(Error::SetNotFound)))
            },
            Some(set) => {
                let mut old_set = set;
                old_set.add_rule(rule);
                self.ruleset.insert(id, old_set);
                assert(self.ruleset@ =~= old(self).ruleset@.insert(
                    id,
                    old(self).ruleset@[id].with_rule(rule),
                ));
                Ok(())
            },
        }
    }

    /// Adds `rule` to the rule set `id`. Only the account derived for the owner
    /// of the set may: fails with `BadOrigin` where no account signed, with
    /// `NoPermission` where the signer is another account, and with
    /// `SetNotFound` where there is no such set; nothing changes then.
    pub fn new_rule(&mut self, origin: RuntimeOrigin, id: RulesetId, rule: C::CallRule) -> (r:
        DispatchResult)
        requires
            old(self).wf(),
        ensures
            final(self).wf(),
            final(self).genesis() == old(self).genesis(),
            match origin {
                RuntimeOrigin::System(RawOrigin::Signed(who)) => if who != ips_account(
                    old(self).genesis(),
                    id.0,
                ) {
                    r == Err::<(), DispatchError>(rules_error(Error::NoPermission)) && final(
                        self).rulesets() == old(self).rulesets()
                } else if !old(self).rulesets().contains_key(id) {
                    r == Err::<(), DispatchError>(rules_error(Error::SetNotFound)) && final(
                        self).rulesets() == old(self).rulesets()
                } else {
                    r is Ok && final(self).rulesets() == old(self).rulesets().insert(
                        id,
                        old(self).rulesets()[id].with_rule(rule),
                    )
                },
                _ => r == Err::<(), DispatchError>(DispatchError::BadOrigin) && final(
                    self).rulesets() == old(self).rulesets(),
            },
    {
        let account = derive_ips_account(self.genesis, id.0, None);
        self.new_rule_for(origin, id, rule, account)
    }

    /// Starts the rule set `id` without rules. Fails with `SetAlreadyExists`
    /// where there is such a set; nothing changes then.
    pub fn initialize_rule_set(&mut self, id: RulesetId) -> (r: DispatchResult)
        requires
            old(self).wf(),
        ensures
            final(self).wf(),
            final(self).genesis() == old(self).genesis(),
            if old(self).rulesets().contains_key(id) {
                r == Err::<(), DispatchError>(rules_error(Error::SetAlreadyExists)) && final(
                    self).rulesets() == old(self).rulesets()
            } else {
                r is Ok && final(self).rulesets() == old(self).rulesets().insert(
                    id,
                    <C::RuleSet as RulesetManagement<C::CallRule>>::empty(),
                )
            },
    {
        if self.ruleset.contains_key(&id) {
            return Err(DispatchError::Module(ModuleError::Rules(Error::SetAlreadyExists)));
        }
        self.ruleset.insert(id, <C::RuleSet as RulesetManagement<C::CallRule>>::new());
        Ok(())
    }

    /// Whether the rule set `id` lets `call` through. Fails with `SetNotFound`
    /// where there is no such set.
    pub fn check_rule(&self, id: RulesetId, call: Box<C>) -> (r: Result<bool, DispatchError>)
        requires
            self.wf(),
        ensures
            r == if self.rulesets().contains_key(id) {
                Ok::<bool, DispatchError>(call.permitted(&self.rulesets()[id]))
            } else {
                Err::<bool, DispatchError>(rules_error(Error::SetNotFound))
            },
    {
        match self.ruleset.get(&id) {
            None => Err(DispatchError::Module(ModuleError::Rules(Error::SetNotFound))),
            Some(set) => Ok(call.check_rule(set)),
        }
    }
}

/// The error `e` of this component, as the reason for which a call is turned down.
pub open spec fn rules_error(e: Error) -> DispatchError {
    DispatchError::Module(ModuleError::Rules(e))
}

} // verus!
