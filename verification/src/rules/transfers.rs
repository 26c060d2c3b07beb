//! The rules that an account can set on transfers out of the share ledger.

use vstd::prelude::*;
use crate::core_assets::CurrencyId;
use crate::primitives::{AccountId, Balance};
use crate::rules::traits::{CompRule, Process, Rule, RuleWrapper, RulesetManagement};

verus! {

/// A transfer that is asked for.
#[derive(Clone, Copy, Debug)]
pub struct TransferCall {
    /// The account that is to receive.
    pub dest: AccountId,
    /// The token.
    pub currency_id: CurrencyId,
    /// The amount.
    pub amount: Balance,
}

/// A rule on each argument of a transfer.
#[derive(Debug)]
pub struct TransferRule {
    pub dest: CompRule<AccountId>,
    pub currency_id: CompRule<CurrencyId>,
    pub amount: CompRule<Balance>,
}

/// The rules on transfers: none, a plain yes or no, or a rule on the arguments.
#[derive(Debug)]
pub struct TransferRuleSet {
    pub transfer: Option<RuleWrapper<TransferRule>>,
}

impl RulesetManagement<RuleWrapper<TransferRule>> for TransferRuleSet {
    open spec fn empty() -> Self {
        TransferRuleSet { transfer: None }
    }

    open spec fn with_rule(self, rule: RuleWrapper<TransferRule>) -> Self {
        TransferRuleSet { transfer: Some(rule) }
    }

    fn new() -> (r: Self) {
        TransferRuleSet { transfer: None }
    }

    fn add_rule(&mut self, rule: RuleWrapper<TransferRule>) {
        self.transfer = Some(rule);
    }
}

impl Rule for TransferCall {
    type CallRule = RuleWrapper<TransferRule>;

    type RuleSet = TransferRuleSet;

    /// A transfer passes where the set says a plain yes, or where each argument
    /// passes its rule; with no rule set on transfers, none passes.
    open spec fn permitted(&self, rule_set: &TransferRuleSet) -> bool {
        match rule_set.transfer {
            Some(RuleWrapper::Simple(b)) => b,
            Some(RuleWrapper::Rule(r)) => r.dest.allows(self.dest) && r.currency_id.allows(
                self.currency_id,
            ) && r.amount.allows(self.amount),
            None => false,
        }
    }

    fn check_rule(&self, rule_set: &TransferRuleSet) -> (r: bool) {
        match &rule_set.transfer {
            Some(RuleWrapper::Simple(b)) => *b,
            Some(RuleWrapper::Rule(r)) => r.dest.process(&self.dest) && r.currency_id.process(
                &self.currency_id,
            ) && r.amount.process(&self.amount),
            None => false,
        }
    }
}

} // verus!
