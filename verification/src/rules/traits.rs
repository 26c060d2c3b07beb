//! Rules on the arguments of calls.

use vstd::prelude::*;
use crate::core_assets::CurrencyId;
use crate::primitives::AccountId;
use crate::storage::StorageKey;

verus! {

/// A value that a rule can be held against: it can be tested for equality, and
/// for order where its type has one.
pub trait RuleValue: Sized {
    /// Whether values of this type are ordered.
    spec fn ordered() -> bool;

    /// Whether `self` comes before `other`, for a type that is ordered.
    spec fn before(&self, other: &Self) -> bool;

    fn is_ordered() -> (r: bool)
        ensures
            r == Self::ordered(),
    ;

    fn same(&self, other: &Self) -> (r: bool)
        ensures
            r == (*self == *other),
    ;

    fn less(&self, other: &Self) -> (r: bool)
        ensures
            r == (Self::ordered() && self.before(other)),
    ;
}

impl RuleValue for u8 {
    open spec fn ordered() -> bool {
        true
    }

    open spec fn before(&self, other: &Self) -> bool {
        *self < *other
    }

    fn is_ordered() -> (r: bool) {
        true
    }

    fn same(&self, other: &Self) -> (r: bool) {
        *self == *other
    }

    fn less(&self, other: &Self) -> (r: bool) {
        *self < *other
    }
}

impl RuleValue for u16 {
    open spec fn ordered() -> bool {
        true
    }

    open spec fn before(&self, other: &Self) -> bool {
        *self < *other
    }

    fn is_ordered() -> (r: bool) {
        true
    }

    fn same(&self, other: &Self) -> (r: bool) {
        *self == *other
    }

    fn less(&self, other: &Self) -> (r: bool) {
        *self < *other
    }
}

impl RuleValue for u32 {
    open spec fn ordered() -> bool {
        true
    }

    open spec fn before(&self, other: &Self) -> bool {
        *self < *other
    }

    fn is_ordered() -> (r: bool) {
        true
    }

    fn same(&self, other: &Self) -> (r: bool) {
        *self == *other
    }

    fn less(&self, other: &Self) -> (r: bool) {
        *self < *other
    }
}

impl RuleValue for u64 {
    open spec fn ordered() -> bool {
        true
    }

    open spec fn before(&self, other: &Self) -> bool {
        *self < *other
    }

    fn is_ordered() -> (r: bool) {
        true
    }

    fn same(&self, other: &Self) -> (r: bool) {
        *self == *other
    }

    fn less(&self, other: &Self) -> (r: bool) {
        *self < *other
    }
}

impl RuleValue for u128 {
    open spec fn ordered() -> bool {
        true
    }

    open spec fn before(&self, other: &Self) -> bool {
        *self < *other
    }

    fn is_ordered() -> (r: bool) {
        true
    }

    fn same(&self, other: &Self) -> (r: bool) {
        *self == *other
    }

    fn less(&self, other: &Self) -> (r: bool) {
        *self < *other
    }
}

impl RuleValue for AccountId {
    open spec fn ordered() -> bool {
        false
    }

    open spec fn before(&self, other: &Self) -> bool {
        false
    }

    fn is_ordered() -> (r: bool) {
        false
    }

    fn same(&self, other: &Self) -> (r: bool) {
        self.key_eq(other)
    }

    fn less(&self, other: &Self) -> (r: bool) {
        false
    }
}

impl RuleValue for CurrencyId {
    open spec fn ordered() -> bool {
        false
    }

    open spec fn before(&self, other: &Self) -> bool {
        false
    }

    fn is_ordered() -> (r: bool) {
        false
    }

    fn same(&self, other: &Self) -> (r: bool) {
        *self == *other
    }

    fn less(&self, other: &Self) -> (r: bool) {
        false
    }
}

/// What is checked of a call: whether a set of rules lets it through.
pub trait Rule {
    type CallRule;

    type RuleSet: RulesetManagement<Self::CallRule>;

    /// Whether `rule_set` lets this call through.
    spec fn permitted(&self, rule_set: &Self::RuleSet) -> bool;

    fn check_rule(&self, rule_set: &Self::RuleSet) -> (r: bool)
        ensures
            r == self.permitted(rule_set),
    ;
}

/// A rule for one kind of call: a plain yes or no, or a rule on its arguments.
#[derive(Clone, Debug, PartialEq, Eq)]
pub enum RuleWrapper<RuleType> {
    Simple(bool),
    Rule(RuleType),
}

/// A set of rules that can be started empty and added to.
pub trait RulesetManagement<CallRule>: Sized {
    /// The set without rules.
    spec fn empty() -> Self;

    /// The set with `rule` in place of the rule for the same kind of call.
    spec fn with_rule(self, rule: CallRule) -> Self;

    fn new() -> (r: Self)
        ensures
            r == Self::empty(),
    ;

    fn add_rule(&mut self, rule: CallRule)
        ensures
            *final(self) == old(self).with_rule(rule),
    ;
}

/// A rule on one argument.
#[derive(Debug, PartialEq, Eq)]
pub enum CompRule<P> {
    /// Any value passes.
    Any,
    /// The listed values pass.
    AnyOf(Vec<P>),
    /// All but the listed values pass.
    NoneOf(Vec<P>),
    /// This value passes.
    Exactly(P),
    /// Greater values pass.
    GreaterThan(P),
    /// Lesser values pass.
    LesserThan(P),
    /// This value and greater ones pass.
    GreaterOrEqualTo(P),
    /// This value and lesser ones pass.
    LesserOrEqualTo(P),
}

impl<P: RuleValue> CompRule<P> {
    /// Whether `value` passes the rule. The rules of order let nothing pass
    /// where the values have no order.
    pub open spec fn allows(self, value: P) -> bool {
        match self {
            CompRule::Any => true,
            CompRule::AnyOf(listed) => listed@.contains(value),
            CompRule::NoneOf(listed) => !listed@.contains(value),
            CompRule::Exactly(v) => v == value,
            CompRule::GreaterThan(v) => P::ordered() && v.before(&value),
            CompRule::LesserThan(v) => P::ordered() && value.before(&v),
            CompRule::GreaterOrEqualTo(v) => P::ordered() && (v.before(&value) || v == value),
            CompRule::LesserOrEqualTo(v) => P::ordered() && (value.before(&v) || v == value),
        }
    }
}

fn listed<P: RuleValue>(values: &Vec<P>, value: &P) -> (r: bool)
    ensures
        r == values@.contains(*value),
{
    let mut i: usize = 0;
    while i < values.len()
        invariant
            i <= values@.len(),
            forall|j: int| 0 <= j < i ==> values@[j] != *value,
        decreases values@.len() - i,
    {
        if values[i].same(value) {
            return true;
        }
        i += 1;
    }
    false
}

/// Holds a value against a rule.
pub trait Process<P> {
    /// Whether `compare_with` passes.
    spec fn passes(&self, compare_with: &P) -> bool;

    fn process(&self, compare_with: &P) -> (r: bool)
        ensures
            r == self.passes(compare_with),
    ;
}

impl<P: RuleValue> Process<P> for CompRule<P> {
    open spec fn passes(&self, compare_with: &P) -> bool {
        self.allows(*compare_with)
    }

    fn process(&self, compare_with: &P) -> (r: bool) {
        match self {
            CompRule::Any => true,
            CompRule::AnyOf(vec) => listed(vec, compare_with),
            CompRule::NoneOf(vec) => !listed(vec, compare_with),
            CompRule::Exactly(v) => v.same(compare_with),
            CompRule::GreaterThan(v) => v.less(compare_with),
            CompRule::LesserThan(v) => compare_with.less(v),
            CompRule::GreaterOrEqualTo(v) => P::is_ordered() && (v.less(compare_with) || v.same(
                compare_with,
            )),
            CompRule::LesserOrEqualTo(v) => P::is_ordered() && (compare_with.less(v) || v.same(
                compare_with,
            )),
        }
    }
}

/// Names the identity that stands behind another.
pub trait ToMainId {
    type MainId;

    fn to_main_id(&self) -> Self::MainId;
}

} // verus!
