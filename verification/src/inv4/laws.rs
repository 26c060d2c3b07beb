//! What holds of proposals and votes whatever the holders do.

use vstd::prelude::*;
use crate::core_assets::ledger::Ledger;
use crate::core_assets::CurrencyId;
use crate::dispatch::{DispatchError, RawOrigin, RuntimeOrigin};
use crate::inv4::fee_handling::FeeAsset;
use crate::inv4::origin::{member_of, voter_of};
use crate::inv4::state::{any_voter, inv4_error, Approved, Proposal, State};
use crate::inv4::Error;
use crate::primitives::{AccountId, Balance, OneOrPercent, Perbill, H256};
use crate::storage::lemma_sum_values_push;

verus! {

/// The origin of a call signed by `who`.
pub open spec fn signed(who: AccountId) -> RuntimeOrigin {
    RuntimeOrigin::System(RawOrigin::Signed(who))
}

/// The weight that a threshold asks for never goes down when the issuance goes
/// up, and never exceeds the issuance. So a smaller issuance can only lower
/// what a proposal needs at its next evaluation.
pub proof fn lemma_threshold_monotone(threshold: Perbill, less: Balance, more: Balance)
    requires
        less <= more,
    ensures
        threshold.of(less) <= threshold.of(more),
        threshold.of(more) <= more,
{
    let v = threshold.value() as int;
    threshold.lemma_value_bound();
    assert((v * less + 999_999_999) / 1_000_000_000 <= (v * more + 999_999_999) / 1_000_000_000
        && (v * more + 999_999_999) / 1_000_000_000 <= more) by (nonlinear_arith)
        requires
            0 <= v <= 1_000_000_000,
            0 <= less <= more,
    ;
}

/// The weight that a threshold asks for is the proportion of the issuance,
/// rounded up: a billion times the weight is at least the parts times the
/// issuance, and less than that and a billion more. The whole asks for all of
/// the issuance.
pub proof fn lemma_threshold_is_ceiling(threshold: Perbill, total: Balance)
    ensures
        1_000_000_000 * threshold.of(total) >= threshold.value() * total,
        1_000_000_000 * threshold.of(total) < threshold.value() * total + 1_000_000_000,
        threshold.value() == 1_000_000_000 ==> threshold.of(total) == total,
{
    let v = threshold.value() as int;
    let t = total as int;
    assert(1_000_000_000 * ((v * t + 999_999_999) / 1_000_000_000) >= v * t && 1_000_000_000 * ((v
        * t + 999_999_999) / 1_000_000_000) < v * t + 1_000_000_000) by (nonlinear_arith)
        requires
            0 <= v,
            0 <= t,
    ;
    if v == 1_000_000_000 {
        assert((v * t + 999_999_999) / 1_000_000_000 == t) by (nonlinear_arith)
            requires
                v == 1_000_000_000,
                0 <= t,
        ;
    }
}

/// A threshold that is not nothing asks for something wherever something has
/// been issued: an account that holds nothing does not meet it.
pub proof fn lemma_threshold_asks_for_something(threshold: Perbill, total: Balance)
    requires
        threshold.value() > 0,
        total > 0,
    ensures
        threshold.of(total) >= 1,
{
    let v = threshold.value() as int;
    let t = total as int;
    assert((v * t + 999_999_999) / 1_000_000_000 >= 1) by (nonlinear_arith)
        requires
            v >= 1,
            t >= 1,
    ;
}

/// The whole and a number of percent ask for the same weight whether they are
/// counted in percent or in parts per billion.
pub proof fn lemma_percent_is_parts(threshold: OneOrPercent, ratio: Perbill, total: Balance)
    requires
        ratio.value() == threshold.parts(),
    ensures
        ratio.of(total) == threshold.of(total),
{
    let t = total as int;
    match threshold {
        OneOrPercent::One => {
            assert((1_000_000_000 * t + 999_999_999) / 1_000_000_000 == t) by (nonlinear_arith)
                requires
                    0 <= t,
            ;
        },
        OneOrPercent::ZeroPoint(p) => {
            let v = p.value() as int;
            assert((v * 10_000_000 * t + 999_999_999) / 1_000_000_000 == (v * t + 99) / 100)
                by (nonlinear_arith)
                requires
                    0 <= v,
                    0 <= t,
            ;
        },
    }
}

/// Nobody carries a call on nothing: where the core's minimum support is not
/// nothing and something has been issued, an account that holds none of it does
/// not have a call made by its own weight.
pub proof fn lemma_nothing_carries_nothing(
    state: State,
    caller: AccountId,
    fee_asset: FeeAsset,
    scope: CurrencyId,
    call: Seq<u8>,
    call_hash: H256,
)
    requires
        state.wf(),
        state.cores.contains_key(scope.core_id),
        !state.proposals.contains_key((scope.core_id, call_hash)),
        state.cores[scope.core_id].minimum_support.value() > 0,
        state.ledger.issuance(scope) > 0,
        state.ledger.balance(scope, caller) == 0,
    ensures
        state.needed(scope) >= 1,
        state.operate(signed(caller), fee_asset, scope, call, call_hash) is Ok,
        state.operate(signed(caller), fee_asset, scope, call, call_hash)->Ok_0.1 is None,
{
    lemma_threshold_asks_for_something(
        state.cores[scope.core_id].minimum_support,
        state.ledger.issuance(scope),
    );
}

/// A call that is put to a core is made at once if and only if the votes for it,
/// the caller's among them, reach the weight that the core's threshold asks for
/// of the issuance as it is at that moment.
pub proof fn lemma_operate_executes_iff_threshold(
    state: State,
    caller: AccountId,
    fee_asset: FeeAsset,
    scope: CurrencyId,
    call: Seq<u8>,
    call_hash: H256,
)
    requires
        state.wf(),
        state.operate(signed(caller), fee_asset, scope, call, call_hash) is Ok,
    ensures
        ({
            let key = (scope.core_id, call_hash);
            let cast = if state.proposals.contains_key(key) {
                state.proposals[key].yes_weight as int
            } else {
                0
            };
            let tally = cast + state.ledger.balance(scope, caller);
            let needed = state.cores[scope.core_id].minimum_support.of(
                state.ledger.issuance(scope),
            );
            let (after, approved) = state.operate(
                signed(caller),
                fee_asset,
                scope,
                call,
                call_hash,
            )->Ok_0;
            &&& approved is Some <==> tally >= needed
            &&& approved is Some ==> !after.proposals.contains_key(key)
            &&& approved is None ==> after.proposals.contains_key(key)
                && after.proposals[key].yes_weight == tally
        }),
{
}

/// A vote has the call made if and only if the tally, with the vote, reaches the
/// weight that the core's threshold asks for of the issuance as it is when the
/// vote is cast; a vote that does not reach it is added to the proposal.
pub proof fn lemma_vote_executes_iff_threshold(
    state: State,
    voter: AccountId,
    scope: CurrencyId,
    call_hash: H256,
)
    requires
        state.wf(),
        state.vote(signed(voter), scope, call_hash) is Ok,
    ensures
        ({
            let key = (scope.core_id, call_hash);
            let tally = state.proposals[key].yes_weight + state.ledger.balance(scope, voter);
            let needed = state.cores[scope.core_id].minimum_support.of(
                state.ledger.issuance(scope),
            );
            let (after, approved) = state.vote(signed(voter), scope, call_hash)->Ok_0;
            &&& approved is Some <==> tally >= needed
            &&& approved is Some ==> !after.proposals.contains_key(key) && approved->Some_0.call
                == state.proposals[key].stored_call
            &&& approved is None ==> after.proposals.contains_key(key)
                && after.proposals[key].yes_weight == tally
        }),
{
}

/// A second vote of the same member on the same proposal fails with
/// `AlreadyVoted`, whether the member is an account or a token; a call that
/// fails changes nothing, so the tally stays as it is.
pub proof fn lemma_no_double_vote(
    state: State,
    origin: RuntimeOrigin,
    scope: CurrencyId,
    call_hash: H256,
)
    requires
        voter_of(origin) is Some,
        state.proposals.contains_key((scope.core_id, call_hash)),
        state.proposals[(scope.core_id, call_hash)].voters.contains_key(voter_of(origin)->Some_0),
    ensures
        state.vote(origin, scope, call_hash) == Err::<(State, Option<Approved>), DispatchError>(
            inv4_error(Error::AlreadyVoted),
        ),
{
}

/// A member has one vote, whoever the member is: equal tokens vote under one
/// account, so the second vote of a token on a proposal fails with
/// `AlreadyVoted`, as the second vote of an account does, and adds nothing to
/// the tally.
pub proof fn lemma_no_double_vote_by_member(
    state: State,
    origin: RuntimeOrigin,
    again: RuntimeOrigin,
    scope: CurrencyId,
    call_hash: H256,
)
    requires
        member_of(origin) is Some,
        member_of(again) == member_of(origin),
        state.vote(origin, scope, call_hash) is Ok,
        state.vote(origin, scope, call_hash)->Ok_0.1 is None,
    ensures
        voter_of(again) == voter_of(origin),
        state.vote(origin, scope, call_hash)->Ok_0.0.vote(again, scope, call_hash) == Err::<
            (State, Option<Approved>),
            DispatchError,
        >(inv4_error(Error::AlreadyVoted)),
{
}

/// Whoever has just voted cannot vote again: after a vote that was added to a
/// proposal, the same account's next vote fails and leaves the tally unchanged.
pub proof fn lemma_vote_then_vote_fails(
    state: State,
    voter: AccountId,
    scope: CurrencyId,
    call_hash: H256,
)
    requires
        state.vote(signed(voter), scope, call_hash) is Ok,
        state.vote(signed(voter), scope, call_hash)->Ok_0.1 is None,
    ensures
        state.vote(signed(voter), scope, call_hash)->Ok_0.0.vote(signed(voter), scope, call_hash)
            == Err::<(State, Option<Approved>), DispatchError>(
            inv4_error(Error::AlreadyVoted),
        ),
{
}

/// Taking a vote back takes from the tally exactly the weight that the vote had
/// when it was cast: whatever has become of the ledger since, the proposal is
/// again what it was before the vote.
pub proof fn lemma_withdraw_restores_tally(
    state: State,
    voter: AccountId,
    scope: CurrencyId,
    call_hash: H256,
    later: Ledger,
)
    requires
        state.wf(),
        state.vote(signed(voter), scope, call_hash) is Ok,
        state.vote(signed(voter), scope, call_hash)->Ok_0.1 is None,
    ensures
        ({
            let key = (scope.core_id, call_hash);
            let voted = state.vote(signed(voter), scope, call_hash)->Ok_0.0;
            let drained = State { ledger: later, ..voted };
            let withdrawn = drained.withdraw_vote(signed(voter), scope, call_hash);
            &&& voted.proposals[key].yes_weight == state.proposals[key].yes_weight
                + state.ledger.balance(scope, voter)
            &&& withdrawn is Ok
            &&& withdrawn->Ok_0.proposals.contains_key(key)
            &&& withdrawn->Ok_0.proposals[key] == state.proposals[key]
            &&& withdrawn->Ok_0.proposals == state.proposals
        }),
{
    let key = (scope.core_id, call_hash);
    let before = state.proposals[key];
    let weight = state.ledger.balance(scope, voter);
    let voted = state.vote(signed(voter), scope, call_hash)->Ok_0.0;
    let drained = State { ledger: later, ..voted };
    let joined = before.with_vote(voter, weight);
    assert(voted.proposals[key] == joined);
    assert(!before.order.contains(voter));
    let n = before.order.len() as int;
    assert(joined.order[n] == voter);
    assert(joined.order.contains(voter));
    let i = joined.order.index_of(voter);
    assert(i == n) by {
        if i != n {
            assert(before.order[i] == voter);
        }
    }
    assert(joined.order.remove(n) =~= before.order);
    assert(joined.voters.remove(voter) =~= before.voters);
    assert(joined.without_vote(voter) =~= before);
    let withdrawn = drained.withdraw_vote(signed(voter), scope, call_hash);
    assert(withdrawn->Ok_0.proposals =~= state.proposals);
}

/// A call that one holder's balance carries alone, and the same call carried by
/// the votes of two holders, one after the other, come to the same: the same
/// call is handed out to be made for the same core, no proposal for it stays
/// behind, and the cores, the ledger and the other proposals are what they
/// were. Only the record of what has happened tells the two apart.
pub proof fn lemma_fast_path_equivalence(
    state: State,
    alone: AccountId,
    first: AccountId,
    second: AccountId,
    fee_asset: FeeAsset,
    scope: CurrencyId,
    call: Seq<u8>,
    call_hash: H256,
)
    requires
        state.wf(),
        state.cores.contains_key(scope.core_id),
        !state.proposals.contains_key((scope.core_id, call_hash)),
        first != second,
        state.ledger.balance(scope, alone) >= state.needed(scope),
        state.ledger.balance(scope, first) < state.needed(scope),
        state.ledger.balance(scope, first) + state.ledger.balance(scope, second) >= state.needed(
            scope,
        ),
    ensures
        ({
            let fast = state.operate(signed(alone), fee_asset, scope, call, call_hash);
            let opened = state.operate(signed(first), fee_asset, scope, call, call_hash);
            let slow = opened->Ok_0.0.vote(signed(second), scope, call_hash);
            &&& fast is Ok
            &&& opened is Ok
            &&& opened->Ok_0.1 is None
            &&& slow is Ok
            &&& fast->Ok_0.1 is Some
            &&& fast->Ok_0.1 == slow->Ok_0.1
            &&& fast->Ok_0.1->Some_0 == State::approved(scope.core_id, call, fee_asset)
            &&& fast->Ok_0.0.proposals == state.proposals
            &&& slow->Ok_0.0.proposals == state.proposals
            &&& fast->Ok_0.0.ledger == slow->Ok_0.0.ledger
            &&& fast->Ok_0.0.cores == slow->Ok_0.0.cores
            &&& fast->Ok_0.0.core_by_account == slow->Ok_0.0.core_by_account
            &&& fast->Ok_0.0.sub_assets == slow->Ok_0.0.sub_assets
            &&& fast->Ok_0.0.next_core_id == slow->Ok_0.0.next_core_id
        }),
{
    let key = (scope.core_id, call_hash);
    let fast = state.operate(signed(alone), fee_asset, scope, call, call_hash);
    let opened = state.operate(signed(first), fee_asset, scope, call, call_hash);
    let started = opened->Ok_0.0;
    assert(state.ledger.balanced(scope));
    crate::core_assets::laws::lemma_balances_within_issuance(state.ledger, scope, first, second);
    assert(started.proposals[key] == Proposal::opened(
        call,
        fee_asset,
        first,
        state.ledger.balance(scope, first),
    ));
    assert(!started.proposals[key].voters.contains_key(second));
    let slow = started.vote(signed(second), scope, call_hash);
    assert(fast->Ok_0.0.proposals =~= state.proposals);
    assert(slow->Ok_0.0.proposals =~= state.proposals);
}

/// The votes for a proposal that is in order add up to its tally, whoever opened
/// it and whoever joined.
pub proof fn lemma_tally_is_sum_of_votes(proposal: Proposal, voter: AccountId, weight: Balance)
    requires
        proposal.wf(),
        !proposal.voters.contains_key(voter),
        proposal.yes_weight + weight <= Balance::MAX,
    ensures
        proposal.with_vote(voter, weight).wf(),
        proposal.with_vote(voter, weight).tally() == proposal.tally() + weight,
{
    lemma_sum_values_push(proposal.order, proposal.voters, any_voter(), voter, weight);
    let joined = proposal.with_vote(voter, weight);
    let n = proposal.order.len() as int;
    assert(joined.order.no_duplicates()) by {
        assert forall|a: int, b: int|
            0 <= a < joined.order.len() && 0 <= b < joined.order.len() && a
                != b implies joined.order[a] != joined.order[b] by {
            if a == n {
                assert(proposal.order[b] == joined.order[b]);
                assert(proposal.order.contains(joined.order[b]));
            } else if b == n {
                assert(proposal.order[a] == joined.order[a]);
                assert(proposal.order.contains(joined.order[a]));
            }
        }
    }
    assert forall|who: AccountId|
        joined.order.contains(who) <==> #[trigger] joined.voters.contains_key(who) by {
        assert(proposal.order.contains(who) <==> proposal.voters.contains_key(who));
        if proposal.order.contains(who) {
            let j = proposal.order.index_of(who);
            assert(joined.order[j] == who);
        }
        if who == voter {
            assert(joined.order[n] == who);
        }
        if joined.order.contains(who) {
            let j = joined.order.index_of(who);
            if j < n {
                assert(proposal.order[j] == who);
            }
        }
    }
}

} // verus!
