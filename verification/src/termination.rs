//! Laws of the poll cycle: its batches stay within the batch size, every
//! round brings it closer to its end, and an address that is throttled
//! again and again is dropped after the allowed number of retries.

use crate::cycle::{
    advance_of, budget, fresh, lemma_budget_concat, lemma_carry_over_bounded, next_batch_len,
    queried, start_of, well_formed, work_left, CycleView,
};
use crate::message::MessageView;
use crate::scheduler::{
    completed_of, retry_rule, Outcome, PollItemView, RetryDecisionView, TransactionView,
};
use vstd::prelude::*;

verus! {

/// The cycle after a run of rounds, each given by the decisions on its
/// queries.
pub open spec fn run(c: CycleView, rounds: Seq<Seq<RetryDecisionView>>) -> CycleView
    decreases rounds.len(),
{
    if rounds.len() == 0 {
        c
    } else {
        advance_of(run(c, rounds.drop_last()), rounds.last())
    }
}

/// Whether each round of a run holds one decision for each query of the
/// batch that the cycle held at that point.
pub open spec fn rounds_fit(c: CycleView, rounds: Seq<Seq<RetryDecisionView>>) -> bool {
    forall|k: int|
        0 <= k < rounds.len() ==> (#[trigger] rounds[k]).len() == run(c, rounds.take(k)).in_flight.len()
}

/// A cycle starts well formed: its first batch holds at most `batch_size`
/// wallets.
pub proof fn lemma_start_well_formed(wallets: Seq<MessageView>, batch_size: usize, max_tries: u32)
    requires
        batch_size >= 1,
    ensures
        well_formed(start_of(wallets, batch_size, max_tries)),
        work_left(start_of(wallets, batch_size, max_tries)) == budget(fresh(wallets), max_tries),
{
    let k = next_batch_len(wallets.len() as int, batch_size);
    lemma_budget_concat(fresh(wallets.take(k)), fresh(wallets.skip(k)), max_tries);
    assert(fresh(wallets.take(k)) + fresh(wallets.skip(k)) =~= fresh(wallets));
}

/// Fresh wallets can cause one query each and one more for each retry that
/// the limit allows: `max_tries + 1` queries for each wallet.
pub proof fn lemma_fresh_budget(wallets: Seq<MessageView>, max_tries: u32)
    ensures
        budget(fresh(wallets), max_tries) == wallets.len() * (max_tries + 1),
    decreases wallets.len(),
{
    let n = wallets.len() as int;
    let each = max_tries + 1;
    if n == 0 {
        assert(0 * each == 0);
    } else {
        lemma_fresh_budget(wallets.drop_last(), max_tries);
        assert(fresh(wallets).drop_last() =~= fresh(wallets.drop_last()));
        assert((n - 1) * each + each == n * each) by (nonlinear_arith);
    }
}

/// A round keeps the cycle well formed, so that no batch ever holds more
/// than `batch_size` items, and a round that queried anything leaves
/// strictly less work than there was.
pub proof fn lemma_round_uses_budget(c: CycleView, decisions: Seq<RetryDecisionView>)
    requires
        well_formed(c),
        decisions.len() == c.in_flight.len(),
    ensures
        well_formed(advance_of(c, decisions)),
        c.in_flight.len() > 0 ==> work_left(advance_of(c, decisions)) < work_left(c),
        c.in_flight.len() == 0 ==> advance_of(c, decisions) == c,
        advance_of(c, decisions).batch_size == c.batch_size,
        advance_of(c, decisions).max_tries == c.max_tries,
{
    let outcomes = c.in_flight.zip_with(decisions);
    assert(queried(outcomes) =~= c.in_flight);
    lemma_carry_over_bounded(outcomes, c.max_tries);
    let k = next_batch_len(c.waiting.len() as int, c.batch_size);
    lemma_budget_concat(fresh(c.waiting.take(k)), fresh(c.waiting.skip(k)), c.max_tries);
    assert(fresh(c.waiting.take(k)) + fresh(c.waiting.skip(k)) =~= fresh(c.waiting));
    if c.in_flight.len() == 0 {
        assert(c.waiting.skip(0) =~= c.waiting);
        assert(fresh(c.waiting) =~= c.in_flight);
    }
}

/// A cycle ends: after any run of rounds it is well formed, and either
/// finished or closer to its end by at least one query for each round. So
/// after `work_left` rounds at the latest nothing is left to query.
pub proof fn lemma_cycle_terminates(c: CycleView, rounds: Seq<Seq<RetryDecisionView>>)
    requires
        well_formed(c),
        rounds_fit(c, rounds),
    ensures
        well_formed(run(c, rounds)),
        run(c, rounds).batch_size == c.batch_size,
        run(c, rounds).max_tries == c.max_tries,
        run(c, rounds).in_flight.len() <= c.batch_size,
        run(c, rounds).in_flight.len() == 0 || work_left(run(c, rounds)) + rounds.len()
            <= work_left(c),
        rounds.len() >= work_left(c) ==> run(c, rounds).in_flight.len() == 0,
    decreases rounds.len(),
{
    if rounds.len() > 0 {
        let before = rounds.drop_last();
        assert forall|k: int| 0 <= k < before.len() implies (#[trigger] before[k]).len() == run(
            c,
            before.take(k),
        ).in_flight.len() by {
            assert(before.take(k) =~= rounds.take(k));
        }
        lemma_cycle_terminates(c, before);
        lemma_round_uses_budget(run(c, before), rounds.last());
    }
}

/// No batch of a cycle asks for more queries at once than the batch size
/// allows, whatever the rounds before it brought.
pub proof fn lemma_batch_within_batch_size(
    wallets: Seq<MessageView>,
    batch_size: usize,
    max_tries: u32,
    rounds: Seq<Seq<RetryDecisionView>>,
)
    requires
        batch_size >= 1,
        rounds_fit(start_of(wallets, batch_size, max_tries), rounds),
    ensures
        run(start_of(wallets, batch_size, max_tries), rounds).in_flight.len() <= batch_size,
{
    lemma_start_well_formed(wallets, batch_size, max_tries);
    lemma_cycle_terminates(start_of(wallets, batch_size, max_tries), rounds);
}

/// Whether every round of a run throttles the one query it answers.
pub open spec fn always_throttled(rounds: Seq<Seq<RetryDecisionView>>) -> bool {
    forall|k: int|
        0 <= k < rounds.len() ==> (#[trigger] rounds[k]).len() == 1
            && rounds[k][0] is RetryableFailure
}

/// An address whose every query is throttled is queried once and tried
/// again `max_tries` times, each time with one more try behind it, and then
/// dropped: the cycle finishes with nothing found.
pub proof fn lemma_always_throttled_is_dropped(
    wallet: MessageView,
    batch_size: usize,
    max_tries: u32,
    rounds: Seq<Seq<RetryDecisionView>>,
)
    requires
        batch_size >= 1,
        always_throttled(rounds),
    ensures
        rounds.len() <= max_tries ==> run(
            start_of(seq![wallet], batch_size, max_tries),
            rounds,
        ).in_flight == seq![PollItemView { message: wallet, tries: rounds.len() as u32 }],
        rounds.len() > max_tries ==> run(
            start_of(seq![wallet], batch_size, max_tries),
            rounds,
        ).in_flight.len() == 0,
        run(start_of(seq![wallet], batch_size, max_tries), rounds).found.len() == 0,
        run(start_of(seq![wallet], batch_size, max_tries), rounds).waiting.len() == 0,
        run(start_of(seq![wallet], batch_size, max_tries), rounds).max_tries == max_tries,
        run(start_of(seq![wallet], batch_size, max_tries), rounds).batch_size == batch_size,
    decreases rounds.len(),
{
    let start = start_of(seq![wallet], batch_size, max_tries);
    if rounds.len() > 0 {
        let before = rounds.drop_last();
        assert forall|k: int| 0 <= k < before.len() implies (#[trigger] before[k]).len() == 1
            && before[k][0] is RetryableFailure by {}
        lemma_always_throttled_is_dropped(wallet, batch_size, max_tries, before);
        let c = run(start, before);
        let decisions = rounds.last();
        let outcomes = c.in_flight.zip_with(decisions);
        let none = Seq::<TransactionView>::empty();
        if before.len() <= max_tries {
            let item = PollItemView { message: wallet, tries: before.len() as u32 };
            let outcome: Outcome = (item, decisions[0]);
            assert(outcomes =~= seq![outcome]);
            Seq::<Outcome>::lemma_filter_map_singleton(outcome, retry_rule(max_tries));
            assert(outcomes.map_values(|o: Outcome| completed_of(o)) =~= seq![none]);
            seq![none].lemma_flatten_one_element();
        }
    }
}

} // verus!
