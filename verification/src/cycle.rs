//! One poll cycle as a state machine: the caller queries the batch that the
//! cycle holds, hands back how each query ended, waits as told, and goes on
//! until the cycle is finished.

use crate::config::Config;
use crate::message::{Message, MessageView};
use crate::scheduler::{
    carry_over, decisions_view, found_in, is_batch_delay, items_view, process_batch,
    results_view, retry_of, transactions_view, Outcome, PollItem, PollItemView, RetryDecision,
    RetryDecisionView, Transaction, TransactionView,
};
use vstd::prelude::*;

verus! {

/// The state of a poll cycle.
#[derive(Debug)]
pub struct PollCycle {
    batch_size: usize,
    max_tries: u32,
    waiting: Vec<Message>,
    in_flight: Vec<PollItem>,
    found: Vec<Transaction>,
}

/// The mathematical value of a [`PollCycle`]: its two limits, the wallets
/// of the snapshot that were not queried yet, the batch to query now, and
/// the transactions found so far.
pub struct CycleView {
    pub batch_size: usize,
    pub max_tries: u32,
    pub waiting: Seq<MessageView>,
    pub in_flight: Seq<PollItemView>,
    pub found: Seq<TransactionView>,
}

/// The values of a list of events.
pub open spec fn messages_view(messages: Seq<Message>) -> Seq<MessageView> {
    messages.map_values(|m: Message| m@)
}

/// Wallets as they enter a cycle: with no try behind them.
pub open spec fn fresh(messages: Seq<MessageView>) -> Seq<PollItemView> {
    messages.map_values(|m: MessageView| PollItemView { message: m, tries: 0 })
}

/// The size of the next batch taken from `waiting` wallets.
pub open spec fn next_batch_len(waiting: int, batch_size: usize) -> int {
    if waiting <= batch_size {
        waiting
    } else {
        batch_size as int
    }
}

/// The cycle after the next batch was taken from the waiting wallets: the
/// first `batch_size` of them, or all where fewer are left.
pub open spec fn refill(c: CycleView) -> CycleView {
    let k = next_batch_len(c.waiting.len() as int, c.batch_size);
    CycleView { in_flight: fresh(c.waiting.take(k)), waiting: c.waiting.skip(k), ..c }
}

/// The cycle at its start: the first batch of the snapshot is to be
/// queried, nothing was found yet.
pub open spec fn start_of(wallets: Seq<MessageView>, batch_size: usize, max_tries: u32) -> CycleView {
    refill(
        CycleView {
            batch_size,
            max_tries,
            waiting: wallets,
            in_flight: Seq::empty(),
            found: Seq::empty(),
        },
    )
}

/// The cycle after a round: what the round found is added; the throttled
/// items that may be tried again form the next batch; where there are
/// none, the next batch is taken from the waiting wallets.
pub open spec fn advance_of(c: CycleView, decisions: Seq<RetryDecisionView>) -> CycleView {
    let outcomes = c.in_flight.zip_with(decisions);
    let carry = carry_over(outcomes, c.max_tries);
    let settled = CycleView { found: c.found + found_in(outcomes), in_flight: carry, ..c };
    if carry.len() > 0 {
        settled
    } else {
        refill(settled)
    }
}

/// What holds of every cycle: no batch is larger than the batch size, no
/// item has more tries behind it than the limit allows, and wallets wait
/// only while a batch is being queried.
pub open spec fn well_formed(c: CycleView) -> bool {
    &&& c.batch_size >= 1
    &&& c.in_flight.len() <= c.batch_size
    &&& forall|i: int| 0 <= i < c.in_flight.len() ==> (#[trigger] c.in_flight[i]).tries <= c.max_tries
    &&& c.in_flight.len() == 0 ==> c.waiting.len() == 0
}

impl View for PollCycle {
    type V = CycleView;

    closed spec fn view(&self) -> CycleView {
        CycleView {
            batch_size: self.batch_size,
            max_tries: self.max_tries,
            waiting: messages_view(self.waiting@),
            in_flight: items_view(self.in_flight@),
            found: transactions_view(self.found@),
        }
    }
}

/// Tags wallets for their first query.
fn tag_fresh(messages: Vec<Message>) -> (r: Vec<PollItem>)
    ensures
        items_view(r@) == fresh(messages_view(messages@)),
        r@.len() == messages@.len(),
{
    let mut r: Vec<PollItem> = Vec::new();
    for m in it: messages.into_iter()
        invariant
            it.seq() == messages@,
            r@.len() == it.index(),
            forall|j: int|
                0 <= j < it.index() ==> (#[trigger] r@[j])@ == (PollItemView {
                    message: messages@[j]@,
                    tries: 0,
                }),
    {
        r.push(PollItem { message: m, tries: 0 });
    }
    r
}

/// The number of queries that an item can still cause: the one that is
/// due, and one for each try that the limit leaves it.
pub open spec fn queries_left(item: PollItemView, max_tries: u32) -> nat {
    if item.tries <= max_tries {
        (max_tries - item.tries + 1) as nat
    } else {
        0
    }
}

/// The number of queries that a list of items can still cause.
pub open spec fn budget(items: Seq<PollItemView>, max_tries: u32) -> nat
    decreases items.len(),
{
    if items.len() == 0 {
        0
    } else {
        budget(items.drop_last(), max_tries) + queries_left(items.last(), max_tries)
    }
}

/// The number of queries that a cycle can still cause: a bound on the
/// rounds that are left.
pub open spec fn work_left(c: CycleView) -> nat {
    budget(c.in_flight, c.max_tries) + budget(fresh(c.waiting), c.max_tries)
}

/// The items that a round queried.
pub open spec fn queried(outcomes: Seq<Outcome>) -> Seq<PollItemView> {
    outcomes.map_values(|o: Outcome| o.0)
}

/// The budget of two lists is the sum of their budgets.
pub proof fn lemma_budget_concat(a: Seq<PollItemView>, b: Seq<PollItemView>, max_tries: u32)
    ensures
        budget(a + b, max_tries) == budget(a, max_tries) + budget(b, max_tries),
    decreases b.len(),
{
    if b.len() > 0 {
        lemma_budget_concat(a, b.drop_last(), max_tries);
        assert((a + b).drop_last() =~= a + b.drop_last());
    }
}

/// The retries of a round are bounded: no more items are carried over than
/// were queried, none of them has more tries behind it than the limit, and
/// each query of the round uses up one of the queries that its items could
/// still cause.
pub proof fn lemma_carry_over_bounded(outcomes: Seq<Outcome>, max_tries: u32)
    requires
        forall|i: int| 0 <= i < outcomes.len() ==> (#[trigger] outcomes[i]).0.tries <= max_tries,
    ensures
        carry_over(outcomes, max_tries).len() <= outcomes.len(),
        forall|j: int|
            0 <= j < carry_over(outcomes, max_tries).len() ==> 1 <= (#[trigger] carry_over(
                outcomes,
                max_tries,
            )[j]).tries <= max_tries,
        budget(carry_over(outcomes, max_tries), max_tries) + outcomes.len() <= budget(
            queried(outcomes),
            max_tries,
        ),
    decreases outcomes.len(),
{
    if outcomes.len() > 0 {
        let rest = outcomes.drop_last();
        let last = outcomes.last();
        lemma_carry_over_bounded(rest, max_tries);
        assert(queried(outcomes).drop_last() =~= queried(rest));
        let carried = carry_over(rest, max_tries);
        if let Some(again) = retry_of(last, max_tries) {
            let all = carried + seq![again];
            assert(all.drop_last() =~= carried);
            assert forall|j: int| 0 <= j < all.len() implies 1 <= (#[trigger] all[j]).tries
                <= max_tries by {}
        }
    }
}

/// Pairs each queried item with the decision on its query.
fn pair_up(items: Vec<PollItem>, decisions: Vec<RetryDecision>) -> (r: Vec<(PollItem, RetryDecision)>)
    requires
        items@.len() == decisions@.len(),
    ensures
        results_view(r@) == items_view(items@).zip_with(decisions_view(decisions@)),
{
    let mut left = items;
    let mut r: Vec<(PollItem, RetryDecision)> = Vec::new();
    for d in it: decisions.into_iter()
        invariant
            it.seq() == decisions@,
            items@.len() == decisions@.len(),
            left@ == items@.skip(it.index() as int),
            r@.len() == it.index(),
            forall|j: int|
                0 <= j < it.index() ==> (#[trigger] r@[j]).0 == items@[j] && r@[j].1
                    == decisions@[j],
    {
        let ghost i = it.index() as int;
        let item = left.remove(0);
        r.push((item, d));
    }
    r
}

impl PollCycle {
    /// Every cycle is well formed.
    #[verifier::type_invariant]
    spec fn inv(&self) -> bool {
        well_formed(self@)
    }

    /// Takes the next batch from the waiting wallets.
    fn take_batch(batch_size: usize, max_tries: u32, waiting: Vec<Message>, found: Vec<Transaction>) -> (r:
        PollCycle)
        requires
            batch_size >= 1,
        ensures
            r@ == refill(
                CycleView {
                    batch_size,
                    max_tries,
                    waiting: messages_view(waiting@),
                    in_flight: Seq::empty(),
                    found: transactions_view(found@),
                },
            ),
            well_formed(r@),
    {
        let mut head = waiting;
        let k = if head.len() <= batch_size {
            head.len()
        } else {
            batch_size
        };
        let rest = head.split_off(k);
        proof {
            assert(messages_view(head@) =~= messages_view(waiting@).take(k as int));
            assert(messages_view(rest@) =~= messages_view(waiting@).skip(k as int));
        }
        let in_flight = tag_fresh(head);
        PollCycle { batch_size, max_tries, waiting: rest, in_flight, found }
    }

    /// The batch to query now: one query for each of its items, all at
    /// once. It is empty once the cycle is finished.
    pub fn batch(&self) -> (r: &Vec<PollItem>)
        ensures
            items_view(r@) == self@.in_flight,
            r@.len() <= self@.batch_size,
            well_formed(self@),
    {
        proof {
            use_type_invariant(self);
        }
        &self.in_flight
    }

    /// Whether nothing is left to query in this cycle.
    pub fn is_finished(&self) -> (r: bool)
        ensures
            r == (self@.in_flight.len() == 0),
            r ==> self@.waiting.len() == 0,
    {
        proof {
            use_type_invariant(self);
        }
        self.in_flight.len() == 0
    }

    /// Settles the round that was queried: `decisions` holds how the query
    /// of each item of the batch ended, in the batch's order. The next
    /// state comes back with the wait that is due before its batch is
    /// queried.
    pub fn advance(self, decisions: Vec<RetryDecision>) -> (r: (PollCycle, Option<u64>))
        requires
            decisions@.len() == self@.in_flight.len(),
        ensures
            r.0@ == advance_of(self@, decisions_view(decisions@)),
            well_formed(r.0@),
            is_batch_delay(self@.in_flight.zip_with(decisions_view(decisions@)), r.1),
            self@.in_flight.len() > 0 ==> work_left(r.0@) < work_left(self@),
    {
        proof {
            use_type_invariant(&self);
        }
        let ghost before = self@;
        let ghost outcomes = before.in_flight.zip_with(decisions_view(decisions@));
        let PollCycle { batch_size, max_tries, waiting, in_flight, found } = self;
        let results = pair_up(in_flight, decisions);
        let (mut added, to_retry, delay) = process_batch(results, max_tries);
        let mut found = found;
        let ghost old_found = found@;
        let ghost new_found = added@;
        found.append(&mut added);
        proof {
            assert(transactions_view(found@) =~= transactions_view(old_found) + transactions_view(
                new_found,
            ));
            assert(queried(outcomes) =~= before.in_flight);
            lemma_carry_over_bounded(outcomes, max_tries);
            let k = next_batch_len(before.waiting.len() as int, batch_size);
            lemma_budget_concat(
                fresh(before.waiting.take(k)),
                fresh(before.waiting.skip(k)),
                max_tries,
            );
            assert(fresh(before.waiting.take(k)) + fresh(before.waiting.skip(k)) =~= fresh(
                before.waiting,
            ));
        }
        if to_retry.len() > 0 {
            (PollCycle { batch_size, max_tries, waiting, in_flight: to_retry, found }, delay)
        } else {
            (PollCycle::take_batch(batch_size, max_tries, waiting, found), delay)
        }
    }

    /// The transactions that the cycle found, in the order in which the
    /// rounds found them.
    pub fn into_transactions(self) -> (r: Vec<Transaction>)
        ensures
            transactions_view(r@) == self@.found,
    {
        self.found
    }
}

/// Starts a poll cycle over a snapshot of the registry: the wallets are
/// queried in the snapshot's order, `config.batch_size()` at a time.
pub fn check_wallets(wallets: Vec<Message>, config: &Config) -> (r: PollCycle)
    ensures
        r@ == start_of(messages_view(wallets@), config@.batch_size, config@.max_tries),
        well_formed(r@),
{
    let found: Vec<Transaction> = Vec::new();
    assert(transactions_view(found@) =~= Seq::<TransactionView>::empty());
    PollCycle::take_batch(config.batch_size(), config.max_tries(), wallets, found)
}

} // verus!
