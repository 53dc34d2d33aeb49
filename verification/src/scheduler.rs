//! The poll scheduler's batch and retry engine: what one round of queries
//! yields, which addresses are tried again, and how long to wait.

use crate::amount::Amount;
use crate::client::{
    pairs_view, result_view, GetTransactionError, GetTransactionErrorView, DEFAULT_RETRY_AFTER_MS,
};
use crate::message::{Message, MessageView};
use vstd::prelude::*;

verus! {

/// A transfer that a query found.
#[derive(Clone, Debug, PartialEq, Eq)]
pub struct Transaction {
    pub id: String,
    pub amount: Amount,
}

/// The mathematical value of a [`Transaction`].
pub struct TransactionView {
    pub id: Seq<char>,
    pub amount: Amount,
}

impl View for Transaction {
    type V = TransactionView;

    open spec fn view(&self) -> TransactionView {
        TransactionView { id: self.id@, amount: self.amount }
    }
}

/// A wallet to query, with the number of tries it has behind it in this
/// cycle.
#[derive(Clone, Debug, PartialEq, Eq)]
pub struct PollItem {
    pub message: Message,
    pub tries: u32,
}

/// The mathematical value of a [`PollItem`].
pub struct PollItemView {
    pub message: MessageView,
    pub tries: u32,
}

impl View for PollItem {
    type V = PollItemView;

    open spec fn view(&self) -> PollItemView {
        PollItemView { message: self.message@, tries: self.tries }
    }
}

/// How one query ended.
#[derive(Clone, Debug, PartialEq, Eq)]
pub enum RetryDecision {
    /// The query succeeded and found these transactions.
    Completed(Vec<Transaction>),
    /// The upstream API throttled the query; it may name a delay in
    /// milliseconds.
    RetryableFailure(Option<u64>),
    /// The query failed for good.
    FatalFailure,
}

/// The mathematical value of a [`RetryDecision`].
pub enum RetryDecisionView {
    Completed(Seq<TransactionView>),
    RetryableFailure(Option<u64>),
    FatalFailure,
}

/// The values of a list of transactions.
pub open spec fn transactions_view(transactions: Seq<Transaction>) -> Seq<TransactionView> {
    transactions.map_values(|t: Transaction| t@)
}

/// The values of a list of poll items.
pub open spec fn items_view(items: Seq<PollItem>) -> Seq<PollItemView> {
    items.map_values(|p: PollItem| p@)
}

impl View for RetryDecision {
    type V = RetryDecisionView;

    open spec fn view(&self) -> RetryDecisionView {
        match self {
            RetryDecision::Completed(found) => RetryDecisionView::Completed(
                transactions_view(found@),
            ),
            RetryDecision::RetryableFailure(hint) => RetryDecisionView::RetryableFailure(*hint),
            RetryDecision::FatalFailure => RetryDecisionView::FatalFailure,
        }
    }
}

/// The values of a list of decisions.
pub open spec fn decisions_view(decisions: Seq<RetryDecision>) -> Seq<RetryDecisionView> {
    decisions.map_values(|d: RetryDecision| d@)
}

/// The transaction that a pair of identifier and amount stands for.
pub open spec fn transaction_of(pair: (Seq<char>, Amount)) -> TransactionView {
    TransactionView { id: pair.0, amount: pair.1 }
}

/// The decision that a query's result amounts to: its transactions where
/// it succeeded, a retry where the upstream API throttled it, a fatal
/// failure where the request itself failed.
pub open spec fn decision_of(
    result: Result<Seq<(Seq<char>, Amount)>, GetTransactionErrorView>,
) -> RetryDecisionView {
    match result {
        Ok(pairs) => RetryDecisionView::Completed(
            pairs.map_values(|p: (Seq<char>, Amount)| transaction_of(p)),
        ),
        Err(GetTransactionErrorView::RetryAfter(hint)) => RetryDecisionView::RetryableFailure(hint),
        Err(GetTransactionErrorView::Request(_)) => RetryDecisionView::FatalFailure,
    }
}

impl RetryDecision {
    /// Reads a query's result as a decision.
    pub fn from_result(result: Result<Vec<(String, Amount)>, GetTransactionError>) -> (r:
        RetryDecision)
        ensures
            r@ == decision_of(result_view(result)),
    {
        match result {
            Ok(pairs) => {
                let mut found: Vec<Transaction> = Vec::new();
                for p in it: pairs.into_iter()
                    invariant
                        it.seq() == pairs@,
                        found@.len() == it.index(),
                        forall|j: int|
                            0 <= j < it.index() ==> (#[trigger] found@[j])@ == transaction_of(
                                pairs_view(pairs@)[j],
                            ),
                {
                    found.push(Transaction { id: p.0, amount: p.1 });
                }
                assert(transactions_view(found@) =~= pairs_view(pairs@).map_values(
                    |p: (Seq<char>, Amount)| transaction_of(p),
                ));
                RetryDecision::Completed(found)
            },
            Err(GetTransactionError::RetryAfter(hint)) => RetryDecision::RetryableFailure(hint),
            Err(GetTransactionError::Request(_)) => RetryDecision::FatalFailure,
        }
    }
}

/// One query's outcome: the item that was queried and how the query ended.
pub type Outcome = (PollItemView, RetryDecisionView);

/// The values of a round's results.
pub open spec fn results_view(results: Seq<(PollItem, RetryDecision)>) -> Seq<Outcome> {
    results.map_values(|r: (PollItem, RetryDecision)| (r.0@, r.1@))
}

/// The transactions that one outcome adds: those of a completed query.
pub open spec fn completed_of(outcome: Outcome) -> Seq<TransactionView> {
    match outcome.1 {
        RetryDecisionView::Completed(found) => found,
        _ => Seq::empty(),
    }
}

/// The transactions that a round found: those of its completed queries,
/// in the order of the round.
pub open spec fn found_in(results: Seq<Outcome>) -> Seq<TransactionView> {
    results.map_values(|o: Outcome| completed_of(o)).flatten()
}

/// What becomes of an item after its query: a throttled item with fewer
/// than `max_tries` tries behind it is queried again, with one try more;
/// every other item leaves the cycle.
pub open spec fn retry_of(outcome: Outcome, max_tries: u32) -> Option<PollItemView> {
    if outcome.1 is RetryableFailure && outcome.0.tries < max_tries {
        Some(PollItemView { message: outcome.0.message, tries: (outcome.0.tries + 1) as u32 })
    } else {
        None
    }
}

/// [`retry_of`] for a given limit.
pub open spec fn retry_rule(max_tries: u32) -> spec_fn(Outcome) -> Option<PollItemView> {
    |o: Outcome| retry_of(o, max_tries)
}

/// The items to query again after a round, in the order of the round.
pub open spec fn carry_over(results: Seq<Outcome>, max_tries: u32) -> Seq<PollItemView> {
    results.filter_map(retry_rule(max_tries))
}

/// The delay that one outcome names, if it is a throttled query with a
/// hint.
pub open spec fn hint_of(outcome: Outcome) -> Option<u64> {
    match outcome.1 {
        RetryDecisionView::RetryableFailure(hint) => hint,
        _ => None,
    }
}

/// Whether a round had a throttled query.
pub open spec fn any_throttled(results: Seq<Outcome>) -> bool {
    exists|i: int| 0 <= i < results.len() && (#[trigger] results[i]).1 is RetryableFailure
}

/// Whether `ms` is the largest delay that the round's outcomes name.
pub open spec fn is_max_hint(results: Seq<Outcome>, ms: u64) -> bool {
    &&& exists|i: int| 0 <= i < results.len() && hint_of(#[trigger] results[i]) == Some(ms)
    &&& forall|i: int|
        0 <= i < results.len() ==> (hint_of(#[trigger] results[i]) matches Some(h) ==> h <= ms)
}

/// Whether no outcome of the round names a delay.
pub open spec fn no_hint(results: Seq<Outcome>) -> bool {
    forall|i: int| 0 <= i < results.len() ==> hint_of(#[trigger] results[i]) is None
}

/// Whether `delay` is the wait that a round calls for: none where no query
/// was throttled; else the largest delay that a throttled query named; or
/// the default where none of them named any.
pub open spec fn is_batch_delay(results: Seq<Outcome>, delay: Option<u64>) -> bool {
    match delay {
        None => !any_throttled(results),
        Some(ms) => any_throttled(results) && (is_max_hint(results, ms) || (no_hint(results) && ms
            == DEFAULT_RETRY_AFTER_MS)),
    }
}

/// A round calls for one wait and no other.
pub proof fn lemma_batch_delay_unique(results: Seq<Outcome>, a: Option<u64>, b: Option<u64>)
    requires
        is_batch_delay(results, a),
        is_batch_delay(results, b),
    ensures
        a == b,
{
}

/// The larger of two delays.
pub open spec fn larger(a: u64, b: u64) -> u64 {
    if a >= b {
        a
    } else {
        b
    }
}

/// How the wait that a round calls for changes with one more outcome.
proof fn lemma_round_grows(before: Seq<Outcome>, outcome: Outcome)
    ensures
        any_throttled(before.push(outcome)) == (any_throttled(before)
            || outcome.1 is RetryableFailure),
        no_hint(before.push(outcome)) == (no_hint(before) && hint_of(outcome) is None),
        forall|ms: u64|
            is_max_hint(before, ms) && hint_of(outcome) is None ==> is_max_hint(
                before.push(outcome),
                ms,
            ),
        forall|ms: u64|
            is_max_hint(before, ms) && hint_of(outcome) is Some ==> #[trigger] is_max_hint(
                before.push(outcome),
                larger(ms, hint_of(outcome)->0),
            ),
        no_hint(before) && hint_of(outcome) is Some ==> is_max_hint(
            before.push(outcome),
            hint_of(outcome)->0,
        ),
{
    let after = before.push(outcome);
    let n = before.len() as int;
    assert forall|j: int| 0 <= j < n implies #[trigger] after[j] == before[j] by {}
    if any_throttled(before) {
        let i = choose|i: int| 0 <= i < before.len() && (#[trigger] before[i]).1 is RetryableFailure;
        assert(after[i].1 is RetryableFailure);
    }
    if no_hint(after) {
        assert forall|j: int| 0 <= j < before.len() implies hint_of(#[trigger] before[j]) is None by {
            assert(after[j] == before[j]);
        }
    }
    assert forall|ms: u64| is_max_hint(before, ms) && hint_of(outcome) is None implies is_max_hint(
        after,
        ms,
    ) by {
        let i = choose|i: int| 0 <= i < before.len() && hint_of(#[trigger] before[i]) == Some(ms);
        assert(hint_of(after[i]) == Some(ms));
        assert forall|j: int| 0 <= j < after.len() implies (hint_of(#[trigger] after[j]) matches Some(
            h,
        ) ==> h <= ms) by {}
    }
    assert forall|ms: u64|
        is_max_hint(before, ms) && hint_of(outcome) is Some implies #[trigger] is_max_hint(
        after,
        larger(ms, hint_of(outcome)->0),
    ) by {
        let top = larger(ms, hint_of(outcome)->0);
        let i = choose|i: int| 0 <= i < before.len() && hint_of(#[trigger] before[i]) == Some(ms);
        assert(hint_of(after[i]) == Some(ms));
        assert forall|j: int| 0 <= j < after.len() implies (hint_of(#[trigger] after[j]) matches Some(
            h,
        ) ==> h <= top) by {}
    }
    if no_hint(before) && hint_of(outcome) is Some {
        let h0 = hint_of(outcome)->0;
        assert(hint_of(after[n]) == Some(h0));
        assert forall|j: int| 0 <= j < after.len() implies (hint_of(#[trigger] after[j]) matches Some(
            h,
        ) ==> h <= h0) by {}
    }
}

/// Settles one round of queries. The transactions found come back in the
/// round's order, then the items to query again, then the wait that the
/// round calls for before the next one.
pub fn process_batch(results: Vec<(PollItem, RetryDecision)>, max_tries: u32) -> (r: (
    Vec<Transaction>,
    Vec<PollItem>,
    Option<u64>,
))
    ensures
        transactions_view(r.0@) == found_in(results_view(results@)),
        items_view(r.1@) == carry_over(results_view(results@), max_tries),
        is_batch_delay(results_view(results@), r.2),
{
    let ghost all = results_view(results@);
    let mut found: Vec<Transaction> = Vec::new();
    let mut to_retry: Vec<PollItem> = Vec::new();
    let mut hint: Option<u64> = None;
    let mut throttled = false;
    for entry in it: results.into_iter()
        invariant
            it.seq() == results@,
            all == results_view(results@),
            transactions_view(found@) == found_in(all.take(it.index() as int)),
            items_view(to_retry@) == carry_over(all.take(it.index() as int), max_tries),
            throttled == any_throttled(all.take(it.index() as int)),
            match hint {
                Some(ms) => is_max_hint(all.take(it.index() as int), ms),
                None => no_hint(all.take(it.index() as int)),
            },
    {
        let ghost i = it.index() as int;
        let ghost before = all.take(i);
        let ghost after = all.take(i + 1);
        let ghost outcome = all[i];
        proof {
            assert(after.map_values(|o: Outcome| completed_of(o)) =~= before.map_values(
                |o: Outcome| completed_of(o),
            ).push(completed_of(outcome)));
            before.map_values(|o: Outcome| completed_of(o)).lemma_flatten_push(
                completed_of(outcome),
            );
            all.lemma_filter_map_take_succ(retry_rule(max_tries), i);
            lemma_round_grows(before, outcome);
        }
        let (item, decision) = entry;
        match decision {
            RetryDecision::Completed(mut transactions) => {
                found.append(&mut transactions);
            },
            RetryDecision::RetryableFailure(retry) => {
                if item.tries < max_tries {
                    to_retry.push(PollItem { message: item.message, tries: item.tries + 1 });
                }
                if let Some(ms) = retry {
                    hint =
                    match hint {
                        Some(existing) => Some(if existing >= ms {
                            existing
                        } else {
                            ms
                        }),
                        None => Some(ms),
                    };
                }
                throttled = true;
            },
            RetryDecision::FatalFailure => {},
        }
    }
    assert(all.take(results@.len() as int) =~= all);
    let delay = if !throttled {
        None
    } else {
        match hint {
            Some(ms) => Some(ms),
            None => Some(DEFAULT_RETRY_AFTER_MS),
        }
    };
    (found, to_retry, delay)
}

} // verus!
