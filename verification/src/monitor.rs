//! The monitor's decision at the head of each cycle: what to do after a
//! read of the registry.

use crate::config::{Config, IDLE_INTERVAL_MS};
use crate::cycle::{check_wallets, messages_view, start_of, well_formed, PollCycle};
use crate::message::{Message, MessageView};
use vstd::prelude::*;

verus! {

/// What to do after a read of the registry.
#[derive(Debug)]
pub enum MonitorAction {
    /// Nothing is to be queried: wait this many milliseconds and read the
    /// registry again.
    Idle(u64),
    /// Run this poll cycle.
    Poll(PollCycle),
}

/// The values of a snapshot's entries: each one decoded, or `None` where
/// its bytes are no activation event.
pub open spec fn entries_view(entries: Seq<Option<Message>>) -> Seq<Option<MessageView>> {
    entries.map_values(
        |e: Option<Message>|
            match e {
                Some(m) => Some(m@),
                None => None,
            },
    )
}

/// The rule that keeps a decoded entry and skips any other.
pub open spec fn keep_decoded() -> spec_fn(Option<MessageView>) -> Option<MessageView> {
    |e: Option<MessageView>| e
}

/// The wallets of a snapshot: its decoded entries, in the snapshot's
/// order. An entry that could not be decoded is skipped for this cycle.
pub open spec fn wallets_of(entries: Seq<Option<MessageView>>) -> Seq<MessageView> {
    entries.filter_map(keep_decoded())
}

/// Collects the wallets of a snapshot.
pub fn snapshot_wallets(entries: Vec<Option<Message>>) -> (r: Vec<Message>)
    ensures
        messages_view(r@) == wallets_of(entries_view(entries@)),
{
    let ghost all = entries_view(entries@);
    let mut r: Vec<Message> = Vec::new();
    for entry in it: entries.into_iter()
        invariant
            it.seq() == entries@,
            all == entries_view(entries@),
            messages_view(r@) == wallets_of(all.take(it.index() as int)),
    {
        let ghost i = it.index() as int;
        proof {
            all.lemma_filter_map_take_succ(keep_decoded(), i);
        }
        if let Some(m) = entry {
            r.push(m);
        }
    }
    assert(all.take(entries@.len() as int) =~= all);
    r
}

/// The wallets to poll after a read of the registry: those of the snapshot,
/// and none where the registry could not be read.
pub open spec fn wallets_read(snapshot: Option<Seq<Option<MessageView>>>) -> Seq<MessageView> {
    match snapshot {
        Some(entries) => wallets_of(entries),
        None => Seq::empty(),
    }
}

/// The values of a read of the registry: its entries, or `None` where the
/// read failed.
pub open spec fn snapshot_view(snapshot: Option<Vec<Option<Message>>>) -> Option<
    Seq<Option<MessageView>>,
> {
    match snapshot {
        Some(entries) => Some(entries_view(entries@)),
        None => None,
    }
}

/// Decides what to do after a read of the registry. `snapshot` holds the
/// entries read, or `None` where the registry could not be read. A read
/// that failed skips this cycle; it and an empty snapshot call for a pause.
/// Any other snapshot calls for a poll cycle over its wallets.
pub fn monitoring(snapshot: Option<Vec<Option<Message>>>, config: &Config) -> (r: MonitorAction)
    ensures
        match r {
            MonitorAction::Idle(ms) => wallets_read(snapshot_view(snapshot)).len() == 0 && ms
                == IDLE_INTERVAL_MS,
            MonitorAction::Poll(cycle) => wallets_read(snapshot_view(snapshot)).len() > 0 && cycle@
                == start_of(
                wallets_read(snapshot_view(snapshot)),
                config@.batch_size,
                config@.max_tries,
            ) && well_formed(cycle@),
        },
{
    match snapshot {
        None => MonitorAction::Idle(IDLE_INTERVAL_MS),
        Some(entries) => {
            let wallets = snapshot_wallets(entries);
            if wallets.len() == 0 {
                MonitorAction::Idle(IDLE_INTERVAL_MS)
            } else {
                MonitorAction::Poll(check_wallets(wallets, config))
            }
        },
    }
}

} // verus!
