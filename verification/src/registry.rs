//! The registry of active wallets as the consumer writes it: one entry per
//! wallet under the key `wid:` + wallet id, holding the event's bytes as
//! they were received.

use crate::message::{Message, MessageView};
use vstd::prelude::*;
use vstd::string::*;

verus! {

/// What the registry holds: the stored bytes under each key.
pub type Entries = Map<Seq<char>, Seq<u8>>;

/// The prefix that every registry key starts with.
pub open spec fn key_prefix() -> Seq<char> {
    seq!['w', 'i', 'd', ':']
}

/// The key under which a wallet's entry is stored.
pub open spec fn registry_key(wallet_id: Seq<char>) -> Seq<char> {
    key_prefix() + wallet_id
}

/// The pattern that matches every registry key.
pub open spec fn scan_pattern_spec() -> Seq<char> {
    key_prefix().push('*')
}

/// One write to the registry.
#[derive(Clone, Debug, PartialEq, Eq)]
pub enum RegistryOp {
    /// Store `value` under `key`, over whatever was there.
    Upsert { key: String, value: Vec<u8> },
    /// Remove the entry under `key`, if there is one.
    Delete { key: String },
}

/// The mathematical value of a [`RegistryOp`].
pub enum RegistryOpView {
    Upsert { key: Seq<char>, value: Seq<u8> },
    Delete { key: Seq<char> },
}

impl View for RegistryOp {
    type V = RegistryOpView;

    open spec fn view(&self) -> RegistryOpView {
        match self {
            RegistryOp::Upsert { key, value } => RegistryOpView::Upsert { key: key@, value: value@ },
            RegistryOp::Delete { key } => RegistryOpView::Delete { key: key@ },
        }
    }
}

/// The write that an event asks for: an active wallet's entry is set to the
/// bytes received, an inactive wallet's entry is removed.
pub open spec fn op_for(msg: MessageView, content: Seq<u8>) -> RegistryOpView {
    if msg.is_active {
        RegistryOpView::Upsert { key: registry_key(msg.wallet_id), value: content }
    } else {
        RegistryOpView::Delete { key: registry_key(msg.wallet_id) }
    }
}

/// The registry after one write.
pub open spec fn apply_op(entries: Entries, op: RegistryOpView) -> Entries {
    match op {
        RegistryOpView::Upsert { key, value } => entries.insert(key, value),
        RegistryOpView::Delete { key } => entries.remove(key),
    }
}

/// The registry after one event, received as `content`.
pub open spec fn apply_event(entries: Entries, msg: MessageView, content: Seq<u8>) -> Entries {
    apply_op(entries, op_for(msg, content))
}

/// The registry after a run of events, each with the bytes it came as,
/// processed first to last.
pub open spec fn apply_events(entries: Entries, events: Seq<(MessageView, Seq<u8>)>) -> Entries
    decreases events.len(),
{
    if events.len() == 0 {
        entries
    } else {
        apply_event(apply_events(entries, events.drop_last()), events.last().0, events.last().1)
    }
}

/// The key of a wallet's entry.
pub fn key_for(wallet_id: &str) -> (r: String)
    ensures
        r@ == registry_key(wallet_id@),
{
    proof {
        reveal_strlit("wid:");
    }
    String::from_str("wid:").concat(wallet_id)
}

/// The pattern to scan the registry with.
pub fn scan_pattern() -> (r: String)
    ensures
        r@ == scan_pattern_spec(),
{
    proof {
        reveal_strlit("wid:");
        reveal_strlit("*");
    }
    String::from_str("wid:").concat("*")
}

/// The write that a received event asks for. `content` is the payload as it
/// was delivered: it is stored as it is.
pub fn registry_op(msg: &Message, content: Vec<u8>) -> (op: RegistryOp)
    ensures
        op@ == op_for(msg@, content@),
{
    let key = key_for(msg.wallet_id.as_str());
    if msg.is_active {
        RegistryOp::Upsert { key, value: content }
    } else {
        RegistryOp::Delete { key }
    }
}

/// Two wallets share a key only if they are the same wallet.
pub proof fn lemma_key_injective(a: Seq<char>, b: Seq<char>)
    requires
        registry_key(a) == registry_key(b),
    ensures
        a == b,
{
    assert(registry_key(b).skip(4) =~= b);
}

/// Removing the entry of a wallet that has none leaves the registry as it
/// was.
pub proof fn lemma_delete_absent_is_noop(entries: Entries, msg: MessageView, content: Seq<u8>)
    requires
        !msg.is_active,
        !entries.dom().contains(registry_key(msg.wallet_id)),
    ensures
        apply_event(entries, msg, content) == entries,
{
}

/// Processing the same delivery twice leaves the registry as after the
/// first time.
pub proof fn lemma_replay_is_idempotent(entries: Entries, msg: MessageView, content: Seq<u8>)
    ensures
        apply_event(apply_event(entries, msg, content), msg, content) == apply_event(
            entries,
            msg,
            content,
        ),
{
}

/// An event overrides whatever an earlier event of the same wallet did.
pub proof fn lemma_later_event_overrides(
    entries: Entries,
    first: MessageView,
    first_content: Seq<u8>,
    second: MessageView,
    second_content: Seq<u8>,
)
    requires
        first.wallet_id == second.wallet_id,
    ensures
        apply_event(apply_event(entries, first, first_content), second, second_content)
            == apply_event(entries, second, second_content),
{
}

/// After any run of events of one wallet, the registry is what the last of
/// them alone would have made of it.
pub proof fn lemma_last_event_wins(
    entries: Entries,
    events: Seq<(MessageView, Seq<u8>)>,
    wallet_id: Seq<char>,
)
    requires
        events.len() > 0,
        forall|i: int| 0 <= i < events.len() ==> (#[trigger] events[i]).0.wallet_id == wallet_id,
    ensures
        apply_events(entries, events) == apply_event(entries, events.last().0, events.last().1),
    decreases events.len(),
{
    let last = events.last();
    let before = events.drop_last();
    if before.len() == 0 {
        assert(apply_events(entries, before) == entries);
    } else {
        lemma_last_event_wins(entries, before, wallet_id);
        lemma_later_event_overrides(entries, before.last().0, before.last().1, last.0, last.1);
    }
}

/// After any run of events of one wallet, the registry has an entry for the
/// wallet if and only if the last event was an activation, and the entry
/// then holds that event's bytes.
pub proof fn lemma_entry_iff_last_active(
    entries: Entries,
    events: Seq<(MessageView, Seq<u8>)>,
    wallet_id: Seq<char>,
)
    requires
        events.len() > 0,
        forall|i: int| 0 <= i < events.len() ==> (#[trigger] events[i]).0.wallet_id == wallet_id,
    ensures
        apply_events(entries, events).dom().contains(registry_key(wallet_id))
            <==> events.last().0.is_active,
        events.last().0.is_active ==> apply_events(entries, events)[registry_key(wallet_id)]
            == events.last().1,
{
    lemma_last_event_wins(entries, events, wallet_id);
}

/// An event changes no entry but that of its own wallet.
pub proof fn lemma_other_wallets_untouched(
    entries: Entries,
    msg: MessageView,
    content: Seq<u8>,
    other: Seq<char>,
)
    requires
        other != msg.wallet_id,
    ensures
        apply_event(entries, msg, content).dom().contains(registry_key(other))
            == entries.dom().contains(registry_key(other)),
        entries.dom().contains(registry_key(other)) ==> apply_event(
            entries,
            msg,
            content,
        )[registry_key(other)] == entries[registry_key(other)],
{
    if registry_key(other) == registry_key(msg.wallet_id) {
        lemma_key_injective(other, msg.wallet_id);
    }
}

} // verus!
