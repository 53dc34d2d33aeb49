use collector::message::Message;
use collector::registry::{key_for, registry_op, scan_pattern, RegistryOp};
use std::collections::BTreeMap;

fn event(address: &str, is_active: bool, wallet_id: &str) -> Message {
    Message::new(address.to_string(), is_active, wallet_id.to_string())
}

fn store_apply(store: &mut BTreeMap<String, Vec<u8>>, op: RegistryOp) {
    match op {
        RegistryOp::Upsert { key, value } => {
            store.insert(key, value);
        }
        RegistryOp::Delete { key } => {
            store.remove(&key);
        }
    }
}

fn store_receive(store: &mut BTreeMap<String, Vec<u8>>, msg: &Message, content: &[u8]) {
    store_apply(store, registry_op(msg, content.to_vec()));
}

#[test]
fn message_new_keeps_its_parts() {
    let m = Message::new("TAbc".to_string(), true, "w1".to_string());
    assert_eq!(m.address, "TAbc");
    assert!(m.is_active);
    assert_eq!(m.wallet_id, "w1");
}

#[test]
fn key_is_prefix_and_wallet_id() {
    assert_eq!(key_for("w1"), "wid:w1");
    assert_eq!(key_for(""), "wid:");
    assert_eq!(key_for("wid:x"), "wid:wid:x");
    assert_eq!(key_for("9d1f-é"), "wid:9d1f-é");
}

#[test]
fn scan_pattern_matches_the_prefix() {
    assert_eq!(scan_pattern(), "wid:*");
}

#[test]
fn activation_asks_for_an_upsert_of_the_bytes_received() {
    let content = br#"{"address":"TAbc","is_active":true,"wallet_id":"w1"}"#.to_vec();
    let op = registry_op(&event("TAbc", true, "w1"), content.clone());
    assert_eq!(op, RegistryOp::Upsert { key: "wid:w1".to_string(), value: content });
}

#[test]
fn deactivation_asks_for_a_delete() {
    let op = registry_op(&event("TAbc", false, "w1"), b"anything".to_vec());
    assert_eq!(op, RegistryOp::Delete { key: "wid:w1".to_string() });
}

#[test]
fn activation_then_deactivation_leaves_no_entry() {
    let mut store = BTreeMap::new();
    store_receive(&mut store, &event("TAbc...", true, "w1"), b"first");
    assert!(store.contains_key("wid:w1"));
    assert_eq!(store.get("wid:w1"), Some(&b"first".to_vec()));
    store_receive(&mut store, &event("TAbc...", false, "w1"), b"second");
    assert!(!store.contains_key("wid:w1"));
    assert!(store.is_empty());
}

#[test]
fn last_event_of_a_wallet_wins() {
    let runs: Vec<Vec<bool>> = vec![
        vec![true],
        vec![false],
        vec![true, true],
        vec![true, false, true],
        vec![false, false, true, false],
        vec![true, true, false, true, true],
    ];
    for run in runs {
        let mut store = BTreeMap::new();
        store.insert("wid:other".to_string(), b"kept".to_vec());
        let mut last = None;
        for (i, active) in run.iter().enumerate() {
            let content = format!("event {}", i).into_bytes();
            store_receive(&mut store, &event("TAbc", *active, "w1"), &content);
            last = Some((*active, content));
        }
        let (active, content) = last.unwrap();
        let mut alone = BTreeMap::new();
        alone.insert("wid:other".to_string(), b"kept".to_vec());
        store_receive(&mut alone, &event("TAbc", active, "w1"), &content);
        assert_eq!(store, alone);
        assert_eq!(store.contains_key("wid:w1"), active);
    }
}

#[test]
fn replaying_an_event_changes_nothing() {
    for active in [true, false] {
        let mut once = BTreeMap::new();
        store_receive(&mut once, &event("TAbc", active, "w1"), b"bytes");
        let mut twice = once.clone();
        store_receive(&mut twice, &event("TAbc", active, "w1"), b"bytes");
        assert_eq!(once, twice);
    }
}

#[test]
fn deleting_an_absent_wallet_is_a_no_op() {
    let mut store = BTreeMap::new();
    store.insert("wid:w2".to_string(), b"two".to_vec());
    let before = store.clone();
    store_receive(&mut store, &event("TAbc", false, "w1"), b"ignored");
    assert_eq!(store, before);
}

#[test]
fn events_of_other_wallets_do_not_interfere() {
    let mut store = BTreeMap::new();
    store_receive(&mut store, &event("TA", true, "w1"), b"one");
    store_receive(&mut store, &event("TB", true, "w2"), b"two");
    store_receive(&mut store, &event("TA", false, "w1"), b"gone");
    assert_eq!(store.len(), 1);
    assert_eq!(store.get("wid:w2"), Some(&b"two".to_vec()));
}
