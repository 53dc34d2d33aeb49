use collector::config::Config;
use collector::message::Message;
use collector::monitor::{monitoring, snapshot_wallets, MonitorAction};
use collector::registry::{registry_op, RegistryOp};

fn entry(name: &str) -> Option<Message> {
    Some(Message::new(format!("T{}", name), true, name.to_string()))
}

#[test]
fn empty_snapshot_calls_for_a_pause() {
    match monitoring(Some(Vec::new()), &Config::defaults()) {
        MonitorAction::Idle(ms) => assert_eq!(ms, 1000),
        MonitorAction::Poll(_) => panic!("nothing to poll"),
    }
}

#[test]
fn failed_read_skips_the_cycle() {
    match monitoring(None, &Config::defaults()) {
        MonitorAction::Idle(ms) => assert_eq!(ms, 1000),
        MonitorAction::Poll(_) => panic!("nothing was read"),
    }
}

#[test]
fn snapshot_with_wallets_starts_a_cycle() {
    match monitoring(Some(vec![entry("w1"), entry("w2")]), &Config::defaults()) {
        MonitorAction::Idle(_) => panic!("two wallets to poll"),
        MonitorAction::Poll(cycle) => {
            assert!(!cycle.is_finished());
            let ids: Vec<String> = cycle.batch().iter().map(|p| p.message.wallet_id.clone()).collect();
            assert_eq!(ids, vec!["w1", "w2"]);
        }
    }
}

#[test]
fn undecodable_entries_are_skipped() {
    let wallets = snapshot_wallets(vec![None, entry("w1"), None, None, entry("w2"), None]);
    let ids: Vec<String> = wallets.into_iter().map(|m| m.wallet_id).collect();
    assert_eq!(ids, vec!["w1", "w2"]);
    assert_eq!(snapshot_wallets(Vec::new()), Vec::new());
}

#[test]
fn snapshot_of_undecodable_entries_calls_for_a_pause() {
    match monitoring(Some(vec![None, None]), &Config::defaults()) {
        MonitorAction::Idle(ms) => assert_eq!(ms, 1000),
        MonitorAction::Poll(_) => panic!("nothing to poll"),
    }
}

#[test]
fn deactivated_wallet_is_not_polled() {
    let mut store: Vec<(String, Vec<u8>)> = Vec::new();
    let events = vec![
        (Message::new("TAbc...".to_string(), true, "w1".to_string()), b"one".to_vec()),
        (Message::new("TDef...".to_string(), true, "w2".to_string()), b"two".to_vec()),
        (Message::new("TAbc...".to_string(), false, "w1".to_string()), b"off".to_vec()),
    ];
    let mut decoded: Vec<(Vec<u8>, Message)> = Vec::new();
    for (msg, content) in events {
        decoded.push((content.clone(), msg.clone()));
        match registry_op(&msg, content) {
            RegistryOp::Upsert { key, value } => {
                store.retain(|(k, _)| *k != key);
                store.push((key, value));
            }
            RegistryOp::Delete { key } => store.retain(|(k, _)| *k != key),
        }
    }
    assert!(store.iter().all(|(k, _)| k != "wid:w1"));
    let entries: Vec<Option<Message>> = store
        .iter()
        .map(|(_, v)| decoded.iter().find(|(c, _)| c == v).map(|(_, m)| m.clone()))
        .collect();
    match monitoring(Some(entries), &Config::defaults()) {
        MonitorAction::Idle(_) => panic!("one wallet to poll"),
        MonitorAction::Poll(cycle) => {
            let ids: Vec<String> = cycle.batch().iter().map(|p| p.message.wallet_id.clone()).collect();
            assert_eq!(ids, vec!["w2"]);
        }
    }
}
