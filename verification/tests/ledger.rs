use collector::ledger::{create_outcome, BatchReport, CreateOutcome, DUPLICATE_CODE};

fn sorted(list: &Vec<String>) -> Vec<String> {
    let mut v = list.clone();
    v.sort();
    v
}

#[test]
fn duplicate_code_is_the_unique_violation() {
    assert_eq!(DUPLICATE_CODE, "23505");
}

#[test]
fn write_results_are_read_as_outcomes() {
    assert_eq!(create_outcome(Ok(())), CreateOutcome::Created);
    assert_eq!(create_outcome(Err(Some("23505".to_string()))), CreateOutcome::Duplicate);
    assert_eq!(create_outcome(Err(Some("23503".to_string()))), CreateOutcome::Failed);
    assert_eq!(create_outcome(Err(Some(String::new()))), CreateOutcome::Failed);
    assert_eq!(create_outcome(Err(None)), CreateOutcome::Failed);
}

#[test]
fn new_report_is_empty() {
    let r = BatchReport::new();
    assert!(r.created().is_empty());
    assert!(r.duplicates().is_empty());
    assert!(r.errors().is_empty());
}

#[test]
fn outcomes_are_sorted_into_their_lists() {
    let r = BatchReport::new()
        .record("a".to_string(), CreateOutcome::Created)
        .record("b".to_string(), CreateOutcome::Duplicate)
        .record("c".to_string(), CreateOutcome::Failed);
    assert_eq!(r.created(), &vec!["a".to_string()]);
    assert_eq!(r.duplicates(), &vec!["b".to_string()]);
    assert_eq!(r.errors(), &vec!["c".to_string()]);
}

#[test]
fn identifier_repeated_within_a_batch_is_no_duplicate() {
    let r = BatchReport::new()
        .record("a".to_string(), CreateOutcome::Created)
        .record("a".to_string(), CreateOutcome::Duplicate);
    assert_eq!(r.created(), &vec!["a".to_string()]);
    assert!(r.duplicates().is_empty());
}

#[test]
fn duplicate_seen_before_creation_stays_reported() {
    let r = BatchReport::new()
        .record("a".to_string(), CreateOutcome::Duplicate)
        .record("a".to_string(), CreateOutcome::Created);
    assert_eq!(r.created(), &vec!["a".to_string()]);
    assert_eq!(r.duplicates(), &vec!["a".to_string()]);
}

#[test]
fn no_list_names_an_identifier_twice() {
    let mut r = BatchReport::new();
    for id in ["x", "y", "x", "x", "z", "y"] {
        r = r.record(id.to_string(), CreateOutcome::Duplicate);
        r = r.record(format!("e{}", id), CreateOutcome::Failed);
    }
    assert_eq!(sorted(r.duplicates()), vec!["x", "y", "z"]);
    assert_eq!(sorted(r.errors()), vec!["ex", "ey", "ez"]);
    assert!(r.created().is_empty());
}
