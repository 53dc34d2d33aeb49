use collector::amount::Amount;
use collector::client::{get_completed_transactions, GetTransactionError, Reply, TokenTransfer};
use collector::message::Message;
use collector::scheduler::{process_batch, PollItem, RetryDecision, Transaction};
use rust_decimal::Decimal;

fn wallet(name: &str) -> Message {
    Message::new(format!("T{}", name), true, name.to_string())
}

fn item(name: &str, tries: u32) -> PollItem {
    PollItem { message: wallet(name), tries }
}

fn tx(id: &str, mantissa: i128) -> Transaction {
    Transaction { id: id.to_string(), amount: Amount { mantissa, scale: 6 } }
}

#[test]
fn from_result_reads_success_as_completed() {
    let r = RetryDecision::from_result(Ok(vec![
        ("a".to_string(), Amount { mantissa: 1, scale: 6 }),
        ("b".to_string(), Amount { mantissa: 2, scale: 6 }),
    ]));
    assert_eq!(r, RetryDecision::Completed(vec![tx("a", 1), tx("b", 2)]));
    assert_eq!(RetryDecision::from_result(Ok(Vec::new())), RetryDecision::Completed(Vec::new()));
}

#[test]
fn from_result_reads_throttling_as_retryable() {
    assert_eq!(
        RetryDecision::from_result(Err(GetTransactionError::RetryAfter(Some(2000)))),
        RetryDecision::RetryableFailure(Some(2000))
    );
    assert_eq!(
        RetryDecision::from_result(Err(GetTransactionError::RetryAfter(None))),
        RetryDecision::RetryableFailure(None)
    );
}

#[test]
fn from_result_reads_a_request_error_as_fatal() {
    assert_eq!(
        RetryDecision::from_result(Err(GetTransactionError::Request("refused".to_string()))),
        RetryDecision::FatalFailure
    );
}

#[test]
fn empty_round_yields_nothing() {
    let (found, retry, delay) = process_batch(Vec::new(), 3);
    assert_eq!(found, Vec::new());
    assert_eq!(retry, Vec::new());
    assert_eq!(delay, None);
}

#[test]
fn completed_queries_add_their_transactions_in_order() {
    let results = vec![
        (item("w1", 0), RetryDecision::Completed(vec![tx("a", 1), tx("b", 2)])),
        (item("w2", 0), RetryDecision::Completed(Vec::new())),
        (item("w3", 1), RetryDecision::Completed(vec![tx("c", 3)])),
    ];
    let (found, retry, delay) = process_batch(results, 3);
    assert_eq!(found, vec![tx("a", 1), tx("b", 2), tx("c", 3)]);
    assert_eq!(retry, Vec::new());
    assert_eq!(delay, None);
}

#[test]
fn fatal_failure_drops_the_address_without_delay() {
    let results = vec![(item("w1", 0), RetryDecision::FatalFailure)];
    let (found, retry, delay) = process_batch(results, 3);
    assert_eq!(found, Vec::new());
    assert_eq!(retry, Vec::new());
    assert_eq!(delay, None);
}

#[test]
fn throttled_query_is_carried_over_with_one_more_try() {
    let results = vec![(item("w1", 0), RetryDecision::RetryableFailure(Some(2000)))];
    let (found, retry, delay) = process_batch(results, 3);
    assert_eq!(found, Vec::new());
    assert_eq!(retry, vec![item("w1", 1)]);
    assert_eq!(delay, Some(2000));
}

#[test]
fn throttled_query_at_the_limit_is_dropped() {
    let results = vec![
        (item("w1", 2), RetryDecision::RetryableFailure(Some(10))),
        (item("w2", 3), RetryDecision::RetryableFailure(Some(20))),
        (item("w3", 4), RetryDecision::RetryableFailure(Some(5))),
    ];
    let (_, retry, delay) = process_batch(results, 3);
    assert_eq!(retry, vec![item("w1", 3)]);
    assert_eq!(delay, Some(20));
}

#[test]
fn limit_of_zero_allows_no_retry() {
    let results = vec![(item("w1", 0), RetryDecision::RetryableFailure(Some(10)))];
    let (_, retry, delay) = process_batch(results, 0);
    assert_eq!(retry, Vec::new());
    assert_eq!(delay, Some(10));
}

#[test]
fn delay_is_the_largest_hint_of_the_round() {
    let results = vec![
        (item("w1", 0), RetryDecision::RetryableFailure(Some(500))),
        (item("w2", 0), RetryDecision::Completed(vec![tx("a", 1)])),
        (item("w3", 0), RetryDecision::RetryableFailure(Some(3000))),
        (item("w4", 0), RetryDecision::RetryableFailure(Some(1500))),
        (item("w5", 0), RetryDecision::FatalFailure),
    ];
    let (found, retry, delay) = process_batch(results, 3);
    assert_eq!(found, vec![tx("a", 1)]);
    assert_eq!(retry, vec![item("w1", 1), item("w3", 1), item("w4", 1)]);
    assert_eq!(delay, Some(3000));
}

#[test]
fn delay_ignores_failures_without_hint_when_another_names_one() {
    let results = vec![
        (item("w1", 0), RetryDecision::RetryableFailure(None)),
        (item("w2", 0), RetryDecision::RetryableFailure(Some(500))),
    ];
    let (_, retry, delay) = process_batch(results, 3);
    assert_eq!(retry, vec![item("w1", 1), item("w2", 1)]);
    assert_eq!(delay, Some(500));
}

#[test]
fn delay_is_the_default_when_no_failure_names_one() {
    let results = vec![
        (item("w1", 0), RetryDecision::RetryableFailure(None)),
        (item("w2", 0), RetryDecision::Completed(Vec::new())),
    ];
    let (_, _, delay) = process_batch(results, 3);
    assert_eq!(delay, Some(1000));
}

#[test]
fn delay_of_zero_hint_is_kept() {
    let results = vec![(item("w1", 0), RetryDecision::RetryableFailure(Some(0)))];
    let (_, _, delay) = process_batch(results, 3);
    assert_eq!(delay, Some(0));
}

#[test]
fn forbidden_with_retry_after_is_retried_with_attempt_one() {
    let reply = Reply::Answer { status: 403, retry_after: Some(b"2000".to_vec()), body: None };
    let result = get_completed_transactions(reply, &vec![403, 408, 504]);
    let decision = RetryDecision::from_result(result);
    let a = PollItem { message: Message::new("A".to_string(), true, "wa".to_string()), tries: 0 };
    let (found, retry, delay) = process_batch(vec![(a, decision)], 3);
    assert_eq!(found, Vec::new());
    assert_eq!(retry.len(), 1);
    assert_eq!(retry[0].message.address, "A");
    assert_eq!(retry[0].tries, 1);
    assert!(delay.unwrap() >= 2000);
    assert_eq!(delay, Some(2000));
}

#[test]
fn well_formed_payload_emits_its_transaction() {
    let body = vec![TokenTransfer { transaction_id: "tx1".to_string(), quant: "2000000".to_string() }];
    let reply = Reply::Answer { status: 200, retry_after: None, body: Some(body) };
    let decision = RetryDecision::from_result(get_completed_transactions(reply, &vec![403, 408, 504]));
    let (found, retry, delay) = process_batch(vec![(item("w1", 0), decision)], 3);
    assert_eq!(retry, Vec::new());
    assert_eq!(delay, None);
    assert_eq!(found.len(), 1);
    assert_eq!(found[0].id, "tx1");
    let amount = Decimal::from_i128_with_scale(found[0].amount.mantissa, found[0].amount.scale);
    assert_eq!(amount, Decimal::new(20, 1));
}
