use collector::config::{Config, DEFAULT_BATCH_SIZE, DEFAULT_MAX_TRIES, IDLE_INTERVAL_MS};

fn set(text: &str) -> Option<String> {
    Some(text.to_string())
}

#[test]
fn defaults_run_a_local_topology() {
    let c = Config::defaults();
    assert_eq!(c.broker_host(), "localhost");
    assert_eq!(c.store_url(), "redis://127.0.0.1:6381/");
    assert_eq!(c.api_url(), "https://apilist.tronscanapi.com/api/token_trc20/transfers");
    assert_eq!(c.batch_size(), 3);
    assert_eq!(c.max_tries(), 3);
    assert_eq!(c.retryable_statuses(), &vec![403, 408, 504]);
}

#[test]
fn default_constants_have_their_documented_values() {
    assert_eq!(DEFAULT_BATCH_SIZE, 3);
    assert_eq!(DEFAULT_MAX_TRIES, 3);
    assert_eq!(IDLE_INTERVAL_MS, 1000);
}

#[test]
fn unset_options_leave_the_defaults() {
    let c = Config::from_options(None, None, None, None, None);
    let d = Config::defaults();
    assert_eq!(c.broker_host(), d.broker_host());
    assert_eq!(c.store_url(), d.store_url());
    assert_eq!(c.api_url(), d.api_url());
    assert_eq!(c.batch_size(), d.batch_size());
    assert_eq!(c.max_tries(), d.max_tries());
    assert_eq!(c.retryable_statuses(), d.retryable_statuses());
}

#[test]
fn set_options_override_the_defaults() {
    let c = Config::from_options(set("rabbit"), set("redis://cache:6379/"), set("http://api.test/t"), set("5"), set("7"));
    assert_eq!(c.broker_host(), "rabbit");
    assert_eq!(c.store_url(), "redis://cache:6379/");
    assert_eq!(c.api_url(), "http://api.test/t");
    assert_eq!(c.batch_size(), 5);
    assert_eq!(c.max_tries(), 7);
    assert_eq!(c.retryable_statuses(), &vec![403, 408, 504]);
}

#[test]
fn unreadable_batch_size_leaves_the_default() {
    for text in ["", "0", "-1", "three", "3.5", " 4", "99999999999999999999999999"] {
        let c = Config::from_options(None, None, None, set(text), None);
        assert_eq!(c.batch_size(), 3, "{:?}", text);
    }
}

#[test]
fn unreadable_max_tries_leaves_the_default() {
    for text in ["", "-1", "many", "4294967296", "1e3"] {
        let c = Config::from_options(None, None, None, None, set(text));
        assert_eq!(c.max_tries(), 3, "{:?}", text);
    }
}

#[test]
fn max_tries_may_be_zero_or_large() {
    assert_eq!(Config::from_options(None, None, None, None, set("0")).max_tries(), 0);
    assert_eq!(Config::from_options(None, None, None, None, set("4294967295")).max_tries(), u32::MAX);
    assert_eq!(Config::from_options(None, None, None, set("1"), None).batch_size(), 1);
}

#[test]
fn retryable_statuses_can_be_replaced() {
    let c = Config::from_options(set("rabbit"), None, None, set("4"), set("2")).with_retryable_statuses(vec![429, 503]);
    assert_eq!(c.retryable_statuses(), &vec![429, 503]);
    assert_eq!(c.broker_host(), "rabbit");
    assert_eq!(c.store_url(), "redis://127.0.0.1:6381/");
    assert_eq!(c.batch_size(), 4);
    assert_eq!(c.max_tries(), 2);
    assert!(Config::defaults().with_retryable_statuses(Vec::new()).retryable_statuses().is_empty());
}
