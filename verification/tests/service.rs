use fortunes::error::Error;
use fortunes::executor::{Action, Event, Executor};
use fortunes::fortune::{
    build_response, resolve_quantity, Fortune, FortunesListRequest, DEFAULT_QUANTITY,
};
use fortunes::pool::{Config, PoolModel};

fn drive_success(mut ex: Executor, rows: Vec<String>) -> Executor {
    assert!(matches!(ex.next_action(), Action::Acquire));
    ex.on_event(Event::Acquired);
    assert!(matches!(ex.next_action(), Action::Begin));
    ex.on_event(Event::Begun);
    match ex.next_action() {
        Action::RunQuery(limit) => assert!(rows.len() as i64 <= limit),
        _ => panic!("expected a query action"),
    }
    ex.on_event(Event::Rows(rows));
    assert!(matches!(ex.next_action(), Action::Commit));
    ex.on_event(Event::Committed);
    assert!(matches!(ex.next_action(), Action::Release));
    ex.on_event(Event::Released);
    assert!(matches!(ex.next_action(), Action::Stop));
    ex
}

#[test]
fn resolve_quantity_present() {
    let req = FortunesListRequest { quantity: Some(7) };
    assert_eq!(resolve_quantity(&req), 7);
}

#[test]
fn resolve_quantity_absent_gives_default() {
    let req = FortunesListRequest { quantity: None };
    assert_eq!(resolve_quantity(&req), DEFAULT_QUANTITY);
    assert_eq!(resolve_quantity(&req), 20);
}

#[test]
fn resolve_quantity_negative_gives_zero() {
    let req = FortunesListRequest { quantity: Some(-5) };
    assert_eq!(resolve_quantity(&req), 0);
}

#[test]
fn build_response_counts_items() {
    let items = vec![
        Fortune { content: String::from("a") },
        Fortune { content: String::from("b") },
    ];
    let resp = build_response(items);
    assert_eq!(resp.count, 2);
    assert_eq!(resp.items.len(), 2);
    assert_eq!(resp.items[0].content, "a");
    assert_eq!(resp.items[1].content, "b");
}

#[test]
fn three_records_sampled_two() {
    let store = ["a", "b", "c"];
    let ex = Executor::for_request(&FortunesListRequest { quantity: Some(2) });
    let rows = vec![String::from("c"), String::from("a")];
    let ex = drive_success(ex, rows);
    let resp = ex.take_outcome().expect("run should succeed");
    assert_eq!(resp.count, 2);
    assert_eq!(resp.items.len(), 2);
    for item in &resp.items {
        assert!(store.contains(&item.content.as_str()));
    }
    assert_ne!(resp.items[0].content, resp.items[1].content);
}

#[test]
fn empty_store_default_quantity() {
    let ex = Executor::for_request(&FortunesListRequest { quantity: None });
    let ex = drive_success(ex, Vec::new());
    let resp = ex.take_outcome().expect("run should succeed");
    assert_eq!(resp.count, 0);
    assert!(resp.items.is_empty());
}

#[test]
fn zero_quantity_is_empty_not_error() {
    let ex = Executor::for_request(&FortunesListRequest { quantity: Some(0) });
    let ex = drive_success(ex, Vec::new());
    let resp = ex.take_outcome().expect("zero quantity must not fail");
    assert_eq!(resp.count, 0);
    assert!(resp.items.is_empty());
}

#[test]
fn store_unreachable_maps_to_500() {
    let mut ex = Executor::for_request(&FortunesListRequest { quantity: None });
    assert!(matches!(ex.next_action(), Action::Acquire));
    ex.on_event(Event::AcquireFailed(String::from("no route to the store")));
    assert!(matches!(ex.next_action(), Action::Stop));
    let err = ex.take_outcome().expect_err("run should fail");
    assert!(matches!(err, Error::Connection(_)));
    let resp = err.into_response();
    assert_eq!(resp.status_code, 500);
    assert!(!resp.message.is_empty());
    assert_eq!(resp.message, "connection: no route to the store");
}

#[test]
fn pool_exhausted_finishes_without_holding() {
    let mut ex = Executor::for_request(&FortunesListRequest { quantity: Some(3) });
    ex.on_event(Event::AcquireExhausted(String::from("wait bound passed")));
    assert!(!ex.conn_held);
    assert!(!ex.tx_opened);
    let err = ex.take_outcome().expect_err("run should fail");
    assert!(matches!(err, Error::PoolExhausted(_)));
    assert_eq!(err.into_response().message, "pool exhausted: wait bound passed");
}

#[test]
fn query_failure_rolls_back_then_releases() {
    let mut ex = Executor::for_request(&FortunesListRequest { quantity: Some(5) });
    ex.on_event(Event::Acquired);
    ex.on_event(Event::Begun);
    ex.on_event(Event::QueryFailed(String::from("relation missing")));
    assert!(matches!(ex.next_action(), Action::Rollback));
    ex.on_event(Event::RolledBack);
    assert!(matches!(ex.next_action(), Action::Release));
    ex.on_event(Event::Released);
    assert!(!ex.conn_held);
    assert!(!ex.tx_open);
    assert!(ex.rolled_back);
    assert!(!ex.committed);
    let err = ex.take_outcome().expect_err("run should fail");
    assert!(matches!(err, Error::Query(_)));
    assert_eq!(err.into_response().message, "query: relation missing");
}

#[test]
fn begin_failure_releases_without_rollback() {
    let mut ex = Executor::for_request(&FortunesListRequest { quantity: Some(5) });
    ex.on_event(Event::Acquired);
    ex.on_event(Event::BeginFailed(String::from("store dropped the session")));
    assert!(matches!(ex.next_action(), Action::Release));
    ex.on_event(Event::Released);
    assert!(!ex.conn_held);
    assert!(!ex.tx_opened);
    let err = ex.take_outcome().expect_err("run should fail");
    assert!(matches!(err, Error::Query(_)));
}

#[test]
fn commit_failure_is_surfaced_not_success() {
    let mut ex = Executor::for_request(&FortunesListRequest { quantity: Some(5) });
    ex.on_event(Event::Acquired);
    ex.on_event(Event::Begun);
    ex.on_event(Event::Rows(vec![String::from("a")]));
    ex.on_event(Event::CommitFailed(String::from("serialization conflict")));
    assert!(matches!(ex.next_action(), Action::Release));
    ex.on_event(Event::Released);
    assert!(!ex.committed);
    let err = ex.take_outcome().expect_err("a failed commit is not a success");
    assert!(matches!(err, Error::Commit(_)));
    assert_eq!(err.into_response().message, "commit: serialization conflict");
}

#[test]
fn success_keeps_store_order() {
    let ex = Executor::for_request(&FortunesListRequest { quantity: Some(3) });
    let rows = vec![String::from("b"), String::from("c"), String::from("a")];
    let ex = drive_success(ex, rows);
    let resp = ex.take_outcome().expect("run should succeed");
    assert_eq!(resp.count, 3);
    assert_eq!(resp.items[0].content, "b");
    assert_eq!(resp.items[1].content, "c");
    assert_eq!(resp.items[2].content, "a");
}

#[test]
fn pool_refuses_beyond_capacity() {
    let mut pool = PoolModel::new(2);
    assert!(pool.try_acquire());
    assert!(pool.try_acquire());
    assert!(!pool.try_acquire());
    assert_eq!(pool.in_use, 2);
    pool.release();
    assert!(pool.try_acquire());
    assert_eq!(pool.in_use, 2);
}

#[test]
fn pool_of_zero_grants_nothing() {
    let mut pool = PoolModel::new(0);
    assert!(!pool.try_acquire());
    assert_eq!(pool.in_use, 0);
}

#[test]
fn error_messages_are_prefixed_and_nonempty() {
    assert_eq!(Error::Config(String::from("x")).message(), "config: x");
    assert_eq!(Error::PoolExhausted(String::from("x")).message(), "pool exhausted: x");
    assert_eq!(Error::Connection(String::from("x")).message(), "connection: x");
    assert_eq!(Error::Query(String::from("x")).message(), "query: x");
    assert_eq!(Error::Commit(String::from("x")).message(), "commit: x");
    assert!(!Error::Commit(String::new()).message().is_empty());
}

#[test]
fn config_holds_url_and_capacity() {
    let config = Config {
        database_url: String::from("postgres://localhost/fortunes"),
        database_pool_max_size: 4,
    };
    assert_eq!(config.database_pool_max_size, 4);
    assert_eq!(config.database_url, "postgres://localhost/fortunes");
}

#[test]
fn sampling_query_orders_randomly_and_limits() {
    let q = fortunes::executor::sampling_query();
    assert_eq!(q, "SELECT content FROM fortune ORDER BY random() LIMIT $1");
}
