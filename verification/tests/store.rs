use nudge::change::Change;
use nudge::condition::{Condition, GitHubCondition};
use nudge::row::{row_to_sub, Cell, Row};
use nudge::store::Store;
use nudge::subscription::Subscription;

fn empty() -> Store {
    Store::open(vec![]).ok().unwrap()
}

fn timer_sub(id: &str) -> Subscription {
    Subscription {
        id: id.into(),
        source: "timer".into(),
        condition: Condition::Timer { duration: "30m".into(), fire_at: 99999999999 },
        mode: "wait".into(),
        callback: None,
        status: "active".into(),
        created_at: 1000,
        expires_at: None,
        event_data: None,
    }
}

/// A JSON object with one member.
fn object(key: &str, value: serde_json::Value) -> String {
    let members: serde_json::Value = vec![(key.to_string(), value)].into_iter().collect();
    members.to_string()
}

fn ids(subs: &[Subscription]) -> Vec<&str> {
    subs.iter().map(|sub| sub.id.as_str()).collect()
}

#[test]
fn test_insert_and_get() {
    let mut store = empty();
    let sub = timer_sub("test-1");
    store.insert(&sub).unwrap();
    let got = store.get("test-1").unwrap();
    assert_eq!(got.id, "test-1");
    assert_eq!(got.source, "timer");
    assert_eq!(got.status, "active");
}

#[test]
fn test_insert_and_get_github() {
    let mut store = empty();
    let sub = Subscription {
        id: "gh-1".into(),
        source: "github".into(),
        condition: Condition::GitHub(GitHubCondition::PrMerged {
            repo: "foo/bar".into(), number: 42,
        }),
        mode: "wait".into(),
        callback: None,
        status: "active".into(),
        created_at: 1000,
        expires_at: None,
        event_data: None,
    };
    store.insert(&sub).unwrap();
    let got = store.get("gh-1").unwrap();
    assert_eq!(got.source, "github");
    match got.condition {
        Condition::GitHub(GitHubCondition::PrMerged { repo, number }) => {
            assert_eq!(repo, "foo/bar");
            assert_eq!(number, 42);
        }
        _ => panic!("expected GitHub PrMerged"),
    }
}

#[test]
fn test_set_fired() {
    let mut store = empty();
    let sub = timer_sub("test-2");
    store.insert(&sub).unwrap();
    store.set_fired("test-2", &object("result", "done".into()));
    let got = store.get("test-2").unwrap();
    assert_eq!(got.status, "fired");
    let event: serde_json::Value = serde_json::from_str(&got.event_data.unwrap()).unwrap();
    assert_eq!(event["result"], "done");
}

#[test]
fn test_cancel_only_active() {
    let mut store = empty();
    let sub = timer_sub("test-cancel");
    store.insert(&sub).unwrap();
    store.set_fired("test-cancel", &object("done", true.into()));
    let err = store.set_status("test-cancel", "cancelled").unwrap_err().message();
    assert!(err.contains("not active"), "expected 'not active' error, got: {err}");
}

#[test]
fn test_cancel_not_found() {
    let mut store = empty();
    let err = store.set_status("nonexistent", "cancelled").unwrap_err().message();
    assert!(err.contains("not found"), "expected 'not found' error, got: {err}");
}

#[test]
fn test_list_active() {
    let mut store = empty();
    for i in 0..3 {
        let mut sub = timer_sub(&format!("s-{i}"));
        sub.created_at = 1000 + i as i64;
        if i == 1 {
            sub.status = "fired".into();
        }
        store.insert(&sub).unwrap();
    }
    let active = store.list_active();
    assert_eq!(active.len(), 2);
}

#[test]
fn test_set_fired_only_active() {
    let mut store = empty();
    let mut sub = timer_sub("test-fire-active");
    sub.expires_at = Some(0); // already expired by timestamp
    store.insert(&sub).unwrap();
    store.expire_overdue();
    // After expiration, set_fired should return false
    let fired = store.set_fired("test-fire-active", "{}");
    assert!(!fired);
}

#[test]
fn test_store_insert_get_roundtrip_full_uuid() {
    // Insert with full UUID, retrieve, verify round-trip
    let mut store = empty();
    let id = uuid::Uuid::new_v4().to_string();
    let sub = Subscription {
        id: id.clone(),
        source: "timer".into(),
        condition: Condition::Timer { duration: "10m".into(), fire_at: 99999999999 },
        mode: "wait".into(),
        callback: None,
        status: "active".into(),
        created_at: 1000,
        expires_at: None,
        event_data: None,
    };
    store.insert(&sub).unwrap();
    let got = store.get(&id).unwrap();
    assert_eq!(got.id, id);
    assert_eq!(got.source, "timer");
    assert_eq!(got.status, "active");
    assert_eq!(got.mode, "wait");
    // Verify the ID is a full UUID (36 chars with hyphens)
    assert_eq!(id.len(), 36);
}

#[test]
fn test_store_insert_duplicate_id_rejected() {
    // Two subscriptions with identical IDs should fail on second insert
    let mut store = empty();
    let sub1 = timer_sub("duplicate-id");
    let sub2 = timer_sub("duplicate-id");
    store.insert(&sub1).unwrap();
    let result = store.insert(&sub2);
    assert!(result.is_err(), "Expected error on duplicate ID insert");
    assert!(
        result.unwrap_err().message().contains("UNIQUE constraint failed"),
        "Expected UNIQUE constraint error"
    );
}

#[test]
fn test_prune_completed() {
    // Prune old fired/expired/cancelled subs, keep active ones
    let mut store = empty();

    // Insert an active sub with old timestamp
    let mut active_sub = timer_sub("active-old");
    active_sub.created_at = 1000;
    store.insert(&active_sub).unwrap();

    // Insert fired sub with old timestamp
    let mut fired_sub = timer_sub("fired-old");
    fired_sub.status = "fired".into();
    fired_sub.created_at = 1000;
    store.insert(&fired_sub).unwrap();

    // Insert expired sub with old timestamp
    let mut expired_sub = timer_sub("expired-old");
    expired_sub.status = "expired".into();
    expired_sub.created_at = 1000;
    store.insert(&expired_sub).unwrap();

    // Insert cancelled sub with old timestamp
    let mut cancelled_sub = timer_sub("cancelled-old");
    cancelled_sub.status = "cancelled".into();
    cancelled_sub.created_at = 1000;
    store.insert(&cancelled_sub).unwrap();

    // Insert a recent fired sub (should NOT be pruned)
    let mut recent_fired = timer_sub("fired-recent");
    recent_fired.status = "fired".into();
    recent_fired.created_at = chrono::Utc::now().timestamp();
    store.insert(&recent_fired).unwrap();

    // Prune subs older than 1 day
    let pruned = store.prune_completed(86400);
    assert_eq!(pruned, 3, "Should prune 3 old completed subs");

    // Active sub should still exist
    assert!(store.get("active-old").is_some());
    // Recent fired sub should still exist
    assert!(store.get("fired-recent").is_some());
    // Old completed subs should be gone
    assert!(store.get("fired-old").is_none());
    assert!(store.get("expired-old").is_none());
    assert!(store.get("cancelled-old").is_none());
}

#[test]
fn test_fire_before_expire_ordering() {
    let mut store = empty();
    let mut sub = timer_sub("test-order");
    sub.expires_at = Some(0); // expired by timestamp, but we fire first
    store.insert(&sub).unwrap();
    // Fire first
    assert!(store.set_fired("test-order", &object("ok", true.into())));
    // Now expire_overdue should not touch it (already fired)
    let expired = store.expire_overdue();
    assert_eq!(expired, 0);
    let got = store.get("test-order").unwrap();
    assert_eq!(got.status, "fired");
}

#[test]
fn what_is_inserted_reads_back_without_an_event() {
    let mut store = empty();
    let mut sub = timer_sub("a");
    sub.callback = Some("run".into());
    sub.expires_at = Some(5);
    sub.event_data = Some("{}".into());
    assert_eq!(store.insert(&sub).unwrap(), "a");
    store.insert(&timer_sub("b")).unwrap();
    let got = store.get("a").unwrap();
    sub.event_data = None;
    assert_eq!(format!("{got:?}"), format!("{sub:?}"));
    assert!(store.get("c").is_none());
    assert_eq!(
        store.insert(&sub).unwrap_err().message(),
        "UNIQUE constraint failed: subscriptions.id"
    );
    assert_eq!(store.rows().len(), 2);
}

#[test]
fn a_cancelled_subscription_stays_cancelled() {
    let mut store = empty();
    let mut sub = timer_sub("a");
    sub.expires_at = Some(10);
    store.insert(&sub).unwrap();
    store.insert(&timer_sub("b")).unwrap();
    store.set_status("a", "cancelled").unwrap();
    assert_eq!(store.get("a").unwrap().status, "cancelled");
    assert_eq!(store.get("b").unwrap().status, "active");
    assert!(!store.set_fired("a", "{}"));
    assert_eq!(store.expire_overdue_at(10), 0);
    assert_eq!(
        store.set_status("a", "active").unwrap_err().message(),
        "subscription a is not active"
    );
    assert_eq!(
        store.set_status("c", "cancelled").unwrap_err().message(),
        "subscription c not found"
    );
    assert_eq!(store.get("a").unwrap().status, "cancelled");
    assert_eq!(store.get("a").unwrap().event_data, None);
}

#[test]
fn a_subscription_fires_once() {
    let mut store = empty();
    store.insert(&timer_sub("a")).unwrap();
    assert!(store.set_fired("a", "{\"n\":1}"));
    assert!(!store.set_fired("a", "{\"n\":2}"));
    assert!(!store.set_fired("b", "{}"));
    assert_eq!(store.get("a").unwrap().event_data.as_deref(), Some("{\"n\":1}"));
}

#[test]
fn what_is_overdue_expires() {
    let mut store = empty();
    for (id, expiry) in [("a", Some(9)), ("b", Some(10)), ("c", Some(11)), ("d", None)] {
        let mut sub = timer_sub(id);
        sub.expires_at = expiry;
        store.insert(&sub).unwrap();
    }
    assert_eq!(store.expire_overdue_at(10), 2);
    for (id, status) in [("a", "expired"), ("b", "expired"), ("c", "active"), ("d", "active")] {
        assert_eq!(store.get(id).unwrap().status, status);
    }
    assert_eq!(store.expire_overdue_at(10), 0);
    let counts = store.status_counts().unwrap();
    assert_eq!((counts.active, counts.expired), (2, 2));
}

#[test]
fn pruning_goes_by_the_time_of_making() {
    let mut store = empty();
    for (id, status, created_at) in [
        ("a", "fired", 99),
        ("b", "fired", 100),
        ("c", "active", 0),
        ("d", "paused", 0),
        ("e", "cancelled", -5),
    ] {
        let mut sub = timer_sub(id);
        sub.status = status.into();
        sub.created_at = created_at;
        store.insert(&sub).unwrap();
    }
    assert_eq!(store.prune_completed_before(100), 2);
    let left: Vec<Option<&str>> = store.rows().iter().map(|row| row.id.as_deref()).collect();
    assert_eq!(left, vec![Some("b"), Some("c"), Some("d")]);
}

#[test]
fn a_list_begins_with_the_newest() {
    let mut store = empty();
    for (id, source, status, created_at) in [
        ("a", "timer", "active", 5),
        ("b", "github", "active", 7),
        ("c", "timer", "fired", 7),
        ("d", "github", "active", 3),
        ("e", "timer", "active", 7),
    ] {
        let mut sub = timer_sub(id);
        sub.source = source.into();
        sub.status = status.into();
        sub.created_at = created_at;
        store.insert(&sub).unwrap();
    }
    assert_eq!(ids(&store.list(None, None)), vec!["b", "c", "e", "a", "d"]);
    assert_eq!(ids(&store.list_active()), vec!["b", "e", "a", "d"]);
    assert_eq!(ids(&store.list(Some("timer"), None)), vec!["c", "e", "a"]);
    assert_eq!(ids(&store.list(Some("github"), Some("active"))), vec!["b", "d"]);
    assert!(store.list(Some("webhook"), None).is_empty());
}

#[test]
fn the_counts_add_up() {
    let mut store = empty();
    for (id, status) in
        [("a", "active"), ("b", "fired"), ("c", "active"), ("d", "expired"), ("e", "cancelled")]
    {
        let mut sub = timer_sub(id);
        sub.status = status.into();
        store.insert(&sub).unwrap();
    }
    let counts = store.status_counts().unwrap();
    assert_eq!(
        (counts.active, counts.fired, counts.expired, counts.cancelled),
        (2, 1, 1, 1)
    );
    assert!(store.set_fired("a", "{}"));
    let after = store.status_counts().unwrap();
    assert_eq!((after.active, after.fired, after.expired, after.cancelled), (1, 2, 1, 1));
    // Another status is counted nowhere.
    store.set_status("c", "paused").unwrap();
    let last = store.status_counts().unwrap();
    assert_eq!((last.active, last.fired, last.expired, last.cancelled), (0, 2, 1, 1));
    // Where every condition can be read, the active are as many as their list is long.
    assert_eq!(store.list_active().len(), 0);
    store.insert(&timer_sub("f")).unwrap();
    assert_eq!(store.status_counts().unwrap().active, 1);
    assert_eq!(store.list_active().len(), 1);
    assert_eq!(store.list(None, Some("fired")).len(), 2);
}

/// Makes changes as the table would, on the identifiers, statuses and events of rows.
fn made(
    mut rows: Vec<(Option<String>, Option<String>, Option<String>)>,
    changes: &[Change],
) -> Vec<(Option<String>, Option<String>, Option<String>)> {
    for change in changes {
        match change {
            Change::Insert(row) => rows.push(held(row)),
            Change::SetStatus { at, status } => rows[*at].1 = Some(status.clone()),
            Change::SetFired { at, event_data } => {
                rows[*at].1 = Some("fired".to_string());
                rows[*at].2 = Some(event_data.clone());
            }
            Change::Delete { at } => {
                rows.remove(*at);
            }
        }
    }
    rows
}

fn held(row: &Row) -> (Option<String>, Option<String>, Option<String>) {
    (row.id.clone(), row.status.clone(), row.event_data.clone())
}

#[test]
fn the_changes_lead_from_the_table_to_the_store() {
    let mut rows = vec![];
    for (id, expiry) in [("a", None), ("b", Some(1)), ("c", None), ("d", Some(2))] {
        let mut sub = timer_sub(id);
        sub.expires_at = expiry;
        rows.push(Row::from_sub(&sub));
    }
    let table: Vec<_> = rows.iter().map(held).collect();
    let mut store = Store::open(rows).ok().unwrap();
    assert!(store.changes().is_empty());
    assert!(store.insert(&timer_sub("a")).is_err());
    assert!(store.set_status("x", "cancelled").is_err());
    assert!(!store.set_fired("x", "{}"));
    assert!(store.changes().is_empty());
    store.insert(&timer_sub("e")).unwrap();
    store.set_status("c", "cancelled").unwrap();
    assert!(store.set_fired("e", "{}"));
    assert_eq!(store.expire_overdue_at(5), 2);
    assert_eq!(store.prune_completed_before(5000), 4);
    store.insert(&timer_sub("b")).unwrap();
    assert!(store.set_fired("b", "[]"));
    assert_eq!(store.changes().len(), 11);
    let now: Vec<_> = store.rows().iter().map(held).collect();
    assert_eq!(made(table, store.changes()), now);
    assert_eq!(now.len(), 2);
}

fn text(s: &str) -> Cell {
    Cell::Text(s.to_string())
}

fn cells() -> Vec<Cell> {
    vec![
        text("id"),
        text("timer"),
        text("{}"),
        text("on"),
        text("run"),
        text("fired"),
        Cell::Integer(7),
        Cell::Integer(8),
        text("{\"a\": 1}"),
    ]
}

fn condition() -> Option<Condition> {
    Some(Condition::Timer { duration: "1s".into(), fire_at: 1 })
}

#[test]
fn a_row_holds_a_subscription() {
    let sub = row_to_sub(&Row::from_cells(&cells(), condition())).unwrap();
    assert_eq!(sub.id, "id");
    assert_eq!(sub.source, "timer");
    assert_eq!(sub.condition.summary(), "timer 1s");
    assert_eq!(sub.mode, "on");
    assert_eq!(sub.callback.as_deref(), Some("run"));
    assert_eq!(sub.status, "fired");
    assert_eq!(sub.created_at, 7);
    assert_eq!(sub.expires_at, Some(8));
    assert_eq!(sub.event_data.as_deref(), Some("{\"a\": 1}"));
}

#[test]
fn cells_of_the_wrong_type_count_as_empty() {
    let mut odd = cells();
    odd[0] = Cell::Integer(5);
    odd[1] = Cell::Null;
    odd[3] = Cell::Other;
    odd[4] = Cell::Integer(1);
    odd[5] = Cell::Null;
    odd[6] = text("soon");
    odd[7] = Cell::Null;
    odd[8] = Cell::Other;
    let sub = row_to_sub(&Row::from_cells(&odd, condition())).unwrap();
    assert_eq!((sub.id.as_str(), sub.source.as_str(), sub.mode.as_str()), ("", "", ""));
    assert_eq!(sub.callback, None);
    assert_eq!(sub.status, "");
    assert_eq!(sub.created_at, 0);
    assert_eq!(sub.expires_at, None);
    assert_eq!(sub.event_data, None);
}

#[test]
fn what_is_no_text_is_no_identifier_source_or_status() {
    let mut odd = cells();
    odd[0] = Cell::Other;
    odd[1] = Cell::Other;
    odd[5] = Cell::Other;
    let mut same = cells();
    same[0] = Cell::Null;
    let rows = vec![Row::from_cells(&odd, condition()), Row::from_cells(&same, condition())];
    let store = Store::open(rows).ok().unwrap();
    assert_eq!(ids(&store.list(None, None)), vec!["", ""]);
    assert!(store.list(Some(""), None).is_empty());
    assert!(store.list(None, Some("")).is_empty());
    assert!(store.get("").is_none());
    assert_eq!(
        store.status_counts().unwrap_err().message(),
        "Invalid column type Blob at index: 0, name: status"
    );
}

#[test]
fn an_expiry_within_a_second_is_over_with_it() {
    let mut odd = cells();
    odd[5] = text("active");
    odd[7] = Cell::Fraction(8);
    let mut store = Store::open(vec![Row::from_cells(&odd, condition())]).ok().unwrap();
    assert_eq!(store.get("id").unwrap().expires_at, None);
    assert_eq!(store.expire_overdue_at(7), 0);
    assert_eq!(store.expire_overdue_at(8), 1);
    assert_eq!(store.get("id").unwrap().status, "expired");
}

#[test]
fn a_time_of_making_is_compared_as_it_is_stored() {
    let row = |id: &str, made: Cell| {
        let mut odd = cells();
        odd[0] = text(id);
        odd[6] = made;
        Row::from_cells(&odd, condition())
    };
    let mut store = Store::open(vec![
        row("a", Cell::Integer(9)),
        row("b", Cell::Fraction(10)),
        row("c", Cell::Integer(10)),
        row("d", Cell::Fraction(11)),
        row("e", text("long ago")),
    ])
    .ok()
    .unwrap();
    assert_eq!(store.prune_completed_before(10), 2);
    assert_eq!(ids(&store.list(None, None)), vec!["c", "d", "e"]);
    assert_eq!(store.get("d").unwrap().created_at, 0);
}

#[test]
fn an_event_that_is_no_json_is_dropped() {
    for (stored, kept) in [("{\"a\":", false), ("", false), ("[]", true), ("null", true)] {
        let mut odd = cells();
        odd[8] = text(stored);
        let sub = row_to_sub(&Row::from_cells(&odd, condition())).unwrap();
        assert_eq!(sub.event_data.is_some(), kept, "{stored}");
    }
}

#[test]
fn a_row_whose_condition_cannot_be_read_is_passed_over() {
    let mut active = cells();
    active[5] = text("active");
    let mut store = Store::open(vec![Row::from_cells(&active, None)]).ok().unwrap();
    assert!(store.get("id").is_none());
    assert!(store.list(None, None).is_empty());
    // It is there all the same.
    assert_eq!(store.status_counts().unwrap().active, 1);
    assert_eq!(store.expire_overdue_at(8), 1);
    assert!(store.insert(&timer_sub("id")).is_err());
}

#[test]
fn rows_with_one_identifier_are_no_store() {
    let rows = vec![Row::from_sub(&timer_sub("a")), Row::from_sub(&timer_sub("a"))];
    assert_eq!(
        Store::open(rows).err().unwrap().message(),
        "UNIQUE constraint failed: subscriptions.id"
    );
}
