use chrono::Utc;
use nudge::checker::timer::{check, check_at};

#[test]
fn test_timer_not_yet() {
    let fire_at = Utc::now().timestamp() + 3600;
    assert!(check(fire_at, "1h").unwrap().is_none());
}

#[test]
fn test_timer_fired() {
    let fire_at = Utc::now().timestamp() - 1;
    let event = check(fire_at, "0s").unwrap().unwrap();
    let event: serde_json::Value = serde_json::from_str(&event.to_json()).unwrap();
    assert_eq!(event["type"], "timer_expired");
}

#[test]
fn a_timer_fires_from_its_second_on() {
    assert!(check_at(1000, "5m", 999, 999).is_none());
    let event = check_at(1000, "5m", 1000, 1001).unwrap();
    assert_eq!(
        event.to_json(),
        "{\"duration\":\"5m\",\"fired_at\":1001,\"source\":\"timer\",\"type\":\"timer_expired\"}"
    );
    // And at every later one.
    assert_eq!(check_at(1000, "5m", i64::MAX, 1001).unwrap().to_json(), event.to_json());
}

#[test]
fn the_event_tells_the_time() {
    let before = Utc::now().timestamp();
    let event = check(before, "0s").unwrap().unwrap();
    let after = Utc::now().timestamp();
    assert_eq!(event.numbers[0].0, "fired_at");
    assert!(before <= event.numbers[0].1 && event.numbers[0].1 <= after);
}
