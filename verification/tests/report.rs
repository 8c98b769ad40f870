use nudge::condition::{Condition, GitHubCondition};
use nudge::error::Error;
use nudge::event::{CheckRun, Event};
use nudge::report::{cancel_line, event_lines, list_lines, status_lines};
use nudge::store::StatusCounts;
use nudge::subscription::Subscription;

fn sub(id: &str, status: &str) -> Subscription {
    Subscription {
        id: id.into(),
        source: "github".into(),
        condition: Condition::GitHub(GitHubCondition::IssueLabel {
            repo: "a/b".into(), number: 3, name: "go".into(), present_at_subscribe: true,
        }),
        mode: "on".into(),
        callback: None,
        status: status.into(),
        created_at: 0,
        expires_at: None,
        event_data: None,
    }
}

#[test]
fn a_list_has_one_line_each() {
    assert_eq!(
        list_lines(&vec![sub("x", "active"), sub("y", "fired")]),
        vec!["x active github on a/b issue #3 label:go", "y fired github on a/b issue #3 label:go"]
    );
    assert_eq!(list_lines(&vec![]), vec!["No subscriptions."]);
}

#[test]
fn the_status_has_its_lines() {
    let counts = StatusCounts { active: 3, fired: 0, expired: 12, cancelled: 1 };
    assert_eq!(
        status_lines(&counts, true),
        vec!["Daemon: running", "Active:    3", "Fired:     0", "Expired:   12", "Cancelled: 1"]
    );
    assert_eq!(status_lines(&counts, false)[0], "Daemon: stopped");
    assert_eq!(cancel_line("x"), "Cancelled x");
}

#[test]
fn an_event_is_laid_out_over_lines() {
    assert_eq!(
        event_lines("{\"status\":\"fired\"}").unwrap(),
        "{\n  \"status\": \"fired\"\n}"
    );
    assert_eq!(event_lines("[]").unwrap(), "[]");
    assert_eq!(event_lines("{"), None);
}

#[test]
fn an_event_is_written_as_json() {
    let event = Event::new("here", "test")
        .text("quote", "a\"b\\c\nñ")
        .number("low", i64::MIN)
        .with_checks(vec![CheckRun { name: "n".into(), status: "s".into(), conclusion: "c".into() }]);
    let read: serde_json::Value = serde_json::from_str(&event.to_json()).unwrap();
    assert_eq!(read["source"], "here");
    assert_eq!(read["type"], "test");
    assert_eq!(read["quote"], "a\"b\\c\nñ");
    assert_eq!(read["low"], i64::MIN);
    assert_eq!(read["checks"][0]["name"], "n");
    assert_eq!(read["checks"][0]["status"], "s");
    assert_eq!(read["checks"][0]["conclusion"], "c");
    assert_eq!(read.as_object().unwrap().len(), 5);
    assert_eq!(
        Event::new("a", "b").to_json(),
        "{\"source\":\"a\",\"type\":\"b\"}"
    );
}

#[test]
fn each_failure_has_its_words() {
    let text = || "x".to_string();
    let words = vec![
        (Error::EmptyDuration, "empty duration"),
        (Error::InvalidDuration(text()), "invalid duration: x"),
        (Error::NegativeDuration(text()), "duration must not be negative: x"),
        (Error::DurationOverflow(text()), "duration overflow: x"),
        (Error::UnknownDurationUnit(text()), "unknown duration unit: x. Use s/m/h/d"),
        (Error::GhNotRun(text()), "x"),
        (Error::LabelCheckFailed, "failed to check labels"),
        (Error::CommentCountFailed, "failed to get comment count"),
        (Error::GhApiFailed(text()), "gh api failed: x"),
        (Error::StatusNotText, "Invalid column type Blob at index: 0, name: status"),
        (Error::NotActive(text()), "subscription x is not active"),
        (Error::NotFound(text()), "subscription x not found"),
        (Error::WaitExpired, "Subscription expired"),
        (Error::WaitCancelled, "Subscription cancelled"),
        (Error::WaitNotFound(text()), "Subscription x not found"),
    ];
    for (error, expected) in words {
        let status = if expected == "Subscription expired" { 1 } else { 2 };
        assert_eq!(error.message(), expected);
        assert_eq!(error.wait_status(), status);
    }
}
