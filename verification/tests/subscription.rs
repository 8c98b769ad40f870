use nudge::cli::{OnArgs, WaitArgs};
use nudge::condition::{Condition, GitHubCondition};
use nudge::subscription::{expires_at, wait_expires_at, Subscription};
use std::collections::HashSet;

fn timer() -> Condition {
    Condition::Timer { duration: "30m".into(), fire_at: 99999999999 }
}

fn wait_args(timeout: Option<&str>) -> WaitArgs {
    WaitArgs {
        source: "timer".into(),
        args: vec!["30m".into()],
        timeout: timeout.map(|t| t.to_string()),
        repo: None,
    }
}

fn on_args(timeout: Option<&str>) -> OnArgs {
    OnArgs {
        source: "timer".into(),
        args: vec!["30m".into()],
        run: "notify me".into(),
        timeout: timeout.map(|t| t.to_string()),
        repo: None,
    }
}

#[test]
fn test_subscription_id_uniqueness() {
    // Generate 10,000 subscriptions and verify all IDs are unique
    let mut ids = HashSet::new();
    for _ in 0..10_000 {
        let id = Subscription::from_wait_args(&wait_args(None), timer()).unwrap().id;
        assert!(ids.insert(id), "Duplicate subscription ID generated");
    }
    assert_eq!(ids.len(), 10_000);
}

#[test]
fn test_condition_summary() {
    let sub = Subscription {
        id: "x".into(),
        source: "github".into(),
        condition: Condition::GitHub(GitHubCondition::PrMerged {
            repo: "foo/bar".into(), number: 42,
        }),
        mode: "wait".into(),
        callback: None,
        status: "active".into(),
        created_at: 0,
        expires_at: None,
        event_data: None,
    };
    assert_eq!(sub.condition_summary(), "foo/bar pr #42 merged");

    let sub2 = Subscription {
        condition: Condition::Timer { duration: "5m".into(), fire_at: 0 },
        source: "timer".into(),
        ..sub.clone()
    };
    assert_eq!(sub2.condition_summary(), "timer 5m");
}

#[test]
fn an_identifier_is_a_random_uuid() {
    let id = Subscription::from_wait_args(&wait_args(None), timer()).unwrap().id;
    let read = uuid::Uuid::parse_str(&id).unwrap();
    assert_eq!(read.get_version_num(), 4);
    assert_eq!(read.to_string(), id);
    assert_eq!(id.len(), 36);
}

#[test]
fn waiting_makes_an_active_subscription() {
    let before = chrono::Utc::now().timestamp();
    let sub = Subscription::from_wait_args(&wait_args(Some("1h")), timer()).unwrap();
    let after = chrono::Utc::now().timestamp();
    assert_eq!(sub.source, "timer");
    assert_eq!(sub.mode, "wait");
    assert_eq!(sub.callback, None);
    assert_eq!(sub.status, "active");
    assert_eq!(sub.event_data, None);
    assert!(before <= sub.created_at && sub.created_at <= after);
    let expiry = sub.expires_at.unwrap();
    assert_eq!(expiry, sub.created_at + 3600);
    assert!(!sub.is_expired());
    assert!(sub.is_expired_at(expiry));
    assert!(!sub.is_expired_at(expiry - 1));
}

#[test]
fn registering_keeps_the_command() {
    let github = Condition::GitHub(GitHubCondition::CiFailure { repo: "a/b".into(), number: 1 });
    let sub = Subscription::from_on_args(&on_args(None), github).unwrap();
    assert_eq!(sub.source, "github");
    assert_eq!(sub.mode, "on");
    assert_eq!(sub.callback.as_deref(), Some("notify me"));
    assert_eq!(sub.expires_at, None);
    assert!(!sub.is_expired());
    assert!(!sub.is_expired_at(i64::MAX));
}

#[test]
fn a_wait_without_a_timeout_has_an_hour() {
    let sub = Subscription::from_wait_args(&wait_args(None), timer()).unwrap();
    assert_eq!(sub.expires_at, Some(sub.created_at + 3600));
    let sub = Subscription::from_wait_args_at(&wait_args(None), timer(), 1000).unwrap();
    assert_eq!((sub.created_at, sub.expires_at), (1000, Some(4600)));
    let sub = Subscription::from_wait_args_at(&wait_args(Some("2m")), timer(), 1000).unwrap();
    assert_eq!((sub.created_at, sub.expires_at), (1000, Some(1120)));
    let sub = Subscription::from_on_args_at(&on_args(None), timer(), 1000).unwrap();
    assert_eq!((sub.created_at, sub.expires_at), (1000, None));
    let sub = Subscription::from_on_args_at(&on_args(Some("1d")), timer(), 1000).unwrap();
    assert_eq!((sub.created_at, sub.expires_at), (1000, Some(87400)));
    assert_eq!(wait_expires_at(None, 5).unwrap(), Some(3605));
    assert_eq!(wait_expires_at(Some("1h"), 5).unwrap(), Some(3605));
    assert_eq!(wait_expires_at(Some("x"), 5).unwrap_err().message(), "invalid duration: x");
}

#[test]
fn a_timeout_that_cannot_be_counted_from_now_is_told_apart() {
    let long = Some("9223372036854775807s");
    assert!(Subscription::try_from_wait_args(&wait_args(long), timer()).is_none());
    assert!(Subscription::try_from_on_args(&on_args(long), timer()).is_none());
    let sub = Subscription::try_from_wait_args(&wait_args(None), timer()).unwrap().unwrap();
    assert_eq!((sub.mode.as_str(), sub.expires_at), ("wait", Some(sub.created_at + 3600)));
    let fits = Some("9223372000000000000s");
    let sub = Subscription::try_from_on_args(&on_args(fits), timer()).unwrap().unwrap();
    assert_eq!(sub.expires_at, Some(sub.created_at + 9223372000000000000));
    let made = Subscription::try_from_wait_args(&wait_args(Some("x")), timer()).unwrap();
    assert_eq!(made.unwrap_err().message(), "invalid duration: x");
}

#[test]
fn a_bad_timeout_is_refused() {
    let e = Subscription::from_wait_args(&wait_args(Some("soon")), timer()).unwrap_err();
    assert_eq!(e.message(), "invalid duration: soon");
    let e = Subscription::from_on_args(&on_args(Some("-1s")), timer()).unwrap_err();
    assert_eq!(e.message(), "duration must not be negative: -1s");
}

#[test]
fn an_expiry_is_the_timeout_after_now() {
    assert_eq!(expires_at(Some("2m"), 1000).unwrap(), Some(1120));
    assert_eq!(expires_at(None, 1000).unwrap(), None);
    assert_eq!(expires_at(Some(""), 1000).unwrap_err().message(), "empty duration");
}

#[test]
fn a_past_expiry_is_over() {
    let mut sub = Subscription::from_wait_args(&wait_args(None), timer()).unwrap();
    sub.expires_at = Some(0);
    assert!(sub.is_expired());
}

#[test]
fn a_clone_is_the_same() {
    let conditions = vec![
        timer(),
        Condition::GitHub(GitHubCondition::PrMerged { repo: "r".into(), number: 1 }),
        Condition::GitHub(GitHubCondition::PrClosed { repo: "r".into(), number: 2 }),
        Condition::GitHub(GitHubCondition::PrReviewApproved { repo: "r".into(), number: 12 }),
        Condition::GitHub(GitHubCondition::PrLabel {
            repo: "r".into(), number: 3, name: "n".into(), present_at_subscribe: true,
        }),
        Condition::GitHub(GitHubCondition::PrNewComment { repo: "r".into(), number: 4, baseline: 9 }),
        Condition::GitHub(GitHubCondition::PrCiPassed { repo: "r".into(), number: 5 }),
        Condition::GitHub(GitHubCondition::IssueClosed { repo: "r".into(), number: 6 }),
        Condition::GitHub(GitHubCondition::IssueLabel {
            repo: "r".into(), number: 7, name: "m".into(), present_at_subscribe: false,
        }),
        Condition::GitHub(GitHubCondition::IssueNewComment {
            repo: "r".into(), number: 8, baseline: -9,
        }),
        Condition::GitHub(GitHubCondition::CiSuccess { repo: "r".into(), number: 9 }),
        Condition::GitHub(GitHubCondition::CiFailure { repo: "r".into(), number: 10 }),
        Condition::GitHub(GitHubCondition::CiCompleted { repo: "r".into(), number: 11 }),
    ];
    for condition in conditions {
        assert_eq!(format!("{condition:?}"), format!("{:?}", condition.clone()));
    }
}
