use nudge::checker::timer::check_at;
use nudge::condition::{Condition, GitHubCondition};
use nudge::daemon::{process_path, wait_for, PollCycle, WaitStep};
use nudge::error::Fault;
use nudge::event::Event;
use nudge::schedule::{poll_interval, Schedule};
use nudge::store::Store;
use nudge::subscription::Subscription;

fn sub(id: &str, mode: &str, callback: Option<&str>) -> Subscription {
    Subscription {
        id: id.into(),
        source: "timer".into(),
        condition: Condition::Timer { duration: "1s".into(), fire_at: 5 },
        mode: mode.into(),
        callback: callback.map(|c| c.to_string()),
        status: "active".into(),
        created_at: 0,
        expires_at: None,
        event_data: None,
    }
}

fn store_of(subs: &[Subscription]) -> Store {
    let mut store = Store::open(vec![]).ok().unwrap();
    for sub in subs {
        store.insert(sub).unwrap();
    }
    store
}

fn met() -> Event {
    check_at(5, "1s", 5, 5).unwrap()
}

fn waits(store: &Store, id: &str) -> Result<Option<String>, String> {
    match wait_for(&store.get(id), id) {
        WaitStep::Fired(event) => Ok(Some(event)),
        WaitStep::Failed(e) => Err(e.message()),
        WaitStep::Pending => Ok(None),
    }
}

#[test]
fn the_process_of_a_pid_file_has_a_directory() {
    assert_eq!(process_path("1234\n").as_deref(), Some("/proc/1234"));
    assert_eq!(process_path(" +007 ").as_deref(), Some("/proc/7"));
    assert_eq!(process_path("4294967295").as_deref(), Some("/proc/4294967295"));
    assert_eq!(process_path("4294967296"), None);
    assert_eq!(process_path("-1"), None);
    assert_eq!(process_path(""), None);
    assert_eq!(process_path("pid"), None);
}

#[test]
fn who_waits_is_told_of_the_event_or_of_the_end() {
    let subs = [sub("a", "wait", None), sub("b", "wait", None), sub("c", "wait", None)];
    let mut store = store_of(&subs);
    assert_eq!(waits(&store, "a"), Ok(None));
    assert!(store.set_fired("a", "{\"n\":1}"));
    assert_eq!(waits(&store, "a"), Ok(Some("{\"n\":1}".to_string())));
    assert!(store.set_fired("b", "no json"));
    assert_eq!(waits(&store, "b"), Ok(Some("{\"status\":\"fired\"}".to_string())));
    store.set_status("c", "cancelled").unwrap();
    assert_eq!(waits(&store, "c"), Err("Subscription cancelled".to_string()));
    assert_eq!(waits(&store, "d"), Err("Subscription d not found".to_string()));
    let mut late = sub("e", "wait", None);
    late.expires_at = Some(3);
    store.insert(&late).unwrap();
    assert_eq!(waits(&store, "e"), Ok(None));
    assert_eq!(store.expire_overdue_at(3), 1);
    assert_eq!(waits(&store, "e"), Err("Subscription expired".to_string()));
}

#[test]
fn a_round_settles_each_subscription() {
    let mut overdue = sub("overdue", "wait", None);
    overdue.expires_at = Some(1);
    let mut in_time = sub("in-time", "on", Some("echo"));
    in_time.expires_at = Some(1);
    let mut store = store_of(&[
        in_time,
        sub("waiting", "wait", Some("never")),
        overdue,
        sub("broken", "on", Some("echo")),
    ]);
    let mut round = PollCycle::start(store.list_active());

    // Met at its deadline, it fires, and its command is to be run with the event.
    assert_eq!(round.current().unwrap().id, "in-time");
    let settled = round.settle(&mut store, &Ok(Some(met())));
    assert!(settled.fired);
    let dispatch = settled.dispatch.unwrap();
    assert_eq!(dispatch.command, "echo");
    assert_eq!(dispatch.event, met().to_json());

    // Who waits has no command run.
    assert_eq!(round.current().unwrap().id, "waiting");
    let settled = round.settle(&mut store, &Ok(Some(met())));
    assert!(settled.fired);
    assert!(settled.dispatch.is_none());

    // Nothing yet.
    assert_eq!(round.current().unwrap().id, "overdue");
    let settled = round.settle(&mut store, &Ok(None));
    assert!(!settled.fired && settled.dispatch.is_none());

    // A check that failed is one that found nothing.
    assert_eq!(round.current().unwrap().id, "broken");
    let settled = round.settle(&mut store, &Err(Fault::GhApiFailed("x".to_string())));
    assert!(!settled.fired && settled.dispatch.is_none());

    assert!(round.current().is_none());
    assert_eq!(round.finish(&mut store, 1), 1);
    for (id, status) in [
        ("in-time", "fired"),
        ("waiting", "fired"),
        ("overdue", "expired"),
        ("broken", "active"),
    ] {
        assert_eq!(store.get(id).unwrap().status, status);
    }
    assert_eq!(waits(&store, "waiting"), Ok(Some(met().to_json())));
}

#[test]
fn a_command_is_run_once() {
    let mut store = store_of(&[sub("a", "on", Some("echo"))]);
    let mut first = PollCycle::start(store.list_active());
    let mut second = PollCycle::start(store.list_active());
    assert!(first.settle(&mut store, &Ok(Some(met()))).dispatch.is_some());
    let again = second.settle(&mut store, &Ok(Some(met())));
    assert!(!again.fired && again.dispatch.is_none());
}

#[test]
fn what_was_cancelled_during_a_round_does_not_fire() {
    let mut store = store_of(&[sub("a", "on", Some("echo"))]);
    let mut round = PollCycle::start(store.list_active());
    store.set_status("a", "cancelled").unwrap();
    let settled = round.settle(&mut store, &Ok(Some(met())));
    assert!(!settled.fired && settled.dispatch.is_none());
    assert_eq!(store.get("a").unwrap().status, "cancelled");
    assert_eq!(round.finish(&mut store, 9), 0);
}

#[test]
fn a_subscription_without_a_command_runs_none() {
    let mut store = store_of(&[sub("a", "on", None)]);
    let mut round = PollCycle::start(store.list_active());
    let settled = round.settle(&mut store, &Ok(Some(met())));
    assert!(settled.fired && settled.dispatch.is_none());
}

fn github(id: &str, condition: GitHubCondition) -> Subscription {
    Subscription {
        source: "github".into(),
        condition: Condition::GitHub(condition),
        ..sub(id, "wait", None)
    }
}

fn ids(subs: &[Subscription]) -> Vec<&str> {
    subs.iter().map(|sub| sub.id.as_str()).collect()
}

#[test]
fn each_kind_of_condition_has_its_interval() {
    let repo = || "a/b".to_string();
    let secs = |c: GitHubCondition| poll_interval(&Condition::GitHub(c));
    assert_eq!(secs(GitHubCondition::CiSuccess { repo: repo(), number: 1 }), Some(30));
    assert_eq!(secs(GitHubCondition::CiFailure { repo: repo(), number: 1 }), Some(30));
    assert_eq!(secs(GitHubCondition::CiCompleted { repo: repo(), number: 1 }), Some(30));
    assert_eq!(secs(GitHubCondition::PrMerged { repo: repo(), number: 1 }), Some(60));
    assert_eq!(secs(GitHubCondition::PrClosed { repo: repo(), number: 1 }), Some(60));
    assert_eq!(secs(GitHubCondition::PrReviewApproved { repo: repo(), number: 1 }), Some(60));
    assert_eq!(secs(GitHubCondition::PrCiPassed { repo: repo(), number: 1 }), Some(60));
    assert_eq!(
        secs(GitHubCondition::PrNewComment { repo: repo(), number: 1, baseline: 0 }),
        Some(60)
    );
    assert_eq!(secs(GitHubCondition::IssueClosed { repo: repo(), number: 1 }), Some(120));
    assert_eq!(
        secs(GitHubCondition::IssueNewComment { repo: repo(), number: 1, baseline: 0 }),
        Some(120)
    );
    assert_eq!(poll_interval(&sub("a", "wait", None).condition), None);
}

#[test]
fn a_subscription_is_checked_once_in_its_interval() {
    let repo = || "a/b".to_string();
    let mut pr = github("pr", GitHubCondition::PrMerged { repo: repo(), number: 1 });
    pr.expires_at = Some(50);
    let active = vec![
        sub("timer", "wait", None),
        github("ci", GitHubCondition::CiSuccess { repo: repo(), number: 1 }),
        pr,
        github("issue", GitHubCondition::IssueClosed { repo: repo(), number: 1 }),
    ];
    let mut schedule = Schedule::new();
    assert_eq!(schedule.last("ci"), None);
    assert_eq!(ids(&schedule.due(&active, 10, 0)), vec!["timer", "ci", "pr", "issue"]);
    assert_eq!(schedule.last("ci"), Some(10));
    assert_eq!(ids(&schedule.due(&active, 39, 0)), vec!["timer"]);
    assert_eq!(ids(&schedule.due(&active, 40, 0)), vec!["timer", "ci"]);
    assert_eq!(ids(&schedule.due(&active, 42, 0)), vec!["timer"]);
    // What expires is checked before.
    assert_eq!(ids(&schedule.due(&active, 44, 50)), vec!["timer", "pr"]);
    assert_eq!(schedule.last("issue"), Some(10));
    assert_eq!(ids(&schedule.due(&active, 130, 0)), vec!["timer", "ci", "pr", "issue"]);
    // What is no longer active is forgotten.
    assert_eq!(ids(&schedule.due(&vec![sub("timer", "wait", None)], 131, 0)), vec!["timer"]);
    assert_eq!(schedule.last("ci"), None);
}
