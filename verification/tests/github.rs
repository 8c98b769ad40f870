use nudge::checker::check;
use nudge::checker::github::{check_reviews, check_runs_on, CheckStep, Probe};
use nudge::checker::verdict::{check_checks, check_pr_merged, check_run, Wanted};
use nudge::condition::{Condition, GitHubCondition};
use nudge::error::Error;
use nudge::event::{CheckRun, Event};
use nudge::gh::{gh_api, GhOutput, GhReply};
use nudge::subscription::Subscription;

fn printed(stdout: &str) -> GhReply {
    Ok(GhOutput { success: true, stdout: stdout.as_bytes().to_vec(), stderr: vec![] })
}

fn failed(stderr: &str) -> GhReply {
    Ok(GhOutput { success: false, stdout: vec![], stderr: stderr.as_bytes().to_vec() })
}

fn sub(condition: Condition) -> Subscription {
    Subscription {
        id: "x".into(),
        source: condition.source_name().into(),
        condition,
        mode: "wait".into(),
        callback: None,
        status: "active".into(),
        created_at: 0,
        expires_at: None,
        event_data: None,
    }
}

/// Checks a condition, `gh` answering with `replies` in turn. Gives the endpoints and
/// filters that were asked for too.
fn run(
    condition: GitHubCondition,
    replies: Vec<GhReply>,
) -> (Result<Option<Event>, Error>, Vec<(String, String)>) {
    let mut asked = vec![];
    let mut step = check(&sub(Condition::GitHub(condition)));
    for reply in replies {
        step = match step {
            CheckStep::Ask(probe) => {
                let args = probe.call().args;
                assert_eq!((args.len(), args[0].as_str(), args[2].as_str()), (4, "api", "--jq"));
                asked.push((args[1].clone(), args[3].clone()));
                assert!(probe.has_page_left());
                probe.resume(&reply)
            }
            CheckStep::Done(_) => panic!("one reply too many"),
        };
    }
    match step {
        CheckStep::Done(outcome) => (outcome, asked),
        CheckStep::Ask(_) => panic!("one reply too few"),
    }
}

fn json(outcome: Result<Option<Event>, Error>) -> Option<String> {
    outcome.unwrap().map(|event| event.to_json())
}

#[test]
fn a_timer_is_checked_at_once() {
    match check(&sub(Condition::Timer { duration: "1s".into(), fire_at: 0 })) {
        CheckStep::Done(Ok(Some(event))) => assert_eq!(event.texts[1].1, "timer_expired"),
        _ => panic!("expected an event"),
    }
    match check(&sub(Condition::Timer { duration: "1s".into(), fire_at: i64::MAX })) {
        CheckStep::Done(Ok(None)) => {}
        _ => panic!("expected nothing"),
    }
}

#[test]
fn a_merged_pull_request_fires() {
    let merged = || GitHubCondition::PrMerged { repo: "a/b".into(), number: 4 };
    let (outcome, asked) = run(merged(), vec![printed("true\n2024-05-06T07:08:09Z\n")]);
    assert_eq!(asked, vec![("repos/a/b/pulls/4".to_string(), ".merged, .merged_at".to_string())]);
    assert_eq!(
        json(outcome).unwrap(),
        "{\"merged_at\":\"2024-05-06T07:08:09Z\",\"pr\":4,\"repo\":\"a/b\",\
         \"source\":\"github\",\"type\":\"pr_merged\"}"
    );
    assert!(json(run(merged(), vec![printed("false\n\n")]).0).is_none());
    assert!(json(run(merged(), vec![printed("false\ntrue")]).0).is_none());
    assert!(json(run(merged(), vec![printed("true")]).0).is_some());
    assert!(json(run(merged(), vec![printed("")]).0).is_none());
}

#[test]
fn a_merge_is_told_with_its_time() {
    let event = check_pr_merged("a/b", 7, "true", "today").unwrap();
    assert_eq!(event.texts[3], ("merged_at".to_string(), "today".to_string()));
    assert!(check_pr_merged("a/b", 7, "false", "today").is_none());
    assert!(check_pr_merged("a/b", 7, "", "").is_none());
}

fn states(n: usize, last: &str) -> GhReply {
    let mut all = vec!["\"COMMENTED\"".to_string(); n - 1];
    all.push(format!("\"{last}\""));
    printed(&format!("[{}]", all.join(",")))
}

#[test]
fn an_approved_pull_request_fires() {
    let approved = || GitHubCondition::PrReviewApproved { repo: "a/b".into(), number: 4 };
    let (outcome, asked) = run(approved(), vec![states(3, "APPROVED")]);
    assert_eq!(
        asked,
        vec![(
            "repos/a/b/pulls/4/reviews?per_page=100&page=1".to_string(),
            "[.[].state]".to_string()
        )]
    );
    assert_eq!(
        json(outcome).unwrap(),
        "{\"pr\":4,\"repo\":\"a/b\",\"source\":\"github\",\"type\":\"review_approved\"}"
    );
    for answer in ["[]", "[\"CHANGES_REQUESTED\"]", "[\"DISMISSED\"]", "APPROVED", ""] {
        assert!(json(run(approved(), vec![printed(answer)]).0).is_none(), "{answer}");
    }
    // A full page without an approval is followed by the next.
    let (outcome, asked) =
        run(approved(), vec![states(100, "COMMENTED"), states(1, "APPROVED")]);
    assert_eq!(asked[1].0, "repos/a/b/pulls/4/reviews?per_page=100&page=2");
    assert!(json(outcome).is_some());
    let (outcome, _) = run(approved(), vec![states(100, "COMMENTED"), printed("[]")]);
    assert!(json(outcome).is_none());
    let (outcome, _) = run(approved(), vec![states(100, "APPROVED")]);
    assert!(json(outcome).is_some());
    let e = run(approved(), vec![failed("HTTP 404")]).0.unwrap_err();
    assert_eq!(e.message(), "gh api failed: HTTP 404");
}

#[test]
fn a_page_of_reviews_is_judged_by_their_states() {
    let words = |list: &[&str]| list.iter().map(|s| s.to_string()).collect::<Vec<String>>();
    match check_reviews("a/b".into(), 4, 2, words(&["COMMENTED", "APPROVED"])) {
        CheckStep::Done(Ok(Some(event))) => assert_eq!(event.texts[1].1, "review_approved"),
        _ => panic!("expected an event"),
    }
    match check_reviews("a/b".into(), 4, 2, words(&["approved"])) {
        CheckStep::Done(Ok(None)) => {}
        _ => panic!("expected nothing"),
    }
    match check_reviews("a/b".into(), 4, 2, vec![String::new(); 100]) {
        CheckStep::Ask(Probe::Reviews { page, .. }) => assert_eq!(page, 3),
        _ => panic!("expected another page"),
    }
}

#[test]
fn a_closed_pull_request_fires() {
    let closed = || GitHubCondition::PrClosed { repo: "a/b".into(), number: 4 };
    let (outcome, asked) = run(closed(), vec![printed("closed")]);
    assert_eq!(asked, vec![("repos/a/b/pulls/4".to_string(), ".state".to_string())]);
    assert_eq!(
        json(outcome).unwrap(),
        "{\"pr\":4,\"repo\":\"a/b\",\"source\":\"github\",\"type\":\"pr_closed\"}"
    );
    assert!(json(run(closed(), vec![printed("open")]).0).is_none());
}

#[test]
fn a_closed_issue_fires() {
    let closed = || GitHubCondition::IssueClosed { repo: "a/b".into(), number: -4 };
    let (outcome, asked) = run(closed(), vec![printed("closed")]);
    assert_eq!(asked, vec![("repos/a/b/issues/-4".to_string(), ".state".to_string())]);
    assert_eq!(
        json(outcome).unwrap(),
        "{\"issue\":-4,\"repo\":\"a/b\",\"source\":\"github\",\"type\":\"issue_closed\"}"
    );
    assert!(json(run(closed(), vec![printed("open")]).0).is_none());
}

#[test]
fn a_label_that_was_added_fires() {
    let on_pr = |was: bool| GitHubCondition::PrLabel {
        repo: "a/b".into(), number: 4, name: "go".into(), present_at_subscribe: was,
    };
    let on_issue = |was: bool| GitHubCondition::IssueLabel {
        repo: "a/b".into(), number: 4, name: "go".into(), present_at_subscribe: was,
    };
    let filter = "[.labels[].name] | join(\",\")".to_string();
    let (outcome, asked) = run(on_pr(false), vec![printed("bug, go ")]);
    assert_eq!(asked, vec![("repos/a/b/pulls/4".to_string(), filter.clone())]);
    assert_eq!(
        json(outcome).unwrap(),
        "{\"label\":\"go\",\"pr\":4,\"repo\":\"a/b\",\"source\":\"github\",\"type\":\"label_added\"}"
    );
    let (outcome, asked) = run(on_issue(false), vec![printed("go")]);
    assert_eq!(asked, vec![("repos/a/b/issues/4".to_string(), filter)]);
    assert_eq!(
        json(outcome).unwrap(),
        "{\"issue\":4,\"label\":\"go\",\"repo\":\"a/b\",\"source\":\"github\",\"type\":\"label_added\"}"
    );
    assert!(json(run(on_pr(false), vec![printed("got,ago")]).0).is_none());
    // One that was there before never fires.
    assert!(json(run(on_pr(true), vec![printed("go")]).0).is_none());
    assert!(json(run(on_issue(true), vec![printed("go")]).0).is_none());
}

#[test]
fn a_new_comment_fires() {
    let on_pr =
        || GitHubCondition::PrNewComment { repo: "a/b".into(), number: 4, baseline: 2 };
    let (outcome, asked) = run(on_pr(), vec![printed("3")]);
    assert_eq!(asked, vec![("repos/a/b/issues/4".to_string(), ".comments".to_string())]);
    assert_eq!(
        json(outcome).unwrap(),
        "{\"baseline\":2,\"new_count\":3,\"number\":4,\"repo\":\"a/b\",\"source\":\"github\",\"type\":\"new_comment\"}"
    );
    assert!(json(run(on_pr(), vec![printed("2")]).0).is_none());
    assert!(json(run(on_pr(), vec![printed("1")]).0).is_none());
    // What is no number counts as none.
    assert!(json(run(on_pr(), vec![printed("many")]).0).is_none());
    let on_issue =
        GitHubCondition::IssueNewComment { repo: "a/b".into(), number: 4, baseline: -1 };
    let (outcome, _) = run(on_issue, vec![printed("many")]);
    assert_eq!(outcome.unwrap().unwrap().numbers[1], ("new_count".to_string(), 0));
}

#[test]
fn a_failure_of_gh_ends_the_check() {
    let merged = || GitHubCondition::PrMerged { repo: "a/b".into(), number: 4 };
    let (outcome, _) = run(merged(), vec![failed("HTTP 404\n")]);
    assert_eq!(outcome.unwrap_err().message(), "gh api failed: HTTP 404\n");
    let (outcome, _) = run(merged(), vec![Err("No such file".to_string())]);
    assert_eq!(outcome.unwrap_err().message(), "No such file");
}

#[test]
fn an_answer_is_trimmed_and_decoded() {
    let reply =
        Ok(GhOutput { success: true, stdout: b" a\xc3\xb1\xff \n".to_vec(), stderr: vec![] });
    assert_eq!(gh_api(&reply).unwrap(), "añ\u{fffd}");
    let reply =
        Ok(GhOutput { success: false, stdout: vec![], stderr: b"\xf0\x28 x\n".to_vec() });
    assert_eq!(gh_api(&reply).unwrap_err().message(), "gh api failed: \u{fffd}( x\n");
}

fn ci(wanted: &str) -> GitHubCondition {
    match wanted {
        "success" => GitHubCondition::CiSuccess { repo: "a/b".into(), number: 9 },
        "failure" => GitHubCondition::CiFailure { repo: "a/b".into(), number: 9 },
        "completed" => GitHubCondition::CiCompleted { repo: "a/b".into(), number: 9 },
        _ => GitHubCondition::PrCiPassed { repo: "a/b".into(), number: 9 },
    }
}

fn run_json(status: &str, conclusion: &str) -> GhReply {
    printed(&format!("{{\"status\":\"{status}\",\"conclusion\":\"{conclusion}\"}}"))
}

#[test]
fn a_run_is_judged_by_its_conclusion_or_its_status() {
    let (outcome, asked) = run(ci("success"), vec![run_json("completed", "success")]);
    assert_eq!(
        asked,
        vec![(
            "repos/a/b/actions/runs/9".to_string(),
            "{status: .status, conclusion: .conclusion}".to_string()
        )]
    );
    assert_eq!(
        json(outcome).unwrap(),
        "{\"conclusion\":\"success\",\"repo\":\"a/b\",\"run\":9,\"source\":\"github\",\"type\":\"ci_result\"}"
    );
    let fires = |wanted: &str, status: &str, conclusion: &str| {
        json(run(ci(wanted), vec![run_json(status, conclusion)]).0).is_some()
    };
    assert!(fires("passed", "completed", "success"));
    assert!(!fires("success", "completed", "failure"));
    assert!(fires("failure", "completed", "failure"));
    assert!(!fires("failure", "completed", "cancelled"));
    assert!(fires("completed", "completed", "cancelled"));
    assert!(!fires("completed", "in_progress", ""));
    let running = printed("{\"status\":\"queued\",\"conclusion\":null}");
    assert!(json(run(ci("completed"), vec![running]).0).is_none());
}

#[test]
fn a_run_as_wanted_has_its_conclusion_in_the_event() {
    let event = check_run("a/b", 1, Wanted::Completed, "completed", "skipped").unwrap();
    assert_eq!(event.texts[3], ("conclusion".to_string(), "skipped".to_string()));
    assert_eq!(event.numbers, vec![("run".to_string(), 1)]);
    assert!(check_run("a/b", 1, Wanted::Success, "completed", "skipped").is_none());
    assert!(check_run("a/b", 1, Wanted::Success, "in_progress", "success").is_some());
}

fn page(runs: &[(&str, &str)]) -> GhReply {
    let items: Vec<String> = runs
        .iter()
        .map(|(status, conclusion)| {
            format!("{{\"name\":\"n\",\"status\":\"{status}\",\"conclusion\":\"{conclusion}\"}}")
        })
        .collect();
    printed(&format!("{{\"total_count\":1,\"check_runs\":[{}]}}", items.join(",")))
}

#[test]
fn a_number_that_is_no_run_is_that_of_a_pull_request() {
    // Whether the run cannot be fetched or has no status.
    for answer in [failed("HTTP 404"), Err("x".to_string()), printed("{}"), printed("no json")] {
        let (outcome, asked) = run(
            ci("passed"),
            vec![answer, printed("abc123\n"), page(&[("completed", "success")])],
        );
        assert_eq!(asked[1], ("repos/a/b/pulls/9".to_string(), ".head.sha".to_string()));
        assert_eq!(
            asked[2],
            (
                "repos/a/b/commits/abc123/check-runs?per_page=100&page=1".to_string(),
                ".".to_string()
            )
        );
        assert_eq!(
            json(outcome).unwrap(),
            "{\"checks\":[{\"conclusion\":\"success\",\"name\":\"n\",\"status\":\"completed\"}],\
             \"conclusion\":\"success\",\"pr\":9,\"repo\":\"a/b\",\"source\":\"github\",\
             \"type\":\"ci_result\"}"
        );
    }
}

#[test]
fn a_pull_request_without_a_commit_or_a_check_is_no_event() {
    let (outcome, asked) = run(ci("completed"), vec![failed("x"), printed("\n")]);
    assert!(outcome.unwrap().is_none());
    assert_eq!(asked.len(), 2);
    assert!(run(ci("completed"), vec![failed("x"), printed("s"), page(&[])]).0.unwrap().is_none());
    let odd = run(ci("completed"), vec![failed("x"), printed("s"), printed("no json")]);
    assert!(odd.0.unwrap().is_none());
    let e = run(ci("completed"), vec![failed("x"), failed("gone")]).0.unwrap_err();
    assert_eq!(e.message(), "gh api failed: gone");
    let e = run(ci("completed"), vec![failed("x"), printed("s"), failed("late")]).0.unwrap_err();
    assert_eq!(e.message(), "gh api failed: late");
}

#[test]
fn all_pages_of_checks_count() {
    let full: Vec<(&str, &str)> = vec![("completed", "success"); 100];
    let (outcome, asked) = run(
        ci("failure"),
        vec![
            failed("x"),
            printed("s"),
            page(&full),
            page(&full),
            page(&[("completed", "failure")]),
        ],
    );
    assert_eq!(asked[4].0, "repos/a/b/commits/s/check-runs?per_page=100&page=3");
    let event = outcome.unwrap().unwrap();
    assert_eq!(event.checks.unwrap().len(), 201);
    // A full last page is followed by an empty one.
    let (outcome, asked) =
        run(ci("success"), vec![failed("x"), printed("s"), page(&full), page(&[])]);
    assert_eq!(asked.len(), 4);
    assert_eq!(outcome.unwrap().unwrap().checks.unwrap().len(), 100);
}

fn checks(runs: &[(&str, &str)]) -> Vec<CheckRun> {
    runs.iter()
        .map(|(status, conclusion)| CheckRun {
            name: "n".into(),
            status: status.to_string(),
            conclusion: conclusion.to_string(),
        })
        .collect()
}

#[test]
fn checks_are_judged_together() {
    let conclusion = |wanted: Wanted, runs: &[(&str, &str)]| {
        check_checks("a/b", 1, wanted, checks(runs)).map(|event| event.texts[3].1.clone())
    };
    let word = |s: &str| Some(s.to_string());
    let good = [("completed", "success"), ("completed", "success")];
    let bad = [("completed", "success"), ("completed", "failure"), ("completed", "neutral")];
    let mixed = [("completed", "success"), ("completed", "skipped")];
    let running = [("completed", "failure"), ("in_progress", "")];
    assert_eq!(conclusion(Wanted::Success, &good), word("success"));
    assert_eq!(conclusion(Wanted::Failure, &good), None);
    assert_eq!(conclusion(Wanted::Completed, &good), word("success"));
    assert_eq!(conclusion(Wanted::Success, &bad), None);
    assert_eq!(conclusion(Wanted::Failure, &bad), word("failure"));
    assert_eq!(conclusion(Wanted::Completed, &bad), word("failure"));
    assert_eq!(conclusion(Wanted::Success, &mixed), None);
    assert_eq!(conclusion(Wanted::Failure, &mixed), None);
    assert_eq!(conclusion(Wanted::Completed, &mixed), word("completed"));
    for wanted in [Wanted::Success, Wanted::Failure, Wanted::Completed] {
        assert_eq!(conclusion(wanted, &running), None);
        assert_eq!(conclusion(wanted, &[]), None);
    }
}

#[test]
fn what_a_check_run_lacks_is_empty() {
    let runs = check_runs_on(
        "{\"check_runs\":[{\"name\":\"a \\u00f1\",\"status\":7},{\"conclusion\":null},3]}",
    );
    assert_eq!(runs.len(), 3);
    assert_eq!(runs[0].name, "a ñ");
    assert_eq!(runs[0].status, "");
    assert_eq!(runs[1].conclusion, "");
    assert_eq!(runs[2].name, "");
    assert!(check_runs_on("{\"check_runs\":{}}").is_empty());
    assert!(check_runs_on("[]").is_empty());
    assert!(check_runs_on("").is_empty());
}

#[test]
fn the_last_page_that_can_be_numbered_is_the_last() {
    let at = |page: u32| Probe::CiChecks {
        repo: "a/b".into(),
        number: 1,
        wanted: Wanted::Success,
        sha: "s".into(),
        page,
        checks: vec![],
    };
    assert!(at(1).has_page_left());
    assert!(at(u32::MAX - 1).has_page_left());
    assert!(!at(u32::MAX).has_page_left());
    let reviews = |page: u32| Probe::Reviews { repo: "a/b".into(), number: 1, page };
    assert!(reviews(u32::MAX - 1).has_page_left());
    assert!(!reviews(u32::MAX).has_page_left());
}
