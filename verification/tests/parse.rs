use nudge::cli::{OnArgs, WaitArgs};
use nudge::condition::{Condition, GitHubCondition};
use nudge::gh::{detect_repo, get_comment_count, has_label, GhOutput, GhReply};
use nudge::parse::{parse_condition, parse_condition_at, try_parse_condition, ParseStep};
use nudge::subscription::Subscription;

fn printed(stdout: &[u8]) -> GhReply {
    Ok(GhOutput { success: true, stdout: stdout.to_vec(), stderr: vec![] })
}

fn failed() -> GhReply {
    Ok(GhOutput { success: false, stdout: b"x".to_vec(), stderr: b"boom".to_vec() })
}

fn words(args: &[&str]) -> Vec<String> {
    args.iter().map(|s| s.to_string()).collect()
}

/// Reads a condition to the end, `gh` answering with `replies` in turn. Gives what was
/// asked too.
fn read(
    args: &[&str],
    repo: Option<&str>,
    replies: Vec<GhReply>,
) -> (Result<Condition, String>, Vec<Vec<String>>) {
    let mut asked = vec![];
    let mut step = match parse_condition("github", &words(args), repo) {
        Ok(step) => step,
        Err(e) => return (Err(e.message()), asked),
    };
    for reply in replies {
        match step.call() {
            Some(call) => asked.push(call.args),
            None => panic!("one reply too many"),
        }
        step = match step.resume(&reply) {
            Ok(step) => step,
            Err(e) => return (Err(e.message()), asked),
        };
    }
    assert!(step.call().is_none(), "one reply too few");
    match step {
        ParseStep::Done(condition) => (Ok(condition), asked),
        _ => panic!("not done"),
    }
}

/// Reads a condition about which only the repository is asked, and in vain.
fn read_at_once(args: &[&str]) -> Result<Condition, String> {
    read(args, Some("foo/bar"), vec![Err("no gh".to_string())]).0
}

#[test]
fn test_parse_condition_timer() {
    let step = parse_condition("timer", &["30m".into()], None).ok().unwrap();
    match step {
        ParseStep::Done(Condition::Timer { duration, fire_at }) => {
            assert_eq!(duration, "30m");
            assert!(fire_at > 0);
        }
        _ => panic!("expected Timer condition"),
    }
}

#[test]
fn test_parse_condition_github() {
    let cond = read_at_once(&["pr", "42", "merged"]).unwrap();
    match cond {
        Condition::GitHub(GitHubCondition::PrMerged { repo, number }) => {
            assert_eq!(repo, "foo/bar");
            assert_eq!(number, 42);
        }
        _ => panic!("expected GitHub PrMerged condition"),
    }
}

#[test]
fn test_parse_condition_github_ci() {
    let cond = read_at_once(&["ci", "999", "success"]).unwrap();
    match cond {
        Condition::GitHub(GitHubCondition::CiSuccess { repo, number }) => {
            assert_eq!(repo, "foo/bar");
            assert_eq!(number, 999);
        }
        _ => panic!("expected GitHub CiSuccess condition"),
    }
}

#[test]
fn test_parse_condition_invalid_kind() {
    assert!(read_at_once(&["bogus", "1", "merged"]).is_err());
}

#[test]
fn test_parse_condition_invalid_event() {
    assert!(read_at_once(&["pr", "1", "bogus"]).is_err());
}

#[test]
fn a_timer_is_counted_from_now() {
    match parse_condition_at("timer", &words(&[" 2h ", "more"]), None, 1000).ok().unwrap() {
        ParseStep::Done(Condition::Timer { duration, fire_at }) => {
            assert_eq!(duration, " 2h ");
            assert_eq!(fire_at, 8200);
        }
        _ => panic!("expected a timer"),
    }
    let before = chrono::Utc::now().timestamp();
    let step = parse_condition("timer", &words(&["60s"]), None).ok().unwrap();
    let after = chrono::Utc::now().timestamp();
    match step {
        ParseStep::Done(Condition::Timer { fire_at, .. }) => {
            assert!(before + 60 <= fire_at && fire_at <= after + 60);
        }
        _ => panic!("expected a timer"),
    }
}

#[test]
fn an_approval_is_a_condition_of_a_pull_request() {
    match read_at_once(&["pr", "42", "review-approved"]).unwrap() {
        Condition::GitHub(GitHubCondition::PrReviewApproved { repo, number }) => {
            assert_eq!((repo.as_str(), number), ("foo/bar", 42));
        }
        _ => panic!("expected an approval"),
    }
    assert!(read_at_once(&["issue", "42", "review-approved"]).is_err());
}

/// Reads a condition with a source of its own, `gh` answering with `replies` in turn.
fn read_from(source: &str, args: &[&str], replies: Vec<GhReply>) -> Condition {
    let mut step = parse_condition(source, &words(args), Some("foo/bar")).ok().unwrap();
    for reply in replies {
        assert!(step.call().is_some());
        step = step.resume(&reply).ok().unwrap();
    }
    match step {
        ParseStep::Done(condition) => condition,
        _ => panic!("not done"),
    }
}

#[test]
fn ci_is_short_for_github_ci() {
    match read_from("ci", &["2199", "success"], vec![failed()]) {
        Condition::GitHub(GitHubCondition::CiSuccess { repo, number }) => {
            assert_eq!((repo.as_str(), number), ("foo/bar", 2199));
        }
        _ => panic!("expected a run"),
    }
    let wait = WaitArgs {
        source: "ci".into(),
        args: words(&["2199", "success"]),
        timeout: None,
        repo: Some("foo/bar".into()),
    };
    let condition = read_from("ci", &["2199", "success"], vec![failed()]);
    let sub = Subscription::from_wait_args(&wait, condition).unwrap();
    assert_eq!(sub.source, "github");
    assert_eq!(sub.condition_summary(), "foo/bar ci #2199 success");
    let on = OnArgs {
        source: "ci".into(),
        args: words(&["2199", "success"]),
        run: "echo passed".into(),
        timeout: None,
        repo: Some("foo/bar".into()),
    };
    let condition = read_from("ci", &["2199", "success"], vec![failed()]);
    let sub = Subscription::from_on_args(&on, condition).unwrap();
    assert_eq!((sub.source.as_str(), sub.mode.as_str()), ("github", "on"));
    assert_eq!(sub.condition_summary(), "foo/bar ci #2199 success");
}

#[test]
fn issue_is_short_for_github_issue() {
    let replies = || vec![failed(), printed(b"7")];
    match read_from("issue", &["2208", "new-comment"], replies()) {
        Condition::GitHub(GitHubCondition::IssueNewComment { repo, number, baseline }) => {
            assert_eq!((repo.as_str(), number, baseline), ("foo/bar", 2208, 7));
        }
        _ => panic!("expected comments"),
    }
    let on = OnArgs {
        source: "issue".into(),
        args: words(&["2208", "new-comment"]),
        run: "echo commented".into(),
        timeout: None,
        repo: Some("foo/bar".into()),
    };
    let condition = read_from("issue", &["2208", "new-comment"], replies());
    let sub = Subscription::from_on_args(&on, condition).unwrap();
    assert_eq!(sub.source, "github");
    assert_eq!(sub.condition_summary(), "foo/bar issue #2208 new-comment");
}

#[test]
fn a_short_source_is_refused_as_the_long_one_is() {
    let refused = |source: &str, args: &[&str]| {
        parse_condition(source, &words(args), None).err().unwrap().message()
    };
    for source in ["ci", "issue"] {
        assert_eq!(refused(source, &["1"]), refused("github", &[source, "1"]));
        assert_eq!(refused(source, &[]), refused("github", &[source]));
        assert_eq!(refused(source, &["x", "closed"]), "invalid number: x");
    }
    assert!(refused("pr", &["1", "merged"]).starts_with("unknown source: pr."));
}

#[test]
fn a_timer_that_cannot_be_counted_from_now_is_told_apart() {
    assert!(try_parse_condition("timer", &words(&["9223372036854775807s"]), None).is_none());
    assert!(try_parse_condition("timer", &words(&["5\u{b5}"]), None).is_none());
    // Long after the last year of the calendar, but within the range.
    let step = try_parse_condition("timer", &words(&["9223372000000000000s"]), None).unwrap();
    match step.ok().unwrap() {
        ParseStep::Done(Condition::Timer { fire_at, .. }) => {
            assert!(fire_at > 9223372000000000000);
        }
        _ => panic!("expected a timer"),
    }
    let refused = try_parse_condition("timer", &words(&["soon"]), None).unwrap();
    assert_eq!(refused.err().unwrap().message(), "invalid duration: soon");
    assert!(try_parse_condition("webhook", &[], None).unwrap().is_err());
}

#[test]
fn each_refusal_of_a_condition_says_why() {
    let refused = |source: &str, args: &[&str]| {
        parse_condition(source, &words(args), None).err().unwrap().message()
    };
    assert_eq!(refused("timer", &[]), "timer requires a duration (e.g., 30m, 2h)");
    assert_eq!(refused("timer", &["5x"]), "unknown duration unit: x. Use s/m/h/d");
    assert_eq!(
        refused("github", &["pr", "1"]),
        "github requires: <pr|issue|ci> <number> <event> [--repo owner/repo]"
    );
    assert_eq!(refused("github", &["pr", "x1", "merged"]), "invalid number: x1");
    assert_eq!(refused("webhook", &[]), "webhook source is not yet implemented");
    assert_eq!(
        refused("irc", &["x"]),
        "unknown source: irc. Supported: github, ci, issue, timer, webhook"
    );
    assert_eq!(
        read_at_once(&["ci", "7", "merged"]).unwrap_err(),
        "invalid github condition: kind=ci event=merged. Valid: pr \
         (merged|closed|review-approved|ci-passed|new-comment|label:X), \
         issue (closed|new-comment|label:X), \
         ci (success|failure|completed)"
    );
    assert_eq!(
        read(&["pr", "1", "merged"], None, vec![failed()]).0.unwrap_err(),
        "--repo is required (or run from a git repo)"
    );
    // The repository is missed before the event is looked at.
    assert_eq!(
        read(&["pr", "1", "bogus"], None, vec![Err("x".to_string())]).0.unwrap_err(),
        "--repo is required (or run from a git repo)"
    );
}

#[test]
fn the_repository_is_the_given_or_the_detected_one() {
    let (condition, asked) =
        read(&["issue", "7", "closed"], None, vec![printed(b" own/er \n")]);
    assert_eq!(condition.unwrap().summary(), "own/er issue #7 closed");
    assert_eq!(
        asked,
        vec![words(&["repo", "view", "--json", "nameWithOwner", "--jq", ".nameWithOwner"])]
    );
    let (condition, _) = read(&["issue", "7", "closed"], Some("a/b"), vec![printed(b"own/er")]);
    assert_eq!(condition.unwrap().summary(), "a/b issue #7 closed");
}

#[test]
fn bytes_that_are_no_text_are_replaced() {
    assert_eq!(detect_repo(&printed(b"a/\xff\n")), Some("a/\u{fffd}".to_string()));
    assert_eq!(detect_repo(&printed("añ/b".as_bytes())), Some("añ/b".to_string()));
    assert_eq!(detect_repo(&failed()), None);
    assert_eq!(detect_repo(&Err("none".to_string())), None);
}

#[test]
fn a_label_is_looked_up_first() {
    let (condition, asked) = read(
        &["pr", "5", "label:ready"],
        Some("a/b"),
        vec![failed(), printed(b"[\"bug\", \"ready\"]\n")],
    );
    assert_eq!(asked[1], words(&["api", "repos/a/b/issues/5", "--jq", "[.labels[].name]"]));
    match condition.unwrap() {
        Condition::GitHub(GitHubCondition::PrLabel { repo, number, name, present_at_subscribe }) => {
            assert_eq!((repo.as_str(), number, name.as_str()), ("a/b", 5, "ready"));
            assert!(present_at_subscribe);
        }
        _ => panic!("expected a label of a pull request"),
    }
    // Part of a name is no name, and what is no list of names has none.
    for answer in ["[\"ready!\"]", "[]", "ready", "{\"ready\":1}", "[1]", ""] {
        let (condition, _) = read(
            &["issue", "5", "label:ready"],
            Some("a/b"),
            vec![failed(), printed(answer.as_bytes())],
        );
        match condition.unwrap() {
            Condition::GitHub(GitHubCondition::IssueLabel { present_at_subscribe, .. }) => {
                assert!(!present_at_subscribe, "{answer}");
            }
            _ => panic!("expected a label of an issue"),
        }
    }
    let refused = |reply| {
        read(&["pr", "5", "label:x"], Some("a/b"), vec![failed(), reply]).0.unwrap_err()
    };
    assert_eq!(refused(failed()), "failed to check labels");
    assert_eq!(refused(Err("No such file".to_string())), "No such file");
}

#[test]
fn labels_are_compared_whole() {
    let names = Some(words(&["bug", "ready"]));
    assert!(has_label(&names, "ready"));
    assert!(!has_label(&names, "read"));
    assert!(!has_label(&Some(vec![]), ""));
    assert!(!has_label(&None, "bug"));
}

#[test]
fn comments_are_counted_first() {
    for (kind, pr) in [("pr", true), ("issue", false)] {
        let (condition, asked) = read(
            &[kind, "8", "new-comment"],
            Some("a/b"),
            vec![failed(), printed(b"12\n")],
        );
        assert_eq!(asked[1], words(&["api", "repos/a/b/issues/8", "--jq", ".comments"]));
        match condition.unwrap() {
            Condition::GitHub(GitHubCondition::PrNewComment { number, baseline, .. }) => {
                assert!(pr);
                assert_eq!((number, baseline), (8, 12));
            }
            Condition::GitHub(GitHubCondition::IssueNewComment { number, baseline, .. }) => {
                assert!(!pr);
                assert_eq!((number, baseline), (8, 12));
            }
            _ => panic!("expected comments"),
        }
    }
    let refused = |reply: &GhReply| get_comment_count(reply).unwrap_err().message();
    assert_eq!(refused(&failed()), "failed to get comment count");
    assert_eq!(refused(&Err("No such file".to_string())), "No such file");
    assert_eq!(refused(&printed(b"")), "cannot parse integer from empty string");
    assert_eq!(refused(&printed(b"many")), "invalid digit found in string");
    assert_eq!(
        refused(&printed(b"9223372036854775808")),
        "number too large to fit in target type"
    );
    assert_eq!(
        refused(&printed(b"-9223372036854775809")),
        "number too small to fit in target type"
    );
}

#[test]
fn the_summary_repeats_the_request() {
    let at_once = [
        ("pr", "merged"),
        ("pr", "closed"),
        ("pr", "review-approved"),
        ("pr", "ci-passed"),
        ("issue", "closed"),
        ("ci", "success"),
        ("ci", "failure"),
        ("ci", "completed"),
    ];
    for (kind, event) in at_once {
        let condition = read_at_once(&[kind, "-3", event]).unwrap();
        assert_eq!(condition.summary(), format!("foo/bar {kind} #-3 {event}"));
        assert_eq!(condition.source_name(), "github");
    }
    let after_an_answer = [
        ("pr", "label:a b", "[]"),
        ("pr", "label:", "[\"\"]"),
        ("pr", "new-comment", "0"),
        ("issue", "label:x", "[\"x\"]"),
        ("issue", "new-comment", "4"),
    ];
    for (kind, event, answer) in after_an_answer {
        let (condition, asked) = read(
            &[kind, "9", event],
            Some("a/b"),
            vec![failed(), printed(answer.as_bytes())],
        );
        assert_eq!(condition.unwrap().summary(), format!("a/b {kind} #9 {event}"));
        assert_eq!(asked.len(), 2);
    }
}
