//! What the answers of `gh` say about a GitHub condition.
use crate::event::{check_views, event_of, CheckRun, CheckRunView, Event, EventView};
use crate::numeral::{i64_of, parse_i64};
use crate::parse::Thing;
use crate::text::{any_piece_is, lists, same};
use vstd::prelude::*;
use vstd::string::*;

verus! {

/// What is wanted of a run or of a pull request's checks.
#[derive(Clone, Copy, Debug, PartialEq, Eq, Structural)]
pub enum Wanted {
    Success,
    Failure,
    Completed,
}

// ---------------------------------------------------------------------------
// What one answer says
// ---------------------------------------------------------------------------

/// An event of GitHub: its type, its repository and other texts, and its numbers.
pub open spec fn github_event(
    kind: Seq<char>,
    repo: Seq<char>,
    texts: Seq<(Seq<char>, Seq<char>)>,
    numbers: Seq<(Seq<char>, i64)>,
    checks: Option<Seq<CheckRunView>>,
) -> EventView {
    EventView {
        texts: seq![("source"@, "github"@), ("type"@, kind), ("repo"@, repo)] + texts,
        numbers,
        checks,
    }
}

/// The event of a pull request that was merged at a time, as `gh` tells it.
pub open spec fn pr_merged_event(repo: Seq<char>, number: i64, merged_at: Seq<char>) -> EventView {
    github_event(
        "pr_merged"@,
        repo,
        seq![("merged_at"@, merged_at)],
        seq![("pr"@, number)],
        None,
    )
}

/// The event of an approved pull request.
pub open spec fn review_approved_event(repo: Seq<char>, number: i64) -> EventView {
    github_event("review_approved"@, repo, Seq::empty(), seq![("pr"@, number)], None)
}

/// The event of a closed pull request.
pub open spec fn pr_closed_event(repo: Seq<char>, number: i64) -> EventView {
    github_event("pr_closed"@, repo, Seq::empty(), seq![("pr"@, number)], None)
}

/// The event of a closed issue.
pub open spec fn issue_closed_event(repo: Seq<char>, number: i64) -> EventView {
    github_event("issue_closed"@, repo, Seq::empty(), seq![("issue"@, number)], None)
}

/// The key under which an event has the number of a thing.
pub open spec fn thing_key(thing: Thing) -> Seq<char> {
    match thing {
        Thing::Pr => "pr"@,
        Thing::Issue => "issue"@,
    }
}

/// The event of a label that was set.
pub open spec fn label_added_event(
    repo: Seq<char>,
    number: i64,
    label: Seq<char>,
    thing: Thing,
) -> EventView {
    github_event(
        "label_added"@,
        repo,
        seq![("label"@, label)],
        seq![(thing_key(thing), number)],
        None,
    )
}

/// The event of a comment that came in.
pub open spec fn new_comment_event(
    repo: Seq<char>,
    number: i64,
    new_count: i64,
    baseline: i64,
) -> EventView {
    github_event(
        "new_comment"@,
        repo,
        Seq::empty(),
        seq![("number"@, number), ("new_count"@, new_count), ("baseline"@, baseline)],
        None,
    )
}

/// The event of a run.
pub open spec fn run_event(repo: Seq<char>, number: i64, conclusion: Seq<char>) -> EventView {
    github_event(
        "ci_result"@,
        repo,
        seq![("conclusion"@, conclusion)],
        seq![("run"@, number)],
        None,
    )
}

/// The event of a pull request's checks.
pub open spec fn checks_event(
    repo: Seq<char>,
    number: i64,
    conclusion: Seq<char>,
    checks: Seq<CheckRunView>,
) -> EventView {
    github_event(
        "ci_result"@,
        repo,
        seq![("conclusion"@, conclusion)],
        seq![("pr"@, number)],
        Some(checks),
    )
}

/// The number of comments in an answer; what is no number counts as none.
pub open spec fn count_in(answer: Seq<char>) -> i64 {
    match i64_of(answer) {
        Ok(n) => n,
        Err(_) => 0,
    }
}

/// Whether a run is as wanted: by its conclusion, or, where only its end is wanted, by
/// its status.
pub open spec fn run_is(wanted: Wanted, status: Seq<char>, conclusion: Seq<char>) -> bool {
    match wanted {
        Wanted::Success => conclusion == "success"@,
        Wanted::Failure => conclusion == "failure"@,
        Wanted::Completed => status == "completed"@,
    }
}

/// Whether every check has ended.
pub open spec fn all_completed(checks: Seq<CheckRunView>) -> bool {
    forall|i: int| 0 <= i < checks.len() ==> (#[trigger] checks[i]).status == "completed"@
}

/// Whether every check has this conclusion.
pub open spec fn all_concluded(checks: Seq<CheckRunView>, conclusion: Seq<char>) -> bool {
    forall|i: int| 0 <= i < checks.len() ==> (#[trigger] checks[i]).conclusion == conclusion
}

/// Whether some check has this conclusion.
pub open spec fn some_concluded(checks: Seq<CheckRunView>, conclusion: Seq<char>) -> bool {
    exists|i: int| 0 <= i < checks.len() && (#[trigger] checks[i]).conclusion == conclusion
}

/// How checks that have all ended came out: a success if all are, a failure if one is,
/// and else only an end.
pub open spec fn outcome(checks: Seq<CheckRunView>) -> Wanted {
    if all_concluded(checks, "success"@) {
        Wanted::Success
    } else if some_concluded(checks, "failure"@) {
        Wanted::Failure
    } else {
        Wanted::Completed
    }
}

/// The word for an outcome.
pub open spec fn outcome_word(outcome: Wanted) -> Seq<char> {
    match outcome {
        Wanted::Success => "success"@,
        Wanted::Failure => "failure"@,
        Wanted::Completed => "completed"@,
    }
}

/// What the checks of a pull request report: nothing while there is none or one has not
/// ended; then the event if the outcome is the wanted one, or only the end was wanted.
pub open spec fn checks_report(
    repo: Seq<char>,
    number: i64,
    wanted: Wanted,
    checks: Seq<CheckRunView>,
) -> Option<EventView> {
    if checks.len() > 0 && all_completed(checks) && (wanted == Wanted::Completed || wanted
        == outcome(checks)) {
        Some(checks_event(repo, number, outcome_word(outcome(checks)), checks))
    } else {
        None
    }
}

/// Whether a pull request is merged, given whether and when it was as `gh` answered.
pub fn check_pr_merged(repo: &str, number: i64, merged: &str, merged_at: &str) -> (r: Option<Event>)
    ensures
        event_of(r) == if merged@ == "true"@ {
            Some(pr_merged_event(repo@, number, merged_at@))
        } else {
            None
        },
{
    if same(merged, "true") {
        let event: Event = Event::new("github", "pr_merged").text("repo", repo).text(
            "merged_at",
            merged_at,
        ).number("pr", number);
        proof {
            assert(event@.texts =~= pr_merged_event(repo@, number, merged_at@).texts);
            assert(event@.numbers =~= pr_merged_event(repo@, number, merged_at@).numbers);
        }
        Some(event)
    } else {
        None
    }
}

/// Whether a pull request is closed, given the state that `gh` answered.
pub fn check_pr_closed(repo: &str, number: i64, state: &str) -> (r: Option<Event>)
    ensures
        event_of(r) == if state@ == "closed"@ {
            Some(pr_closed_event(repo@, number))
        } else {
            None
        },
{
    if same(state, "closed") {
        let event: Event = Event::new("github", "pr_closed").text("repo", repo).number("pr", number);
        proof {
            assert(event@.texts =~= pr_closed_event(repo@, number).texts);
            assert(event@.numbers =~= pr_closed_event(repo@, number).numbers);
        }
        Some(event)
    } else {
        None
    }
}

/// The event of an approved pull request.
pub fn report_review_approved(repo: &str, number: i64) -> (r: Event)
    ensures
        r@ == review_approved_event(repo@, number),
{
    let event: Event = Event::new("github", "review_approved").text("repo", repo).number(
        "pr",
        number,
    );
    proof {
        assert(event@.texts =~= review_approved_event(repo@, number).texts);
        assert(event@.numbers =~= review_approved_event(repo@, number).numbers);
    }
    event
}

/// Whether an issue is closed, given the state that `gh` answered.
pub fn check_issue_closed(repo: &str, number: i64, state: &str) -> (r: Option<Event>)
    ensures
        event_of(r) == if state@ == "closed"@ {
            Some(issue_closed_event(repo@, number))
        } else {
            None
        },
{
    if same(state, "closed") {
        let event: Event = Event::new("github", "issue_closed").text("repo", repo).number(
            "issue",
            number,
        );
        proof {
            assert(event@.texts =~= issue_closed_event(repo@, number).texts);
            assert(event@.numbers =~= issue_closed_event(repo@, number).numbers);
        }
        Some(event)
    } else {
        None
    }
}

/// Whether a label was added: it is among the labels that `gh` answered, joined by
/// commas, and was not set at subscription.
pub fn check_label(
    repo: &str,
    number: i64,
    label: &str,
    thing: Thing,
    was_present: bool,
    labels: &str,
) -> (r: Option<Event>)
    ensures
        event_of(r) == if lists(labels@, ',', label@) && !was_present {
            Some(label_added_event(repo@, number, label@, thing))
        } else {
            None
        },
{
    let is_present: bool = any_piece_is(labels, ',', label);
    if is_present && !was_present {
        let key: &str = match thing {
            Thing::Pr => "pr",
            Thing::Issue => "issue",
        };
        let event: Event = Event::new("github", "label_added").text("repo", repo).text(
            "label",
            label,
        ).number(key, number);
        proof {
            assert(event@.texts =~= label_added_event(repo@, number, label@, thing).texts);
            assert(event@.numbers =~= label_added_event(repo@, number, label@, thing).numbers);
        }
        Some(event)
    } else {
        None
    }
}

/// Whether there are more comments than at subscription, given the count that `gh`
/// answered. Of a pull request these are the comments of its conversation, not those of
/// its reviews.
pub fn check_new_comment(repo: &str, number: i64, baseline: i64, count: &str) -> (r: Option<Event>)
    ensures
        event_of(r) == if count_in(count@) > baseline {
            Some(new_comment_event(repo@, number, count_in(count@), baseline))
        } else {
            None
        },
{
    let current: i64 = match parse_i64(count) {
        Ok(n) => n,
        Err(_) => 0,
    };
    if current > baseline {
        let event: Event = Event::new("github", "new_comment").text("repo", repo).number(
            "number",
            number,
        ).number("new_count", current).number("baseline", baseline);
        proof {
            assert(event@.texts =~= new_comment_event(repo@, number, current, baseline).texts);
            assert(event@.numbers =~= new_comment_event(repo@, number, current, baseline).numbers);
        }
        Some(event)
    } else {
        None
    }
}

/// Whether a run is as wanted, given its status and conclusion.
pub fn check_run(repo: &str, number: i64, wanted: Wanted, status: &str, conclusion: &str) -> (r:
    Option<Event>)
    ensures
        event_of(r) == if run_is(wanted, status@, conclusion@) {
            Some(run_event(repo@, number, conclusion@))
        } else {
            None
        },
{
    let fired: bool = match wanted {
        Wanted::Success => same(conclusion, "success"),
        Wanted::Failure => same(conclusion, "failure"),
        Wanted::Completed => same(status, "completed"),
    };
    if fired {
        let event: Event = Event::new("github", "ci_result").text("repo", repo).number(
            "run",
            number,
        ).text("conclusion", conclusion);
        proof {
            assert(event@.texts =~= run_event(repo@, number, conclusion@).texts);
            assert(event@.numbers =~= run_event(repo@, number, conclusion@).numbers);
        }
        Some(event)
    } else {
        None
    }
}

proof fn lemma_failed_is_failure(checks: Seq<CheckRun>)
    requires
        forall|i: int| 0 <= i < checks.len() ==> (#[trigger] checks[i]).status@ == "completed"@,
        exists|i: int| 0 <= i < checks.len() && (#[trigger] checks[i]).conclusion@ == "failure"@,
    ensures
        check_views(checks).len() > 0,
        all_completed(check_views(checks)),
        outcome(check_views(checks)) == Wanted::Failure,
{
    let views = check_views(checks);
    reveal_strlit("success");
    reveal_strlit("failure");
    assert("success"@[0] != "failure"@[0]);
    let i = choose|i: int|
        0 <= i < checks.len() && (#[trigger] checks[i]).conclusion@ == "failure"@;
    assert(views[i].conclusion == "failure"@);
    assert forall|k: int| 0 <= k < views.len() implies (#[trigger] views[k]).status
        == "completed"@ by {
        assert(checks[k].status@ == "completed"@);
    }
}

/// Whether the checks of a pull request are as wanted, once they are all fetched.
pub fn check_checks(repo: &str, number: i64, wanted: Wanted, checks: Vec<CheckRun>) -> (r: Option<
    Event,
>)
    ensures
        event_of(r) == checks_report(repo@, number, wanted, check_views(checks@)),
        (forall|i: int| 0 <= i < checks@.len() ==> (#[trigger] checks@[i]).status@ == "completed"@)
            && (exists|i: int|
            0 <= i < checks@.len() && (#[trigger] checks@[i]).conclusion@ == "failure"@) ==> {
            &&& wanted == Wanted::Failure ==> r is Some
            &&& wanted == Wanted::Success ==> r is None
            &&& wanted == Wanted::Completed ==> r is Some
            &&& r is Some ==> r->0@.texts.last() == ("conclusion"@, "failure"@)
            &&& r is Some ==> r->0@.checks == Some(check_views(checks@))
        },
{
    proof {
        if (forall|i: int|
            0 <= i < checks@.len() ==> (#[trigger] checks@[i]).status@ == "completed"@) && (exists|
            i: int,
        |
            0 <= i < checks@.len() && (#[trigger] checks@[i]).conclusion@ == "failure"@) {
            lemma_failed_is_failure(checks@);
        }
    }
    let ghost views = check_views(checks@);
    if checks.len() == 0 {
        return None;
    }
    let mut completed: bool = true;
    let mut succeeded: bool = true;
    let mut failed: bool = false;
    let mut i: usize = 0;
    while i < checks.len()
        invariant
            views == check_views(checks@),
            i <= checks@.len(),
            completed == forall|k: int| 0 <= k < i ==> (#[trigger] views[k]).status == "completed"@,
            succeeded == forall|k: int|
                0 <= k < i ==> (#[trigger] views[k]).conclusion == "success"@,
            failed == exists|k: int| 0 <= k < i && (#[trigger] views[k]).conclusion == "failure"@,
        decreases checks@.len() - i,
    {
        let run: &CheckRun = &checks[i];
        let done: bool = same(run.status.as_str(), "completed");
        let success: bool = same(run.conclusion.as_str(), "success");
        let failure: bool = same(run.conclusion.as_str(), "failure");
        proof {
            assert(views[i as int] == run@);
            if failed {
                let k = choose|k: int|
                    0 <= k < i && (#[trigger] views[k]).conclusion == "failure"@;
                assert(0 <= k < i + 1 && views[k].conclusion == "failure"@);
            }
        }
        completed = completed && done;
        succeeded = succeeded && success;
        failed = failed || failure;
        i = i + 1;
    }
    proof {
        assert(completed == all_completed(views));
        assert(succeeded == all_concluded(views, "success"@));
        assert(failed == some_concluded(views, "failure"@));
    }
    if !completed {
        return None;
    }
    let overall: Wanted = if succeeded {
        Wanted::Success
    } else if failed {
        Wanted::Failure
    } else {
        Wanted::Completed
    };
    let word: &str = match overall {
        Wanted::Success => "success",
        Wanted::Failure => "failure",
        Wanted::Completed => "completed",
    };
    if wanted == Wanted::Completed || wanted == overall {
        let event: Event = Event::new("github", "ci_result").text("repo", repo).number(
            "pr",
            number,
        ).text("conclusion", word).with_checks(checks);
        proof {
            assert(event@.texts =~= checks_event(repo@, number, outcome_word(outcome(views)), views).texts);
            assert(event@.numbers =~= checks_event(repo@, number, outcome_word(outcome(views)), views).numbers);
        }
        Some(event)
    } else {
        None
    }
}

// ---------------------------------------------------------------------------
// Laws
// ---------------------------------------------------------------------------

/// The same checks never count as a success and as a failure, and whatever they count
/// as, they have ended: where success or failure is reported, so is the end.
pub proof fn law_outcomes_exclude_each_other(
    repo: Seq<char>,
    number: i64,
    checks: Seq<CheckRunView>,
)
    ensures
        checks_report(repo, number, Wanted::Success, checks) is None || checks_report(
            repo,
            number,
            Wanted::Failure,
            checks,
        ) is None,
        forall|wanted: Wanted|
            (#[trigger] checks_report(repo, number, wanted, checks)) is Some ==> checks_report(
                repo,
                number,
                Wanted::Completed,
                checks,
            ) == checks_report(repo, number, wanted, checks),
{
}

/// One check that has not ended holds everything back.
pub proof fn law_running_check_holds_back(
    repo: Seq<char>,
    number: i64,
    wanted: Wanted,
    checks: Seq<CheckRunView>,
    i: int,
)
    requires
        0 <= i < checks.len(),
        checks[i].status != "completed"@,
    ensures
        checks_report(repo, number, wanted, checks) is None,
{
}

} // verus!
