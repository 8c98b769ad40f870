//! What holds of checking a condition, said of what `gh` answered and of what is reported.
use crate::checker::first_check;
use crate::checker::github::{
    after_pages, first_probe, runs_on, runs_on_all, states_on, CheckStepView, ProbeView,
};
use crate::checker::verdict::{checks_report, Wanted};
use crate::condition::{ConditionView, GitHubConditionView, Watch};
use crate::error::Fault;
use crate::event::{CheckRunView, EventView};
use crate::numeral::{decimal, i64_of};
use crate::outside::{json_member_items, json_member_text, json_object_text, json_strings};
use crate::text::{lists, trimmed};
use crate::text_laws::law_lines_are_told_apart;
use vstd::prelude::*;

verus! {

/// What is told of something on GitHub.
pub open spec fn told(
    kind: Seq<char>,
    repo: Seq<char>,
    texts: Seq<(Seq<char>, Seq<char>)>,
    numbers: Seq<(Seq<char>, i64)>,
) -> EventView {
    EventView {
        texts: seq![("source"@, "github"@), ("type"@, kind), ("repo"@, repo)] + texts,
        numbers,
        checks: None,
    }
}

/// What a check that is over found.
pub open spec fn over(event: Option<EventView>) -> CheckStepView {
    CheckStepView::Done(Ok(event))
}

/// The words that ask the API.
pub open spec fn asks(endpoint: Seq<char>, jq: Seq<char>) -> Seq<Seq<char>> {
    seq!["api"@, endpoint, "--jq"@, jq]
}

// ---------------------------------------------------------------------------
// Pull requests and issues
// ---------------------------------------------------------------------------

/// A merged pull request: `gh` is asked whether and when it was merged, and the condition is
/// met exactly where the first line of the answer says `true`; the event tells the rest as
/// the time.
pub proof fn law_merged(repo: Seq<char>, number: i64, line: Seq<char>, rest: Seq<char>)
    requires
        !line.contains('\n'),
    ensures
        ({
            let probe = first_probe(GitHubConditionView { repo, number, watch: Watch::PrMerged });
            &&& probe.question() == asks(
                "repos/"@ + repo + "/pulls/"@ + decimal(number as int),
                ".merged, .merged_at"@,
            )
            &&& probe.after(Ok(line.push('\n') + rest)) == over(
                if trimmed(line) == "true"@ {
                    Some(
                        told(
                            "pr_merged"@,
                            repo,
                            seq![("merged_at"@, trimmed(rest))],
                            seq![("pr"@, number)],
                        ),
                    )
                } else {
                    None
                },
            )
        }),
{
    law_lines_are_told_apart(line, rest);
}

/// A closed pull request, and a closed issue: the condition is met exactly where the state
/// that `gh` answers is `closed`.
pub proof fn law_closed(repo: Seq<char>, number: i64, state: Seq<char>)
    ensures
        ({
            let pr = first_probe(GitHubConditionView { repo, number, watch: Watch::PrClosed });
            let issue = first_probe(
                GitHubConditionView { repo, number, watch: Watch::IssueClosed },
            );
            &&& pr.question() == asks(
                "repos/"@ + repo + "/pulls/"@ + decimal(number as int),
                ".state"@,
            )
            &&& issue.question() == asks(
                "repos/"@ + repo + "/issues/"@ + decimal(number as int),
                ".state"@,
            )
            &&& pr.after(Ok(state)) == over(
                if state == "closed"@ {
                    Some(told("pr_closed"@, repo, Seq::empty(), seq![("pr"@, number)]))
                } else {
                    None
                },
            )
            &&& issue.after(Ok(state)) == over(
                if state == "closed"@ {
                    Some(told("issue_closed"@, repo, Seq::empty(), seq![("issue"@, number)]))
                } else {
                    None
                },
            )
        }),
{
}

/// An approved pull request: its reviews are asked for page by page, a hundred to a page; an
/// approval on the page meets the condition, whatever the other reviews are; else a page of
/// less than a hundred is the last, and any other is followed by the next.
pub proof fn law_approved(
    repo: Seq<char>,
    number: i64,
    page: u32,
    body: Seq<char>,
    states: Seq<Seq<char>>,
    i: int,
)
    requires
        json_strings(body) == Some(states),
        page < u32::MAX,
    ensures
        first_probe(GitHubConditionView { repo, number, watch: Watch::PrReviewApproved })
            == (ProbeView::Reviews { repo, number, page: 1 }),
        (ProbeView::Reviews { repo, number, page }).question() == asks(
            "repos/"@ + repo + "/pulls/"@ + decimal(number as int) + "/reviews?per_page=100&page="@
                + decimal(page as int),
            "[.[].state]"@,
        ),
        0 <= i < states.len() && states[i] == "APPROVED"@ ==> (ProbeView::Reviews {
            repo,
            number,
            page,
        }).after(Ok(body)) == over(
            Some(told("review_approved"@, repo, Seq::empty(), seq![("pr"@, number)])),
        ),
        !states.contains("APPROVED"@) ==> match (ProbeView::Reviews { repo, number, page }).after(
            Ok(body),
        ) {
            CheckStepView::Done(Ok(None)) => states.len() < 100,
            CheckStepView::Ask(next) => states.len() >= 100 && next == (ProbeView::Reviews {
                repo,
                number,
                page: (page + 1) as u32,
            }),
            _ => false,
        },
{
}

/// What is no list of review states approves nothing.
pub proof fn law_no_states_no_approval(repo: Seq<char>, number: i64, page: u32, body: Seq<char>)
    requires
        json_strings(body) is None,
    ensures
        (ProbeView::Reviews { repo, number, page }).after(Ok(body)) == over(None),
        states_on(body).len() == 0,
{
}

/// A label: of a pull request its own labels are asked for, of an issue its own; the
/// condition is met exactly where the label is among them now and was not at subscription,
/// and the event tells it with the number of the pull request or issue.
pub proof fn law_labelled(
    repo: Seq<char>,
    number: i64,
    name: Seq<char>,
    was_there: bool,
    labels: Seq<char>,
)
    ensures
        ({
            let pr = first_probe(
                GitHubConditionView {
                    repo,
                    number,
                    watch: Watch::PrLabel { name, present_at_subscribe: was_there },
                },
            );
            let issue = first_probe(
                GitHubConditionView {
                    repo,
                    number,
                    watch: Watch::IssueLabel { name, present_at_subscribe: was_there },
                },
            );
            let jq = "[.labels[].name] | join(\",\")"@;
            &&& pr.question() == asks("repos/"@ + repo + "/pulls/"@ + decimal(number as int), jq)
            &&& issue.question() == asks(
                "repos/"@ + repo + "/issues/"@ + decimal(number as int),
                jq,
            )
            &&& pr.after(Ok(labels)) == over(
                if lists(labels, ',', name) && !was_there {
                    Some(
                        told(
                            "label_added"@,
                            repo,
                            seq![("label"@, name)],
                            seq![("pr"@, number)],
                        ),
                    )
                } else {
                    None
                },
            )
            &&& issue.after(Ok(labels)) == over(
                if lists(labels, ',', name) && !was_there {
                    Some(
                        told(
                            "label_added"@,
                            repo,
                            seq![("label"@, name)],
                            seq![("issue"@, number)],
                        ),
                    )
                } else {
                    None
                },
            )
        }),
{
}

/// Comments, of a pull request as of an issue: the count that `gh` answers, or zero where it
/// answers no number, meets the condition exactly where it is above that at subscription.
pub proof fn law_commented(repo: Seq<char>, number: i64, baseline: i64, answer: Seq<char>)
    ensures
        ({
            let pr = first_probe(
                GitHubConditionView { repo, number, watch: Watch::PrNewComment { baseline } },
            );
            let issue = first_probe(
                GitHubConditionView { repo, number, watch: Watch::IssueNewComment { baseline } },
            );
            let count = match i64_of(answer) {
                Ok(n) => n,
                Err(_) => 0,
            };
            &&& issue == pr
            &&& pr.question() == asks(
                "repos/"@ + repo + "/issues/"@ + decimal(number as int),
                ".comments"@,
            )
            &&& pr.after(Ok(answer)) == over(
                if count > baseline {
                    Some(
                        told(
                            "new_comment"@,
                            repo,
                            Seq::empty(),
                            seq![
                                ("number"@, number),
                                ("new_count"@, count),
                                ("baseline"@, baseline),
                            ],
                        ),
                    )
                } else {
                    None
                },
            )
        }),
{
}

// ---------------------------------------------------------------------------
// CI
// ---------------------------------------------------------------------------

/// What is wanted by the conditions on CI.
pub proof fn law_what_ci_conditions_want(repo: Seq<char>, number: i64)
    ensures
        first_probe(GitHubConditionView { repo, number, watch: Watch::CiSuccess })
            == (ProbeView::CiRun { repo, number, wanted: Wanted::Success }),
        first_probe(GitHubConditionView { repo, number, watch: Watch::PrCiPassed })
            == (ProbeView::CiRun { repo, number, wanted: Wanted::Success }),
        first_probe(GitHubConditionView { repo, number, watch: Watch::CiFailure })
            == (ProbeView::CiRun { repo, number, wanted: Wanted::Failure }),
        first_probe(GitHubConditionView { repo, number, watch: Watch::CiCompleted })
            == (ProbeView::CiRun { repo, number, wanted: Wanted::Completed }),
{
}

/// A number that is that of a run with a status is judged by the run: success and failure by
/// its conclusion, the end by its status; the event tells the conclusion.
pub proof fn law_run_is_judged(
    repo: Seq<char>,
    number: i64,
    wanted: Wanted,
    run: Seq<char>,
    status: Seq<char>,
    conclusion: Seq<char>,
)
    requires
        json_member_text(run, "status"@) == Some(status),
        status.len() > 0,
        conclusion == match json_member_text(run, "conclusion"@) {
            Some(text) => text,
            None => Seq::<char>::empty(),
        },
    ensures
        ({
            let probe = ProbeView::CiRun { repo, number, wanted };
            let met = match wanted {
                Wanted::Success => conclusion == "success"@,
                Wanted::Failure => conclusion == "failure"@,
                Wanted::Completed => status == "completed"@,
            };
            &&& probe.question() == asks(
                "repos/"@ + repo + "/actions/runs/"@ + decimal(number as int),
                "{status: .status, conclusion: .conclusion}"@,
            )
            &&& probe.after(Ok(run)) == over(
                if met {
                    Some(
                        told(
                            "ci_result"@,
                            repo,
                            seq![("conclusion"@, conclusion)],
                            seq![("run"@, number)],
                        ),
                    )
                } else {
                    None
                },
            )
        }),
{
}

/// A number that is no run's, because the run cannot be fetched, or has no status or an
/// empty one, is taken as that of a pull request: its last commit is asked for, and then the
/// checks of that commit, if there is one.
pub proof fn law_else_the_number_is_a_pull_request(
    repo: Seq<char>,
    number: i64,
    wanted: Wanted,
    run: Seq<char>,
    fault: Fault<Seq<char>>,
    sha: Seq<char>,
)
    requires
        json_member_text(run, "status"@) matches Some(status) ==> status.len() == 0,
    ensures
        ({
            let head = ProbeView::CiHead { repo, number, wanted };
            &&& (ProbeView::CiRun { repo, number, wanted }).after(Err(fault))
                == CheckStepView::Ask(head)
            &&& (ProbeView::CiRun { repo, number, wanted }).after(Ok(run))
                == CheckStepView::Ask(head)
            &&& head.question() == asks(
                "repos/"@ + repo + "/pulls/"@ + decimal(number as int),
                ".head.sha"@,
            )
            &&& sha.len() == 0 ==> head.after(Ok(sha)) == over(None)
            &&& sha.len() > 0 ==> head.after(Ok(sha)) == CheckStepView::Ask(
                ProbeView::CiChecks {
                    repo,
                    number,
                    wanted,
                    sha,
                    page: 1,
                    checks: Seq::empty(),
                },
            )
        }),
{
}

/// A page of checks is asked for by commit and page. Less than a hundred on it make it the
/// last, and the checks of all pages are judged; else the next page is asked for, and none of
/// the checks is lost.
pub proof fn law_pages_of_checks(
    repo: Seq<char>,
    number: i64,
    wanted: Wanted,
    sha: Seq<char>,
    page: u32,
    checks: Seq<CheckRunView>,
    body: Seq<char>,
)
    requires
        page < u32::MAX,
    ensures
        ({
            let probe = ProbeView::CiChecks { repo, number, wanted, sha, page, checks };
            &&& probe.question() == asks(
                "repos/"@ + repo + "/commits/"@ + sha + "/check-runs?per_page=100&page="@ + decimal(
                    page as int,
                ),
                "."@,
            )
            &&& probe.after(Ok(body)) == if runs_on(body).len() < 100 {
                over(checks_report(repo, number, wanted, checks + runs_on(body)))
            } else {
                CheckStepView::Ask(
                    ProbeView::CiChecks {
                        repo,
                        number,
                        wanted,
                        sha,
                        page: (page + 1) as u32,
                        checks: checks + runs_on(body),
                    },
                )
            }
        }),
{
}

/// The checks of a page are its items, in their order, each with its name, its status and
/// its conclusion, and the empty text for what it lacks; a page without a list has none.
pub proof fn law_checks_of_a_page(page: Seq<char>, i: int)
    ensures
        match json_member_items(page, "check_runs"@) {
            None => runs_on(page).len() == 0,
            Some(items) => {
                &&& runs_on(page).len() == items.len()
                &&& 0 <= i < items.len() ==> {
                    let run = runs_on(page)[i];
                    let empty = Seq::<char>::empty();
                    &&& run.name == match json_member_text(items[i], "name"@) {
                        Some(text) => text,
                        None => empty,
                    }
                    &&& run.status == match json_member_text(items[i], "status"@) {
                        Some(text) => text,
                        None => empty,
                    }
                    &&& run.conclusion == match json_member_text(items[i], "conclusion"@) {
                        Some(text) => text,
                        None => empty,
                    }
                }
            },
        },
{
}

/// What is told of the checks of a pull request.
pub open spec fn told_of_checks(
    repo: Seq<char>,
    number: i64,
    conclusion: Seq<char>,
    checks: Seq<CheckRunView>,
) -> EventView {
    EventView {
        checks: Some(checks),
        ..told("ci_result"@, repo, seq![("conclusion"@, conclusion)], seq![("pr"@, number)])
    }
}

proof fn lemma_conclusions_differ()
    ensures
        "success"@ != "failure"@,
{
    reveal_strlit("success");
    reveal_strlit("failure");
    assert("success"@[0] != "failure"@[0]);
}

/// One failed check is enough for a failure: where all checks have ended and one of them has
/// the conclusion `failure`, a failure is reported, with all the checks, whatever the
/// conclusions of the others are; the end is reported with the same event, and a success is
/// not.
pub proof fn law_one_failed_check_is_a_failure(
    repo: Seq<char>,
    number: i64,
    checks: Seq<CheckRunView>,
    i: int,
)
    requires
        forall|k: int| 0 <= k < checks.len() ==> (#[trigger] checks[k]).status == "completed"@,
        0 <= i < checks.len(),
        checks[i].conclusion == "failure"@,
    ensures
        checks_report(repo, number, Wanted::Failure, checks) == Some(
            told_of_checks(repo, number, "failure"@, checks),
        ),
        checks_report(repo, number, Wanted::Completed, checks) == Some(
            told_of_checks(repo, number, "failure"@, checks),
        ),
        checks_report(repo, number, Wanted::Success, checks) is None,
{
    lemma_conclusions_differ();
}

/// Checks that have all ended with `success`, at least one, are a success, and an end with
/// that conclusion, and no failure.
pub proof fn law_all_succeeded_is_a_success(
    repo: Seq<char>,
    number: i64,
    checks: Seq<CheckRunView>,
)
    requires
        checks.len() > 0,
        forall|k: int|
            0 <= k < checks.len() ==> (#[trigger] checks[k]).status == "completed"@
                && checks[k].conclusion == "success"@,
    ensures
        checks_report(repo, number, Wanted::Success, checks) == Some(
            told_of_checks(repo, number, "success"@, checks),
        ),
        checks_report(repo, number, Wanted::Completed, checks) == Some(
            told_of_checks(repo, number, "success"@, checks),
        ),
        checks_report(repo, number, Wanted::Failure, checks) is None,
{
    lemma_conclusions_differ();
    assert(checks[0].conclusion == "success"@);
}

/// Checks that have all ended, none with `failure` and one not with `success`, are neither a
/// success nor a failure, but an end.
pub proof fn law_neither_is_only_an_end(
    repo: Seq<char>,
    number: i64,
    checks: Seq<CheckRunView>,
    i: int,
)
    requires
        forall|k: int|
            0 <= k < checks.len() ==> (#[trigger] checks[k]).status == "completed"@
                && checks[k].conclusion != "failure"@,
        0 <= i < checks.len(),
        checks[i].conclusion != "success"@,
    ensures
        checks_report(repo, number, Wanted::Completed, checks) == Some(
            told_of_checks(repo, number, "completed"@, checks),
        ),
        checks_report(repo, number, Wanted::Success, checks) is None,
        checks_report(repo, number, Wanted::Failure, checks) is None,
{
}

/// No check, or one that has not ended, is no outcome.
pub proof fn law_no_outcome_before_the_end(
    repo: Seq<char>,
    number: i64,
    wanted: Wanted,
    checks: Seq<CheckRunView>,
    i: int,
)
    requires
        checks.len() == 0 || (0 <= i < checks.len() && checks[i].status != "completed"@),
    ensures
        checks_report(repo, number, wanted, checks) is None,
{
}

/// All the checks of a pull request, over as many pages as there are, are judged together: a
/// failed one on any page is a failure, once all have ended.
pub proof fn law_failed_check_on_any_page(
    repo: Seq<char>,
    number: i64,
    sha: Seq<char>,
    bodies: Seq<Seq<char>>,
    i: int,
)
    requires
        sha.len() > 0,
        0 < bodies.len() < u32::MAX,
        forall|p: int| 0 <= p < bodies.len() - 1 ==> runs_on(#[trigger] bodies[p]).len() >= 100,
        runs_on(bodies.last()).len() < 100,
        0 <= i < runs_on_all(bodies).len(),
        forall|k: int|
            0 <= k < runs_on_all(bodies).len() ==> (#[trigger] runs_on_all(bodies)[k]).status
                == "completed"@,
        runs_on_all(bodies)[i].conclusion == "failure"@,
    ensures
        after_pages(
            (ProbeView::CiHead { repo, number, wanted: Wanted::Failure }).after(Ok(sha)),
            bodies,
        ) == over(Some(told_of_checks(repo, number, "failure"@, runs_on_all(bodies)))),
{
    crate::checker::github::law_all_pages_count(repo, number, Wanted::Failure, sha, bodies);
    law_one_failed_check_is_a_failure(repo, number, runs_on_all(bodies), i);
}

// ---------------------------------------------------------------------------
// Failures, and the beginning
// ---------------------------------------------------------------------------

/// A failure of `gh` ends a check with it, and meets no condition; only the question for a
/// run is followed by another.
pub proof fn law_failures_are_handed_on(probe: ProbeView, fault: Fault<Seq<char>>)
    requires
        !(probe is CiRun),
    ensures
        probe.after(Err(fault)) == CheckStepView::Done(
            Err::<Option<EventView>, Fault<Seq<char>>>(fault),
        ),
{
}

/// A timer is checked at once, by the clock alone; a GitHub condition begins with its
/// question.
pub proof fn law_how_a_check_begins(
    duration: Seq<char>,
    fire_at: i64,
    gh: GitHubConditionView,
    now: i64,
    told_at: i64,
)
    ensures
        match first_check(ConditionView::Timer { duration, fire_at }, now, told_at) {
            CheckStepView::Done(Ok(event)) => event is Some <==> now >= fire_at,
            _ => false,
        },
        first_check(ConditionView::GitHub(gh), now, told_at) == CheckStepView::Ask(
            first_probe(gh),
        ),
{
}

/// The JSON text of an event is that of its texts and numbers under their keys, and of its
/// checks, if it has any, under `checks`: each with its name, its status and its conclusion.
pub proof fn law_json_has_all_of_the_event(event: EventView)
    ensures
        event.checks is None ==> event.json() == json_object_text(
            event.texts,
            event.numbers,
            Seq::empty(),
        ),
        event.checks matches Some(checks) ==> event.json() == json_object_text(
            event.texts,
            event.numbers,
            seq![
                (
                    "checks"@,
                    Seq::new(
                        checks.len(),
                        |i: int|
                            seq![
                                ("name"@, checks[i].name),
                                ("status"@, checks[i].status),
                                ("conclusion"@, checks[i].conclusion),
                            ],
                    ),
                ),
            ],
        ),
{
    if let Some(checks) = event.checks {
        let objects = Seq::new(
            checks.len(),
            |i: int|
                seq![
                    ("name"@, checks[i].name),
                    ("status"@, checks[i].status),
                    ("conclusion"@, checks[i].conclusion),
                ],
        );
        assert(event.objects()[0].1 =~= objects);
        assert(event.objects() =~= seq![("checks"@, objects)]);
    }
}

} // verus!
