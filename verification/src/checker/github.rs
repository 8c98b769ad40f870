//! GitHub conditions: `gh` is asked, and its answers decide.
//!
//! A check may take several answers, so it goes in steps: [`check`] gives the first
//! question, [`Probe::call`] says how to ask it, and [`Probe::resume`] takes the
//! answer.
use crate::checker::verdict::{
    check_checks, check_issue_closed, check_label, check_new_comment, check_pr_closed,
    check_pr_merged, check_run, checks_report, count_in, issue_closed_event, label_added_event,
    new_comment_event, pr_closed_event, pr_merged_event, report_review_approved,
    review_approved_event, run_event, run_is, Wanted,
};
use crate::condition::{GitHubCondition, GitHubConditionView, Watch};
use crate::error::{Error, Fault};
use crate::event::{check_views, event_of, CheckRun, CheckRunView, Event, EventView};
use crate::gh::{
    api_answer, api_args, checks_call, checks_endpoint, gh_api, issue_call,
    issue_endpoint, pull_call, pull_endpoint, reviews_call, reviews_endpoint, run_call,
    run_endpoint, GhCall, GhReply,
};
use crate::outside::{
    json_member_items, json_member_text, json_strings, read_json_items, read_json_strings,
    read_json_text,
};
use crate::parse::Thing;
use crate::text::{first_line, has_text, lists, other_lines, split_line, texts, trim, trimmed};
use vstd::prelude::*;
use vstd::string::*;

verus! {

/// How many check runs, or reviews, a full page has.
pub const PAGE_SIZE: usize = 100;

/// A question to `gh`, with what has to be kept for its answer.
pub enum Probe {
    PrMerged { repo: String, number: i64 },
    PrClosed { repo: String, number: i64 },
    /// What states do the reviews on this page have? On the earlier pages none approves.
    Reviews { repo: String, number: i64, page: u32 },
    IssueClosed { repo: String, number: i64 },
    Label { thing: Thing, repo: String, number: i64, name: String, was_present: bool },
    NewComment { repo: String, number: i64, baseline: i64 },
    /// Is the number that of a run, and how is the run?
    CiRun { repo: String, number: i64, wanted: Wanted },
    /// What is the last commit of the pull request?
    CiHead { repo: String, number: i64, wanted: Wanted },
    /// What checks does this page of the commit's checks have? The earlier pages had
    /// `checks`.
    CiChecks {
        repo: String,
        number: i64,
        wanted: Wanted,
        sha: String,
        page: u32,
        checks: Vec<CheckRun>,
    },
}

/// What stands for a [`Probe`] in contracts.
pub enum ProbeView {
    PrMerged { repo: Seq<char>, number: i64 },
    PrClosed { repo: Seq<char>, number: i64 },
    Reviews { repo: Seq<char>, number: i64, page: u32 },
    IssueClosed { repo: Seq<char>, number: i64 },
    Label { thing: Thing, repo: Seq<char>, number: i64, name: Seq<char>, was_present: bool },
    NewComment { repo: Seq<char>, number: i64, baseline: i64 },
    CiRun { repo: Seq<char>, number: i64, wanted: Wanted },
    CiHead { repo: Seq<char>, number: i64, wanted: Wanted },
    CiChecks {
        repo: Seq<char>,
        number: i64,
        wanted: Wanted,
        sha: Seq<char>,
        page: u32,
        checks: Seq<CheckRunView>,
    },
}

impl View for Probe {
    type V = ProbeView;

    open spec fn view(&self) -> ProbeView {
        match *self {
            Probe::PrMerged { repo, number } => ProbeView::PrMerged { repo: repo@, number },
            Probe::PrClosed { repo, number } => ProbeView::PrClosed { repo: repo@, number },
            Probe::Reviews { repo, number, page } => ProbeView::Reviews {
                repo: repo@,
                number,
                page,
            },
            Probe::IssueClosed { repo, number } => ProbeView::IssueClosed { repo: repo@, number },
            Probe::Label { thing, repo, number, name, was_present } => ProbeView::Label {
                thing,
                repo: repo@,
                number,
                name: name@,
                was_present,
            },
            Probe::NewComment { repo, number, baseline } => ProbeView::NewComment {
                repo: repo@,
                number,
                baseline,
            },
            Probe::CiRun { repo, number, wanted } => ProbeView::CiRun {
                repo: repo@,
                number,
                wanted,
            },
            Probe::CiHead { repo, number, wanted } => ProbeView::CiHead {
                repo: repo@,
                number,
                wanted,
            },
            Probe::CiChecks { repo, number, wanted, sha, page, checks } => ProbeView::CiChecks {
                repo: repo@,
                number,
                wanted,
                sha: sha@,
                page,
                checks: check_views(checks@),
            },
        }
    }
}

/// What an answer leads to.
pub enum CheckStep {
    /// Another question.
    Ask(Probe),
    /// The end of the check: the event where the condition is met.
    Done(Result<Option<Event>, Error>),
}

/// What stands for a [`CheckStep`] in contracts.
pub enum CheckStepView {
    Ask(ProbeView),
    Done(Result<Option<EventView>, Fault<Seq<char>>>),
}

impl View for CheckStep {
    type V = CheckStepView;

    open spec fn view(&self) -> CheckStepView {
        match *self {
            CheckStep::Ask(probe) => CheckStepView::Ask(probe@),
            CheckStep::Done(Ok(event)) => CheckStepView::Done(Ok(event_of(event))),
            CheckStep::Done(Err(e)) => CheckStepView::Done(Err(e@)),
        }
    }
}

// ---------------------------------------------------------------------------
// The course of a check
// ---------------------------------------------------------------------------

/// The first question about a condition.
pub open spec fn first_probe(cond: GitHubConditionView) -> ProbeView {
    let repo = cond.repo;
    let number = cond.number;
    match cond.watch {
        Watch::PrMerged => ProbeView::PrMerged { repo, number },
        Watch::PrClosed => ProbeView::PrClosed { repo, number },
        Watch::PrReviewApproved => ProbeView::Reviews { repo, number, page: 1 },
        Watch::PrLabel { name, present_at_subscribe } => ProbeView::Label {
            thing: Thing::Pr,
            repo,
            number,
            name,
            was_present: present_at_subscribe,
        },
        Watch::PrNewComment { baseline } => ProbeView::NewComment { repo, number, baseline },
        Watch::PrCiPassed => ProbeView::CiRun { repo, number, wanted: Wanted::Success },
        Watch::IssueClosed => ProbeView::IssueClosed { repo, number },
        Watch::IssueLabel { name, present_at_subscribe } => ProbeView::Label {
            thing: Thing::Issue,
            repo,
            number,
            name,
            was_present: present_at_subscribe,
        },
        Watch::IssueNewComment { baseline } => ProbeView::NewComment { repo, number, baseline },
        Watch::CiSuccess => ProbeView::CiRun { repo, number, wanted: Wanted::Success },
        Watch::CiFailure => ProbeView::CiRun { repo, number, wanted: Wanted::Failure },
        Watch::CiCompleted => ProbeView::CiRun { repo, number, wanted: Wanted::Completed },
    }
}

/// The text under a key of a JSON object; nothing counts as the empty text.
pub open spec fn member_or_empty(json: Seq<char>, key: Seq<char>) -> Seq<char> {
    match json_member_text(json, key) {
        Some(text) => text,
        None => Seq::empty(),
    }
}

/// One check run of an answer.
pub open spec fn run_in(item: Seq<char>) -> CheckRunView {
    CheckRunView {
        name: member_or_empty(item, "name"@),
        status: member_or_empty(item, "status"@),
        conclusion: member_or_empty(item, "conclusion"@),
    }
}

/// The check runs of a page, in its order; an answer without any counts as an empty
/// page.
pub open spec fn runs_on(page: Seq<char>) -> Seq<CheckRunView> {
    match json_member_items(page, "check_runs"@) {
        Some(items) => items.map_values(|item: Seq<char>| run_in(item)),
        None => Seq::empty(),
    }
}

/// The states of the reviews of a page, in its order; what is no list of states counts as
/// an empty page.
pub open spec fn states_on(page: Seq<char>) -> Seq<Seq<char>> {
    match json_strings(page) {
        Some(states) => states,
        None => Seq::empty(),
    }
}

/// What a page of reviews leads to: an approval among them fires; else a full page is
/// followed by the next.
pub open spec fn after_reviews(
    repo: Seq<char>,
    number: i64,
    page: u32,
    states: Seq<Seq<char>>,
) -> CheckStepView {
    if states.contains("APPROVED"@) {
        found(Some(review_approved_event(repo, number)))
    } else if states.len() < PAGE_SIZE {
        found(None)
    } else {
        CheckStepView::Ask(ProbeView::Reviews { repo, number, page: (page + 1) as u32 })
    }
}

/// The end of a check that found `event`, or nothing.
pub open spec fn found(event: Option<EventView>) -> CheckStepView {
    CheckStepView::Done(Ok(event))
}

impl ProbeView {
    /// The arguments of `gh` that ask the question.
    pub open spec fn question(self) -> Seq<Seq<char>> {
        match self {
            ProbeView::PrMerged { repo, number } => api_args(
                pull_endpoint(repo, number),
                ".merged, .merged_at"@,
            ),
            ProbeView::PrClosed { repo, number } => api_args(
                pull_endpoint(repo, number),
                ".state"@,
            ),
            ProbeView::Reviews { repo, number, page } => api_args(
                reviews_endpoint(repo, number, page),
                "[.[].state]"@,
            ),
            ProbeView::IssueClosed { repo, number } => api_args(
                issue_endpoint(repo, number),
                ".state"@,
            ),
            ProbeView::Label { thing, repo, number, .. } => api_args(
                match thing {
                    Thing::Pr => pull_endpoint(repo, number),
                    Thing::Issue => issue_endpoint(repo, number),
                },
                "[.labels[].name] | join(\",\")"@,
            ),
            ProbeView::NewComment { repo, number, .. } => api_args(
                issue_endpoint(repo, number),
                ".comments"@,
            ),
            ProbeView::CiRun { repo, number, .. } => api_args(
                run_endpoint(repo, number),
                "{status: .status, conclusion: .conclusion}"@,
            ),
            ProbeView::CiHead { repo, number, .. } => api_args(
                pull_endpoint(repo, number),
                ".head.sha"@,
            ),
            ProbeView::CiChecks { repo, sha, page, .. } => api_args(
                checks_endpoint(repo, sha, page),
                "."@,
            ),
        }
    }

    /// What the answer leads to.
    ///
    /// Of a pull request the first line says whether it is merged, and the next when.
    /// The reviews of a pull request are fetched page by page until one approves or a
    /// page is not full.
    ///
    /// The number of a CI condition is tried as that of a run first. If that fails in
    /// any way, or names no run with a status, it is taken as that of a pull request,
    /// whose last commit's checks are fetched page by page until one is not full.
    /// Everywhere else a failure of `gh` ends the check with it.
    pub open spec fn after(self, answer: Result<Seq<char>, Fault<Seq<char>>>) -> CheckStepView {
        match (self, answer) {
            (ProbeView::CiRun { repo, number, wanted }, Err(_)) => CheckStepView::Ask(
                ProbeView::CiHead { repo, number, wanted },
            ),
            (_, Err(e)) => CheckStepView::Done(Err(e)),
            (ProbeView::PrMerged { repo, number }, Ok(lines)) => found(
                if trimmed(first_line(lines)) == "true"@ {
                    Some(pr_merged_event(repo, number, trimmed(other_lines(lines))))
                } else {
                    None
                },
            ),
            (ProbeView::PrClosed { repo, number }, Ok(state)) => found(
                if state == "closed"@ {
                    Some(pr_closed_event(repo, number))
                } else {
                    None
                },
            ),
            (ProbeView::Reviews { repo, number, page }, Ok(body)) => after_reviews(
                repo,
                number,
                page,
                states_on(body),
            ),
            (ProbeView::IssueClosed { repo, number }, Ok(state)) => found(
                if state == "closed"@ {
                    Some(issue_closed_event(repo, number))
                } else {
                    None
                },
            ),
            (ProbeView::Label { thing, repo, number, name, was_present }, Ok(labels)) => found(
                if lists(labels, ',', name) && !was_present {
                    Some(label_added_event(repo, number, name, thing))
                } else {
                    None
                },
            ),
            (ProbeView::NewComment { repo, number, baseline }, Ok(count)) => found(
                if count_in(count) > baseline {
                    Some(new_comment_event(repo, number, count_in(count), baseline))
                } else {
                    None
                },
            ),
            (ProbeView::CiRun { repo, number, wanted }, Ok(run)) => {
                let status = member_or_empty(run, "status"@);
                let conclusion = member_or_empty(run, "conclusion"@);
                if status.len() == 0 {
                    CheckStepView::Ask(ProbeView::CiHead { repo, number, wanted })
                } else {
                    found(
                        if run_is(wanted, status, conclusion) {
                            Some(run_event(repo, number, conclusion))
                        } else {
                            None
                        },
                    )
                }
            },
            (ProbeView::CiHead { repo, number, wanted }, Ok(sha)) => if sha.len() == 0 {
                found(None)
            } else {
                CheckStepView::Ask(
                    ProbeView::CiChecks {
                        repo,
                        number,
                        wanted,
                        sha,
                        page: 1,
                        checks: Seq::empty(),
                    },
                )
            },
            (ProbeView::CiChecks { repo, number, wanted, sha, page, checks }, Ok(body)) => {
                let so_far = checks + runs_on(body);
                if runs_on(body).len() < PAGE_SIZE {
                    found(checks_report(repo, number, wanted, so_far))
                } else {
                    CheckStepView::Ask(
                        ProbeView::CiChecks {
                            repo,
                            number,
                            wanted,
                            sha,
                            page: (page + 1) as u32,
                            checks: so_far,
                        },
                    )
                }
            },
        }
    }

    /// Whether there can be another page after this one.
    pub open spec fn page_fits(self) -> bool {
        match self {
            ProbeView::CiChecks { page, .. } => page < u32::MAX,
            ProbeView::Reviews { page, .. } => page < u32::MAX,
            _ => true,
        }
    }
}

// ---------------------------------------------------------------------------
// Checking
// ---------------------------------------------------------------------------

/// The first question about a condition.
pub fn check(cond: &GitHubCondition) -> (r: Probe)
    ensures
        r@ == first_probe(cond@),
        r@.page_fits(),
{
    match cond {
        GitHubCondition::PrMerged { repo, number } => Probe::PrMerged {
            repo: repo.clone(),
            number: *number,
        },
        GitHubCondition::PrClosed { repo, number } => Probe::PrClosed {
            repo: repo.clone(),
            number: *number,
        },
        GitHubCondition::PrReviewApproved { repo, number } => Probe::Reviews {
            repo: repo.clone(),
            number: *number,
            page: 1,
        },
        GitHubCondition::PrLabel { repo, number, name, present_at_subscribe } => Probe::Label {
            thing: Thing::Pr,
            repo: repo.clone(),
            number: *number,
            name: name.clone(),
            was_present: *present_at_subscribe,
        },
        GitHubCondition::PrNewComment { repo, number, baseline } => Probe::NewComment {
            repo: repo.clone(),
            number: *number,
            baseline: *baseline,
        },
        GitHubCondition::PrCiPassed { repo, number } => Probe::CiRun {
            repo: repo.clone(),
            number: *number,
            wanted: Wanted::Success,
        },
        GitHubCondition::IssueClosed { repo, number } => Probe::IssueClosed {
            repo: repo.clone(),
            number: *number,
        },
        GitHubCondition::IssueLabel { repo, number, name, present_at_subscribe } => Probe::Label {
            thing: Thing::Issue,
            repo: repo.clone(),
            number: *number,
            name: name.clone(),
            was_present: *present_at_subscribe,
        },
        GitHubCondition::IssueNewComment { repo, number, baseline } => Probe::NewComment {
            repo: repo.clone(),
            number: *number,
            baseline: *baseline,
        },
        GitHubCondition::CiSuccess { repo, number } => Probe::CiRun {
            repo: repo.clone(),
            number: *number,
            wanted: Wanted::Success,
        },
        GitHubCondition::CiFailure { repo, number } => Probe::CiRun {
            repo: repo.clone(),
            number: *number,
            wanted: Wanted::Failure,
        },
        GitHubCondition::CiCompleted { repo, number } => Probe::CiRun {
            repo: repo.clone(),
            number: *number,
            wanted: Wanted::Completed,
        },
    }
}

fn text_or_empty(json: &str, key: &str) -> (r: String)
    ensures
        r@ == member_or_empty(json@, key@),
{
    match read_json_text(json, key) {
        Some(text) => text,
        None => String::new(),
    }
}

/// The check runs of a page, in its order.
pub fn check_runs_on(page: &str) -> (r: Vec<CheckRun>)
    ensures
        check_views(r@) == runs_on(page@),
{
    let mut runs: Vec<CheckRun> = Vec::new();
    match read_json_items(page, "check_runs") {
        None => {
            proof {
                assert(check_views(runs@) =~= runs_on(page@));
            }
        },
        Some(items) => {
            let mut i: usize = 0;
            while i < items.len()
                invariant
                    json_member_items(page@, "check_runs"@) == Some(texts(items@)),
                    i <= items@.len(),
                    runs@.len() == i,
                    forall|k: int| 0 <= k < i ==> (#[trigger] runs@[k])@ == run_in(items@[k]@),
                decreases items@.len() - i,
            {
                let item: &str = items[i].as_str();
                runs.push(
                    CheckRun {
                        name: text_or_empty(item, "name"),
                        status: text_or_empty(item, "status"),
                        conclusion: text_or_empty(item, "conclusion"),
                    },
                );
                i = i + 1;
            }
            proof {
                assert(check_views(runs@) =~= runs_on(page@));
            }
        },
    }
    runs
}

/// What a page of reviews leads to, given their states.
pub fn check_reviews(repo: String, number: i64, page: u32, states: Vec<String>) -> (r: CheckStep)
    requires
        page < u32::MAX,
    ensures
        r@ == after_reviews(repo@, number, page, texts(states@)),
{
    if has_text(&states, "APPROVED") {
        CheckStep::Done(Ok(Some(report_review_approved(repo.as_str(), number))))
    } else if states.len() < PAGE_SIZE {
        CheckStep::Done(Ok(None))
    } else {
        CheckStep::Ask(Probe::Reviews { repo, number, page: page + 1 })
    }
}

impl Probe {
    /// How to ask the question.
    pub fn call(&self) -> (r: GhCall)
        ensures
            r@ == self@.question(),
    {
        match self {
            Probe::PrMerged { repo, number } => pull_call(
                repo.as_str(),
                *number,
                ".merged, .merged_at",
            ),
            Probe::PrClosed { repo, number } => pull_call(repo.as_str(), *number, ".state"),
            Probe::Reviews { repo, number, page } => reviews_call(repo.as_str(), *number, *page),
            Probe::IssueClosed { repo, number } => issue_call(repo.as_str(), *number, ".state"),
            Probe::Label { thing, repo, number, .. } => match thing {
                Thing::Pr => pull_call(
                    repo.as_str(),
                    *number,
                    "[.labels[].name] | join(\",\")",
                ),
                Thing::Issue => issue_call(
                    repo.as_str(),
                    *number,
                    "[.labels[].name] | join(\",\")",
                ),
            },
            Probe::NewComment { repo, number, .. } => issue_call(
                repo.as_str(),
                *number,
                ".comments",
            ),
            Probe::CiRun { repo, number, .. } => run_call(
                repo.as_str(),
                *number,
                "{status: .status, conclusion: .conclusion}",
            ),
            Probe::CiHead { repo, number, .. } => pull_call(repo.as_str(), *number, ".head.sha"),
            Probe::CiChecks { repo, sha, page, .. } => checks_call(
                repo.as_str(),
                sha.as_str(),
                *page,
            ),
        }
    }

    /// Whether there can be another page after this one.
    pub fn has_page_left(&self) -> (r: bool)
        ensures
            r == self@.page_fits(),
    {
        match self {
            Probe::CiChecks { page, .. } => *page < u32::MAX,
            Probe::Reviews { page, .. } => *page < u32::MAX,
            _ => true,
        }
    }

    /// What follows from the text of an answer, or from its failure.
    pub fn step(self, answer: Result<String, Error>) -> (r: CheckStep)
        requires
            self@.page_fits(),
        ensures
            r@ == self@.after(crate::gh::text_result(answer)),
    {
        let text: String = match answer {
            Ok(text) => text,
            Err(e) => {
                return match self {
                    Probe::CiRun { repo, number, wanted } => CheckStep::Ask(
                        Probe::CiHead { repo, number, wanted },
                    ),
                    _ => CheckStep::Done(Err(e)),
                };
            },
        };
        let answer: &str = text.as_str();
        match self {
            Probe::PrMerged { repo, number } => {
                let (merged, merged_at) = split_line(answer);
                CheckStep::Done(
                    Ok(check_pr_merged(repo.as_str(), number, trim(merged), trim(merged_at))),
                )
            },
            Probe::PrClosed { repo, number } => CheckStep::Done(
                Ok(check_pr_closed(repo.as_str(), number, answer)),
            ),
            Probe::Reviews { repo, number, page } => {
                let states: Vec<String> = match read_json_strings(answer) {
                    Some(states) => states,
                    None => Vec::new(),
                };
                proof {
                    assert(texts(states@) =~= states_on(answer@));
                }
                check_reviews(repo, number, page, states)
            },
            Probe::IssueClosed { repo, number } => CheckStep::Done(
                Ok(check_issue_closed(repo.as_str(), number, answer)),
            ),
            Probe::Label { thing, repo, number, name, was_present } => CheckStep::Done(
                Ok(check_label(repo.as_str(), number, name.as_str(), thing, was_present, answer)),
            ),
            Probe::NewComment { repo, number, baseline } => CheckStep::Done(
                Ok(check_new_comment(repo.as_str(), number, baseline, answer)),
            ),
            Probe::CiRun { repo, number, wanted } => {
                let status: String = text_or_empty(answer, "status");
                let conclusion: String = text_or_empty(answer, "conclusion");
                if status.as_str().is_empty() {
                    CheckStep::Ask(Probe::CiHead { repo, number, wanted })
                } else {
                    CheckStep::Done(
                        Ok(
                            check_run(
                                repo.as_str(),
                                number,
                                wanted,
                                status.as_str(),
                                conclusion.as_str(),
                            ),
                        ),
                    )
                }
            },
            Probe::CiHead { repo, number, wanted } => {
                if answer.is_empty() {
                    CheckStep::Done(Ok(None))
                } else {
                    let checks: Vec<CheckRun> = Vec::new();
                    proof {
                        assert(check_views(checks@) =~= Seq::<CheckRunView>::empty());
                    }
                    CheckStep::Ask(
                        Probe::CiChecks { repo, number, wanted, sha: text, page: 1, checks },
                    )
                }
            },
            Probe::CiChecks { repo, number, wanted, sha, page, checks } => {
                let mut so_far: Vec<CheckRun> = checks;
                let mut runs: Vec<CheckRun> = check_runs_on(answer);
                let count: usize = runs.len();
                so_far.append(&mut runs);
                proof {
                    assert(count == runs_on(answer@).len());
                    assert(check_views(so_far@) =~= check_views(checks@) + runs_on(answer@));
                }
                if count < PAGE_SIZE {
                    CheckStep::Done(Ok(check_checks(repo.as_str(), number, wanted, so_far)))
                } else {
                    CheckStep::Ask(
                        Probe::CiChecks {
                            repo,
                            number,
                            wanted,
                            sha,
                            page: page + 1,
                            checks: so_far,
                        },
                    )
                }
            },
        }
    }

    /// What follows from a run of `gh`.
    pub fn resume(self, reply: &GhReply) -> (r: CheckStep)
        requires
            self@.page_fits(),
        ensures
            r@ == self@.after(api_answer(*reply)),
    {
        self.step(gh_api(reply))
    }
}

// ---------------------------------------------------------------------------
// Laws
// ---------------------------------------------------------------------------

/// Only a CI condition and the reviews of a pull request take more than one answer.
pub proof fn law_one_answer_is_enough(
    probe: ProbeView,
    answer: Result<Seq<char>, Fault<Seq<char>>>,
)
    requires
        !(probe is CiRun || probe is CiHead || probe is CiChecks || probe is Reviews),
    ensures
        probe.after(answer) is Done,
{
}

/// A label that was set at subscription never fires, whatever `gh` answers.
pub proof fn law_label_set_before_never_fires(
    cond: GitHubConditionView,
    answer: Result<Seq<char>, Fault<Seq<char>>>,
)
    requires
        match cond.watch {
            Watch::PrLabel { present_at_subscribe, .. } => present_at_subscribe,
            Watch::IssueLabel { present_at_subscribe, .. } => present_at_subscribe,
            _ => false,
        },
    ensures
        match first_probe(cond).after(answer) {
            CheckStepView::Done(Ok(event)) => event is None,
            CheckStepView::Done(Err(_)) => answer is Err,
            CheckStepView::Ask(_) => false,
        },
{
}

/// Where a check ends after the pages `bodies` were answered in turn.
pub open spec fn after_pages(step: CheckStepView, bodies: Seq<Seq<char>>) -> CheckStepView
    decreases bodies.len(),
{
    if bodies.len() == 0 {
        step
    } else {
        match after_pages(step, bodies.drop_last()) {
            CheckStepView::Ask(probe) => probe.after(Ok(bodies.last())),
            done => done,
        }
    }
}

/// The check runs of several pages, page by page.
pub open spec fn runs_on_all(bodies: Seq<Seq<char>>) -> Seq<CheckRunView>
    decreases bodies.len(),
{
    if bodies.len() == 0 {
        Seq::empty()
    } else {
        runs_on_all(bodies.drop_last()) + runs_on(bodies.last())
    }
}

proof fn lemma_full_pages(
    repo: Seq<char>,
    number: i64,
    wanted: Wanted,
    sha: Seq<char>,
    bodies: Seq<Seq<char>>,
)
    requires
        sha.len() > 0,
        bodies.len() < u32::MAX,
        forall|i: int|
            0 <= i < bodies.len() ==> runs_on(#[trigger] bodies[i]).len() >= PAGE_SIZE,
    ensures
        after_pages(ProbeView::CiHead { repo, number, wanted }.after(Ok(sha)), bodies)
            == CheckStepView::Ask(
            ProbeView::CiChecks {
                repo,
                number,
                wanted,
                sha,
                page: (bodies.len() + 1) as u32,
                checks: runs_on_all(bodies),
            },
        ),
    decreases bodies.len(),
{
    if bodies.len() > 0 {
        let front = bodies.drop_last();
        assert forall|i: int| 0 <= i < front.len() implies runs_on(#[trigger] front[i]).len()
            >= PAGE_SIZE by {
            assert(front[i] == bodies[i]);
        }
        lemma_full_pages(repo, number, wanted, sha, front);
        assert(runs_on(bodies[bodies.len() - 1]).len() >= PAGE_SIZE);
    }
}

/// All pages count: where every page but the last is full, the checks of a pull request
/// are judged by the check runs of all the pages, in order, and only once the last page
/// is there.
pub proof fn law_all_pages_count(
    repo: Seq<char>,
    number: i64,
    wanted: Wanted,
    sha: Seq<char>,
    bodies: Seq<Seq<char>>,
)
    requires
        sha.len() > 0,
        0 < bodies.len() < u32::MAX,
        forall|i: int|
            0 <= i < bodies.len() - 1 ==> runs_on(#[trigger] bodies[i]).len() >= PAGE_SIZE,
        runs_on(bodies.last()).len() < PAGE_SIZE,
    ensures
        after_pages(ProbeView::CiHead { repo, number, wanted }.after(Ok(sha)), bodies) == found(
            checks_report(repo, number, wanted, runs_on_all(bodies)),
        ),
        after_pages(
            ProbeView::CiHead { repo, number, wanted }.after(Ok(sha)),
            bodies.drop_last(),
        ) is Ask,
{
    let front = bodies.drop_last();
    assert forall|i: int| 0 <= i < front.len() implies runs_on(#[trigger] front[i]).len()
        >= PAGE_SIZE by {
        assert(front[i] == bodies[i]);
    }
    lemma_full_pages(repo, number, wanted, sha, front);
}

proof fn lemma_pages_without_approval(repo: Seq<char>, number: i64, bodies: Seq<Seq<char>>)
    requires
        bodies.len() < u32::MAX,
        forall|i: int|
            0 <= i < bodies.len() ==> states_on(#[trigger] bodies[i]).len() >= PAGE_SIZE
                && !states_on(bodies[i]).contains("APPROVED"@),
    ensures
        after_pages(CheckStepView::Ask(ProbeView::Reviews { repo, number, page: 1 }), bodies)
            == CheckStepView::Ask(
            ProbeView::Reviews { repo, number, page: (bodies.len() + 1) as u32 },
        ),
    decreases bodies.len(),
{
    if bodies.len() > 0 {
        let front = bodies.drop_last();
        assert forall|i: int| 0 <= i < front.len() implies states_on(#[trigger] front[i]).len()
            >= PAGE_SIZE && !states_on(front[i]).contains("APPROVED"@) by {
            assert(front[i] == bodies[i]);
        }
        lemma_pages_without_approval(repo, number, front);
        assert(states_on(bodies[bodies.len() - 1]).len() >= PAGE_SIZE);
    }
}

/// An approval on any page counts: where the pages before are full and none approves, the
/// next page fires if it has an approval, and ends the check in vain if it has none and is
/// not full.
pub proof fn law_any_approval_fires(repo: Seq<char>, number: i64, bodies: Seq<Seq<char>>)
    requires
        0 < bodies.len() < u32::MAX,
        forall|i: int|
            0 <= i < bodies.len() - 1 ==> states_on(#[trigger] bodies[i]).len() >= PAGE_SIZE
                && !states_on(bodies[i]).contains("APPROVED"@),
    ensures
        states_on(bodies.last()).contains("APPROVED"@) ==> after_pages(
            CheckStepView::Ask(ProbeView::Reviews { repo, number, page: 1 }),
            bodies,
        ) == found(Some(review_approved_event(repo, number))),
        !states_on(bodies.last()).contains("APPROVED"@) && states_on(bodies.last()).len()
            < PAGE_SIZE ==> after_pages(
            CheckStepView::Ask(ProbeView::Reviews { repo, number, page: 1 }),
            bodies,
        ) == found(None),
{
    let front = bodies.drop_last();
    assert forall|i: int| 0 <= i < front.len() implies states_on(#[trigger] front[i]).len()
        >= PAGE_SIZE && !states_on(front[i]).contains("APPROVED"@) by {
        assert(front[i] == bodies[i]);
    }
    lemma_pages_without_approval(repo, number, front);
}

} // verus!
