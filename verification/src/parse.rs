//! From the words of a command line to a condition.
//!
//! Where a condition is about a change, what is so at the time of subscription has
//! to be asked of `gh` first. So reading goes in steps: [`parse_condition`] makes the
//! first, a step that is not done says what to ask ([`ParseStep::call`]), and
//! [`ParseStep::resume`] takes the answer and makes the next.
use crate::clock::Reading;
use crate::condition::{Condition, ConditionView, GitHubCondition, GitHubConditionView, Watch};
use crate::duration::{
    deadline_fits, duration_secs, fits_from, is_deadline_from, parse_duration_secs,
};
use crate::error::{Error, Fault};
use crate::gh::{
    api_args, check_label_present, comment_count, detect_repo, detected_repo, get_comment_count,
    issue_call, issue_endpoint, label_present, repo_view_args, repo_view_call, GhCall, GhReply,
};
use crate::numeral::{decimal, i64_of, parse_i64};
use crate::outside::clock_shows;
use crate::text::{same, slice_of, strip_prefix, text_of, texts};
use vstd::prelude::*;
use vstd::string::*;

verus! {

/// What labels and comments are on.
#[derive(Clone, Copy, Debug, PartialEq, Eq, Structural)]
pub enum Thing {
    Pr,
    Issue,
}

/// A GitHub condition as the command line has it.
pub struct GitHubRequest {
    pub kind: String,
    pub number: i64,
    pub event: String,
    /// The repository, where the command line names one.
    pub repo: Option<String>,
}

/// The question whether a label is set.
pub struct LabelQuestion {
    pub thing: Thing,
    pub repo: String,
    pub number: i64,
    pub name: String,
}

/// The question how many comments there are.
pub struct CommentQuestion {
    pub thing: Thing,
    pub repo: String,
    pub number: i64,
}

/// How far the reading of a condition has come.
pub enum ParseStep {
    /// The condition is read.
    Done(Condition),
    /// The repository of the working directory is wanted.
    DetectRepo(GitHubRequest),
    /// The labels are wanted.
    AskLabels(LabelQuestion),
    /// The number of comments is wanted.
    AskComments(CommentQuestion),
}

/// What stands for a [`ParseStep`] in contracts.
#[allow(inconsistent_fields)]
pub enum StepView {
    Done(ConditionView),
    DetectRepo { kind: Seq<char>, number: i64, event: Seq<char>, repo: Option<Seq<char>> },
    AskLabels { thing: Thing, repo: Seq<char>, number: i64, name: Seq<char> },
    AskComments { thing: Thing, repo: Seq<char>, number: i64 },
}

impl View for ParseStep {
    type V = StepView;

    open spec fn view(&self) -> StepView {
        match *self {
            ParseStep::Done(c) => StepView::Done(c@),
            ParseStep::DetectRepo(q) => StepView::DetectRepo {
                kind: q.kind@,
                number: q.number,
                event: q.event@,
                repo: text_of(q.repo),
            },
            ParseStep::AskLabels(q) => StepView::AskLabels {
                thing: q.thing,
                repo: q.repo@,
                number: q.number,
                name: q.name@,
            },
            ParseStep::AskComments(q) => StepView::AskComments {
                thing: q.thing,
                repo: q.repo@,
                number: q.number,
            },
        }
    }
}

/// The step, or the failure, of a result by its view.
pub open spec fn step_of(r: Result<ParseStep, Error>) -> Result<StepView, Fault<Seq<char>>> {
    match r {
        Ok(step) => Ok(step@),
        Err(e) => Err(e@),
    }
}

// ---------------------------------------------------------------------------
// What is read
// ---------------------------------------------------------------------------

/// The step of a GitHub condition in three words: its number is read, and the repository
/// is asked for.
pub open spec fn request_step(
    kind: Seq<char>,
    number: Seq<char>,
    event: Seq<char>,
    repo: Option<Seq<char>>,
) -> Result<StepView, Fault<Seq<char>>> {
    match i64_of(number) {
        Err(_) => Err(Fault::InvalidNumber(number)),
        Ok(number) => Ok(StepView::DetectRepo { kind, number, event, repo }),
    }
}

/// The first step: a timer is read at once, counted from `now`; of a GitHub condition
/// the three words are taken and the repository is asked for. The first of them can stand
/// for the source where it is `ci` or `issue`.
pub open spec fn first_step(
    source: Seq<char>,
    args: Seq<Seq<char>>,
    repo: Option<Seq<char>>,
    now: i64,
) -> Result<StepView, Fault<Seq<char>>> {
    if source == "timer"@ {
        if args.len() == 0 {
            Err(Fault::TimerNeedsDuration)
        } else {
            match duration_secs(args[0]) {
                Err(e) => Err(e),
                Ok(secs) => Ok(
                    StepView::Done(
                        ConditionView::Timer { duration: args[0], fire_at: (now + secs) as i64 },
                    ),
                ),
            }
        }
    } else if source == "github"@ {
        if args.len() < 3 {
            Err(Fault::GitHubUsage)
        } else {
            request_step(args[0], args[1], args[2], repo)
        }
    } else if source == "ci"@ || source == "issue"@ {
        if args.len() < 2 {
            Err(Fault::GitHubUsage)
        } else {
            request_step(source, args[0], args[1], repo)
        }
    } else if source == "webhook"@ {
        Err(Fault::WebhookUnsupported)
    } else {
        Err(Fault::UnknownSource(source))
    }
}

/// A step that is done, with a GitHub condition.
pub open spec fn watching(repo: Seq<char>, number: i64, watch: Watch) -> StepView {
    StepView::Done(ConditionView::GitHub(GitHubConditionView { repo, number, watch }))
}

/// The step after the repository was asked for: the repository of the command line
/// goes before the detected one, and each pair of kind and event has its condition, a
/// label or comments being asked for first.
pub open spec fn with_repo(
    kind: Seq<char>,
    number: i64,
    event: Seq<char>,
    repo: Option<Seq<char>>,
    detected: Option<Seq<char>>,
) -> Result<StepView, Fault<Seq<char>>> {
    match (if repo is Some { repo } else { detected }) {
        None => Err(Fault::RepoRequired),
        Some(repo) => {
            let label = event.skip("label:"@.len() as int);
            if kind == "pr"@ && event == "merged"@ {
                Ok(watching(repo, number, Watch::PrMerged))
            } else if kind == "pr"@ && event == "closed"@ {
                Ok(watching(repo, number, Watch::PrClosed))
            } else if kind == "pr"@ && event == "review-approved"@ {
                Ok(watching(repo, number, Watch::PrReviewApproved))
            } else if kind == "pr"@ && "label:"@.is_prefix_of(event) {
                Ok(StepView::AskLabels { thing: Thing::Pr, repo, number, name: label })
            } else if kind == "pr"@ && event == "new-comment"@ {
                Ok(StepView::AskComments { thing: Thing::Pr, repo, number })
            } else if kind == "pr"@ && event == "ci-passed"@ {
                Ok(watching(repo, number, Watch::PrCiPassed))
            } else if kind == "issue"@ && event == "closed"@ {
                Ok(watching(repo, number, Watch::IssueClosed))
            } else if kind == "issue"@ && "label:"@.is_prefix_of(event) {
                Ok(StepView::AskLabels { thing: Thing::Issue, repo, number, name: label })
            } else if kind == "issue"@ && event == "new-comment"@ {
                Ok(StepView::AskComments { thing: Thing::Issue, repo, number })
            } else if kind == "ci"@ && event == "success"@ {
                Ok(watching(repo, number, Watch::CiSuccess))
            } else if kind == "ci"@ && event == "failure"@ {
                Ok(watching(repo, number, Watch::CiFailure))
            } else if kind == "ci"@ && event == "completed"@ {
                Ok(watching(repo, number, Watch::CiCompleted))
            } else {
                Err(Fault::InvalidGitHubCondition { kind, event })
            }
        },
    }
}

/// The condition about a label, given whether it is set now.
pub open spec fn label_watch(thing: Thing, name: Seq<char>, present: bool) -> Watch {
    match thing {
        Thing::Pr => Watch::PrLabel { name, present_at_subscribe: present },
        Thing::Issue => Watch::IssueLabel { name, present_at_subscribe: present },
    }
}

/// The condition about comments, given how many there are now.
pub open spec fn comment_watch(thing: Thing, baseline: i64) -> Watch {
    match thing {
        Thing::Pr => Watch::PrNewComment { baseline },
        Thing::Issue => Watch::IssueNewComment { baseline },
    }
}

impl StepView {
    /// What is asked of `gh`.
    pub open spec fn question(self) -> Option<Seq<Seq<char>>> {
        match self {
            StepView::Done(_) => None,
            StepView::DetectRepo { .. } => Some(repo_view_args()),
            StepView::AskLabels { repo, number, .. } => Some(
                api_args(issue_endpoint(repo, number), "[.labels[].name]"@),
            ),
            StepView::AskComments { repo, number, .. } => Some(
                api_args(issue_endpoint(repo, number), ".comments"@),
            ),
        }
    }

    /// The step after `gh` answered with `reply`.
    pub open spec fn after(self, reply: GhReply) -> Result<StepView, Fault<Seq<char>>> {
        match self {
            StepView::Done(_) => Ok(self),
            StepView::DetectRepo { kind, number, event, repo } => with_repo(
                kind,
                number,
                event,
                repo,
                detected_repo(reply),
            ),
            StepView::AskLabels { thing, repo, number, name } => match label_present(reply, name) {
                Err(e) => Err(e),
                Ok(present) => Ok(watching(repo, number, label_watch(thing, name, present))),
            },
            StepView::AskComments { thing, repo, number } => match comment_count(reply) {
                Err(e) => Err(e),
                Ok(baseline) => Ok(watching(repo, number, comment_watch(thing, baseline))),
            },
        }
    }

    /// How many more answers can be needed.
    pub open spec fn questions_left(self) -> nat {
        match self {
            StepView::Done(_) => 0,
            StepView::AskLabels { .. } | StepView::AskComments { .. } => 1,
            StepView::DetectRepo { .. } => 2,
        }
    }
}

// ---------------------------------------------------------------------------
// Reading
// ---------------------------------------------------------------------------

fn request(kind: &str, number: &str, event: &str, repo: Option<&str>) -> (r: Result<
    ParseStep,
    Error,
>)
    ensures
        step_of(r) == request_step(kind@, number@, event@, slice_of(repo)),
{
    match parse_i64(number) {
        Err(_) => Err(Fault::InvalidNumber(number.to_owned())),
        Ok(number) => Ok(
            ParseStep::DetectRepo(
                GitHubRequest {
                    kind: kind.to_owned(),
                    number,
                    event: event.to_owned(),
                    repo: match repo {
                        Some(name) => Some(name.to_owned()),
                        None => None,
                    },
                },
            ),
        ),
    }
}

/// The first step, with a timer counted from `now`.
pub fn parse_condition_at(source: &str, args: &[String], repo: Option<&str>, now: i64) -> (r: Result<
    ParseStep,
    Error,
>)
    requires
        source@ == "timer"@ && args@.len() > 0 ==> fits_from(args@[0]@, now),
    ensures
        step_of(r) == first_step(source@, texts(args@), slice_of(repo), now),
{
    if same(source, "timer") {
        if args.len() == 0 {
            return Err(Fault::TimerNeedsDuration);
        }
        let duration: &String = &args[0];
        match parse_duration_secs(duration.as_str()) {
            Err(e) => Err(e),
            Ok(secs) => Ok(
                ParseStep::Done(
                    Condition::Timer { duration: duration.clone(), fire_at: now + secs },
                ),
            ),
        }
    } else if same(source, "github") {
        if args.len() < 3 {
            return Err(Fault::GitHubUsage);
        }
        request(args[0].as_str(), args[1].as_str(), args[2].as_str(), repo)
    } else if same(source, "ci") || same(source, "issue") {
        if args.len() < 2 {
            return Err(Fault::GitHubUsage);
        }
        request(source, args[0].as_str(), args[1].as_str(), repo)
    } else if same(source, "webhook") {
        Err(Fault::WebhookUnsupported)
    } else {
        Err(Fault::UnknownSource(source.to_owned()))
    }
}

/// The first step, with a timer counted from the time of the call.
pub fn parse_condition(source: &str, args: &[String], repo: Option<&str>) -> (r: Result<
    ParseStep,
    Error,
>)
    requires
        source@ == "timer"@ && args@.len() > 0 ==> deadline_fits(args@[0]@),
    ensures
        exists|now: Reading|
            clock_shows(now.secs()) && step_of(r) == #[trigger] first_step(
                source@,
                texts(args@),
                slice_of(repo),
                now.secs(),
            ),
{
    let now: Reading = Reading::now();
    parse_condition_at(source, args, repo, now.seconds())
}

/// Whether a timer among the words can be counted from `now`.
pub open spec fn timer_fits(source: Seq<char>, args: Seq<Seq<char>>, now: i64) -> bool {
    source == "timer"@ && args.len() > 0 ==> fits_from(args[0], now)
}

/// The first step at the time of the call, whatever the words are; none where a timer
/// cannot be counted from that time.
pub fn try_parse_condition(source: &str, args: &[String], repo: Option<&str>) -> (r: Option<
    Result<ParseStep, Error>,
>)
    ensures
        exists|now: Reading| #[trigger]
            clock_shows(now.secs()) && match r {
                Some(step) => timer_fits(source@, texts(args@), now.secs()) && step_of(step)
                    == first_step(source@, texts(args@), slice_of(repo), now.secs()),
                None => !timer_fits(source@, texts(args@), now.secs()),
            },
{
    let now: Reading = Reading::now();
    if same(source, "timer") && args.len() > 0 && !is_deadline_from(
        args[0].as_str(),
        now.seconds(),
    ) {
        return None;
    }
    Some(parse_condition_at(source, args, repo, now.seconds()))
}

fn done(condition: GitHubCondition) -> (r: Result<ParseStep, Error>)
    ensures
        step_of(r) == Ok::<StepView, Fault<Seq<char>>>(
            StepView::Done(ConditionView::GitHub(condition@)),
        ),
{
    Ok(ParseStep::Done(Condition::GitHub(condition)))
}

impl GitHubRequest {
    /// The step after the repository was asked for.
    pub fn with_repo(self, detected: Option<String>) -> (r: Result<ParseStep, Error>)
        ensures
            step_of(r) == with_repo(
                self.kind@,
                self.number,
                self.event@,
                text_of(self.repo),
                text_of(detected),
            ),
    {
        let number: i64 = self.number;
        let kind: &str = self.kind.as_str();
        let event: &str = self.event.as_str();
        let chosen: Option<String> = match self.repo {
            Some(repo) => Some(repo),
            None => detected,
        };
        let repo: String = match chosen {
            Some(repo) => repo,
            None => {
                return Err(Fault::RepoRequired);
            },
        };
        let label: Option<&str> = strip_prefix(event, "label:");
        let pr: bool = same(kind, "pr");
        let issue: bool = same(kind, "issue");
        let ci: bool = same(kind, "ci");
        if pr && same(event, "merged") {
            return done(GitHubCondition::PrMerged { repo, number });
        }
        if pr && same(event, "closed") {
            return done(GitHubCondition::PrClosed { repo, number });
        }
        if pr && same(event, "review-approved") {
            return done(GitHubCondition::PrReviewApproved { repo, number });
        }
        if pr {
            if let Some(name) = label {
                return Ok(
                    ParseStep::AskLabels(
                        LabelQuestion { thing: Thing::Pr, repo, number, name: name.to_owned() },
                    ),
                );
            }
        }
        if pr && same(event, "new-comment") {
            return Ok(ParseStep::AskComments(CommentQuestion { thing: Thing::Pr, repo, number }));
        }
        if pr && same(event, "ci-passed") {
            return done(GitHubCondition::PrCiPassed { repo, number });
        }
        if issue && same(event, "closed") {
            return done(GitHubCondition::IssueClosed { repo, number });
        }
        if issue {
            if let Some(name) = label {
                return Ok(
                    ParseStep::AskLabels(
                        LabelQuestion { thing: Thing::Issue, repo, number, name: name.to_owned() },
                    ),
                );
            }
        }
        if issue && same(event, "new-comment") {
            return Ok(
                ParseStep::AskComments(CommentQuestion { thing: Thing::Issue, repo, number }),
            );
        }
        if ci && same(event, "success") {
            return done(GitHubCondition::CiSuccess { repo, number });
        }
        if ci && same(event, "failure") {
            return done(GitHubCondition::CiFailure { repo, number });
        }
        if ci && same(event, "completed") {
            return done(GitHubCondition::CiCompleted { repo, number });
        }
        Err(Fault::InvalidGitHubCondition { kind: kind.to_owned(), event: event.to_owned() })
    }
}

impl LabelQuestion {
    /// The condition, given whether the label is set now.
    pub fn answered(self, present: bool) -> (r: GitHubCondition)
        ensures
            r@ == (GitHubConditionView {
                repo: self.repo@,
                number: self.number,
                watch: label_watch(self.thing, self.name@, present),
            }),
            match r {
                GitHubCondition::PrLabel { present_at_subscribe, .. } => self.thing == Thing::Pr
                    && present_at_subscribe == present,
                GitHubCondition::IssueLabel { present_at_subscribe, .. } => self.thing
                    == Thing::Issue && present_at_subscribe == present,
                _ => false,
            },
    {
        match self.thing {
            Thing::Pr => GitHubCondition::PrLabel {
                repo: self.repo,
                number: self.number,
                name: self.name,
                present_at_subscribe: present,
            },
            Thing::Issue => GitHubCondition::IssueLabel {
                repo: self.repo,
                number: self.number,
                name: self.name,
                present_at_subscribe: present,
            },
        }
    }
}

impl CommentQuestion {
    /// The condition, given how many comments there are now.
    pub fn answered(self, baseline: i64) -> (r: GitHubCondition)
        ensures
            r@ == (GitHubConditionView {
                repo: self.repo@,
                number: self.number,
                watch: comment_watch(self.thing, baseline),
            }),
            match r {
                GitHubCondition::PrNewComment { baseline: n, .. } => self.thing == Thing::Pr && n
                    == baseline,
                GitHubCondition::IssueNewComment { baseline: n, .. } => self.thing == Thing::Issue
                    && n == baseline,
                _ => false,
            },
    {
        match self.thing {
            Thing::Pr => GitHubCondition::PrNewComment {
                repo: self.repo,
                number: self.number,
                baseline,
            },
            Thing::Issue => GitHubCondition::IssueNewComment {
                repo: self.repo,
                number: self.number,
                baseline,
            },
        }
    }
}

impl ParseStep {
    /// What to ask of `gh`; nothing where the condition is read.
    pub fn call(&self) -> (r: Option<GhCall>)
        ensures
            match r {
                Some(call) => self@.question() == Some(call@),
                None => self@.question() is None,
            },
    {
        match self {
            ParseStep::Done(_) => None,
            ParseStep::DetectRepo(_) => Some(repo_view_call()),
            ParseStep::AskLabels(q) => Some(
                issue_call(q.repo.as_str(), q.number, "[.labels[].name]"),
            ),
            ParseStep::AskComments(q) => Some(issue_call(q.repo.as_str(), q.number, ".comments")),
        }
    }

    /// The next step, given what `gh` answered.
    pub fn resume(self, reply: &GhReply) -> (r: Result<ParseStep, Error>)
        ensures
            step_of(r) == self@.after(*reply),
    {
        match self {
            ParseStep::Done(condition) => Ok(ParseStep::Done(condition)),
            ParseStep::DetectRepo(request) => request.with_repo(detect_repo(reply)),
            ParseStep::AskLabels(q) => match check_label_present(reply, q.name.as_str()) {
                Err(e) => Err(e),
                Ok(present) => done(q.answered(present)),
            },
            ParseStep::AskComments(q) => match get_comment_count(reply) {
                Err(e) => Err(e),
                Ok(baseline) => done(q.answered(baseline)),
            },
        }
    }
}

// ---------------------------------------------------------------------------
// Laws
// ---------------------------------------------------------------------------

/// `ci` and `issue` as a source are short for that word behind `github`, whatever follows.
pub proof fn law_short_sources(
    source: Seq<char>,
    args: Seq<Seq<char>>,
    repo: Option<Seq<char>>,
    now: i64,
)
    requires
        source == "ci"@ || source == "issue"@,
    ensures
        first_step(source, args, repo, now) == first_step(
            "github"@,
            seq![source] + args,
            repo,
            now,
        ),
{
    reveal_strlit("ci");
    reveal_strlit("issue");
    reveal_strlit("timer");
    reveal_strlit("github");
    assert("issue"@[0] != "timer"@[0]);
    assert("ci"@.len() == 2 && "issue"@.len() == 5);
    assert("timer"@.len() == 5 && "github"@.len() == 6);
}

/// Reading ends: each answer leaves fewer questions, so no condition takes more than
/// two.
pub proof fn law_reading_ends(step: StepView, reply: GhReply)
    requires
        step !is Done,
    ensures
        step.after(reply) matches Ok(next) ==> next.questions_left() < step.questions_left() <= 2,
{
}

/// The line about a GitHub condition repeats what was asked for, whatever `gh`
/// answered: the repository, and the kind, the number and the event of the command
/// line.
pub proof fn law_summary_repeats_the_request(
    kind: Seq<char>,
    number: i64,
    event: Seq<char>,
    repo: Option<Seq<char>>,
    detected: Option<Seq<char>>,
    reply: GhReply,
)
    ensures
        match with_repo(kind, number, event, repo, detected) {
            Ok(step) => match step.after(reply) {
                Ok(StepView::Done(condition)) => condition.summary() == (if repo is Some {
                    repo->0
                } else {
                    detected->0
                }) + " "@ + kind + " #"@ + decimal(number as int) + " "@ + event,
                _ => true,
            },
            Err(_) => true,
        },
{
    let chosen = (if repo is Some { repo } else { detected })->0;
    if "label:"@.is_prefix_of(event) {
        assert("label:"@ + event.skip("label:"@.len() as int) =~= event);
    }
    if let Ok(step) = with_repo(kind, number, event, repo, detected) {
        if let Ok(StepView::Done(condition)) = step.after(reply) {
            let gh = condition->GitHub_0;
            assert(condition is GitHub);
            assert(gh.repo == chosen);
            assert(gh.number == number);
            assert(gh.watch.kind() == kind);
            assert(gh.watch.event() == event);
        }
    }
}

} // verus!
