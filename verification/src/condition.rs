//! What a subscription waits for.
use crate::numeral::{decimal, push_i64};
use vstd::prelude::*;
use vstd::string::*;

verus! {

/// The condition of a subscription.
#[derive(Debug)]
pub enum Condition {
    /// The clock reaches `fire_at`, `duration` after the subscription was made.
    Timer {
        duration: String,
        fire_at: i64,
    },
    /// Something happens on GitHub.
    GitHub(GitHubCondition),
}

/// What happens on GitHub, with what was so at the time of subscription where the
/// condition is about a change.
#[derive(Debug)]
pub enum GitHubCondition {
    PrMerged { repo: String, number: i64 },
    PrClosed { repo: String, number: i64 },
    PrReviewApproved { repo: String, number: i64 },
    PrLabel { repo: String, number: i64, name: String, present_at_subscribe: bool },
    PrNewComment { repo: String, number: i64, baseline: i64 },
    PrCiPassed { repo: String, number: i64 },
    IssueClosed { repo: String, number: i64 },
    IssueLabel { repo: String, number: i64, name: String, present_at_subscribe: bool },
    IssueNewComment { repo: String, number: i64, baseline: i64 },
    CiSuccess { repo: String, number: i64 },
    CiFailure { repo: String, number: i64 },
    CiCompleted { repo: String, number: i64 },
}

/// What stands for a [`Condition`] in contracts.
pub enum ConditionView {
    Timer { duration: Seq<char>, fire_at: i64 },
    GitHub(GitHubConditionView),
}

/// What stands for a [`GitHubCondition`] in contracts.
pub struct GitHubConditionView {
    pub repo: Seq<char>,
    pub number: i64,
    pub watch: Watch,
}

/// What is watched of a pull request, an issue or a run.
pub enum Watch {
    PrMerged,
    PrClosed,
    PrReviewApproved,
    PrLabel { name: Seq<char>, present_at_subscribe: bool },
    PrNewComment { baseline: i64 },
    PrCiPassed,
    IssueClosed,
    IssueLabel { name: Seq<char>, present_at_subscribe: bool },
    IssueNewComment { baseline: i64 },
    CiSuccess,
    CiFailure,
    CiCompleted,
}

impl Watch {
    /// Whether a run, or the checks of a pull request, are watched.
    pub open spec fn is_of_run(self) -> bool {
        self is CiSuccess || self is CiFailure || self is CiCompleted
    }

    /// Whether an issue is watched.
    pub open spec fn is_of_issue(self) -> bool {
        self is IssueClosed || self is IssueLabel || self is IssueNewComment
    }

    /// The kind of thing watched, as the command line has it.
    pub open spec fn kind(self) -> Seq<char> {
        match self {
            Watch::PrMerged | Watch::PrClosed | Watch::PrReviewApproved | Watch::PrLabel { .. }
            | Watch::PrNewComment { .. } | Watch::PrCiPassed => "pr"@,
            Watch::IssueClosed | Watch::IssueLabel { .. } | Watch::IssueNewComment { .. } =>
                "issue"@,
            Watch::CiSuccess | Watch::CiFailure | Watch::CiCompleted => "ci"@,
        }
    }

    /// The event watched for, as the command line has it.
    pub open spec fn event(self) -> Seq<char> {
        match self {
            Watch::PrMerged => "merged"@,
            Watch::PrClosed => "closed"@,
            Watch::PrReviewApproved => "review-approved"@,
            Watch::PrLabel { name, .. } => "label:"@ + name,
            Watch::PrNewComment { .. } => "new-comment"@,
            Watch::PrCiPassed => "ci-passed"@,
            Watch::IssueClosed => "closed"@,
            Watch::IssueLabel { name, .. } => "label:"@ + name,
            Watch::IssueNewComment { .. } => "new-comment"@,
            Watch::CiSuccess => "success"@,
            Watch::CiFailure => "failure"@,
            Watch::CiCompleted => "completed"@,
        }
    }
}

impl View for GitHubCondition {
    type V = GitHubConditionView;

    open spec fn view(&self) -> GitHubConditionView {
        match *self {
            GitHubCondition::PrMerged { repo, number } => GitHubConditionView {
                repo: repo@,
                number,
                watch: Watch::PrMerged,
            },
            GitHubCondition::PrClosed { repo, number } => GitHubConditionView {
                repo: repo@,
                number,
                watch: Watch::PrClosed,
            },
            GitHubCondition::PrReviewApproved { repo, number } => GitHubConditionView {
                repo: repo@,
                number,
                watch: Watch::PrReviewApproved,
            },
            GitHubCondition::PrLabel { repo, number, name, present_at_subscribe } =>
                GitHubConditionView {
                repo: repo@,
                number,
                watch: Watch::PrLabel { name: name@, present_at_subscribe },
            },
            GitHubCondition::PrNewComment { repo, number, baseline } => GitHubConditionView {
                repo: repo@,
                number,
                watch: Watch::PrNewComment { baseline },
            },
            GitHubCondition::PrCiPassed { repo, number } => GitHubConditionView {
                repo: repo@,
                number,
                watch: Watch::PrCiPassed,
            },
            GitHubCondition::IssueClosed { repo, number } => GitHubConditionView {
                repo: repo@,
                number,
                watch: Watch::IssueClosed,
            },
            GitHubCondition::IssueLabel { repo, number, name, present_at_subscribe } =>
                GitHubConditionView {
                repo: repo@,
                number,
                watch: Watch::IssueLabel { name: name@, present_at_subscribe },
            },
            GitHubCondition::IssueNewComment { repo, number, baseline } => GitHubConditionView {
                repo: repo@,
                number,
                watch: Watch::IssueNewComment { baseline },
            },
            GitHubCondition::CiSuccess { repo, number } => GitHubConditionView {
                repo: repo@,
                number,
                watch: Watch::CiSuccess,
            },
            GitHubCondition::CiFailure { repo, number } => GitHubConditionView {
                repo: repo@,
                number,
                watch: Watch::CiFailure,
            },
            GitHubCondition::CiCompleted { repo, number } => GitHubConditionView {
                repo: repo@,
                number,
                watch: Watch::CiCompleted,
            },
        }
    }
}

impl View for Condition {
    type V = ConditionView;

    open spec fn view(&self) -> ConditionView {
        match *self {
            Condition::Timer { duration, fire_at } => ConditionView::Timer {
                duration: duration@,
                fire_at,
            },
            Condition::GitHub(gh) => ConditionView::GitHub(gh@),
        }
    }
}

impl Clone for GitHubCondition {
    fn clone(&self) -> (r: Self)
        ensures
            r@ == self@,
    {
        match self {
            GitHubCondition::PrMerged { repo, number } => GitHubCondition::PrMerged {
                repo: repo.clone(),
                number: *number,
            },
            GitHubCondition::PrClosed { repo, number } => GitHubCondition::PrClosed {
                repo: repo.clone(),
                number: *number,
            },
            GitHubCondition::PrReviewApproved { repo, number } =>
                GitHubCondition::PrReviewApproved { repo: repo.clone(), number: *number },
            GitHubCondition::PrLabel { repo, number, name, present_at_subscribe } =>
                GitHubCondition::PrLabel {
                repo: repo.clone(),
                number: *number,
                name: name.clone(),
                present_at_subscribe: *present_at_subscribe,
            },
            GitHubCondition::PrNewComment { repo, number, baseline } =>
                GitHubCondition::PrNewComment {
                repo: repo.clone(),
                number: *number,
                baseline: *baseline,
            },
            GitHubCondition::PrCiPassed { repo, number } => GitHubCondition::PrCiPassed {
                repo: repo.clone(),
                number: *number,
            },
            GitHubCondition::IssueClosed { repo, number } => GitHubCondition::IssueClosed {
                repo: repo.clone(),
                number: *number,
            },
            GitHubCondition::IssueLabel { repo, number, name, present_at_subscribe } =>
                GitHubCondition::IssueLabel {
                repo: repo.clone(),
                number: *number,
                name: name.clone(),
                present_at_subscribe: *present_at_subscribe,
            },
            GitHubCondition::IssueNewComment { repo, number, baseline } =>
                GitHubCondition::IssueNewComment {
                repo: repo.clone(),
                number: *number,
                baseline: *baseline,
            },
            GitHubCondition::CiSuccess { repo, number } => GitHubCondition::CiSuccess {
                repo: repo.clone(),
                number: *number,
            },
            GitHubCondition::CiFailure { repo, number } => GitHubCondition::CiFailure {
                repo: repo.clone(),
                number: *number,
            },
            GitHubCondition::CiCompleted { repo, number } => GitHubCondition::CiCompleted {
                repo: repo.clone(),
                number: *number,
            },
        }
    }
}

impl Clone for Condition {
    fn clone(&self) -> (r: Self)
        ensures
            r@ == self@,
    {
        match self {
            Condition::Timer { duration, fire_at } => Condition::Timer {
                duration: duration.clone(),
                fire_at: *fire_at,
            },
            Condition::GitHub(gh) => Condition::GitHub(gh.clone()),
        }
    }
}

impl ConditionView {
    /// The name of the condition's source.
    pub open spec fn source_name(self) -> Seq<char> {
        match self {
            ConditionView::Timer { .. } => "timer"@,
            ConditionView::GitHub(_) => "github"@,
        }
    }

    /// The condition in one line: what was asked for on the command line.
    pub open spec fn summary(self) -> Seq<char> {
        match self {
            ConditionView::Timer { duration, .. } => "timer "@ + duration,
            ConditionView::GitHub(gh) => gh.repo + " "@ + gh.watch.kind() + " #"@ + decimal(
                gh.number as int,
            ) + " "@ + gh.watch.event(),
        }
    }
}

/// One line about something on GitHub.
fn github_line(repo: &str, kind: &str, number: i64, event: &str) -> (r: String)
    ensures
        r@ == repo@ + " "@ + kind@ + " #"@ + decimal(number as int) + " "@ + event@,
{
    let mut line: String = repo.to_owned().concat(" ").concat(kind).concat(" #");
    push_i64(&mut line, number);
    line.concat(" ").concat(event)
}

/// The event of a label.
fn label_event(name: &str) -> (r: String)
    ensures
        r@ == "label:"@ + name@,
{
    "label:".to_owned().concat(name)
}

impl GitHubCondition {
    /// Whether a run, or the checks of a pull request, are watched.
    pub fn is_of_run(&self) -> (r: bool)
        ensures
            r == self@.watch.is_of_run(),
    {
        match self {
            GitHubCondition::CiSuccess { .. } => true,
            GitHubCondition::CiFailure { .. } => true,
            GitHubCondition::CiCompleted { .. } => true,
            _ => false,
        }
    }

    /// Whether an issue is watched.
    pub fn is_of_issue(&self) -> (r: bool)
        ensures
            r == self@.watch.is_of_issue(),
    {
        match self {
            GitHubCondition::IssueClosed { .. } => true,
            GitHubCondition::IssueLabel { .. } => true,
            GitHubCondition::IssueNewComment { .. } => true,
            _ => false,
        }
    }

    /// The condition in one line.
    pub fn summary(&self) -> (r: String)
        ensures
            r@ == ConditionView::GitHub(self@).summary(),
    {
        match self {
            GitHubCondition::PrMerged { repo, number } => github_line(
                repo.as_str(),
                "pr",
                *number,
                "merged",
            ),
            GitHubCondition::PrClosed { repo, number } => github_line(
                repo.as_str(),
                "pr",
                *number,
                "closed",
            ),
            GitHubCondition::PrReviewApproved { repo, number } => github_line(
                repo.as_str(),
                "pr",
                *number,
                "review-approved",
            ),
            GitHubCondition::PrLabel { repo, number, name, present_at_subscribe: _ } =>
                github_line(repo.as_str(), "pr", *number, label_event(name.as_str()).as_str()),
            GitHubCondition::PrNewComment { repo, number, baseline: _ } => github_line(
                repo.as_str(),
                "pr",
                *number,
                "new-comment",
            ),
            GitHubCondition::PrCiPassed { repo, number } => github_line(
                repo.as_str(),
                "pr",
                *number,
                "ci-passed",
            ),
            GitHubCondition::IssueClosed { repo, number } => github_line(
                repo.as_str(),
                "issue",
                *number,
                "closed",
            ),
            GitHubCondition::IssueLabel { repo, number, name, present_at_subscribe: _ } =>
                github_line(repo.as_str(), "issue", *number, label_event(name.as_str()).as_str()),
            GitHubCondition::IssueNewComment { repo, number, baseline: _ } => github_line(
                repo.as_str(),
                "issue",
                *number,
                "new-comment",
            ),
            GitHubCondition::CiSuccess { repo, number } => github_line(
                repo.as_str(),
                "ci",
                *number,
                "success",
            ),
            GitHubCondition::CiFailure { repo, number } => github_line(
                repo.as_str(),
                "ci",
                *number,
                "failure",
            ),
            GitHubCondition::CiCompleted { repo, number } => github_line(
                repo.as_str(),
                "ci",
                *number,
                "completed",
            ),
        }
    }
}

impl Condition {
    /// The name of the condition's source.
    pub fn source_name(&self) -> (r: &str)
        ensures
            r@ == self@.source_name(),
    {
        match self {
            Condition::Timer { .. } => "timer",
            Condition::GitHub(_) => "github",
        }
    }

    /// The condition in one line.
    pub fn summary(&self) -> (r: String)
        ensures
            r@ == self@.summary(),
    {
        match self {
            Condition::Timer { duration, .. } => "timer ".to_owned().concat(duration.as_str()),
            Condition::GitHub(gh) => gh.summary(),
        }
    }
}

} // verus!
