//! Everything that can go wrong, and the words for it.
use crate::numeral::IntError;
use vstd::prelude::*;
use vstd::string::*;

verus! {

/// A failure. `S` is the type of the texts it carries: [`String`] in code, and a
/// sequence of characters in contracts.
#[derive(Debug)]
pub enum Fault<S> {
    /// A duration without a character in it.
    EmptyDuration,
    /// A duration whose number is no `i64`.
    InvalidDuration(S),
    /// A duration below zero.
    NegativeDuration(S),
    /// A duration of more seconds than an `i64` holds.
    DurationOverflow(S),
    /// A duration in a unit other than `s`, `m`, `h`, `d`.
    UnknownDurationUnit(S),
    /// A timer without a duration.
    TimerNeedsDuration,
    /// A GitHub condition with fewer than three arguments.
    GitHubUsage,
    /// A pull request, issue or run whose number is no `i64`.
    InvalidNumber(S),
    /// No repository was given and none was detected.
    RepoRequired,
    /// No GitHub condition has this kind and event.
    InvalidGitHubCondition {
        kind: S,
        event: S,
    },
    /// The source `webhook`.
    WebhookUnsupported,
    /// A source of another name.
    UnknownSource(S),
    /// `gh` could not be run; the text is the system's reason.
    GhNotRun(S),
    /// `gh` failed when it was asked for the labels at subscription.
    LabelCheckFailed,
    /// `gh` failed when it was asked for the comment count at subscription.
    CommentCountFailed,
    /// `gh` answered the question for the comment count with no `i64`.
    InvalidCommentCount(IntError),
    /// `gh api` failed; the text is what it printed as its error.
    GhApiFailed(S),
    /// A subscription with this identifier is already stored.
    DuplicateId,
    /// The status of a stored subscription is no text.
    StatusNotText,
    /// The subscription of this identifier is stored and not active.
    NotActive(S),
    /// No subscription of this identifier is stored.
    NotFound(S),
    /// The awaited subscription has expired.
    WaitExpired,
    /// The awaited subscription was cancelled.
    WaitCancelled,
    /// The awaited subscription of this identifier is not stored.
    WaitNotFound(S),
}

/// A failure with its texts as strings.
pub type Error = Fault<String>;

impl View for Fault<String> {
    type V = Fault<Seq<char>>;

    open spec fn view(&self) -> Fault<Seq<char>> {
        match *self {
            Fault::EmptyDuration => Fault::EmptyDuration,
            Fault::InvalidDuration(s) => Fault::InvalidDuration(s@),
            Fault::NegativeDuration(s) => Fault::NegativeDuration(s@),
            Fault::DurationOverflow(s) => Fault::DurationOverflow(s@),
            Fault::UnknownDurationUnit(s) => Fault::UnknownDurationUnit(s@),
            Fault::TimerNeedsDuration => Fault::TimerNeedsDuration,
            Fault::GitHubUsage => Fault::GitHubUsage,
            Fault::InvalidNumber(s) => Fault::InvalidNumber(s@),
            Fault::RepoRequired => Fault::RepoRequired,
            Fault::InvalidGitHubCondition { kind, event } => Fault::InvalidGitHubCondition {
                kind: kind@,
                event: event@,
            },
            Fault::WebhookUnsupported => Fault::WebhookUnsupported,
            Fault::UnknownSource(s) => Fault::UnknownSource(s@),
            Fault::GhNotRun(s) => Fault::GhNotRun(s@),
            Fault::LabelCheckFailed => Fault::LabelCheckFailed,
            Fault::CommentCountFailed => Fault::CommentCountFailed,
            Fault::InvalidCommentCount(e) => Fault::InvalidCommentCount(e),
            Fault::GhApiFailed(s) => Fault::GhApiFailed(s@),
            Fault::DuplicateId => Fault::DuplicateId,
            Fault::StatusNotText => Fault::StatusNotText,
            Fault::NotActive(s) => Fault::NotActive(s@),
            Fault::NotFound(s) => Fault::NotFound(s@),
            Fault::WaitExpired => Fault::WaitExpired,
            Fault::WaitCancelled => Fault::WaitCancelled,
            Fault::WaitNotFound(s) => Fault::WaitNotFound(s@),
        }
    }
}

impl Fault<Seq<char>> {
    /// The failure in words.
    pub open spec fn words(self) -> Seq<char> {
        match self {
            Fault::EmptyDuration => "empty duration"@,
            Fault::InvalidDuration(s) => "invalid duration: "@ + s,
            Fault::NegativeDuration(s) => "duration must not be negative: "@ + s,
            Fault::DurationOverflow(s) => "duration overflow: "@ + s,
            Fault::UnknownDurationUnit(s) => "unknown duration unit: "@ + s + ". Use s/m/h/d"@,
            Fault::TimerNeedsDuration => "timer requires a duration (e.g., 30m, 2h)"@,
            Fault::GitHubUsage =>
                "github requires: <pr|issue|ci> <number> <event> [--repo owner/repo]"@,
            Fault::InvalidNumber(s) => "invalid number: "@ + s,
            Fault::RepoRequired => "--repo is required (or run from a git repo)"@,
            Fault::InvalidGitHubCondition { kind, event } =>
                "invalid github condition: kind="@ + kind + " event="@ + event
                    + ". Valid: pr (merged|closed|review-approved|ci-passed|new-comment|label:X), issue (closed|new-comment|label:X), ci (success|failure|completed)"@,
            Fault::WebhookUnsupported => "webhook source is not yet implemented"@,
            Fault::UnknownSource(s) => "unknown source: "@ + s
                + ". Supported: github, ci, issue, timer, webhook"@,
            Fault::GhNotRun(s) => s,
            Fault::LabelCheckFailed => "failed to check labels"@,
            Fault::CommentCountFailed => "failed to get comment count"@,
            Fault::InvalidCommentCount(e) => e.words(),
            Fault::GhApiFailed(s) => "gh api failed: "@ + s,
            Fault::DuplicateId => "UNIQUE constraint failed: subscriptions.id"@,
            Fault::StatusNotText => "Invalid column type Blob at index: 0, name: status"@,
            Fault::NotActive(s) => "subscription "@ + s + " is not active"@,
            Fault::NotFound(s) => "subscription "@ + s + " not found"@,
            Fault::WaitExpired => "Subscription expired"@,
            Fault::WaitCancelled => "Subscription cancelled"@,
            Fault::WaitNotFound(s) => "Subscription "@ + s + " not found"@,
        }
    }

    /// The exit status of a `wait` that ended with the failure: one for a subscription
    /// whose time was over, and two for everything else.
    pub open spec fn wait_status(self) -> u8 {
        if self == Fault::<Seq<char>>::WaitExpired {
            1
        } else {
            2
        }
    }
}

/// `a`, and `b` after it.
fn joined(a: &str, b: &str) -> (r: String)
    ensures
        r@ == a@ + b@,
{
    a.to_owned().concat(b)
}

impl Fault<String> {
    /// The failure in words.
    pub fn message(&self) -> (r: String)
        ensures
            r@ == self@.words(),
    {
        match self {
            Fault::EmptyDuration => "empty duration".to_owned(),
            Fault::InvalidDuration(s) => joined("invalid duration: ", s.as_str()),
            Fault::NegativeDuration(s) => joined("duration must not be negative: ", s.as_str()),
            Fault::DurationOverflow(s) => joined("duration overflow: ", s.as_str()),
            Fault::UnknownDurationUnit(s) => joined("unknown duration unit: ", s.as_str()).concat(
                ". Use s/m/h/d",
            ),
            Fault::TimerNeedsDuration => "timer requires a duration (e.g., 30m, 2h)".to_owned(),
            Fault::GitHubUsage =>
                "github requires: <pr|issue|ci> <number> <event> [--repo owner/repo]".to_owned(),
            Fault::InvalidNumber(s) => joined("invalid number: ", s.as_str()),
            Fault::RepoRequired => "--repo is required (or run from a git repo)".to_owned(),
            Fault::InvalidGitHubCondition { kind, event } => joined(
                "invalid github condition: kind=",
                kind.as_str(),
            ).concat(" event=").concat(event.as_str()).concat(
                ". Valid: pr (merged|closed|review-approved|ci-passed|new-comment|label:X), issue (closed|new-comment|label:X), ci (success|failure|completed)",
            ),
            Fault::WebhookUnsupported => "webhook source is not yet implemented".to_owned(),
            Fault::UnknownSource(s) => joined("unknown source: ", s.as_str()).concat(
                ". Supported: github, ci, issue, timer, webhook",
            ),
            Fault::GhNotRun(s) => s.clone(),
            Fault::LabelCheckFailed => "failed to check labels".to_owned(),
            Fault::CommentCountFailed => "failed to get comment count".to_owned(),
            Fault::InvalidCommentCount(e) => e.message(),
            Fault::GhApiFailed(s) => joined("gh api failed: ", s.as_str()),
            Fault::DuplicateId => "UNIQUE constraint failed: subscriptions.id".to_owned(),
            Fault::StatusNotText => "Invalid column type Blob at index: 0, name: status".to_owned(),
            Fault::NotActive(s) => joined("subscription ", s.as_str()).concat(" is not active"),
            Fault::NotFound(s) => joined("subscription ", s.as_str()).concat(" not found"),
            Fault::WaitExpired => "Subscription expired".to_owned(),
            Fault::WaitCancelled => "Subscription cancelled".to_owned(),
            Fault::WaitNotFound(s) => joined("Subscription ", s.as_str()).concat(" not found"),
        }
    }

    /// The exit status of a `wait` that ended with the failure.
    pub fn wait_status(&self) -> (r: u8)
        ensures
            r == self@.wait_status(),
    {
        match self {
            Fault::WaitExpired => 1,
            _ => 2,
        }
    }
}

/// The failure of a result by its view, and its success as it is.
pub open spec fn fault_of<T>(r: Result<T, Error>) -> Result<T, Fault<Seq<char>>> {
    match r {
        Ok(v) => Ok(v),
        Err(e) => Err(e@),
    }
}

} // verus!
