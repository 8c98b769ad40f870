//! What contracts speak of is what values hold: every part of a value is in what stands for
//! it, as it is.
use crate::change::{change_views, Change, ChangeView};
use crate::checker::github::{CheckStep, CheckStepView, Probe, ProbeView};
use crate::condition::{Condition, ConditionView, GitHubCondition, Watch};
use crate::daemon::{dispatch_of, Dispatch, WaitStep, WaitView};
use crate::error::{fault_of, Error, Fault};
use crate::event::{check_views, event_of, CheckRun, Event};
use crate::gh::{text_result, GhCall};
use crate::outside::{named_numbers, named_objects, named_texts, object_members};
use crate::parse::{step_of, ParseStep, StepView};
use crate::row::{row_views, sub_of, Row};
use crate::store::sub_views;
use crate::subscription::Subscription;
use crate::text::{slice_of, text_of, texts};
use vstd::prelude::*;
use vstd::string::*;

verus! {

/// Optional texts, and lists of texts, stand for themselves.
pub proof fn law_texts_stand_for_themselves(
    list: Seq<String>,
    i: int,
    some: String,
    slice: Option<&str>,
)
    ensures
        texts(list).len() == list.len(),
        0 <= i < list.len() ==> texts(list)[i] == list[i]@,
        text_of(Some(some)) == Some(some@),
        text_of(None) is None,
        slice is Some ==> slice_of(slice) == Some(slice->0@),
        slice is None ==> slice_of(slice) is None,
{
}

/// Lists stand for themselves, item by item.
pub proof fn law_lists_stand_for_themselves(
    rows: Seq<Row>,
    subs: Seq<Subscription>,
    checks: Seq<CheckRun>,
    changes: Seq<Change>,
    i: int,
)
    ensures
        row_views(rows).len() == rows.len(),
        0 <= i < rows.len() ==> row_views(rows)[i] == rows[i]@,
        sub_views(subs).len() == subs.len(),
        0 <= i < subs.len() ==> sub_views(subs)[i] == subs[i]@,
        check_views(checks).len() == checks.len(),
        0 <= i < checks.len() ==> check_views(checks)[i] == checks[i]@,
        change_views(changes).len() == changes.len(),
        0 <= i < changes.len() ==> change_views(changes)[i] == changes[i]@,
{
}

/// The members of an object stand for themselves, item by item.
pub proof fn law_members_stand_for_themselves(
    named: Seq<(String, String)>,
    numbers: Seq<(String, i64)>,
    objects: Seq<Vec<(String, String)>>,
    lists: Seq<(String, Vec<Vec<(String, String)>>)>,
    i: int,
)
    ensures
        named_texts(named).len() == named.len(),
        0 <= i < named.len() ==> named_texts(named)[i] == (named[i].0@, named[i].1@),
        named_numbers(numbers).len() == numbers.len(),
        0 <= i < numbers.len() ==> named_numbers(numbers)[i] == (numbers[i].0@, numbers[i].1),
        object_members(objects).len() == objects.len(),
        0 <= i < objects.len() ==> object_members(objects)[i] == named_texts(objects[i]@),
        named_objects(lists).len() == lists.len(),
        0 <= i < lists.len() ==> named_objects(lists)[i] == (
            lists[i].0@,
            object_members(lists[i].1@),
        ),
{
}

/// A subscription stands for itself, field by field.
pub proof fn law_subscription_stands_for_itself(sub: Subscription)
    ensures
        sub@.id == sub.id@,
        sub@.source == sub.source@,
        sub@.condition == sub.condition@,
        sub@.mode == sub.mode@,
        match sub.callback {
            Some(run) => sub@.callback == Some(run@),
            None => sub@.callback is None,
        },
        sub@.status == sub.status@,
        sub@.created_at == sub.created_at,
        sub@.expires_at == sub.expires_at,
        match sub.event_data {
            Some(event) => sub@.event_data == Some(event@),
            None => sub@.event_data is None,
        },
        sub_of(Some(sub)) == Some(sub@),
        sub_of(None) is None,
{
}

/// A row stands for itself, field by field.
pub proof fn law_row_stands_for_itself(row: Row)
    ensures
        match row.id {
            Some(s) => row@.id == Some(s@),
            None => row@.id is None,
        },
        match row.source {
            Some(s) => row@.source == Some(s@),
            None => row@.source is None,
        },
        match row.condition {
            Some(c) => row@.condition == Some(c@),
            None => row@.condition is None,
        },
        row@.mode == row.mode@,
        match row.callback {
            Some(s) => row@.callback == Some(s@),
            None => row@.callback is None,
        },
        match row.status {
            Some(s) => row@.status == Some(s@),
            None => row@.status is None,
        },
        row@.created_at == row.created_at,
        row@.expires_at == row.expires_at,
        match row.event_data {
            Some(s) => row@.event_data == Some(s@),
            None => row@.event_data is None,
        },
{
}

/// A condition stands for itself, with all that it carries.
pub proof fn law_condition_stands_for_itself(condition: Condition)
    ensures
        match condition {
            Condition::Timer { duration, fire_at } => condition@ == (ConditionView::Timer {
                duration: duration@,
                fire_at,
            }),
            Condition::GitHub(gh) => condition@ == ConditionView::GitHub(gh@),
        },
{
}

/// A GitHub condition stands for itself, with all that it carries.
pub proof fn law_github_condition_stands_for_itself(gh: GitHubCondition)
    ensures
        (gh@.repo, gh@.number, gh@.watch) == match gh {
            GitHubCondition::PrMerged { repo, number } => (repo@, number, Watch::PrMerged),
            GitHubCondition::PrClosed { repo, number } => (repo@, number, Watch::PrClosed),
            GitHubCondition::PrReviewApproved { repo, number } => (
                repo@,
                number,
                Watch::PrReviewApproved,
            ),
            GitHubCondition::PrLabel { repo, number, name, present_at_subscribe } => (
                repo@,
                number,
                Watch::PrLabel { name: name@, present_at_subscribe },
            ),
            GitHubCondition::PrNewComment { repo, number, baseline } => (
                repo@,
                number,
                Watch::PrNewComment { baseline },
            ),
            GitHubCondition::PrCiPassed { repo, number } => (repo@, number, Watch::PrCiPassed),
            GitHubCondition::IssueClosed { repo, number } => (repo@, number, Watch::IssueClosed),
            GitHubCondition::IssueLabel { repo, number, name, present_at_subscribe } => (
                repo@,
                number,
                Watch::IssueLabel { name: name@, present_at_subscribe },
            ),
            GitHubCondition::IssueNewComment { repo, number, baseline } => (
                repo@,
                number,
                Watch::IssueNewComment { baseline },
            ),
            GitHubCondition::CiSuccess { repo, number } => (repo@, number, Watch::CiSuccess),
            GitHubCondition::CiFailure { repo, number } => (repo@, number, Watch::CiFailure),
            GitHubCondition::CiCompleted { repo, number } => (repo@, number, Watch::CiCompleted),
        },
{
}

/// An event, and a check, stand for themselves, field by field.
pub proof fn law_event_stands_for_itself(event: Event, check: CheckRun)
    ensures
        event@.texts == named_texts(event.texts@),
        event@.numbers == named_numbers(event.numbers@),
        match event.checks {
            Some(checks) => event@.checks == Some(check_views(checks@)),
            None => event@.checks is None,
        },
        check@.name == check.name@,
        check@.status == check.status@,
        check@.conclusion == check.conclusion@,
        event_of(Some(event)) == Some(event@),
        event_of(None) is None,
{
}

/// A call of `gh`, a command to run, and what waiting comes to stand for themselves.
pub proof fn law_calls_stand_for_themselves(call: GhCall, dispatch: Dispatch, step: WaitStep)
    ensures
        call@ == texts(call.args@),
        dispatch_of(Some(dispatch)) == Some((dispatch.command@, dispatch.event@)),
        dispatch_of(None) is None,
        match step {
            WaitStep::Fired(event) => step@ == WaitView::Fired(event@),
            WaitStep::Failed(e) => step@ == WaitView::Failed(e@),
            WaitStep::Pending => step@ is Pending,
        },
{
}

/// A step of reading stands for itself, with all that it carries.
pub proof fn law_reading_step_stands_for_itself(step: ParseStep)
    ensures
        match step {
            ParseStep::Done(condition) => step@ == StepView::Done(condition@),
            ParseStep::DetectRepo(q) => step@ == (StepView::DetectRepo {
                kind: q.kind@,
                number: q.number,
                event: q.event@,
                repo: text_of(q.repo),
            }),
            ParseStep::AskLabels(q) => step@ == (StepView::AskLabels {
                thing: q.thing,
                repo: q.repo@,
                number: q.number,
                name: q.name@,
            }),
            ParseStep::AskComments(q) => step@ == (StepView::AskComments {
                thing: q.thing,
                repo: q.repo@,
                number: q.number,
            }),
        },
        step_of(Ok(step)) == Ok::<StepView, Fault<Seq<char>>>(step@),
{
}

/// A step of checking, and a question, stand for themselves, with all that they carry.
pub proof fn law_checking_step_stands_for_itself(step: CheckStep, probe: Probe)
    ensures
        match step {
            CheckStep::Ask(next) => step@ == CheckStepView::Ask(next@),
            CheckStep::Done(Ok(event)) => step@ == CheckStepView::Done(Ok(event_of(event))),
            CheckStep::Done(Err(e)) => step@ == CheckStepView::Done(Err(e@)),
        },
        match probe {
            Probe::PrMerged { repo, number } => probe@ == (ProbeView::PrMerged {
                repo: repo@,
                number,
            }),
            Probe::PrClosed { repo, number } => probe@ == (ProbeView::PrClosed {
                repo: repo@,
                number,
            }),
            Probe::Reviews { repo, number, page } => probe@ == (ProbeView::Reviews {
                repo: repo@,
                number,
                page,
            }),
            Probe::IssueClosed { repo, number } => probe@ == (ProbeView::IssueClosed {
                repo: repo@,
                number,
            }),
            Probe::Label { thing, repo, number, name, was_present } => probe@
                == (ProbeView::Label { thing, repo: repo@, number, name: name@, was_present }),
            Probe::NewComment { repo, number, baseline } => probe@ == (ProbeView::NewComment {
                repo: repo@,
                number,
                baseline,
            }),
            Probe::CiRun { repo, number, wanted } => probe@ == (ProbeView::CiRun {
                repo: repo@,
                number,
                wanted,
            }),
            Probe::CiHead { repo, number, wanted } => probe@ == (ProbeView::CiHead {
                repo: repo@,
                number,
                wanted,
            }),
            Probe::CiChecks { repo, number, wanted, sha, page, checks } => probe@
                == (ProbeView::CiChecks {
                repo: repo@,
                number,
                wanted,
                sha: sha@,
                page,
                checks: check_views(checks@),
            }),
        },
{
}

/// A change of the table stands for itself.
pub proof fn law_change_stands_for_itself(change: Change)
    ensures
        match change {
            Change::Insert(row) => change@ == ChangeView::Insert(row@),
            Change::SetStatus { at, status } => change@ == (ChangeView::SetStatus {
                at: at as int,
                status: status@,
            }),
            Change::SetFired { at, event_data } => change@ == (ChangeView::SetFired {
                at: at as int,
                event_data: event_data@,
            }),
            Change::Delete { at } => change@ == (ChangeView::Delete { at: at as int }),
        },
{
}

/// A failure stands for itself, and so does a result that may be one.
pub proof fn law_failure_stands_for_itself(e: Error, n: i64, s: String)
    ensures
        match e {
            Fault::InvalidDuration(t) => e@ == Fault::InvalidDuration(t@),
            Fault::NegativeDuration(t) => e@ == Fault::NegativeDuration(t@),
            Fault::DurationOverflow(t) => e@ == Fault::DurationOverflow(t@),
            Fault::UnknownDurationUnit(t) => e@ == Fault::UnknownDurationUnit(t@),
            Fault::InvalidNumber(t) => e@ == Fault::InvalidNumber(t@),
            Fault::InvalidGitHubCondition { kind, event } => e@
                == (Fault::InvalidGitHubCondition { kind: kind@, event: event@ }),
            Fault::UnknownSource(t) => e@ == Fault::UnknownSource(t@),
            Fault::GhNotRun(t) => e@ == Fault::GhNotRun(t@),
            Fault::InvalidCommentCount(i) => e@ == Fault::<Seq<char>>::InvalidCommentCount(i),
            Fault::GhApiFailed(t) => e@ == Fault::GhApiFailed(t@),
            Fault::NotActive(t) => e@ == Fault::NotActive(t@),
            Fault::NotFound(t) => e@ == Fault::NotFound(t@),
            Fault::WaitNotFound(t) => e@ == Fault::WaitNotFound(t@),
            Fault::EmptyDuration => e@ is EmptyDuration,
            Fault::TimerNeedsDuration => e@ is TimerNeedsDuration,
            Fault::GitHubUsage => e@ is GitHubUsage,
            Fault::RepoRequired => e@ is RepoRequired,
            Fault::WebhookUnsupported => e@ is WebhookUnsupported,
            Fault::LabelCheckFailed => e@ is LabelCheckFailed,
            Fault::CommentCountFailed => e@ is CommentCountFailed,
            Fault::DuplicateId => e@ is DuplicateId,
            Fault::StatusNotText => e@ is StatusNotText,
            Fault::WaitExpired => e@ is WaitExpired,
            Fault::WaitCancelled => e@ is WaitCancelled,
        },
        fault_of(Ok::<i64, Error>(n)) == Ok::<i64, Fault<Seq<char>>>(n),
        fault_of(Err::<i64, Error>(e)) == Err::<i64, Fault<Seq<char>>>(e@),
        text_result(Ok(s)) == Ok::<Seq<char>, Fault<Seq<char>>>(s@),
        text_result(Err(e)) == Err::<Seq<char>, Fault<Seq<char>>>(e@),
        step_of(Err(e)) == Err::<StepView, Fault<Seq<char>>>(e@),
{
}

} // verus!
