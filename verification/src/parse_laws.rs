//! What holds of reading a condition, said of the words, of what `gh` printed, and of what a
//! later check makes of it.
use crate::checker::github::{first_probe, CheckStepView};
use crate::checker::timer::timer_reports;
use crate::condition::{ConditionView, GitHubConditionView, Watch};
use crate::duration::duration_secs;
use crate::error::Fault;
use crate::gh::{
    api_answer, checks_endpoint, issue_endpoint,
    pull_endpoint, reviews_endpoint, run_endpoint, GhOutput, GhReply,
};
use crate::numeral::{decimal, i64_of, IntError};
use crate::outside::{json_strings, lossy_text};
use crate::parse::{first_step, timer_fits, with_repo, StepView, Thing};
use crate::text::{lists, trimmed};
use vstd::prelude::*;
use vstd::string::*;

verus! {

// ---------------------------------------------------------------------------
// Timers
// ---------------------------------------------------------------------------

/// A timer fires that long after it was made: made at `now` with a duration of `secs`
/// seconds, it has run out at a later reading of the clock exactly where at least `secs`
/// seconds have gone by.
pub proof fn law_timer_fires_that_long_after_it_was_made(
    args: Seq<Seq<char>>,
    repo: Option<Seq<char>>,
    now: i64,
    secs: i64,
    later: i64,
    told: i64,
)
    requires
        args.len() > 0,
        duration_secs(args[0]) == Ok::<i64, Fault<Seq<char>>>(secs),
        now + secs <= i64::MAX,
    ensures
        timer_fits("timer"@, args, now) || trimmed(args[0]).last() as u32 > 127,
        match first_step("timer"@, args, repo, now) {
            Ok(StepView::Done(ConditionView::Timer { duration, fire_at })) => {
                &&& duration == args[0]
                &&& fire_at - now == secs
                &&& timer_reports(fire_at, duration, later, told) is Some <==> later - now >= secs
            },
            _ => false,
        },
{
}

/// The event of a timer that ran out tells its duration as it was given, and the time.
pub proof fn law_timer_event_tells_duration_and_time(
    fire_at: i64,
    duration: Seq<char>,
    now: i64,
    told: i64,
)
    ensures
        match timer_reports(fire_at, duration, now, told) {
            Some(event) => {
                &&& now >= fire_at
                &&& event.texts == seq![
                    ("source"@, "timer"@),
                    ("type"@, "timer_expired"@),
                    ("duration"@, duration),
                ]
                &&& event.numbers == seq![("fired_at"@, told)]
                &&& event.checks is None
            },
            None => now < fire_at,
        },
{
}

/// A timer is refused without a duration, and with one that is refused, for its reason; the
/// words of other sources are never held back by the clock.
pub proof fn law_timers_refused(
    args: Seq<Seq<char>>,
    repo: Option<Seq<char>>,
    source: Seq<char>,
    now: i64,
)
    ensures
        args.len() == 0 ==> first_step("timer"@, args, repo, now) == Err::<
            StepView,
            Fault<Seq<char>>,
        >(Fault::TimerNeedsDuration),
        args.len() > 0 && duration_secs(args[0]) is Err ==> first_step("timer"@, args, repo, now)
            == Err::<StepView, Fault<Seq<char>>>(duration_secs(args[0])->Err_0),
        source != "timer"@ || args.len() == 0 ==> timer_fits(source, args, now),
        args.len() > 0 && duration_secs(args[0]) is Ok && now + duration_secs(args[0])->Ok_0
            > i64::MAX ==> !timer_fits("timer"@, args, now),
{
}

// ---------------------------------------------------------------------------
// Words
// ---------------------------------------------------------------------------

/// The three words of a GitHub condition are taken as they stand, with the repository of the
/// command line, whatever follows them; the second has to be a number.
pub proof fn law_three_words_are_taken(
    args: Seq<Seq<char>>,
    repo: Option<Seq<char>>,
    now: i64,
)
    ensures
        args.len() < 3 ==> first_step("github"@, args, repo, now) == Err::<
            StepView,
            Fault<Seq<char>>,
        >(Fault::GitHubUsage),
        args.len() >= 3 ==> match i64_of(args[1]) {
            Ok(number) => first_step("github"@, args, repo, now) == Ok::<
                StepView,
                Fault<Seq<char>>,
            >(StepView::DetectRepo { kind: args[0], number, event: args[2], repo }),
            Err(_) => first_step("github"@, args, repo, now) == Err::<StepView, Fault<Seq<char>>>(
                Fault::InvalidNumber(args[1]),
            ),
        },
{
    reveal_strlit("github");
    reveal_strlit("timer");
    assert("github"@.len() != "timer"@.len());
}

/// Every other source is refused: `webhook` as not there yet, the rest as unknown.
pub proof fn law_other_sources_are_refused(
    source: Seq<char>,
    args: Seq<Seq<char>>,
    repo: Option<Seq<char>>,
    now: i64,
)
    requires
        source != "timer"@,
        source != "github"@,
        source != "ci"@,
        source != "issue"@,
    ensures
        first_step(source, args, repo, now) == Err::<StepView, Fault<Seq<char>>>(
            if source == "webhook"@ {
                Fault::WebhookUnsupported
            } else {
                Fault::UnknownSource(source)
            },
        ),
{
}

/// The given repository goes before the detected one, which only stands in for it; without
/// either nothing is read, whatever is asked for.
pub proof fn law_given_repository_goes_first(
    kind: Seq<char>,
    number: i64,
    event: Seq<char>,
    repo: Seq<char>,
    detected: Option<Seq<char>>,
)
    ensures
        with_repo(kind, number, event, Some(repo), detected) == with_repo(
            kind,
            number,
            event,
            None,
            Some(repo),
        ),
        with_repo(kind, number, event, None, None) == Err::<StepView, Fault<Seq<char>>>(
            Fault::RepoRequired,
        ),
{
}

proof fn lemma_words_differ()
    ensures
        "pr"@.len() == 2,
        "ci"@.len() == 2,
        "pr"@[0] == 'p',
        "ci"@[0] == 'c',
        "issue"@.len() == 5,
        "merged"@.len() == 6,
        "merged"@[0] == 'm',
        "closed"@.len() == 6,
        "closed"@[0] == 'c',
        "label:"@.len() == 6,
        "label:"@[0] == 'l',
        "review-approved"@.len() == 15,
        "review-approved"@[0] == 'r',
        "new-comment"@.len() == 11,
        "new-comment"@[0] == 'n',
        "ci-passed"@.len() == 9,
        "ci-passed"@[0] == 'c',
        "success"@.len() == 7,
        "success"@[0] == 's',
        "failure"@.len() == 7,
        "failure"@[0] == 'f',
        "completed"@.len() == 9,
        "completed"@[0] == 'c',
{
    reveal_strlit("pr");
    reveal_strlit("ci");
    reveal_strlit("issue");
    reveal_strlit("merged");
    reveal_strlit("closed");
    reveal_strlit("label:");
    reveal_strlit("review-approved");
    reveal_strlit("new-comment");
    reveal_strlit("ci-passed");
    reveal_strlit("success");
    reveal_strlit("failure");
    reveal_strlit("completed");
}

/// Whether `word` is the label of a name.
proof fn lemma_label_word(word: Seq<char>, name: Seq<char>)
    requires
        word == "label:"@ + name,
    ensures
        "label:"@.is_prefix_of(word),
        word.skip("label:"@.len() as int) == name,
        word.len() >= 6,
        word[0] == 'l',
{
    lemma_words_differ();
    assert(word.take(6) =~= "label:"@);
    assert(word.skip(6) =~= name);
}

/// The words of whatever can be watched read back as it: for each thing to watch, its kind
/// and its event are read as that, of the given repository and number. A label and comments
/// are asked about first.
pub proof fn law_words_read_back(
    watch: Watch,
    number: i64,
    repo: Seq<char>,
    detected: Option<Seq<char>>,
)
    ensures
        with_repo(watch.kind(), number, watch.event(), Some(repo), detected) == Ok::<
            StepView,
            Fault<Seq<char>>,
        >(
            match watch {
                Watch::PrLabel { name, .. } => StepView::AskLabels {
                    thing: Thing::Pr,
                    repo,
                    number,
                    name,
                },
                Watch::IssueLabel { name, .. } => StepView::AskLabels {
                    thing: Thing::Issue,
                    repo,
                    number,
                    name,
                },
                Watch::PrNewComment { .. } => StepView::AskComments {
                    thing: Thing::Pr,
                    repo,
                    number,
                },
                Watch::IssueNewComment { .. } => StepView::AskComments {
                    thing: Thing::Issue,
                    repo,
                    number,
                },
                _ => StepView::Done(
                    ConditionView::GitHub(GitHubConditionView { repo, number, watch }),
                ),
            },
        ),
{
    lemma_words_differ();
    if let Watch::PrLabel { name, .. } = watch {
        lemma_label_word(watch.event(), name);
    }
    if let Watch::IssueLabel { name, .. } = watch {
        lemma_label_word(watch.event(), name);
    }
    if "label:"@.is_prefix_of(watch.event()) {
        assert(watch.event()[0] == "label:"@[0]);
    }
}

/// Nothing else is read: words that are not those of something to watch are refused, and
/// told in the refusal.
pub proof fn law_other_words_are_refused(
    kind: Seq<char>,
    number: i64,
    event: Seq<char>,
    repo: Seq<char>,
    detected: Option<Seq<char>>,
)
    requires
        forall|watch: Watch| #[trigger] watch.kind() == kind ==> watch.event() != event,
    ensures
        with_repo(kind, number, event, Some(repo), detected) == Err::<StepView, Fault<Seq<char>>>(
            Fault::InvalidGitHubCondition { kind, event },
        ),
{
    let name = event.skip("label:"@.len() as int);
    if "label:"@.is_prefix_of(event) {
        assert("label:"@ + name =~= event);
    }
    assert(Watch::PrMerged.kind() == "pr"@);
    assert(Watch::PrClosed.kind() == "pr"@);
    assert(Watch::PrReviewApproved.kind() == "pr"@);
    assert(Watch::PrCiPassed.kind() == "pr"@);
    assert((Watch::PrLabel { name, present_at_subscribe: true }).kind() == "pr"@);
    assert((Watch::PrNewComment { baseline: 0 }).kind() == "pr"@);
    assert(Watch::IssueClosed.kind() == "issue"@);
    assert((Watch::IssueLabel { name, present_at_subscribe: true }).kind() == "issue"@);
    assert((Watch::IssueNewComment { baseline: 0 }).kind() == "issue"@);
    assert(Watch::CiSuccess.kind() == "ci"@);
    assert(Watch::CiFailure.kind() == "ci"@);
    assert(Watch::CiCompleted.kind() == "ci"@);
}

// ---------------------------------------------------------------------------
// What was so at subscription
// ---------------------------------------------------------------------------

/// What the labels of a pull request and of an issue are asked for with, and the comments:
/// both are those of the issue with that number, in that repository.
pub proof fn law_what_is_asked_at_subscription(
    thing: Thing,
    repo: Seq<char>,
    number: i64,
    name: Seq<char>,
)
    ensures
        (StepView::AskLabels { thing, repo, number, name }).question() == Some(
            seq![
                "api"@,
                "repos/"@ + repo + "/issues/"@ + decimal(number as int),
                "--jq"@,
                "[.labels[].name]"@,
            ],
        ),
        (StepView::AskComments { thing, repo, number }).question() == Some(
            seq![
                "api"@,
                "repos/"@ + repo + "/issues/"@ + decimal(number as int),
                "--jq"@,
                ".comments"@,
            ],
        ),
{
}

/// A label condition, on a pull request and on an issue alike, knows whether the label was
/// there: `present_at_subscribe` is true exactly where the label is among the names that
/// `gh` printed. What is printed that is no list of names has none.
pub proof fn law_label_is_remembered(
    kind: Seq<char>,
    name: Seq<char>,
    number: i64,
    repo: Seq<char>,
    detected: Option<Seq<char>>,
    output: GhOutput,
)
    requires
        kind == "pr"@ || kind == "issue"@,
        output.success,
    ensures
        ({
            let names = json_strings(trimmed(lossy_text(output.stdout@)));
            let there = names is Some && names->0.contains(name);
            match with_repo(kind, number, "label:"@ + name, Some(repo), detected) {
                Ok(step) => match step.after(Ok(output)) {
                    Ok(StepView::Done(ConditionView::GitHub(gh))) => {
                        &&& gh.repo == repo
                        &&& gh.number == number
                        &&& kind == "pr"@ ==> gh.watch == (Watch::PrLabel {
                            name,
                            present_at_subscribe: there,
                        })
                        &&& kind == "issue"@ ==> gh.watch == (Watch::IssueLabel {
                            name,
                            present_at_subscribe: there,
                        })
                    },
                    _ => false,
                },
                Err(_) => false,
            }
        }),
{
    lemma_words_differ();
    lemma_label_word("label:"@ + name, name);
}

/// A label that was there at subscription never fires in any later check; one that was not
/// fires in the first check that finds it.
pub proof fn law_only_an_added_label_fires(
    kind: Seq<char>,
    name: Seq<char>,
    number: i64,
    repo: Seq<char>,
    detected: Option<Seq<char>>,
    output: GhOutput,
    labels: Seq<char>,
)
    requires
        kind == "pr"@ || kind == "issue"@,
        output.success,
    ensures
        ({
            let names = json_strings(trimmed(lossy_text(output.stdout@)));
            let there = names is Some && names->0.contains(name);
            match with_repo(kind, number, "label:"@ + name, Some(repo), detected) {
                Ok(step) => match step.after(Ok(output)) {
                    Ok(StepView::Done(ConditionView::GitHub(gh))) =>
                        match first_probe(gh).after(Ok(labels)) {
                            CheckStepView::Done(Ok(event)) => event is Some <==> !there && lists(
                                labels,
                                ',',
                                name,
                            ),
                            _ => false,
                        },
                    _ => false,
                },
                Err(_) => false,
            }
        }),
{
    law_label_is_remembered(kind, name, number, repo, detected, output);
    lemma_words_differ();
}

/// A comment condition remembers how many comments there were: the number that `gh` printed.
/// A later check fires exactly where there are more.
pub proof fn law_comments_are_remembered(
    kind: Seq<char>,
    number: i64,
    repo: Seq<char>,
    detected: Option<Seq<char>>,
    output: GhOutput,
    count: i64,
    answer: Seq<char>,
    later: i64,
)
    requires
        kind == "pr"@ || kind == "issue"@,
        output.success,
        i64_of(trimmed(lossy_text(output.stdout@))) == Ok::<i64, IntError>(count),
        i64_of(answer) == Ok::<i64, IntError>(later),
    ensures
        match with_repo(kind, number, "new-comment"@, Some(repo), detected) {
            Ok(step) => match step.after(Ok(output)) {
                Ok(StepView::Done(ConditionView::GitHub(gh))) => {
                    &&& gh.repo == repo
                    &&& gh.number == number
                    &&& kind == "pr"@ ==> gh.watch == (Watch::PrNewComment { baseline: count })
                    &&& kind == "issue"@ ==> gh.watch == (Watch::IssueNewComment {
                        baseline: count,
                    })
                    &&& match first_probe(gh).after(Ok(answer)) {
                        CheckStepView::Done(Ok(event)) => event is Some <==> later > count,
                        _ => false,
                    }
                },
                _ => false,
            },
            Err(_) => false,
        },
{
    lemma_words_differ();
    if "label:"@.is_prefix_of("new-comment"@) {
        assert("new-comment"@[0] == "label:"@[0]);
    }
}

/// Where `gh` cannot be run, or fails, no baseline is made up: the condition is refused, and
/// so is a count of comments that is no number.
pub proof fn law_no_baseline_is_made_up(
    thing: Thing,
    repo: Seq<char>,
    number: i64,
    name: Seq<char>,
    reply: GhReply,
)
    ensures
        ({
            let labels = StepView::AskLabels { thing, repo, number, name }.after(reply);
            let comments = StepView::AskComments { thing, repo, number }.after(reply);
            match reply {
                Err(reason) => {
                    &&& labels == Err::<StepView, Fault<Seq<char>>>(Fault::GhNotRun(reason@))
                    &&& comments == Err::<StepView, Fault<Seq<char>>>(Fault::GhNotRun(reason@))
                },
                Ok(output) => if !output.success {
                    &&& labels == Err::<StepView, Fault<Seq<char>>>(Fault::LabelCheckFailed)
                    &&& comments == Err::<StepView, Fault<Seq<char>>>(Fault::CommentCountFailed)
                } else {
                    match i64_of(trimmed(lossy_text(output.stdout@))) {
                        Err(e) => comments == Err::<StepView, Fault<Seq<char>>>(
                            Fault::InvalidCommentCount(e),
                        ),
                        Ok(_) => comments is Ok,
                    }
                },
            }
        }),
{
}

/// Asking for the repository takes what `gh` printed for it, and is no failure where `gh`
/// fails or cannot be run: it is then as if there were none.
pub proof fn law_repository_is_what_gh_printed(
    kind: Seq<char>,
    number: i64,
    event: Seq<char>,
    repo: Option<Seq<char>>,
    reply: GhReply,
)
    ensures
        (StepView::DetectRepo { kind, number, event, repo }).question() == Some(
            seq![
                "repo"@,
                "view"@,
                "--json"@,
                "nameWithOwner"@,
                "--jq"@,
                ".nameWithOwner"@,
            ],
        ),
        (StepView::DetectRepo { kind, number, event, repo }).after(reply) == with_repo(
            kind,
            number,
            event,
            repo,
            if reply is Ok && reply->Ok_0.success {
                Some(trimmed(lossy_text(reply->Ok_0.stdout@)))
            } else {
                None
            },
        ),
{
}

/// What is read stays read, and nothing more is asked.
pub proof fn law_what_is_read_stays(condition: ConditionView, reply: GhReply)
    ensures
        StepView::Done(condition).question() is None,
        StepView::Done(condition).after(reply) == Ok::<StepView, Fault<Seq<char>>>(
            StepView::Done(condition),
        ),
{
}

// ---------------------------------------------------------------------------
// Answers and endpoints
// ---------------------------------------------------------------------------

/// An answer of the API is what `gh` printed, without white space round it, where it
/// succeeded; else the failure tells what it printed as its error, or why it did not run.
pub proof fn law_answers_are_what_gh_printed(reply: GhReply)
    ensures
        api_answer(reply) == match reply {
            Err(reason) => Err::<Seq<char>, Fault<Seq<char>>>(Fault::GhNotRun(reason@)),
            Ok(output) => if output.success {
                Ok(trimmed(lossy_text(output.stdout@)))
            } else {
                Err(Fault::GhApiFailed(lossy_text(output.stderr@)))
            },
        },
{
}

/// The endpoints of the API, for every repository and number.
pub proof fn law_endpoints(repo: Seq<char>, number: i64, sha: Seq<char>, page: u32)
    ensures
        pull_endpoint(repo, number) == "repos/"@ + repo + "/pulls/"@ + decimal(number as int),
        issue_endpoint(repo, number) == "repos/"@ + repo + "/issues/"@ + decimal(number as int),
        run_endpoint(repo, number) == "repos/"@ + repo + "/actions/runs/"@ + decimal(
            number as int,
        ),
        checks_endpoint(repo, sha, page) == "repos/"@ + repo + "/commits/"@ + sha
            + "/check-runs?per_page=100&page="@ + decimal(page as int),
        reviews_endpoint(repo, number, page) == "repos/"@ + repo + "/pulls/"@ + decimal(
            number as int,
        ) + "/reviews?per_page=100&page="@ + decimal(page as int),
{
}

} // verus!
