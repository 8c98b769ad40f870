//! What holds of every event that a check can report.
use crate::checker::timer::timer_event;
use crate::checker::verdict::{
    checks_event, issue_closed_event, label_added_event, new_comment_event,
    pr_closed_event, pr_merged_event, review_approved_event, run_event, thing_key,
};
use crate::event::{CheckRunView, EventView};
use crate::outside::{object_keys, occurs_once};
use crate::parse::Thing;
use vstd::prelude::*;
use vstd::string::*;

verus! {

/// Whether every text of an event has a key of its own, so that it is read back from the
/// event's JSON.
pub open spec fn texts_read_back(event: EventView) -> bool {
    forall|i: int| 0 <= i < event.texts.len() ==> event.has_once((#[trigger] event.texts[i]).0)
}

/// The length and the first character of a key.
spec fn mark(key: Seq<char>) -> (nat, char) {
    (key.len(), key[0])
}

/// No two of the keys of events have one length and one first character.
proof fn lemma_marks()
    ensures
        mark("source"@) == (6nat, 's'),
        mark("type"@) == (4nat, 't'),
        mark("repo"@) == (4nat, 'r'),
        mark("label"@) == (5nat, 'l'),
        mark("merged_at"@) == (9nat, 'm'),
        mark("conclusion"@) == (10nat, 'c'),
        mark("duration"@) == (8nat, 'd'),
        mark("pr"@) == (2nat, 'p'),
        mark("issue"@) == (5nat, 'i'),
        mark("run"@) == (3nat, 'r'),
        mark("number"@) == (6nat, 'n'),
        mark("new_count"@) == (9nat, 'n'),
        mark("baseline"@) == (8nat, 'b'),
        mark("fired_at"@) == (8nat, 'f'),
        mark("checks"@) == (6nat, 'c'),
{
    reveal_strlit("source");
    reveal_strlit("type");
    reveal_strlit("repo");
    reveal_strlit("label");
    reveal_strlit("merged_at");
    reveal_strlit("conclusion");
    reveal_strlit("duration");
    reveal_strlit("pr");
    reveal_strlit("issue");
    reveal_strlit("run");
    reveal_strlit("number");
    reveal_strlit("new_count");
    reveal_strlit("baseline");
    reveal_strlit("fired_at");
    reveal_strlit("checks");
}

/// Where the keys of an event are all different, its texts are read back.
proof fn lemma_different_keys(event: EventView, keys: Seq<Seq<char>>)
    requires
        keys == object_keys(event.texts, event.numbers, event.objects()),
        forall|i: int, j: int|
            0 <= i < j < keys.len() ==> mark(#[trigger] keys[i]) != mark(#[trigger] keys[j]),
    ensures
        texts_read_back(event),
{
    assert forall|i: int| 0 <= i < event.texts.len() implies event.has_once(
        (#[trigger] event.texts[i]).0,
    ) by {
        let key = event.texts[i].0;
        assert(keys[i] == key);
        assert forall|j: int| 0 <= j < keys.len() && j != i implies #[trigger] keys[j] != key by {
            if j < i {
                assert(mark(keys[j]) != mark(keys[i]));
            } else {
                assert(mark(keys[i]) != mark(keys[j]));
            }
        }
        assert(occurs_once(keys, key));
    }
}

/// The event of a timer has its source, its type and its duration under keys of their
/// own.
pub proof fn law_timer_event_reads_back(duration: Seq<char>, fired_at: i64)
    ensures
        texts_read_back(timer_event(duration, fired_at)),
{
    let event = timer_event(duration, fired_at);
    let keys = seq!["source"@, "type"@, "duration"@, "fired_at"@];
    lemma_marks();
    assert(object_keys(event.texts, event.numbers, event.objects()) =~= keys);
    lemma_different_keys(event, keys);
}

/// The event of a pull request that was merged has its source, its type, its repository
/// and the time under keys of their own.
pub proof fn law_merge_event_reads_back(repo: Seq<char>, number: i64, merged_at: Seq<char>)
    ensures
        texts_read_back(pr_merged_event(repo, number, merged_at)),
{
    lemma_marks();
    let event = pr_merged_event(repo, number, merged_at);
    let keys = seq!["source"@, "type"@, "repo"@, "merged_at"@, "pr"@];
    assert(object_keys(event.texts, event.numbers, event.objects()) =~= keys);
    lemma_different_keys(event, keys);
}

/// The event of a pull request or an issue that was closed, or a pull request that was
/// approved, has its source, its type and its repository under keys of their own.
pub proof fn law_closing_events_read_back(repo: Seq<char>, number: i64)
    ensures
        texts_read_back(review_approved_event(repo, number)),
        texts_read_back(pr_closed_event(repo, number)),
        texts_read_back(issue_closed_event(repo, number)),
{
    lemma_marks();
    let on_pr = seq!["source"@, "type"@, "repo"@, "pr"@];
    let on_issue = seq!["source"@, "type"@, "repo"@, "issue"@];
    let approved = review_approved_event(repo, number);
    assert(object_keys(approved.texts, approved.numbers, approved.objects()) =~= on_pr);
    lemma_different_keys(approved, on_pr);
    let closed = pr_closed_event(repo, number);
    assert(object_keys(closed.texts, closed.numbers, closed.objects()) =~= on_pr);
    lemma_different_keys(closed, on_pr);
    let issue = issue_closed_event(repo, number);
    assert(object_keys(issue.texts, issue.numbers, issue.objects()) =~= on_issue);
    lemma_different_keys(issue, on_issue);
}

/// The event of a label that was set has its source, its type, its repository and its
/// label under keys of their own.
pub proof fn law_label_event_reads_back(
    repo: Seq<char>,
    number: i64,
    label: Seq<char>,
    thing: Thing,
)
    ensures
        texts_read_back(label_added_event(repo, number, label, thing)),
{
    lemma_marks();
    let event = label_added_event(repo, number, label, thing);
    let keys = seq!["source"@, "type"@, "repo"@, "label"@, thing_key(thing)];
    assert(object_keys(event.texts, event.numbers, event.objects()) =~= keys);
    lemma_different_keys(event, keys);
}

/// The event of a new comment has its source, its type and its repository under keys of
/// their own.
pub proof fn law_comment_event_reads_back(
    repo: Seq<char>,
    number: i64,
    new_count: i64,
    baseline: i64,
)
    ensures
        texts_read_back(new_comment_event(repo, number, new_count, baseline)),
{
    lemma_marks();
    let event = new_comment_event(repo, number, new_count, baseline);
    let keys = seq!["source"@, "type"@, "repo"@, "number"@, "new_count"@, "baseline"@];
    assert(object_keys(event.texts, event.numbers, event.objects()) =~= keys);
    lemma_different_keys(event, keys);
}

/// The event of a run, and that of a pull request's checks, has its source, its type, its
/// repository and its conclusion under keys of their own.
pub proof fn law_ci_events_read_back(
    repo: Seq<char>,
    number: i64,
    conclusion: Seq<char>,
    checks: Seq<CheckRunView>,
)
    ensures
        texts_read_back(run_event(repo, number, conclusion)),
        texts_read_back(checks_event(repo, number, conclusion, checks)),
{
    lemma_marks();
    let run = run_event(repo, number, conclusion);
    let run_keys = seq!["source"@, "type"@, "repo"@, "conclusion"@, "run"@];
    assert(object_keys(run.texts, run.numbers, run.objects()) =~= run_keys);
    lemma_different_keys(run, run_keys);
    let all = checks_event(repo, number, conclusion, checks);
    let all_keys = seq!["source"@, "type"@, "repo"@, "conclusion"@, "pr"@, "checks"@];
    assert(object_keys(all.texts, all.numbers, all.objects()) =~= all_keys);
    lemma_different_keys(all, all_keys);
}

} // verus!
