//! What holds of making, firing, awaiting and showing subscriptions, said of what goes in and
//! what comes out.
use crate::cli::{OnArgs, WaitArgs};
use crate::condition::{ConditionView, GitHubConditionView, Watch};
use crate::daemon::{
    dispatched, fires, outcome_event, process_dir, round_rows, settled_rows, waited, Outcome,
    WaitView,
};
use crate::duration::duration_secs;
use crate::error::{Error, Fault};
use crate::numeral::{decimal, i64_of};
use crate::outside::is_uuid_v4;
use crate::report::{list_text, status_text, sub_line};
use crate::row::{sub_in, RowView, Stamp};
use crate::schedule::{due_subs, is_due, last_poll, poll_secs, polled_after};
use crate::store::{
    lemma_row_at, lemma_row_of, row_of, sub_with_id, unique_ids, with_expired,
    StatusCounts,
};
use crate::store_laws::{lemma_row_of_expired, unique_subs};
use crate::subscription::{
    expired_at, on_made_at, timeout_fits, wait_made_at, Subscription, SubscriptionView,
};
use crate::table_laws::{law_firing, time_is_over};
use crate::text::{text_of, trimmed};
use crate::text_laws::law_process_numbers_are_numerals;
use vstd::prelude::*;

verus! {

// ---------------------------------------------------------------------------
// Making
// ---------------------------------------------------------------------------

/// A timeout is counted from the time at which the subscription was made, in the mode `wait`
/// as in the mode `on`, and for every condition; a `wait` without one has 3600 seconds, an
/// `on` without one has no end; a timeout that is no duration is refused for its reason.
pub proof fn law_timeout_is_counted_from_the_making(
    waiting: Result<Subscription, Error>,
    wait: WaitArgs,
    registered: Result<Subscription, Error>,
    on: OnArgs,
    condition: ConditionView,
    now: i64,
    timeout: Seq<char>,
)
    requires
        wait_made_at(waiting, wait, condition, now),
        on_made_at(registered, on, condition, now),
        now <= i64::MAX - 3600,
        timeout_fits(Some(timeout), now),
    ensures
        wait.timeout is None ==> (waiting matches Ok(s) && s.created_at == now
            && s.expires_at->0 == now + 3600 && s.expires_at is Some),
        on.timeout is None ==> (registered matches Ok(s) && s.created_at == now
            && s.expires_at is None),
        text_of(wait.timeout) == Some(timeout) ==> match duration_secs(timeout) {
            Ok(secs) => waiting is Ok && waiting->Ok_0.created_at == now
                && waiting->Ok_0.expires_at is Some && waiting->Ok_0.expires_at->0 - now == secs,
            Err(e) => waiting is Err && waiting->Err_0@ == e,
        },
        text_of(on.timeout) == Some(timeout) ==> match duration_secs(timeout) {
            Ok(secs) => registered is Ok && registered->Ok_0.created_at == now
                && registered->Ok_0.expires_at is Some && registered->Ok_0.expires_at->0 - now
                == secs,
            Err(e) => registered is Err && registered->Err_0@ == e,
        },
{
}

/// What is made is what was asked for: the mode, the command of `on` and none of `wait`, the
/// condition and the name of its source, active, without an event, under a random UUID.
pub proof fn law_made_as_asked_for(
    waiting: Result<Subscription, Error>,
    wait: WaitArgs,
    registered: Result<Subscription, Error>,
    on: OnArgs,
    condition: ConditionView,
    now: i64,
)
    requires
        wait_made_at(waiting, wait, condition, now),
        on_made_at(registered, on, condition, now),
    ensures
        waiting matches Ok(s) ==> {
            &&& s.mode@ == "wait"@
            &&& s.callback is None
            &&& s.status@ == "active"@
            &&& s.event_data is None
            &&& s.condition@ == condition
            &&& s.source@ == (if condition is Timer {
                "timer"@
            } else {
                "github"@
            })
            &&& is_uuid_v4(s.id@)
        },
        registered matches Ok(s) ==> {
            &&& s.mode@ == "on"@
            &&& s.callback is Some
            &&& s.callback->0@ == on.run@
            &&& s.status@ == "active"@
            &&& s.event_data is None
            &&& s.condition@ == condition
            &&& s.source@ == (if condition is Timer {
                "timer"@
            } else {
                "github"@
            })
            &&& is_uuid_v4(s.id@)
        },
{
}

/// A timeout can be counted where there is none, and else where the moment that it ends at is
/// an `i64`.
pub proof fn law_which_timeouts_can_be_counted(timeout: Seq<char>, now: i64, secs: i64)
    requires
        duration_secs(timeout) == Ok::<i64, Fault<Seq<char>>>(secs),
        trimmed(timeout).last() as u32 <= 127,
    ensures
        timeout_fits(None, now),
        timeout_fits(Some(timeout), now) <==> now + secs <= i64::MAX,
{
}

/// A subscription has expired from its expiry on, and never without one.
pub proof fn law_expired_from_its_expiry_on(expiry: i64, now: i64)
    ensures
        expired_at(Some(expiry), now) <==> expiry <= now,
        !expired_at(None, now),
{
}

/// An identifier has 36 characters, four of them hyphens, the others digits of base sixteen.
pub proof fn law_form_of_an_identifier(id: Seq<char>, i: int)
    requires
        is_uuid_v4(id),
        0 <= i < 36,
    ensures
        id.len() == 36,
        id[i] == '-' <==> i == 8 || i == 13 || i == 18 || i == 23,
        id[i] == '-' || '0' <= id[i] <= '9' || 'a' <= id[i] <= 'f',
        id[14] == '4',
{
}

// ---------------------------------------------------------------------------
// Firing
// ---------------------------------------------------------------------------

/// What a check that came out tells: the JSON of its event where it found one, and nothing
/// where it found none or failed.
pub proof fn law_what_an_outcome_tells(outcome: Outcome)
    ensures
        match outcome {
            Ok(Some(event)) => outcome_event(outcome) == Some(event@.json()),
            Ok(None) => outcome_event(outcome) is None,
            Err(_) => outcome_event(outcome) is None,
        },
{
}

/// A subscription whose condition is met and whose row is active fires, whatever its source,
/// mode or condition: its row has the status `fired` and the event, and nothing else changes.
/// In the mode `on`, with a command, that command is dispatched with the event.
pub proof fn law_met_and_active_fires(
    rows: Seq<RowView>,
    sub: SubscriptionView,
    event: Seq<char>,
    i: int,
    other: int,
)
    requires
        unique_ids(rows),
        0 <= i < rows.len(),
        rows[i].id == Some(sub.id),
        rows[i].status == Some("active"@),
        0 <= other < rows.len(),
    ensures
        fires(rows, sub, Some(event)),
        settled_rows(rows, sub, Some(event)).len() == rows.len(),
        settled_rows(rows, sub, Some(event))[i] == (RowView {
            status: Some("fired"@),
            event_data: Some(event),
            ..rows[i]
        }),
        other != i ==> settled_rows(rows, sub, Some(event))[other] == rows[other],
        sub.mode == "on"@ && sub.callback is Some ==> dispatched(rows, sub, Some(event)) == Some(
            (sub.callback->0, event),
        ),
        sub.mode != "on"@ || sub.callback is None ==> dispatched(rows, sub, Some(event)) is None,
{
    lemma_row_at(rows, i);
    law_firing(rows, sub.id, event, i);
    law_firing(rows, sub.id, event, other);
    if other < i && rows[other].id is Some {
        assert(rows[other].id != rows[i].id);
    } else if other > i {
        assert(rows[i].id != rows[other].id);
    }
}

/// What is not met, or has no active row any more, does not fire: nothing changes, and no
/// command is dispatched.
pub proof fn law_unmet_or_not_active_does_not_fire(
    rows: Seq<RowView>,
    sub: SubscriptionView,
    event: Option<Seq<char>>,
)
    requires
        event is None || (forall|i: int|
            0 <= i < rows.len() && (#[trigger] rows[i]).id == Some(sub.id) ==> rows[i].status
                != Some("active"@)),
    ensures
        !fires(rows, sub, event),
        settled_rows(rows, sub, event) == rows,
        dispatched(rows, sub, event) is None,
{
    lemma_row_of(rows, sub.id);
    if let Some(row) = row_of(rows, sub.id) {
        let k = choose|k: int| 0 <= k < rows.len() && rows[k] == row;
        assert(rows[k].id == Some(sub.id));
    }
    assert(settled_rows(rows, sub, event) =~= rows);
}

/// Over a whole round each subscription that is checked gets what it has to, said of the
/// columns of its row: fired with its event if its condition is met; else expired if its
/// expiry is at or before the end of the round; else unchanged.
pub proof fn law_round_in_columns(
    rows: Seq<RowView>,
    subs: Seq<SubscriptionView>,
    events: Seq<Option<Seq<char>>>,
    k: int,
    i: int,
    now: i64,
)
    requires
        events.len() == subs.len(),
        unique_subs(subs),
        unique_ids(rows),
        0 <= k < subs.len(),
        0 <= i < rows.len(),
        rows[i].id == Some(subs[k].id),
        rows[i].status == Some("active"@),
    ensures
        row_of(with_expired(round_rows(rows, subs, events), now), subs[k].id) == Some(
            match events[k] {
                Some(event) => RowView {
                    status: Some("fired"@),
                    event_data: Some(event),
                    ..rows[i]
                },
                None => if time_is_over(rows[i], now) {
                    RowView { status: Some("expired"@), ..rows[i] }
                } else {
                    rows[i]
                },
            },
        ),
{
    lemma_row_at(rows, i);
    crate::daemon::law_round_settles_each(rows, subs, events, k, now);
}

// ---------------------------------------------------------------------------
// Waiting
// ---------------------------------------------------------------------------

/// Who waits gets the event of a subscription that fired, is told where it expired, was
/// cancelled or is not there, and goes on waiting else, whatever the subscription is.
pub proof fn law_what_waiting_comes_to(sub: SubscriptionView, id: Seq<char>)
    ensures
        waited(None, id) == WaitView::Failed(Fault::WaitNotFound(id)),
        sub.status == "fired"@ && sub.event_data is Some ==> waited(Some(sub), id)
            == WaitView::Fired(sub.event_data->0),
        sub.status == "fired"@ && sub.event_data is None ==> waited(Some(sub), id)
            == WaitView::Fired("{\"status\":\"fired\"}"@),
        sub.status == "expired"@ ==> waited(Some(sub), id) == WaitView::Failed(
            Fault::WaitExpired,
        ),
        sub.status == "cancelled"@ ==> waited(Some(sub), id) == WaitView::Failed(
            Fault::WaitCancelled,
        ),
        sub.status != "fired"@ && sub.status != "expired"@ && sub.status != "cancelled"@
            ==> waited(Some(sub), id) == WaitView::Pending,
{
    crate::store_laws::lemma_statuses_differ();
}

/// A `wait` that ends because its time is over exits with one, and with two on any other
/// failure.
pub proof fn law_exit_status_of_a_wait(fault: Fault<Seq<char>>)
    ensures
        fault is WaitExpired ==> fault.wait_status() == 1,
        !(fault is WaitExpired) ==> fault.wait_status() == 2,
{
}

/// No process is looked for where the PID file holds no number.
pub proof fn law_no_number_no_process(pid_file: Seq<char>)
    requires
        i64_of(trimmed(pid_file)) is Err,
    ensures
        process_dir(pid_file) is None,
{
    law_process_numbers_are_numerals(trimmed(pid_file));
}

/// The daemon's process is looked for under the number in its PID file, white space aside,
/// and not at all where that is no number of a process.
pub proof fn law_process_of_a_pid_file(pid_file: Seq<char>, n: i64)
    requires
        i64_of(trimmed(pid_file)) == Ok::<i64, crate::numeral::IntError>(n),
    ensures
        trimmed(pid_file)[0] != '-' && n <= 4294967295 ==> process_dir(pid_file) == Some(
            "/proc/"@ + decimal(n as int),
        ),
        trimmed(pid_file)[0] == '-' || n > 4294967295 ==> process_dir(pid_file) is None,
{
    law_process_numbers_are_numerals(trimmed(pid_file));
}

// ---------------------------------------------------------------------------
// Polling
// ---------------------------------------------------------------------------

/// Runs are asked about every 30 seconds, pull requests every 60, issues every 120; timers
/// are not asked about.
pub proof fn law_intervals(gh: GitHubConditionView, duration: Seq<char>, fire_at: i64)
    ensures
        poll_secs(ConditionView::Timer { duration, fire_at }) is None,
        gh.watch.kind() == "ci"@ ==> poll_secs(ConditionView::GitHub(gh)) == Some(30u64),
        gh.watch.kind() == "pr"@ ==> poll_secs(ConditionView::GitHub(gh)) == Some(60u64),
        gh.watch.kind() == "issue"@ ==> poll_secs(ConditionView::GitHub(gh)) == Some(120u64),
{
    reveal_strlit("ci");
    reveal_strlit("pr");
    reveal_strlit("issue");
    assert("ci"@[0] != "pr"@[0]);
    assert("ci"@.len() != "issue"@.len());
    assert("pr"@.len() != "issue"@.len());
}

/// A subscription that was checked is due again when the seconds of its interval have gone
/// by, or its expiry is there, and not before; one that was not, or is a timer, is due.
pub proof fn law_when_a_check_is_due(
    sub: SubscriptionView,
    at: u64,
    tick: u64,
    now: i64,
    secs: u64,
)
    ensures
        is_due(sub, None, tick, now),
        poll_secs(sub.condition) is None ==> is_due(sub, Some(at), tick, now),
        poll_secs(sub.condition) == Some(secs) ==> (is_due(sub, Some(at), tick, now) <==> tick - at
            >= secs || (sub.expires_at is Some && sub.expires_at->0 <= now)),
{
}

proof fn lemma_filter_has_exactly(
    subs: Seq<SubscriptionView>,
    p: spec_fn(SubscriptionView) -> bool,
    sub: SubscriptionView,
)
    ensures
        subs.filter(p).contains(sub) <==> subs.contains(sub) && p(sub),
    decreases subs.len(),
{
    reveal(Seq::filter);
    if subs.len() > 0 {
        let front = subs.drop_last();
        let some = front.filter(p);
        let all = subs.filter(p);
        lemma_filter_has_exactly(front, p, sub);
        if all.contains(sub) {
            let k = choose|k: int| 0 <= k < all.len() && all[k] == sub;
            if k < some.len() {
                assert(some[k] == sub);
                let j = choose|j: int| 0 <= j < front.len() && front[j] == sub;
                assert(subs[j] == sub);
            } else {
                assert(subs[subs.len() - 1] == sub);
            }
        }
        if subs.contains(sub) && p(sub) {
            let k = choose|k: int| 0 <= k < subs.len() && subs[k] == sub;
            if k < front.len() {
                assert(front[k] == sub);
                let j = choose|j: int| 0 <= j < some.len() && some[j] == sub;
                assert(all[j] == sub);
            } else {
                assert(all[all.len() - 1] == sub);
            }
        }
    }
}

/// A round checks exactly those of the active subscriptions that are due, and remembers of
/// each when it was last checked: now where it is due, and else as before.
pub proof fn law_a_round_checks_what_is_due(
    subs: Seq<SubscriptionView>,
    polled: Seq<(Seq<char>, u64)>,
    tick: u64,
    now: i64,
    sub: SubscriptionView,
    k: int,
)
    requires
        0 <= k < subs.len(),
    ensures
        due_subs(subs, polled, tick, now).contains(sub) <==> subs.contains(sub) && is_due(
            sub,
            last_poll(polled, sub.id),
            tick,
            now,
        ),
        polled_after(subs, polled, tick, now).len() == subs.len(),
        polled_after(subs, polled, tick, now)[k].0 == subs[k].id,
        is_due(subs[k], last_poll(polled, subs[k].id), tick, now) ==> polled_after(
            subs,
            polled,
            tick,
            now,
        )[k].1 == tick,
        !is_due(subs[k], last_poll(polled, subs[k].id), tick, now) ==> last_poll(
            polled,
            subs[k].id,
        ) == Some(polled_after(subs, polled, tick, now)[k].1),
{
    lemma_filter_has_exactly(
        subs,
        |s: SubscriptionView| is_due(s, last_poll(polled, s.id), tick, now),
        sub,
    );
}

/// When something was last checked is what was noted last under its identifier.
pub proof fn law_last_note_counts(
    polled: Seq<(Seq<char>, u64)>,
    id: Seq<char>,
    other: Seq<char>,
    at: u64,
)
    ensures
        last_poll(Seq::empty(), id) is None,
        last_poll(polled.push((id, at)), id) == Some(at),
        other != id ==> last_poll(polled.push((other, at)), id) == last_poll(polled, id),
{
    assert(polled.push((other, at)).drop_last() =~= polled);
}

// ---------------------------------------------------------------------------
// Showing
// ---------------------------------------------------------------------------

/// The words of everything that can be watched.
pub proof fn law_words_of_what_is_watched(name: Seq<char>, present: bool, baseline: i64)
    ensures
        Watch::PrMerged.kind() == "pr"@ && Watch::PrMerged.event() == "merged"@,
        Watch::PrClosed.kind() == "pr"@ && Watch::PrClosed.event() == "closed"@,
        Watch::PrReviewApproved.kind() == "pr"@ && Watch::PrReviewApproved.event()
            == "review-approved"@,
        (Watch::PrLabel { name, present_at_subscribe: present }).kind() == "pr"@,
        (Watch::PrLabel { name, present_at_subscribe: present }).event() == "label:"@ + name,
        (Watch::PrNewComment { baseline }).kind() == "pr"@,
        (Watch::PrNewComment { baseline }).event() == "new-comment"@,
        Watch::PrCiPassed.kind() == "pr"@ && Watch::PrCiPassed.event() == "ci-passed"@,
        Watch::IssueClosed.kind() == "issue"@ && Watch::IssueClosed.event() == "closed"@,
        (Watch::IssueLabel { name, present_at_subscribe: present }).kind() == "issue"@,
        (Watch::IssueLabel { name, present_at_subscribe: present }).event() == "label:"@ + name,
        (Watch::IssueNewComment { baseline }).kind() == "issue"@,
        (Watch::IssueNewComment { baseline }).event() == "new-comment"@,
        Watch::CiSuccess.kind() == "ci"@ && Watch::CiSuccess.event() == "success"@,
        Watch::CiFailure.kind() == "ci"@ && Watch::CiFailure.event() == "failure"@,
        Watch::CiCompleted.kind() == "ci"@ && Watch::CiCompleted.event() == "completed"@,
{
}

/// The line of a subscription tells its identifier, its status, its source, its mode and its
/// condition: of a timer the duration, of a GitHub condition the repository, the kind, the
/// number and the event.
pub proof fn law_line_of_a_subscription(sub: SubscriptionView)
    ensures
        sub_line(sub) == sub.id + " "@ + sub.status + " "@ + sub.source + " "@ + sub.mode + " "@
            + match sub.condition {
            ConditionView::Timer { duration, .. } => "timer "@ + duration,
            ConditionView::GitHub(gh) => gh.repo + " "@ + gh.watch.kind() + " #"@ + decimal(
                gh.number as int,
            ) + " "@ + gh.watch.event(),
        },
        sub.condition.source_name() == if sub.condition is Timer {
            "timer"@
        } else {
            "github"@
        },
{
}

/// A list is shown line by line in its order, every one of its subscriptions with its own
/// line, and an empty one is said to be so.
pub proof fn law_every_subscription_has_its_line(subs: Seq<SubscriptionView>, i: int)
    ensures
        subs.len() == 0 ==> list_text(subs) == seq!["No subscriptions."@],
        subs.len() > 0 ==> list_text(subs).len() == subs.len(),
        0 <= i < subs.len() ==> list_text(subs)[i] == sub_line(subs[i]),
{
}

/// The status is shown in five lines, each with its own count.
pub proof fn law_lines_of_the_status(counts: StatusCounts, running: bool)
    ensures
        status_text(counts, running).len() == 5,
        status_text(counts, true)[0] == "Daemon: "@ + "running"@,
        status_text(counts, false)[0] == "Daemon: "@ + "stopped"@,
        status_text(counts, running)[1] == "Active:    "@ + decimal(counts.active as int),
        status_text(counts, running)[2] == "Fired:     "@ + decimal(counts.fired as int),
        status_text(counts, running)[3] == "Expired:   "@ + decimal(counts.expired as int),
        status_text(counts, running)[4] == "Cancelled: "@ + decimal(counts.cancelled as int),
{
}

/// A failure that speaks of a text tells it whole, whatever it is.
pub proof fn law_failures_tell_their_texts(s: Seq<char>, t: Seq<char>)
    ensures
        Fault::InvalidDuration(s).words() == "invalid duration: "@ + s,
        Fault::NegativeDuration(s).words() == "duration must not be negative: "@ + s,
        Fault::DurationOverflow(s).words() == "duration overflow: "@ + s,
        Fault::UnknownDurationUnit(s).words() == "unknown duration unit: "@ + s
            + ". Use s/m/h/d"@,
        Fault::InvalidNumber(s).words() == "invalid number: "@ + s,
        (Fault::InvalidGitHubCondition { kind: s, event: t }).words()
            == "invalid github condition: kind="@ + s + " event="@ + t
            + ". Valid: pr (merged|closed|review-approved|ci-passed|new-comment|label:X), issue (closed|new-comment|label:X), ci (success|failure|completed)"@,
        Fault::UnknownSource(s).words() == "unknown source: "@ + s
            + ". Supported: github, ci, issue, timer, webhook"@,
        Fault::GhNotRun(s).words() == s,
        Fault::GhApiFailed(s).words() == "gh api failed: "@ + s,
        Fault::NotActive(s).words() == "subscription "@ + s + " is not active"@,
        Fault::NotFound(s).words() == "subscription "@ + s + " not found"@,
        Fault::WaitNotFound(s).words() == "Subscription "@ + s + " not found"@,
{
}

// ---------------------------------------------------------------------------
// From end to end
// ---------------------------------------------------------------------------

/// What is made, stored and met reaches who asked for it: a new subscription that is stored
/// beside others and whose condition is met fires; who waits for it gets the event, where
/// that is JSON, and the command of an `on` is dispatched with it.
pub proof fn law_what_is_asked_for_comes(
    rows: Seq<RowView>,
    sub: SubscriptionView,
    event: Seq<char>,
)
    requires
        unique_ids(rows),
        forall|i: int| 0 <= i < rows.len() ==> (#[trigger] rows[i]).id != Some(sub.id),
        sub.status == "active"@,
        crate::outside::json_reads(event),
    ensures
        ({
            let stored = rows.push(crate::row::row_for(sub));
            let after = settled_rows(stored, sub, Some(event));
            &&& fires(stored, sub, Some(event))
            &&& waited(sub_with_id(after, sub.id), sub.id) == WaitView::Fired(event)
            &&& sub.mode == "on"@ && sub.callback is Some ==> dispatched(stored, sub, Some(event))
                == Some((sub.callback->0, event))
        }),
{
    let stored = rows.push(crate::row::row_for(sub));
    let last = rows.len() as int;
    assert forall|i: int, j: int|
        0 <= i < j < stored.len() && (#[trigger] stored[i]).id is Some implies stored[i].id != (
    #[trigger] stored[j]).id by {
        if j < last {
            assert(rows[i].id != rows[j].id);
        } else {
            assert(rows[i].id != Some(sub.id));
        }
    }
    law_met_and_active_fires(stored, sub, event, last, last);
    lemma_row_at(stored, last);
    crate::store_laws::law_fire_reads_back(stored, sub.id, event);
    assert(sub_in(stored[last]) is Some);
}

/// What is made, stored and not met in time comes to its end: at its expiry the row of a new
/// subscription expires, whatever it is about, and who waits for it is told.
pub proof fn law_what_does_not_come_ends(
    rows: Seq<RowView>,
    sub: SubscriptionView,
    expiry: i64,
    now: i64,
)
    requires
        unique_ids(rows),
        forall|i: int| 0 <= i < rows.len() ==> (#[trigger] rows[i]).id != Some(sub.id),
        sub.status == "active"@,
        sub.expires_at == Some(expiry),
    ensures
        ({
            let stored = rows.push(crate::row::row_for(sub));
            let after = with_expired(stored, now);
            waited(sub_with_id(after, sub.id), sub.id) == if expiry <= now {
                WaitView::Failed(Fault::WaitExpired)
            } else {
                WaitView::Pending
            }
        }),
{
    let stored = rows.push(crate::row::row_for(sub));
    let last = rows.len() as int;
    assert(stored[last].expires_at == Some(Stamp::At(expiry)));
    assert forall|i: int, j: int|
        0 <= i < j < stored.len() && (#[trigger] stored[i]).id is Some implies stored[i].id != (
    #[trigger] stored[j]).id by {
        if j < last {
            assert(rows[i].id != rows[j].id);
        } else {
            assert(rows[i].id != Some(sub.id));
        }
    }
    lemma_row_at(stored, last);
    lemma_row_of_expired(stored, now, sub.id);
    crate::store_laws::lemma_statuses_differ();
}

} // verus!
