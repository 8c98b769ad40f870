//! The daemon: what it does with the outcome of a check, and what those who wait for it
//! make of what is stored.
use crate::error::{Error, Fault};
use crate::event::Event;
use crate::numeral::{decimal, parse_u32, push_u32, u32_of};
use crate::outside::json_reads;
use crate::row::{sub_of, RowView};
use crate::schedule::{due_subs, law_due_are_unique_and_active};
use crate::store::{
    active_id, all_have_ids, count, is_overdue, listed, newest_first, row_of, sub_views,
    sub_with_id, unique_ids, with_expired, with_fired, with_status, Store,
};
use crate::store_laws::{
    law_changes_keep_the_others, law_expired_does_not_fire, law_fire_reads_back, law_fires_once,
    law_status_reads_back, lemma_fire_keeps_settled, lemma_row_of_expired, lemma_statuses_differ,
    unique_subs,
};
use crate::subscription::{Subscription, SubscriptionView};
use crate::text::{same, text_of, trim, trimmed};
use vstd::prelude::*;
use vstd::string::*;

verus! {

// ---------------------------------------------------------------------------
// Is it running?
// ---------------------------------------------------------------------------

/// The directory that exists while the process runs whose number the PID file holds;
/// none where the file holds no number.
pub open spec fn process_dir(pid_file: Seq<char>) -> Option<Seq<char>> {
    match u32_of(trimmed(pid_file)) {
        Some(pid) => Some("/proc/"@ + decimal(pid as int)),
        None => None,
    }
}

/// The directory that exists while the daemon runs, given the text of its PID file.
pub fn process_path(pid_file: &str) -> (r: Option<String>)
    ensures
        text_of(r) == process_dir(pid_file@),
{
    match parse_u32(trim(pid_file)) {
        Some(pid) => {
            let mut path: String = "/proc/".to_owned();
            push_u32(&mut path, pid);
            Some(path)
        },
        None => None,
    }
}

// ---------------------------------------------------------------------------
// Waiting
// ---------------------------------------------------------------------------

/// What waiting for a subscription has come to.
pub enum WaitStep {
    /// It fired, with this event, as JSON text.
    Fired(String),
    /// It will not fire.
    Failed(Error),
    /// It may still fire.
    Pending,
}

/// What stands for a [`WaitStep`] in contracts.
pub enum WaitView {
    Fired(Seq<char>),
    Failed(Fault<Seq<char>>),
    Pending,
}

impl View for WaitStep {
    type V = WaitView;

    open spec fn view(&self) -> WaitView {
        match *self {
            WaitStep::Fired(event) => WaitView::Fired(event@),
            WaitStep::Failed(e) => WaitView::Failed(e@),
            WaitStep::Pending => WaitView::Pending,
        }
    }
}

/// What waiting has come to, by what is stored under the identifier. One that fired
/// without an event counts as fired all the same.
pub open spec fn waited(found: Option<SubscriptionView>, id: Seq<char>) -> WaitView {
    match found {
        None => WaitView::Failed(Fault::WaitNotFound(id)),
        Some(sub) => if sub.status == "fired"@ {
            WaitView::Fired(
                match sub.event_data {
                    Some(event) => event,
                    None => "{\"status\":\"fired\"}"@,
                },
            )
        } else if sub.status == "expired"@ {
            WaitView::Failed(Fault::WaitExpired)
        } else if sub.status == "cancelled"@ {
            WaitView::Failed(Fault::WaitCancelled)
        } else {
            WaitView::Pending
        },
    }
}

/// What waiting has come to, by what is stored under the identifier.
pub fn wait_for(found: &Option<Subscription>, id: &str) -> (r: WaitStep)
    ensures
        r@ == waited(sub_of(*found), id@),
{
    match found {
        None => WaitStep::Failed(Fault::WaitNotFound(id.to_owned())),
        Some(sub) => {
            if same(sub.status.as_str(), "fired") {
                match &sub.event_data {
                    Some(event) => WaitStep::Fired(event.clone()),
                    None => WaitStep::Fired("{\"status\":\"fired\"}".to_owned()),
                }
            } else if same(sub.status.as_str(), "expired") {
                WaitStep::Failed(Fault::WaitExpired)
            } else if same(sub.status.as_str(), "cancelled") {
                WaitStep::Failed(Fault::WaitCancelled)
            } else {
                WaitStep::Pending
            }
        },
    }
}

// ---------------------------------------------------------------------------
// Polling
// ---------------------------------------------------------------------------

/// A command to run, with the event it is told of.
pub struct Dispatch {
    pub command: String,
    pub event: String,
}

/// What came of a check.
pub struct Settled {
    /// Whether the subscription fired.
    pub fired: bool,
    /// The command to run now.
    pub dispatch: Option<Dispatch>,
}

/// The outcome of a check: the event where the condition is met.
pub type Outcome = Result<Option<Event>, Error>;

/// The event of an outcome, as JSON text. A check that failed counts as one that found
/// nothing yet.
pub open spec fn outcome_event(outcome: Outcome) -> Option<Seq<char>> {
    match outcome {
        Ok(Some(event)) => Some(event@.json()),
        _ => None,
    }
}

/// The rows after a check of `sub` came out.
pub open spec fn settled_rows(
    rows: Seq<RowView>,
    sub: SubscriptionView,
    event: Option<Seq<char>>,
) -> Seq<RowView> {
    match event {
        Some(event) => with_fired(rows, sub.id, event),
        None => rows,
    }
}

/// Whether a check of `sub` makes it fire: its condition is met, and it is still active.
pub open spec fn fires(
    rows: Seq<RowView>,
    sub: SubscriptionView,
    event: Option<Seq<char>>,
) -> bool {
    event is Some && active_id(rows, sub.id)
}

/// The command, and its event, that a check of `sub` dispatches: that of the mode `on`,
/// when the subscription fires.
pub open spec fn dispatched(
    rows: Seq<RowView>,
    sub: SubscriptionView,
    event: Option<Seq<char>>,
) -> Option<(Seq<char>, Seq<char>)> {
    if fires(rows, sub, event) && sub.mode == "on"@ && sub.callback is Some {
        Some((sub.callback->0, event->0))
    } else {
        None
    }
}

/// A dispatch by its view.
pub open spec fn dispatch_of(d: Option<Dispatch>) -> Option<(Seq<char>, Seq<char>)> {
    match d {
        Some(dispatch) => Some((dispatch.command@, dispatch.event@)),
        None => None,
    }
}

/// One round of the daemon over active subscriptions. Each is
/// checked in turn, and only when all are checked are the overdue ones expired, so that
/// one whose condition is met at its deadline fires.
pub struct PollCycle {
    active: Vec<Subscription>,
    next: usize,
}

impl PollCycle {
    /// The subscriptions of the round.
    pub closed spec fn subs(&self) -> Seq<SubscriptionView> {
        sub_views(self.active@)
    }

    /// How many of them are checked.
    pub closed spec fn checked(&self) -> nat {
        self.next as nat
    }

    /// What holds of every round: no more are checked than there are.
    pub open spec fn wf(&self) -> bool {
        self.checked() <= self.subs().len()
    }

    /// Whether all are checked.
    pub open spec fn all_checked(&self) -> bool {
        self.checked() == self.subs().len()
    }

    /// A round over the active subscriptions.
    pub fn start(active: Vec<Subscription>) -> (r: PollCycle)
        ensures
            r.wf(),
            r.subs() == sub_views(active@),
            r.checked() == 0,
    {
        PollCycle { active, next: 0 }
    }

    /// The subscription to check next; none when all are checked.
    pub fn current(&self) -> (r: Option<&Subscription>)
        requires
            self.wf(),
        ensures
            match r {
                Some(sub) => !self.all_checked() && sub@ == self.subs()[self.checked() as int],
                None => self.all_checked(),
            },
    {
        if self.next < self.active.len() {
            Some(&self.active[self.next])
        } else {
            None
        }
    }

    /// Takes the outcome of the check of the current subscription: where its condition is
    /// met and it is still active, it fires, and in the mode `on` its command is to be
    /// run.
    pub fn settle(&mut self, store: &mut Store, outcome: &Outcome) -> (r: Settled)
        requires
            old(self).wf(),
            !old(self).all_checked(),
            old(store).wf(),
        ensures
            final(self).wf(),
            final(self).subs() == old(self).subs(),
            final(self).checked() == old(self).checked() + 1,
            final(store).wf(),
            final(store).loaded() == old(store).loaded(),
            final(store)@ == settled_rows(
                old(store)@,
                old(self).subs()[old(self).checked() as int],
                outcome_event(*outcome),
            ),
            r.fired == fires(
                old(store)@,
                old(self).subs()[old(self).checked() as int],
                outcome_event(*outcome),
            ),
            dispatch_of(r.dispatch) == dispatched(
                old(store)@,
                old(self).subs()[old(self).checked() as int],
                outcome_event(*outcome),
            ),
            r.fired ==> json_reads(outcome_event(*outcome)->0),
            match *outcome {
                Ok(Some(event)) => {
                    let sub = old(self).subs()[old(self).checked() as int];
                    &&& r.fired && sub.mode == "on"@ && sub.callback is Some ==> r.dispatch is Some
                        && r.dispatch->0.command@ == sub.callback->0 && r.dispatch->0.event@
                        == event@.json()
                    &&& !r.fired || sub.mode != "on"@ || sub.callback is None ==> r.dispatch is None
                },
                _ => !r.fired && r.dispatch is None && final(store)@ == old(store)@,
            },
    {
        let at: usize = self.next;
        proof {
            assert(at < self.active.len());
        }
        self.next = at + 1;
        let sub: &Subscription = &self.active[at];
        proof {
            assert(old(self).subs()[at as int] == sub@);
        }
        match outcome {
            Ok(Some(event)) => {
                let text: String = event.to_json();
                let fired: bool = store.set_fired(sub.id.as_str(), text.as_str());
                let dispatch: Option<Dispatch> = if fired && same(sub.mode.as_str(), "on") {
                    match &sub.callback {
                        Some(command) => Some(
                            Dispatch { command: command.clone(), event: text },
                        ),
                        None => None,
                    }
                } else {
                    None
                };
                Settled { fired, dispatch }
            },
            _ => Settled { fired: false, dispatch: None },
        }
    }

    /// Ends the round: expires what is overdue at `now`, and says how many that were.
    pub fn finish(self, store: &mut Store, now: i64) -> (r: usize)
        requires
            self.all_checked(),
            old(store).wf(),
        ensures
            final(store).wf(),
            final(store).loaded() == old(store).loaded(),
            final(store)@ == with_expired(old(store)@, now),
            r == count(old(store)@, |row: RowView| is_overdue(row, now)),
    {
        store.expire_overdue_at(now)
    }
}

// ---------------------------------------------------------------------------
// Laws
// ---------------------------------------------------------------------------

/// A command is run once: on the rows that a check left which dispatched the command of a
/// subscription, no check of a subscription with its identifier fires, dispatches or
/// changes anything.
pub proof fn law_dispatched_once(
    rows: Seq<RowView>,
    sub: SubscriptionView,
    event: Option<Seq<char>>,
    again: SubscriptionView,
    later: Option<Seq<char>>,
)
    requires
        dispatched(rows, sub, event) is Some,
        again.id == sub.id,
    ensures
        !fires(settled_rows(rows, sub, event), again, later),
        dispatched(settled_rows(rows, sub, event), again, later) is None,
        settled_rows(settled_rows(rows, sub, event), again, later) == settled_rows(
            rows,
            sub,
            event,
        ),
{
    law_fires_once(
        rows,
        sub.id,
        event->0,
        match later {
            Some(text) => text,
            None => event->0,
        },
    );
}

/// Only the mode `on` runs a command, and only when the subscription fires.
pub proof fn law_only_on_dispatches(
    rows: Seq<RowView>,
    sub: SubscriptionView,
    event: Option<Seq<char>>,
)
    requires
        dispatched(rows, sub, event) is Some,
    ensures
        sub.mode == "on"@,
        fires(rows, sub, event),
        dispatched(rows, sub, event) == Some((sub.callback->0, event->0)),
{
}

/// Who waits is told: once an active subscription fired, waiting for it ends with the
/// event, where that is JSON, and else with the bare news that it fired.
pub proof fn law_waiter_gets_the_event(rows: Seq<RowView>, id: Seq<char>, event: Seq<char>)
    requires
        active_id(rows, id),
        sub_with_id(rows, id) is Some,
    ensures
        waited(sub_with_id(with_fired(rows, id, event), id), id) == WaitView::Fired(
            if json_reads(event) {
                event
            } else {
                "{\"status\":\"fired\"}"@
            },
        ),
{
    law_fire_reads_back(rows, id, event);
}

/// Who waits is told that it is in vain: once an active subscription was cancelled, or
/// expired, waiting for it fails with that.
pub proof fn law_waiter_learns_of_the_end(rows: Seq<RowView>, id: Seq<char>, now: i64)
    requires
        active_id(rows, id),
        sub_with_id(rows, id) is Some,
    ensures
        waited(sub_with_id(with_status(rows, id, "cancelled"@), id), id) == WaitView::Failed(
            Fault::WaitCancelled,
        ),
        is_overdue(row_of(rows, id)->0, now) ==> waited(
            sub_with_id(with_expired(rows, now), id),
            id,
        ) == WaitView::Failed(Fault::WaitExpired),
{
    lemma_statuses_differ();
    law_status_reads_back(rows, id, "cancelled"@);
    if is_overdue(row_of(rows, id)->0, now) {
        law_expired_does_not_fire(rows, id, Seq::empty(), now);
    }
}

/// As long as a subscription is active, waiting for it goes on.
pub proof fn law_waiter_waits_while_active(rows: Seq<RowView>, id: Seq<char>)
    requires
        active_id(rows, id),
        sub_with_id(rows, id) is Some,
    ensures
        waited(sub_with_id(rows, id), id) == WaitView::Pending,
{
    lemma_statuses_differ();
}

// ---------------------------------------------------------------------------
// A whole round
// ---------------------------------------------------------------------------

/// The rows after the checks of `subs` came out in turn, `events` being what was found.
pub open spec fn round_rows(
    rows: Seq<RowView>,
    subs: Seq<SubscriptionView>,
    events: Seq<Option<Seq<char>>>,
) -> Seq<RowView>
    decreases subs.len(),
{
    if subs.len() == 0 {
        rows
    } else {
        settled_rows(
            round_rows(rows, subs.drop_last(), events.drop_last()),
            subs.last(),
            events.last(),
        )
    }
}

/// What one round makes of a row: it fires if its condition is met, and else expires if
/// its time is over.
pub open spec fn row_after_round(row: RowView, event: Option<Seq<char>>, now: i64) -> RowView {
    match event {
        Some(event) => RowView { status: Some("fired"@), event_data: Some(event), ..row },
        None => if is_overdue(row, now) {
            RowView { status: Some("expired"@), ..row }
        } else {
            row
        },
    }
}

/// Checks of other subscriptions leave a row alone.
proof fn lemma_round_keeps(
    rows: Seq<RowView>,
    subs: Seq<SubscriptionView>,
    events: Seq<Option<Seq<char>>>,
    id: Seq<char>,
)
    requires
        events.len() == subs.len(),
        forall|i: int| 0 <= i < subs.len() ==> (#[trigger] subs[i]).id != id,
    ensures
        row_of(round_rows(rows, subs, events), id) == row_of(rows, id),
    decreases subs.len(),
{
    if subs.len() > 0 {
        let front = subs.drop_last();
        assert forall|i: int| 0 <= i < front.len() implies (#[trigger] front[i]).id != id by {
            assert(subs[i].id != id);
        }
        lemma_round_keeps(rows, front, events.drop_last(), id);
        assert(subs[subs.len() - 1].id != id);
        if let Some(event) = events.last() {
            law_changes_keep_the_others(
                round_rows(rows, front, events.drop_last()),
                subs.last().id,
                event,
                id,
            );
        }
    }
}

/// The check of a subscription decides about its row.
proof fn lemma_round_settles(
    rows: Seq<RowView>,
    subs: Seq<SubscriptionView>,
    events: Seq<Option<Seq<char>>>,
    k: int,
)
    requires
        events.len() == subs.len(),
        unique_subs(subs),
        0 <= k < subs.len(),
        active_id(rows, subs[k].id),
    ensures
        row_of(round_rows(rows, subs, events), subs[k].id) == match events[k] {
            Some(event) => Some(
                RowView {
                    status: Some("fired"@),
                    event_data: Some(event),
                    ..row_of(rows, subs[k].id)->0
                },
            ),
            None => row_of(rows, subs[k].id),
        },
    decreases subs.len(),
{
    let id = subs[k].id;
    let front = subs.drop_last();
    let before = round_rows(rows, front, events.drop_last());
    if k == subs.len() - 1 {
        assert forall|i: int| 0 <= i < front.len() implies (#[trigger] front[i]).id != id by {
            assert(subs[i].id != subs[k].id);
        }
        lemma_round_keeps(rows, front, events.drop_last(), id);
        if let Some(event) = events[k] {
            law_fire_reads_back(before, id, event);
        }
    } else {
        assert forall|i: int, j: int| 0 <= i < j < front.len() implies (#[trigger] front[i]).id != (
        #[trigger] front[j]).id by {
            assert(subs[i].id != subs[j].id);
        }
        lemma_round_settles(rows, front, events.drop_last(), k);
        assert(subs[k].id != subs[subs.len() - 1].id);
        if let Some(event) = events.last() {
            law_changes_keep_the_others(before, subs.last().id, event, id);
        }
    }
}

/// A round does to every subscription that it checks what it has to: one whose condition is
/// met fires with its event, even where its time is over at the end of the round; of the
/// others those whose time is over expire, and the rest stay as they are.
pub proof fn law_round_settles_each(
    rows: Seq<RowView>,
    subs: Seq<SubscriptionView>,
    events: Seq<Option<Seq<char>>>,
    k: int,
    now: i64,
)
    requires
        events.len() == subs.len(),
        unique_subs(subs),
        0 <= k < subs.len(),
        active_id(rows, subs[k].id),
    ensures
        row_of(with_expired(round_rows(rows, subs, events), now), subs[k].id) == Some(
            row_after_round(row_of(rows, subs[k].id)->0, events[k], now),
        ),
{
    lemma_round_settles(rows, subs, events, k);
    lemma_statuses_differ();
    lemma_row_of_expired(round_rows(rows, subs, events), now, subs[k].id);
}

/// A round leaves alone what is not active, whatever it checks.
pub proof fn law_round_keeps_the_settled(
    rows: Seq<RowView>,
    subs: Seq<SubscriptionView>,
    events: Seq<Option<Seq<char>>>,
    id: Seq<char>,
    now: i64,
)
    requires
        events.len() == subs.len(),
        !active_id(rows, id),
    ensures
        row_of(with_expired(round_rows(rows, subs, events), now), id) == row_of(rows, id),
{
    lemma_round_keeps_settled(rows, subs, events, id);
    lemma_row_of_expired(round_rows(rows, subs, events), now, id);
}

proof fn lemma_round_keeps_settled(
    rows: Seq<RowView>,
    subs: Seq<SubscriptionView>,
    events: Seq<Option<Seq<char>>>,
    id: Seq<char>,
)
    requires
        events.len() == subs.len(),
        !active_id(rows, id),
    ensures
        row_of(round_rows(rows, subs, events), id) == row_of(rows, id),
    decreases subs.len(),
{
    if subs.len() > 0 {
        lemma_round_keeps_settled(rows, subs.drop_last(), events.drop_last(), id);
        if let Some(event) = events.last() {
            lemma_fire_keeps_settled(
                round_rows(rows, subs.drop_last(), events.drop_last()),
                subs.last().id,
                event,
                id,
            );
        }
    }
}

/// A round does nothing to what it does not check but expire it where its time is over.
pub proof fn law_round_passes_over_the_others(
    rows: Seq<RowView>,
    subs: Seq<SubscriptionView>,
    events: Seq<Option<Seq<char>>>,
    id: Seq<char>,
    now: i64,
)
    requires
        events.len() == subs.len(),
        forall|i: int| 0 <= i < subs.len() ==> (#[trigger] subs[i]).id != id,
    ensures
        row_of(with_expired(round_rows(rows, subs, events), now), id) == match row_of(rows, id) {
            Some(row) => Some(row_after_round(row, None, now)),
            None => None,
        },
{
    lemma_round_keeps(rows, subs, events, id);
    lemma_row_of_expired(round_rows(rows, subs, events), now, id);
}

/// A round over the subscriptions that are due settles each of them, in a store where every
/// row has an identifier.
pub proof fn law_due_round_settles_each(
    rows: Seq<RowView>,
    polled: Seq<(Seq<char>, u64)>,
    tick: u64,
    events: Seq<Option<Seq<char>>>,
    k: int,
    now: i64,
)
    requires
        unique_ids(rows),
        all_have_ids(rows),
        events.len() == due_subs(
            newest_first(listed(rows, None, Some("active"@))),
            polled,
            tick,
            now,
        ).len(),
        0 <= k < events.len(),
    ensures
        ({
            let subs = due_subs(
                newest_first(listed(rows, None, Some("active"@))),
                polled,
                tick,
                now,
            );
            row_of(with_expired(round_rows(rows, subs, events), now), subs[k].id) == Some(
                row_after_round(row_of(rows, subs[k].id)->0, events[k], now),
            )
        }),
{
    let subs = due_subs(newest_first(listed(rows, None, Some("active"@))), polled, tick, now);
    law_due_are_unique_and_active(rows, polled, tick, now);
    law_round_settles_each(rows, subs, events, k, now);
}

} // verus!
