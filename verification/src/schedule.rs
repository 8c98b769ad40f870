//! Which subscriptions a round of the daemon checks.
use crate::condition::{Condition, ConditionView};
use crate::row::{sub_in, RowView, Stamp};
use crate::store::{
    active_id, all_have_ids, is_listed, is_overdue, listed, newest_first, sub_views, unique_ids,
};
use crate::store_laws::{
    law_list_has_unique_ids, law_list_has_what_is_asked_for, law_listed_are_active, unique_subs,
};
use crate::subscription::{expired_at, Subscription, SubscriptionView};
use crate::text::same;
use vstd::prelude::*;

verus! {

/// After how many seconds a run or its checks are asked about again.
pub const CI_SECS: u64 = 30;

/// After how many seconds a pull request is asked about again.
pub const PR_SECS: u64 = 60;

/// After how many seconds an issue is asked about again.
pub const ISSUE_SECS: u64 = 120;

/// After how many seconds a condition is checked again; a timer is not polled, but looked
/// at in every round.
pub open spec fn poll_secs(condition: ConditionView) -> Option<u64> {
    match condition {
        ConditionView::Timer { .. } => None,
        ConditionView::GitHub(gh) => Some(
            if gh.watch.is_of_run() {
                CI_SECS
            } else if gh.watch.is_of_issue() {
                ISSUE_SECS
            } else {
                PR_SECS
            },
        ),
    }
}

/// When a subscription was last checked, in seconds since the daemon's start.
pub struct Polled {
    pub id: String,
    pub at: u64,
}

/// When subscriptions were last checked.
pub struct Schedule {
    polled: Vec<Polled>,
}

impl View for Schedule {
    type V = Seq<(Seq<char>, u64)>;

    closed spec fn view(&self) -> Seq<(Seq<char>, u64)> {
        self.polled@.map_values(|p: Polled| (p.id@, p.at))
    }
}

/// When the subscription of an identifier was last checked.
pub open spec fn last_poll(polled: Seq<(Seq<char>, u64)>, id: Seq<char>) -> Option<u64>
    decreases polled.len(),
{
    if polled.len() == 0 {
        None
    } else if polled.last().0 == id {
        Some(polled.last().1)
    } else {
        last_poll(polled.drop_last(), id)
    }
}

/// Whether a subscription is checked `tick` seconds after the daemon's start, when the
/// clock shows `now`: a timer is, and what was not checked before, or not for its interval,
/// and what expires, so that nothing expires unchecked.
pub open spec fn is_due(sub: SubscriptionView, last: Option<u64>, tick: u64, now: i64) -> bool {
    match (poll_secs(sub.condition), last) {
        (Some(secs), Some(at)) => tick >= at + secs || expired_at(sub.expires_at, now),
        _ => true,
    }
}

/// The subscriptions that are checked, in their order.
pub open spec fn due_subs(
    subs: Seq<SubscriptionView>,
    polled: Seq<(Seq<char>, u64)>,
    tick: u64,
    now: i64,
) -> Seq<SubscriptionView> {
    subs.filter(|s: SubscriptionView| is_due(s, last_poll(polled, s.id), tick, now))
}

/// When each subscription was last checked, once those that are due are.
pub open spec fn polled_after(
    subs: Seq<SubscriptionView>,
    polled: Seq<(Seq<char>, u64)>,
    tick: u64,
    now: i64,
) -> Seq<(Seq<char>, u64)> {
    subs.map_values(
        |s: SubscriptionView|
            (
                s.id,
                if is_due(s, last_poll(polled, s.id), tick, now) {
                    tick
                } else {
                    last_poll(polled, s.id)->0
                },
            ),
    )
}

/// After how many seconds a condition is checked again.
pub fn poll_interval(condition: &Condition) -> (r: Option<u64>)
    ensures
        r == poll_secs(condition@),
{
    match condition {
        Condition::Timer { .. } => None,
        Condition::GitHub(gh) => Some(
            if gh.is_of_run() {
                CI_SECS
            } else if gh.is_of_issue() {
                ISSUE_SECS
            } else {
                PR_SECS
            },
        ),
    }
}

impl Schedule {
    /// Nothing was checked yet.
    pub fn new() -> (r: Schedule)
        ensures
            r@ == Seq::<(Seq<char>, u64)>::empty(),
    {
        let r: Schedule = Schedule { polled: Vec::new() };
        proof {
            assert(r@ =~= Seq::<(Seq<char>, u64)>::empty());
        }
        r
    }

    /// When the subscription of an identifier was last checked.
    pub fn last(&self, id: &str) -> (r: Option<u64>)
        ensures
            r == last_poll(self@, id@),
    {
        let mut i: usize = self.polled.len();
        proof {
            assert(self@.take(i as int) =~= self@);
        }
        while i > 0
            invariant
                i <= self.polled@.len(),
                self@.len() == self.polled@.len(),
                last_poll(self@, id@) == last_poll(self@.take(i as int), id@),
            decreases i,
        {
            let p: &Polled = &self.polled[i - 1];
            proof {
                assert(self@.take(i as int).last() == (p.id@, p.at));
                assert(self@.take(i as int).drop_last() =~= self@.take(i - 1));
            }
            if same(p.id.as_str(), id) {
                return Some(p.at);
            }
            i = i - 1;
        }
        None
    }

    /// Those of the active subscriptions that are to be checked now, which counts as their
    /// last check.
    pub fn due(&mut self, active: &Vec<Subscription>, tick: u64, now: i64) -> (r: Vec<Subscription>)
        ensures
            sub_views(r@) == due_subs(sub_views(active@), old(self)@, tick, now),
            final(self)@ == polled_after(sub_views(active@), old(self)@, tick, now),
    {
        let ghost subs = sub_views(active@);
        let ghost polled = self@;
        let ghost p = |s: SubscriptionView| is_due(s, last_poll(polled, s.id), tick, now);
        let mut due: Vec<Subscription> = Vec::new();
        let mut after: Vec<Polled> = Vec::new();
        let mut i: usize = 0;
        proof {
            reveal(Seq::filter);
            assert(subs.take(0) =~= Seq::<SubscriptionView>::empty());
            assert(sub_views(due@) =~= subs.take(0).filter(p));
        }
        while i < active.len()
            invariant
                subs == sub_views(active@),
                polled == self@,
                p == (|s: SubscriptionView| is_due(s, last_poll(polled, s.id), tick, now)),
                i <= active@.len(),
                sub_views(due@) == subs.take(i as int).filter(p),
                after@.len() == i,
                forall|k: int|
                    0 <= k < i ==> ((#[trigger] after@[k]).id@, after@[k].at) == polled_after(
                        subs,
                        polled,
                        tick,
                        now,
                    )[k],
            decreases active@.len() - i,
        {
            let sub: &Subscription = &active[i];
            let last: Option<u64> = self.last(sub.id.as_str());
            let is_now: bool = match (poll_interval(&sub.condition), last) {
                (Some(secs), Some(at)) => (tick >= at && tick - at >= secs) || sub.is_expired_at(
                    now,
                ),
                _ => true,
            };
            let at: u64 = if is_now {
                tick
            } else {
                match last {
                    Some(at) => at,
                    None => tick,
                }
            };
            proof {
                reveal(Seq::filter);
                assert(sub@ == subs[i as int]);
                assert(is_now == p(sub@));
                assert(subs.take(i as int + 1).drop_last() =~= subs.take(i as int));
                assert(subs.take(i as int + 1).last() == sub@);
            }
            if is_now {
                let ghost before = sub_views(due@);
                due.push(sub.clone());
                proof {
                    assert(sub_views(due@) =~= before.push(sub@));
                }
            }
            after.push(Polled { id: sub.id.clone(), at });
            i = i + 1;
        }
        self.polled = after;
        proof {
            assert(subs.take(i as int) =~= subs);
            assert(self@ =~= polled_after(subs, polled, tick, now));
        }
        due
    }
}

// ---------------------------------------------------------------------------
// Laws
// ---------------------------------------------------------------------------

proof fn lemma_last_poll_at(polled: Seq<(Seq<char>, u64)>, k: int)
    requires
        0 <= k < polled.len(),
        forall|i: int, j: int|
            0 <= i < j < polled.len() ==> (#[trigger] polled[i]).0 != (#[trigger] polled[j]).0,
    ensures
        last_poll(polled, polled[k].0) == Some(polled[k].1),
    decreases polled.len(),
{
    if k < polled.len() - 1 {
        let front = polled.drop_last();
        assert(polled[k].0 != polled[polled.len() - 1].0);
        assert forall|i: int, j: int| 0 <= i < j < front.len() implies (#[trigger] front[i]).0 != (
        #[trigger] front[j]).0 by {
            assert(polled[i].0 != polled[j].0);
        }
        lemma_last_poll_at(front, k);
        assert(front[k] == polled[k]);
    }
}

/// A condition is checked once in its interval: after a check it is due again when its
/// seconds have gone by, or when it expires, and not before; and what was not due stays due
/// at the time it was.
pub proof fn law_due_again_after_the_interval(
    subs: Seq<SubscriptionView>,
    polled: Seq<(Seq<char>, u64)>,
    k: int,
    tick: u64,
    now: i64,
    later: u64,
    by_then: i64,
)
    requires
        unique_subs(subs),
        0 <= k < subs.len(),
        poll_secs(subs[k].condition) is Some,
    ensures
        ({
            let sub = subs[k];
            let before = last_poll(polled, sub.id);
            let after = last_poll(polled_after(subs, polled, tick, now), sub.id);
            if is_due(sub, before, tick, now) {
                &&& after == Some(tick)
                &&& is_due(sub, after, later, by_then) <==> (later >= tick + poll_secs(
                    sub.condition,
                )->0 || expired_at(sub.expires_at, by_then))
            } else {
                after == before
            }
        }),
{
    let after = polled_after(subs, polled, tick, now);
    assert forall|i: int, j: int| 0 <= i < j < after.len() implies (#[trigger] after[i]).0 != (
    #[trigger] after[j]).0 by {
        assert(subs[i].id != subs[j].id);
    }
    lemma_last_poll_at(after, k);
    assert(after[k].0 == subs[k].id);
}

/// Timers are checked in every round, and so is what was never checked.
pub proof fn law_timers_and_new_ones_are_due(
    sub: SubscriptionView,
    last: Option<u64>,
    tick: u64,
    now: i64,
)
    requires
        sub.condition is Timer || last is None,
    ensures
        is_due(sub, last, tick, now),
{
}

proof fn lemma_filter_has(
    subs: Seq<SubscriptionView>,
    p: spec_fn(SubscriptionView) -> bool,
    sub: SubscriptionView,
)
    requires
        subs.contains(sub),
        p(sub),
    ensures
        subs.filter(p).contains(sub),
    decreases subs.len(),
{
    reveal(Seq::filter);
    let front = subs.drop_last();
    let k = choose|k: int| 0 <= k < subs.len() && subs[k] == sub;
    if k == subs.len() - 1 {
        let all = subs.filter(p);
        assert(all[all.len() - 1] == sub);
    } else {
        assert(front[k] == sub);
        lemma_filter_has(front, p, sub);
        let some = front.filter(p);
        let j = choose|j: int| 0 <= j < some.len() && some[j] == sub;
        assert(subs.filter(p)[j] == sub);
    }
}

proof fn lemma_filter_keeps_unique_subs(
    subs: Seq<SubscriptionView>,
    p: spec_fn(SubscriptionView) -> bool,
)
    requires
        unique_subs(subs),
    ensures
        unique_subs(subs.filter(p)),
        forall|i: int| 0 <= i < subs.filter(p).len() ==> subs.contains(#[trigger] subs.filter(p)[i]),
    decreases subs.len(),
{
    reveal(Seq::filter);
    if subs.len() > 0 {
        let front = subs.drop_last();
        let last = subs[subs.len() - 1];
        assert forall|i: int, j: int| 0 <= i < j < front.len() implies (#[trigger] front[i]).id != (
        #[trigger] front[j]).id by {
            assert(subs[i].id != subs[j].id);
        }
        lemma_filter_keeps_unique_subs(front, p);
        let some = front.filter(p);
        let all = subs.filter(p);
        assert forall|i: int| 0 <= i < some.len() implies (#[trigger] some[i]).id != last.id
            && subs.contains(some[i]) by {
            assert(front.contains(some[i]));
            let k = choose|k: int| 0 <= k < front.len() && front[k] == some[i];
            assert(subs[k] == some[i]);
            assert(subs[k].id != subs[subs.len() - 1].id);
        }
        assert forall|i: int| 0 <= i < all.len() implies subs.contains(#[trigger] all[i]) by {
            if i < some.len() {
                assert(all[i] == some[i]);
            }
        }
        assert forall|i: int, j: int| 0 <= i < j < all.len() implies (#[trigger] all[i]).id != (
        #[trigger] all[j]).id by {
            assert(all[i] == some[i]);
            if j < some.len() {
                assert(all[j] == some[j]);
            }
        }
    }
}

/// Those that are due have identifiers of their own, and are active under them, in a store
/// where every row has an identifier.
pub proof fn law_due_are_unique_and_active(
    rows: Seq<RowView>,
    polled: Seq<(Seq<char>, u64)>,
    tick: u64,
    now: i64,
)
    requires
        unique_ids(rows),
        all_have_ids(rows),
    ensures
        ({
            let subs = due_subs(
                newest_first(listed(rows, None, Some("active"@))),
                polled,
                tick,
                now,
            );
            &&& unique_subs(subs)
            &&& forall|i: int| 0 <= i < subs.len() ==> active_id(rows, (#[trigger] subs[i]).id)
        }),
{
    let all = newest_first(listed(rows, None, Some("active"@)));
    let subs = due_subs(all, polled, tick, now);
    law_list_has_unique_ids(rows, None, Some("active"@));
    lemma_filter_keeps_unique_subs(
        all,
        |s: SubscriptionView| is_due(s, last_poll(polled, s.id), tick, now),
    );
    assert forall|i: int| 0 <= i < subs.len() implies active_id(rows, (#[trigger] subs[i]).id) by {
        assert(all.contains(subs[i]));
        law_listed_are_active(rows, subs[i]);
    }
}

/// Nothing expires unchecked: what is overdue when a round begins is among those that the
/// round checks, where it can be read and its expiry is a whole second.
pub proof fn law_nothing_expires_unchecked(
    rows: Seq<RowView>,
    i: int,
    polled: Seq<(Seq<char>, u64)>,
    tick: u64,
    now: i64,
)
    requires
        0 <= i < rows.len(),
        is_overdue(rows[i], now),
        sub_in(rows[i]) is Some,
        rows[i].expires_at matches Some(Stamp::At(_)),
    ensures
        due_subs(newest_first(listed(rows, None, Some("active"@))), polled, tick, now).contains(
            sub_in(rows[i])->0,
        ),
{
    let sub = sub_in(rows[i])->0;
    let subs = newest_first(listed(rows, None, Some("active"@)));
    assert(is_listed(rows[i], None, Some("active"@)));
    law_list_has_what_is_asked_for(rows, None, Some("active"@), sub);
    lemma_filter_has(
        subs,
        |s: SubscriptionView| is_due(s, last_poll(polled, s.id), tick, now),
        sub,
    );
}

} // verus!
