//! The store of subscriptions.
use crate::change::{all_fit, applied_all, change_views, lemma_one_more, Change, ChangeView};
use crate::clock::Reading;
use crate::error::{fault_of, Error, Fault};
use crate::outside::{clock_shows, CLOCK_MAX};
use crate::row::{row_for, row_to_sub, row_views, sub_in, sub_of, Row, RowView};
use crate::store_laws::law_count_is_the_length_of_the_list;
use crate::subscription::{Subscription, SubscriptionView};
use crate::text::{is_text, slice_of};
use vstd::prelude::*;
use vstd::string::*;

verus! {

/// How many subscriptions there are of each status.
#[derive(Clone, Copy, Debug, PartialEq, Eq, Structural)]
pub struct StatusCounts {
    pub active: i64,
    pub fired: i64,
    pub expired: i64,
    pub cancelled: i64,
}

/// The rows of the table of subscriptions, no two with one identifier, with what has to be
/// done to the table for it to hold them.
pub struct Store {
    rows: Vec<Row>,
    changes: Vec<Change>,
    loaded: Ghost<Seq<RowView>>,
}

impl View for Store {
    type V = Seq<RowView>;

    closed spec fn view(&self) -> Seq<RowView> {
        row_views(self.rows@)
    }
}

/// Whether no two rows have the same identifier.
pub open spec fn unique_ids(rows: Seq<RowView>) -> bool {
    forall|i: int, j: int|
        0 <= i < j < rows.len() && (#[trigger] rows[i]).id is Some ==> rows[i].id != (
        #[trigger] rows[j]).id
}

/// Whether every row has an identifier.
pub open spec fn all_have_ids(rows: Seq<RowView>) -> bool {
    forall|i: int| 0 <= i < rows.len() ==> (#[trigger] rows[i]).id is Some
}

/// Whether a row has this identifier.
pub open spec fn has_id(rows: Seq<RowView>, id: Seq<char>) -> bool {
    exists|i: int| 0 <= i < rows.len() && (#[trigger] rows[i]).id == Some(id)
}

/// The row of an identifier.
pub open spec fn row_of(rows: Seq<RowView>, id: Seq<char>) -> Option<RowView>
    decreases rows.len(),
{
    if rows.len() == 0 {
        None
    } else if rows.last().id == Some(id) {
        Some(rows.last())
    } else {
        row_of(rows.drop_last(), id)
    }
}

/// The subscription of an identifier, as the store gives it out.
pub open spec fn sub_with_id(rows: Seq<RowView>, id: Seq<char>) -> Option<SubscriptionView> {
    match row_of(rows, id) {
        Some(row) => sub_in(row),
        None => None,
    }
}

/// Whether a row is active.
pub open spec fn is_active(row: RowView) -> bool {
    row.status == Some("active"@)
}

/// Whether the row of an identifier is active.
pub open spec fn active_id(rows: Seq<RowView>, id: Seq<char>) -> bool {
    row_of(rows, id) matches Some(row) && is_active(row)
}

/// The rows after the active row of an identifier, if there is one, was given a status.
pub open spec fn with_status(rows: Seq<RowView>, id: Seq<char>, status: Seq<char>) -> Seq<RowView> {
    rows.map_values(
        |row: RowView|
            if row.id == Some(id) && is_active(row) {
                RowView { status: Some(status), ..row }
            } else {
                row
            },
    )
}

/// The rows after the active row of an identifier, if there is one, fired with an event.
pub open spec fn with_fired(rows: Seq<RowView>, id: Seq<char>, event: Seq<char>) -> Seq<RowView> {
    rows.map_values(
        |row: RowView|
            if row.id == Some(id) && is_active(row) {
                RowView { status: Some("fired"@), event_data: Some(event), ..row }
            } else {
                row
            },
    )
}

/// Whether a row is active and its time is over at `now`.
pub open spec fn is_overdue(row: RowView, now: i64) -> bool {
    is_active(row) && (row.expires_at matches Some(exp) && exp.is_by(now))
}

/// The rows after those overdue at `now` expired.
pub open spec fn with_expired(rows: Seq<RowView>, now: i64) -> Seq<RowView> {
    rows.map_values(
        |row: RowView|
            if is_overdue(row, now) {
                RowView { status: Some("expired"@), ..row }
            } else {
                row
            },
    )
}

/// Whether a row is fired, expired or cancelled, and was made before `cutoff`.
pub open spec fn is_prunable(row: RowView, cutoff: i64) -> bool {
    (row.status == Some("fired"@) || row.status == Some("expired"@) || row.status == Some(
        "cancelled"@,
    ))
        && (row.created_at matches Some(made) && made.is_before(cutoff))
}

/// The rows without those that can be pruned.
pub open spec fn pruned(rows: Seq<RowView>, cutoff: i64) -> Seq<RowView> {
    rows.filter(|row: RowView| !is_prunable(row, cutoff))
}

/// How many rows have a property.
pub open spec fn count(rows: Seq<RowView>, p: spec_fn(RowView) -> bool) -> nat {
    rows.filter(p).len()
}

/// How many rows have a status.
pub open spec fn tally(rows: Seq<RowView>, status: Seq<char>) -> nat {
    count(rows, |row: RowView| row.status == Some(status))
}

/// Whether there are no more rows of a status than an `i64` can tell.
pub open spec fn counts_fit(rows: Seq<RowView>) -> bool {
    &&& tally(rows, "active"@) <= i64::MAX
    &&& tally(rows, "fired"@) <= i64::MAX
    &&& tally(rows, "expired"@) <= i64::MAX
    &&& tally(rows, "cancelled"@) <= i64::MAX
}

/// Whether every row has a status.
pub open spec fn all_have_statuses(rows: Seq<RowView>) -> bool {
    forall|i: int| 0 <= i < rows.len() ==> (#[trigger] rows[i]).status is Some
}

/// Whether every condition can be read.
pub open spec fn all_readable(rows: Seq<RowView>) -> bool {
    forall|i: int| 0 <= i < rows.len() ==> (#[trigger] rows[i]).condition is Some
}

// ---------------------------------------------------------------------------
// Listing
// ---------------------------------------------------------------------------

/// Whether a row has the wanted source and status, where one is wanted.
pub open spec fn is_listed(
    row: RowView,
    source: Option<Seq<char>>,
    status: Option<Seq<char>>,
) -> bool {
    (source is Some ==> row.source == source) && (status is Some ==> row.status == status)
}

/// The subscriptions in the listed rows, in the order of the rows; a row whose condition
/// cannot be read is passed over.
pub open spec fn listed(
    rows: Seq<RowView>,
    source: Option<Seq<char>>,
    status: Option<Seq<char>>,
) -> Seq<SubscriptionView>
    decreases rows.len(),
{
    if rows.len() == 0 {
        Seq::empty()
    } else {
        let front = listed(rows.drop_last(), source, status);
        if is_listed(rows.last(), source, status) && sub_in(rows.last()) is Some {
            front.push(sub_in(rows.last())->0)
        } else {
            front
        }
    }
}

/// `subs`, newest first, with `sub` put behind all that are no older.
pub open spec fn put_newest_first(subs: Seq<SubscriptionView>, sub: SubscriptionView) -> Seq<
    SubscriptionView,
>
    decreases subs.len(),
{
    if subs.len() > 0 && subs.last().created_at < sub.created_at {
        put_newest_first(subs.drop_last(), sub).push(subs.last())
    } else {
        subs.push(sub)
    }
}

/// `subs` with the newest first; of equal age the earlier one stays before the later.
pub open spec fn newest_first(subs: Seq<SubscriptionView>) -> Seq<SubscriptionView>
    decreases subs.len(),
{
    if subs.len() == 0 {
        subs
    } else {
        put_newest_first(newest_first(subs.drop_last()), subs.last())
    }
}

/// What stands for a list of subscriptions in contracts.
pub open spec fn sub_views(subs: Seq<Subscription>) -> Seq<SubscriptionView> {
    subs.map_values(|s: Subscription| s@)
}

// ---------------------------------------------------------------------------
// Facts about rows
// ---------------------------------------------------------------------------

/// The row of an identifier is the one that has it.
pub proof fn lemma_row_of(rows: Seq<RowView>, id: Seq<char>)
    ensures
        row_of(rows, id) is Some <==> has_id(rows, id),
        row_of(rows, id) matches Some(row) ==> row.id == Some(id) && rows.contains(row),
    decreases rows.len(),
{
    if rows.len() > 0 {
        let front = rows.drop_last();
        lemma_row_of(front, id);
        if rows.last().id == Some(id) {
            assert(rows[rows.len() - 1].id == Some(id));
        } else {
            if has_id(front, id) {
                let i = choose|i: int| 0 <= i < front.len() && (#[trigger] front[i]).id == Some(
                    id,
                );
                assert(rows[i].id == Some(id));
                let row = row_of(front, id)->0;
                let k = choose|k: int| 0 <= k < front.len() && front[k] == row;
                assert(rows[k] == row);
            }
            if has_id(rows, id) {
                let i = choose|i: int| 0 <= i < rows.len() && (#[trigger] rows[i]).id == Some(
                    id,
                );
                assert(front[i].id == Some(id));
            }
        }
    }
}

/// Where identifiers are unique, they are so without the last row.
pub proof fn lemma_front_unique(rows: Seq<RowView>)
    requires
        unique_ids(rows),
        rows.len() > 0,
    ensures
        unique_ids(rows.drop_last()),
{
    let front = rows.drop_last();
    assert forall|a: int, b: int|
        0 <= a < b < front.len() && (#[trigger] front[a]).id is Some implies front[a].id != (
    #[trigger] front[b]).id by {
        assert(rows[a].id != rows[b].id);
    }
}

/// Where identifiers are unique, no other row has that of a row.
pub proof fn lemma_only_row(rows: Seq<RowView>, i: int, id: Seq<char>)
    requires
        unique_ids(rows),
        0 <= i < rows.len(),
        rows[i].id == Some(id),
    ensures
        forall|k: int| 0 <= k < rows.len() && k != i ==> (#[trigger] rows[k]).id != Some(id),
{
    assert forall|k: int| 0 <= k < rows.len() && k != i implies (#[trigger] rows[k]).id != Some(
        id,
    ) by {
        if k < i && rows[k].id is Some {
            assert(rows[k].id != rows[i].id);
        } else if k > i {
            assert(rows[i].id != rows[k].id);
        }
    }
}

/// Where identifiers are unique, a row is the row of its identifier.
pub proof fn lemma_row_at(rows: Seq<RowView>, i: int)
    requires
        unique_ids(rows),
        0 <= i < rows.len(),
        rows[i].id is Some,
    ensures
        row_of(rows, rows[i].id->0) == Some(rows[i]),
    decreases rows.len(),
{
    if i < rows.len() - 1 {
        let front = rows.drop_last();
        assert(rows[i].id != rows[rows.len() - 1].id);
        lemma_front_unique(rows);
        lemma_row_at(front, i);
        assert(front[i] == rows[i]);
    }
}

/// A row more, or not, at the end of the counted ones.
proof fn lemma_filter_step(rows: Seq<RowView>, p: spec_fn(RowView) -> bool, k: int)
    requires
        0 <= k < rows.len(),
    ensures
        rows.take(k + 1).filter(p) == if p(rows[k]) {
            rows.take(k).filter(p).push(rows[k])
        } else {
            rows.take(k).filter(p)
        },
{
    reveal(Seq::filter);
    assert(rows.take(k + 1).drop_last() =~= rows.take(k));
}

/// No more rows are counted of the first ones than of all.
proof fn lemma_filter_grows(rows: Seq<RowView>, p: spec_fn(RowView) -> bool, k: int)
    requires
        0 <= k <= rows.len(),
    ensures
        rows.take(k).filter(p).len() <= rows.filter(p).len(),
    decreases rows.len() - k,
{
    if k < rows.len() {
        lemma_filter_step(rows, p, k);
        lemma_filter_grows(rows, p, k + 1);
    } else {
        assert(rows.take(k) =~= rows);
    }
}

/// What is left of rows with unique identifiers has unique identifiers.
proof fn lemma_filter_keeps_unique(rows: Seq<RowView>, p: spec_fn(RowView) -> bool)
    requires
        unique_ids(rows),
    ensures
        unique_ids(rows.filter(p)),
        forall|i: int| 0 <= i < rows.filter(p).len() ==> rows.contains(#[trigger] rows.filter(p)[i]),
    decreases rows.len(),
{
    reveal(Seq::filter);
    if rows.len() > 0 {
        let front = rows.drop_last();
        lemma_front_unique(rows);
        lemma_filter_keeps_unique(front, p);
        let some = front.filter(p);
        let all = rows.filter(p);
        assert forall|i: int| 0 <= i < some.len() implies ((#[trigger] some[i]).id is Some
            ==> some[i].id != rows.last().id) && rows.contains(some[i]) by {
            assert(front.contains(some[i]));
            let k = choose|k: int| 0 <= k < front.len() && front[k] == some[i];
            assert(rows[k] == some[i]);
            if rows[k].id is Some {
                assert(rows[k].id != rows[rows.len() - 1].id);
            }
        }
        assert(rows[rows.len() - 1] == rows.last());
        assert forall|i: int| 0 <= i < all.len() implies rows.contains(#[trigger] all[i]) by {
            if i < some.len() {
                assert(all[i] == some[i]);
            }
        }
        assert forall|a: int, b: int|
            0 <= a < b < all.len() && (#[trigger] all[a]).id is Some implies all[a].id != (
        #[trigger] all[b]).id by {
            if b < some.len() {
                assert(some[a].id != some[b].id);
            } else {
                assert(all[b] == rows.last());
                assert(all[a] == some[a]);
            }
        }
    }
}

// ---------------------------------------------------------------------------
// The operations
// ---------------------------------------------------------------------------

impl Store {
    /// The rows that the table held at first.
    pub closed spec fn loaded(&self) -> Seq<RowView> {
        self.loaded@
    }

    /// What has to be done to the table.
    pub closed spec fn recorded(&self) -> Seq<ChangeView> {
        change_views(self.changes@)
    }

    /// Whether the table, once it is changed, holds the rows of the store.
    pub open spec fn is_recorded(&self) -> bool {
        &&& all_fit(self.loaded(), self.recorded())
        &&& applied_all(self.loaded(), self.recorded()) == self@
    }

    /// What holds of every store: no two rows have the same identifier, and what has
    /// happened to them is recorded.
    pub open spec fn wf(&self) -> bool {
        unique_ids(self@) && self.is_recorded()
    }

    /// The store over the rows that the table holds.
    pub fn open(rows: Vec<Row>) -> (r: Result<Store, Error>)
        ensures
            match r {
                Ok(store) => {
                    &&& store.wf()
                    &&& store@ == row_views(rows@)
                    &&& store.loaded() == row_views(rows@)
                    &&& store.recorded().len() == 0
                },
                Err(e) => e@ == Fault::<Seq<char>>::DuplicateId && !unique_ids(row_views(rows@)),
            },
    {
        let ghost views = row_views(rows@);
        let mut j: usize = 0;
        while j < rows.len()
            invariant
                views == row_views(rows@),
                j <= rows@.len(),
                forall|a: int, b: int|
                    0 <= a < b < j && (#[trigger] views[a]).id is Some ==> views[a].id != (
                    #[trigger] views[b]).id,
            decreases rows@.len() - j,
        {
            let mut i: usize = 0;
            while i < j
                invariant
                    views == row_views(rows@),
                    i <= j < rows@.len(),
                    forall|a: int|
                        0 <= a < i && (#[trigger] views[a]).id is Some ==> views[a].id
                            != views[j as int].id,
                decreases j - i,
            {
                if let Some(id) = &rows[i].id {
                    if is_text(&rows[j].id, id.as_str()) {
                        proof {
                            assert(views[i as int].id == views[j as int].id);
                        }
                        return Err(Fault::DuplicateId);
                    }
                }
                i = i + 1;
            }
            j = j + 1;
        }
        let changes: Vec<Change> = Vec::new();
        Ok(Store { rows, changes, loaded: Ghost(views) })
    }

    /// The rows.
    pub fn rows(&self) -> (r: &Vec<Row>)
        ensures
            row_views(r@) == self@,
    {
        &self.rows
    }

    /// What has to be done to the table, in turn, so that it holds the rows of the store.
    pub fn changes(&self) -> (r: &Vec<Change>)
        requires
            self.wf(),
        ensures
            change_views(r@) == self.recorded(),
            all_fit(self.loaded(), change_views(r@)),
            applied_all(self.loaded(), change_views(r@)) == self@,
    {
        &self.changes
    }

    /// Records a change that is about to be made to the rows.
    fn record(&mut self, change: Change)
        requires
            old(self).is_recorded(),
            change@.fits(old(self)@),
        ensures
            final(self).rows == old(self).rows,
            final(self).loaded() == old(self).loaded(),
            all_fit(final(self).loaded(), final(self).recorded()),
            applied_all(final(self).loaded(), final(self).recorded()) == change@.applied(old(self)@),
    {
        proof {
            lemma_one_more(self.loaded(), self.recorded(), change@);
        }
        self.changes.push(change);
        proof {
            assert(self.recorded() =~= old(self).recorded().push(change@));
        }
    }

    /// Where the row of an identifier is.
    fn position(&self, id: &str) -> (r: Option<usize>)
        requires
            self.wf(),
        ensures
            match r {
                Some(i) => i < self@.len() && self@[i as int].id == Some(id@) && row_of(self@, id@)
                    == Some(self@[i as int]),
                None => !has_id(self@, id@) && row_of(self@, id@) is None,
            },
    {
        let mut i: usize = 0;
        while i < self.rows.len()
            invariant
                self.wf(),
                i <= self.rows@.len(),
                forall|k: int| 0 <= k < i ==> (#[trigger] self@[k]).id != Some(id@),
            decreases self.rows@.len() - i,
        {
            if is_text(&self.rows[i].id, id) {
                proof {
                    assert(self@[i as int] == self.rows@[i as int]@);
                    lemma_row_at(self@, i as int);
                }
                return Some(i);
            }
            proof {
                assert(self@[i as int] == self.rows@[i as int]@);
            }
            i = i + 1;
        }
        proof {
            lemma_row_of(self@, id@);
        }
        None
    }

    /// Stores a new subscription, without its event; one with a stored identifier is
    /// refused.
    pub fn insert(&mut self, sub: &Subscription) -> (r: Result<String, Error>)
        requires
            old(self).wf(),
        ensures
            final(self).wf(),
            final(self).loaded() == old(self).loaded(),
            match r {
                Ok(id) => id@ == sub@.id && !has_id(old(self)@, sub@.id) && final(self)@ == old(
                    self,
                )@.push(row_for(sub@)),
                Err(e) => e@ == Fault::<Seq<char>>::DuplicateId && has_id(old(self)@, sub@.id)
                    && final(self)@ == old(self)@,
            },
    {
        match self.position(sub.id.as_str()) {
            Some(_) => {
                proof {
                    lemma_row_of(self@, sub@.id);
                }
                Err(Fault::DuplicateId)
            },
            None => {
                self.record(Change::Insert(Row::from_sub(sub)));
                self.rows.push(Row::from_sub(sub));
                proof {
                    assert(self@ =~= old(self)@.push(row_for(sub@)));
                    assert forall|i: int, j: int|
                        0 <= i < j < self@.len() && (#[trigger] self@[i]).id is Some implies self@[i].id
                        != (#[trigger] self@[j]).id by {
                        if j == self@.len() - 1 {
                            assert(old(self)@[i].id != Some(sub@.id));
                        } else {
                            assert(old(self)@[i].id != old(self)@[j].id);
                        }
                    }
                }
                Ok(sub.id.clone())
            },
        }
    }

    /// The subscription of an identifier.
    pub fn get(&self, id: &str) -> (r: Option<Subscription>)
        requires
            self.wf(),
        ensures
            sub_of(r) == sub_with_id(self@, id@),
    {
        match self.position(id) {
            Some(i) => {
                proof {
                    assert(self@[i as int] == self.rows@[i as int]@);
                }
                row_to_sub(&self.rows[i])
            },
            None => None,
        }
    }

    /// Gives the active subscription of an identifier a status. It is refused where the
    /// subscription is not active or is not stored.
    pub fn set_status(&mut self, id: &str, status: &str) -> (r: Result<(), Error>)
        requires
            old(self).wf(),
        ensures
            final(self).wf(),
            final(self).loaded() == old(self).loaded(),
            final(self)@ == with_status(old(self)@, id@, status@),
            fault_of(r) == match row_of(old(self)@, id@) {
                Some(row) => if is_active(row) {
                    Ok::<(), Fault<Seq<char>>>(())
                } else {
                    Err(Fault::NotActive(id@))
                },
                None => Err(Fault::NotFound(id@)),
            },
    {
        match self.position(id) {
            Some(i) => {
                proof {
                    assert(self@[i as int] == self.rows@[i as int]@);
                }
                if is_text(&self.rows[i].status, "active") {
                    self.record(Change::SetStatus { at: i, status: status.to_owned() });
                    self.rows[i].status = Some(status.to_owned());
                    proof {
                        lemma_only_row(old(self)@, i as int, id@);
                        assert(self@ =~= applied_all(self.loaded(), self.recorded()));
                        assert(self@ =~= with_status(old(self)@, id@, status@));
                    }
                    Ok(())
                } else {
                    Err(Fault::NotActive(id.to_owned()))
                }
            },
            None => Err(Fault::NotFound(id.to_owned())),
        }
    }

    /// Fires the active subscription of an identifier with an event, and says whether
    /// there was one. So a subscription fires once.
    pub fn set_fired(&mut self, id: &str, event_data: &str) -> (r: bool)
        requires
            old(self).wf(),
        ensures
            final(self).wf(),
            final(self).loaded() == old(self).loaded(),
            final(self)@ == with_fired(old(self)@, id@, event_data@),
            r == active_id(old(self)@, id@),
    {
        match self.position(id) {
            Some(i) => {
                proof {
                    assert(self@[i as int] == self.rows@[i as int]@);
                }
                if is_text(&self.rows[i].status, "active") {
                    self.record(Change::SetFired { at: i, event_data: event_data.to_owned() });
                    self.rows[i].status = Some("fired".to_owned());
                    self.rows[i].event_data = Some(event_data.to_owned());
                    proof {
                        lemma_only_row(old(self)@, i as int, id@);
                        assert(self@ =~= applied_all(self.loaded(), self.recorded()));
                        assert(self@ =~= with_fired(old(self)@, id@, event_data@));
                    }
                    true
                } else {
                    false
                }
            },
            None => false,
        }
    }

    /// Expires every active subscription whose time is over at `now`, and says how many
    /// there were.
    pub fn expire_overdue_at(&mut self, now: i64) -> (r: usize)
        requires
            old(self).wf(),
        ensures
            final(self).wf(),
            final(self).loaded() == old(self).loaded(),
            final(self)@ == with_expired(old(self)@, now),
            r == count(old(self)@, |row: RowView| is_overdue(row, now)),
            forall|i: int|
                0 <= i < old(self)@.len() && old(self)@[i].status == Some("active"@)
                    && old(self)@[i].expires_at is Some && old(self)@[i].expires_at->0.is_by(now)
                    ==> (#[trigger] final(self)@[i]).status == Some("expired"@),
    {
        let ghost before = self@;
        let ghost p = |row: RowView| is_overdue(row, now);
        let mut n: usize = 0;
        let mut i: usize = 0;
        proof {
            assert(before.take(0) =~= Seq::<RowView>::empty());
            reveal(Seq::filter);
        }
        while i < self.rows.len()
            invariant
                i <= self.rows@.len(),
                self.rows@.len() == before.len(),
                n <= i,
                p == (|row: RowView| is_overdue(row, now)),
                n == before.take(i as int).filter(p).len(),
                forall|k: int|
                    0 <= k < i ==> (#[trigger] self.rows@[k])@ == with_expired(before, now)[k],
                forall|k: int| i <= k < before.len() ==> (#[trigger] self.rows@[k])@ == before[k],
                self.is_recorded(),
                self.loaded() == old(self).loaded(),
            decreases self.rows@.len() - i,
        {
            proof {
                assert(self.rows@[i as int]@ == before[i as int]);
                lemma_filter_step(before, p, i as int);
            }
            let over: bool = match self.rows[i].expires_at {
                Some(exp) => exp.reached(now),
                None => false,
            };
            if over && is_text(&self.rows[i].status, "active") {
                self.record(Change::SetStatus { at: i, status: "expired".to_owned() });
                self.rows[i].status = Some("expired".to_owned());
                proof {
                    assert(self@ =~= applied_all(self.loaded(), self.recorded()));
                }
                n = n + 1;
            }
            i = i + 1;
        }
        proof {
            assert(before.take(i as int) =~= before);
            assert(self@ =~= with_expired(before, now));
            assert forall|a: int, b: int|
                0 <= a < b < self@.len() && (#[trigger] self@[a]).id is Some implies self@[a].id != (
            #[trigger] self@[b]).id by {
                assert(before[a].id != before[b].id);
            }
        }
        n
    }

    /// Expires every active subscription whose time is over.
    pub fn expire_overdue(&mut self) -> (r: usize)
        requires
            old(self).wf(),
        ensures
            final(self).wf(),
            final(self).loaded() == old(self).loaded(),
            exists|now: Reading|
                clock_shows(now.secs()) && final(self)@ == #[trigger] with_expired(
                    old(self)@,
                    now.secs(),
                ) && r == count(old(self)@, |row: RowView| is_overdue(row, now.secs())),
    {
        let now: Reading = Reading::now();
        self.expire_overdue_at(now.seconds())
    }

    /// Deletes the fired, expired and cancelled subscriptions that were made before
    /// `cutoff`, and says how many there were.
    pub fn prune_completed_before(&mut self, cutoff: i64) -> (r: usize)
        requires
            old(self).wf(),
        ensures
            final(self).wf(),
            final(self).loaded() == old(self).loaded(),
            final(self)@ == pruned(old(self)@, cutoff),
            r == count(old(self)@, |row: RowView| is_prunable(row, cutoff)),
    {
        let ghost before = self@;
        let ghost gone = |row: RowView| is_prunable(row, cutoff);
        let ghost kept = |row: RowView| !is_prunable(row, cutoff);
        let ghost mut seen: int = 0;
        let total: usize = self.rows.len();
        let mut n: usize = 0;
        let mut i: usize = 0;
        proof {
            assert(before.take(0) =~= Seq::<RowView>::empty());
            assert(before.skip(0) =~= before);
            reveal(Seq::filter);
            assert(self@ =~= before.take(0).filter(kept) + before.skip(0));
        }
        while i < self.rows.len()
            invariant
                gone == (|row: RowView| is_prunable(row, cutoff)),
                kept == (|row: RowView| !is_prunable(row, cutoff)),
                0 <= seen <= before.len(),
                self@ == before.take(seen).filter(kept) + before.skip(seen),
                i == before.take(seen).filter(kept).len(),
                n == before.take(seen).filter(gone).len(),
                i + n == seen,
                before.len() == total,
                self.is_recorded(),
                self.loaded() == old(self).loaded(),
            decreases before.len() - seen,
        {
            proof {
                assert(self.rows@.len() == self@.len());
                assert(seen < before.len());
                assert(self@[i as int] == before[seen]);
                assert(self.rows@[i as int]@ == self@[i as int]);
                lemma_filter_step(before, kept, seen);
                lemma_filter_step(before, gone, seen);
            }
            let ghost at = self@;
            let completed: bool = is_text(&self.rows[i].status, "fired") || is_text(
                &self.rows[i].status,
                "expired",
            ) || is_text(&self.rows[i].status, "cancelled");
            let old_enough: bool = match self.rows[i].created_at {
                Some(made) => made.earlier(cutoff),
                None => false,
            };
            if completed && old_enough {
                self.record(Change::Delete { at: i });
                let _ = self.rows.remove(i);
                n = n + 1;
                proof {
                    assert(self@ =~= at.remove(i as int));
                    assert(self@ =~= before.take(seen + 1).filter(kept) + before.skip(seen + 1));
                }
            } else {
                i = i + 1;
                proof {
                    assert(self@ =~= before.take(seen + 1).filter(kept) + before.skip(seen + 1));
                }
            }
            proof {
                seen = seen + 1;
            }
        }
        proof {
            assert(self.rows@.len() == self@.len());
            assert(before.take(seen) =~= before);
            assert(before.skip(seen) =~= Seq::<RowView>::empty());
            assert(self@ =~= pruned(before, cutoff));
            lemma_filter_keeps_unique(before, kept);
        }
        n
    }

    /// Deletes the fired, expired and cancelled subscriptions that were made more than
    /// `older_than_secs` seconds ago, and says how many there were.
    pub fn prune_completed(&mut self, older_than_secs: i64) -> (r: usize)
        requires
            old(self).wf(),
            CLOCK_MAX - older_than_secs <= i64::MAX,
        ensures
            final(self).wf(),
            final(self).loaded() == old(self).loaded(),
            exists|now: Reading|
                clock_shows(now.secs()) && final(self)@ == #[trigger] pruned(
                    old(self)@,
                    (now.secs() - older_than_secs) as i64,
                ) && r == count(
                    old(self)@,
                    |row: RowView| is_prunable(row, (now.secs() - older_than_secs) as i64),
                ),
    {
        let now: Reading = Reading::now();
        let cutoff: i64 = now.seconds() - older_than_secs;
        let n: usize = self.prune_completed_before(cutoff);
        proof {
            assert(self@ == pruned(old(self)@, (now.secs() - older_than_secs) as i64));
        }
        n
    }

    /// The subscriptions of a source and of a status, where these are given, the newest
    /// first, by the time of making that they are given out with.
    pub fn list(&self, source: Option<&str>, status: Option<&str>) -> (r: Vec<Subscription>)
        ensures
            sub_views(r@) == newest_first(listed(self@, slice_of(source), slice_of(status))),
    {
        let ghost from = slice_of(source);
        let ghost of = slice_of(status);
        let mut subs: Vec<Subscription> = Vec::new();
        let mut i: usize = 0;
        proof {
            assert(self@.take(0) =~= Seq::<RowView>::empty());
            assert(sub_views(subs@) =~= newest_first(listed(self@.take(0), from, of)));
        }
        while i < self.rows.len()
            invariant
                from == slice_of(source),
                of == slice_of(status),
                i <= self.rows@.len(),
                self.rows@.len() == self@.len(),
                sub_views(subs@) == newest_first(listed(self@.take(i as int), from, of)),
            decreases self.rows@.len() - i,
        {
            let row: &Row = &self.rows[i];
            proof {
                assert(row@ == self@[i as int]);
                assert(self@.take(i as int + 1).drop_last() =~= self@.take(i as int));
                assert(self@.take(i as int + 1).last() == row@);
            }
            let source_fits: bool = match source {
                Some(s) => is_text(&row.source, s),
                None => true,
            };
            let status_fits: bool = match status {
                Some(s) => is_text(&row.status, s),
                None => true,
            };
            if source_fits && status_fits {
                if let Some(sub) = row_to_sub(row) {
                    let ghost front = listed(self@.take(i as int), from, of);
                    proof {
                        assert(front.push(sub@).drop_last() =~= front);
                    }
                    insert_newest_first(&mut subs, sub);
                }
            }
            i = i + 1;
        }
        proof {
            assert(self@.take(i as int) =~= self@);
        }
        subs
    }

    /// The active subscriptions, the newest first.
    pub fn list_active(&self) -> (r: Vec<Subscription>)
        ensures
            sub_views(r@) == newest_first(listed(self@, None, Some("active"@))),
    {
        self.list(None, Some("active"))
    }

    /// How many subscriptions there are of each status; refused where a status is no text.
    /// Where every condition can be read, the active ones are as many as their list is
    /// long.
    pub fn status_counts(&self) -> (r: Result<StatusCounts, Error>)
        requires
            counts_fit(self@),
        ensures
            match r {
                Ok(counts) => {
                    &&& all_have_statuses(self@)
                    &&& counts.active == tally(self@, "active"@)
                    &&& counts.fired == tally(self@, "fired"@)
                    &&& counts.expired == tally(self@, "expired"@)
                    &&& counts.cancelled == tally(self@, "cancelled"@)
                    &&& all_readable(self@) ==> counts.active == newest_first(
                        listed(self@, None, Some("active"@)),
                    ).len()
                },
                Err(e) => e@ == Fault::<Seq<char>>::StatusNotText && !all_have_statuses(self@),
            },
    {
        let mut i: usize = 0;
        while i < self.rows.len()
            invariant
                i <= self.rows@.len(),
                self.rows@.len() == self@.len(),
                forall|k: int| 0 <= k < i ==> (#[trigger] self@[k]).status is Some,
            decreases self.rows@.len() - i,
        {
            proof {
                assert(self.rows@[i as int]@ == self@[i as int]);
            }
            if self.rows[i].status.is_none() {
                return Err(Fault::StatusNotText);
            }
            i = i + 1;
        }
        proof {
            if all_readable(self@) {
                law_count_is_the_length_of_the_list(self@, "active"@);
            }
        }
        Ok(
            StatusCounts {
                active: self.count_status("active"),
                fired: self.count_status("fired"),
                expired: self.count_status("expired"),
                cancelled: self.count_status("cancelled"),
            },
        )
    }

    /// How many rows have a status.
    fn count_status(&self, status: &str) -> (r: i64)
        requires
            tally(self@, status@) <= i64::MAX,
        ensures
            r == tally(self@, status@),
    {
        let ghost p = |row: RowView| row.status == Some(status@);
        let mut n: i64 = 0;
        let mut i: usize = 0;
        proof {
            assert(self@.take(0) =~= Seq::<RowView>::empty());
            reveal(Seq::filter);
        }
        while i < self.rows.len()
            invariant
                p == (|row: RowView| row.status == Some(status@)),
                i <= self.rows@.len(),
                self.rows@.len() == self@.len(),
                self@.filter(p).len() <= i64::MAX,
                n == self@.take(i as int).filter(p).len(),
            decreases self.rows@.len() - i,
        {
            proof {
                assert(self.rows@[i as int]@ == self@[i as int]);
                lemma_filter_step(self@, p, i as int);
                lemma_filter_grows(self@, p, i as int + 1);
            }
            if is_text(&self.rows[i].status, status) {
                n = n + 1;
            }
            i = i + 1;
        }
        proof {
            assert(self@.take(i as int) =~= self@);
        }
        n
    }
}

/// Puts `sub` behind all of `subs` that are no older.
fn insert_newest_first(subs: &mut Vec<Subscription>, sub: Subscription)
    ensures
        sub_views(final(subs)@) == put_newest_first(sub_views(old(subs)@), sub@),
{
    let ghost views = sub_views(subs@);
    let mut at: usize = subs.len();
    while at > 0 && subs[at - 1].created_at < sub.created_at
        invariant
            views == sub_views(subs@),
            at <= subs@.len(),
            forall|k: int| at <= k < views.len() ==> (#[trigger] views[k]).created_at
                < sub.created_at,
        decreases at,
    {
        proof {
            assert(views[at - 1] == subs@[at - 1]@);
        }
        at = at - 1;
    }
    proof {
        if at > 0 {
            assert(views[at - 1] == subs@[at - 1]@);
        }
        lemma_put_newest_first(views, sub@, at as int);
    }
    subs.insert(at, sub);
    proof {
        assert(sub_views(subs@) =~= views.insert(at as int, sub@));
    }
}

proof fn lemma_put_newest_first(subs: Seq<SubscriptionView>, sub: SubscriptionView, at: int)
    requires
        0 <= at <= subs.len(),
        forall|k: int| at <= k < subs.len() ==> (#[trigger] subs[k]).created_at < sub.created_at,
        at > 0 ==> subs[at - 1].created_at >= sub.created_at,
    ensures
        put_newest_first(subs, sub) == subs.insert(at, sub),
    decreases subs.len(),
{
    if at < subs.len() {
        let front = subs.drop_last();
        assert(subs[subs.len() - 1].created_at < sub.created_at);
        assert forall|k: int| at <= k < front.len() implies (#[trigger] front[k]).created_at
            < sub.created_at by {
            assert(subs[k].created_at < sub.created_at);
        }
        lemma_put_newest_first(front, sub, at);
        assert(front.insert(at, sub).push(subs.last()) =~= subs.insert(at, sub));
    } else {
        assert(subs.push(sub) =~= subs.insert(at, sub));
    }
}

} // verus!
