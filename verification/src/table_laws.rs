//! What holds of the rows of the table, said of their columns.
use crate::change::{all_fit, applied_all, lemma_one_more, ChangeView};
use crate::condition::ConditionView;
use crate::outside::json_reads;
use crate::row::{row_for, row_in, sub_in, Cell, RowView, Stamp};
use crate::store::{
    active_id, all_have_statuses, count, has_id, is_listed, is_overdue, is_prunable, lemma_row_at,
    lemma_row_of, listed, newest_first, pruned, row_of, sub_with_id, tally, unique_ids,
    with_expired, with_fired, with_status,
};
use crate::store_laws::{
    law_list_has_what_is_asked_for, law_list_is_newest_first,
};
use crate::subscription::SubscriptionView;
use vstd::prelude::*;

verus! {

// ---------------------------------------------------------------------------
// Rows and subscriptions
// ---------------------------------------------------------------------------

/// A new subscription is stored column by column as it is, but for its event.
pub proof fn law_stored_as_it_is(sub: SubscriptionView)
    ensures
        ({
            let row = row_for(sub);
            &&& row.id == Some(sub.id)
            &&& row.source == Some(sub.source)
            &&& row.condition == Some(sub.condition)
            &&& row.mode == sub.mode
            &&& row.callback == sub.callback
            &&& row.status == Some(sub.status)
            &&& row.created_at == Some(Stamp::At(sub.created_at))
            &&& row.expires_at == match sub.expires_at {
                Some(n) => Some(Stamp::At(n)),
                None => None,
            }
            &&& row.event_data is None
        }),
        sub_in(row_for(sub)) == Some(SubscriptionView { event_data: None, ..sub }),
{
}

/// A row is given out column by column as it is stored, where its condition can be read, and
/// else not at all; an event only where it is JSON.
pub proof fn law_given_out_as_it_is_stored(row: RowView)
    ensures
        match sub_in(row) {
            None => row.condition is None,
            Some(sub) => {
                &&& row.condition == Some(sub.condition)
                &&& row.id is Some ==> row.id == Some(sub.id)
                &&& row.id is None ==> sub.id.len() == 0
                &&& row.source is Some ==> row.source == Some(sub.source)
                &&& row.source is None ==> sub.source.len() == 0
                &&& sub.mode == row.mode
                &&& sub.callback == row.callback
                &&& row.status is Some ==> row.status == Some(sub.status)
                &&& row.status is None ==> sub.status.len() == 0
                &&& match row.created_at {
                    Some(Stamp::At(n)) => sub.created_at == n,
                    _ => sub.created_at == 0,
                }
                &&& match row.expires_at {
                    Some(Stamp::At(n)) => sub.expires_at == Some(n),
                    _ => sub.expires_at is None,
                }
                &&& match row.event_data {
                    Some(text) => sub.event_data == (if json_reads(text) {
                        Some(text)
                    } else {
                        None
                    }),
                    None => sub.event_data is None,
                }
            },
        },
{
}

/// The nine cells of a row are its columns in turn; a text is taken as a text, a number of
/// seconds as a moment, and what is of another type as nothing.
pub proof fn law_cells_are_columns(cells: Seq<Cell>, condition: Option<ConditionView>)
    requires
        cells.len() == 9,
    ensures
        ({
            let row = row_in(cells, condition);
            &&& row.condition == condition
            &&& match cells[0] {
                Cell::Text(s) => row.id == Some(s@),
                _ => row.id is None,
            }
            &&& match cells[1] {
                Cell::Text(s) => row.source == Some(s@),
                _ => row.source is None,
            }
            &&& match cells[3] {
                Cell::Text(s) => row.mode == s@,
                _ => row.mode.len() == 0,
            }
            &&& match cells[4] {
                Cell::Text(s) => row.callback == Some(s@),
                _ => row.callback is None,
            }
            &&& match cells[5] {
                Cell::Text(s) => row.status == Some(s@),
                _ => row.status is None,
            }
            &&& match cells[6] {
                Cell::Integer(n) => row.created_at == Some(Stamp::At(n)),
                Cell::Fraction(n) => row.created_at == Some(Stamp::Before(n)),
                _ => row.created_at is None,
            }
            &&& match cells[7] {
                Cell::Integer(n) => row.expires_at == Some(Stamp::At(n)),
                Cell::Fraction(n) => row.expires_at == Some(Stamp::Before(n)),
                _ => row.expires_at is None,
            }
            &&& match cells[8] {
                Cell::Text(s) => row.event_data == Some(s@),
                _ => row.event_data is None,
            }
        }),
{
}

// ---------------------------------------------------------------------------
// Identifiers
// ---------------------------------------------------------------------------

/// Identifiers are unique exactly where no two rows have the same text for one.
pub proof fn law_unique_is_no_two_alike(rows: Seq<RowView>)
    ensures
        unique_ids(rows) <==> !(exists|i: int, j: int|
            0 <= i < j < rows.len() && (#[trigger] rows[i]).id is Some && rows[i].id == (
            #[trigger] rows[j]).id),
{
}

/// An identifier is stored exactly where a row has it, and where identifiers are unique its
/// row is that one.
pub proof fn law_row_of_an_identifier(rows: Seq<RowView>, id: Seq<char>, i: int)
    requires
        unique_ids(rows),
        0 <= i < rows.len(),
    ensures
        rows[i].id == Some(id) ==> has_id(rows, id) && row_of(rows, id) == Some(rows[i])
            && sub_with_id(rows, id) == sub_in(rows[i]),
        rows[i].id == Some(id) ==> (active_id(rows, id) <==> rows[i].status == Some("active"@)),
        has_id(rows, id) ==> row_of(rows, id) is Some,
        !has_id(rows, id) ==> rows[i].id != Some(id) && row_of(rows, id) is None && sub_with_id(
            rows,
            id,
        ) is None && !active_id(rows, id),
{
    lemma_row_of(rows, id);
    if rows[i].id == Some(id) {
        lemma_row_at(rows, i);
    }
}

// ---------------------------------------------------------------------------
// Changes of status
// ---------------------------------------------------------------------------

/// Giving a status changes the status of the row with the identifier, if it is active, and
/// nothing else of it or of any other row, whatever the other columns hold.
pub proof fn law_giving_a_status(
    rows: Seq<RowView>,
    id: Seq<char>,
    status: Seq<char>,
    i: int,
)
    requires
        0 <= i < rows.len(),
    ensures
        with_status(rows, id, status).len() == rows.len(),
        with_status(rows, id, status)[i] == if rows[i].id == Some(id) && rows[i].status == Some(
            "active"@,
        ) {
            RowView { status: Some(status), ..rows[i] }
        } else {
            rows[i]
        },
{
}

/// Firing gives the row with the identifier, if it is active, the status `fired` and the
/// event, and changes nothing else of it or of any other row, whatever the other columns
/// hold.
pub proof fn law_firing(rows: Seq<RowView>, id: Seq<char>, event: Seq<char>, i: int)
    requires
        0 <= i < rows.len(),
    ensures
        with_fired(rows, id, event).len() == rows.len(),
        with_fired(rows, id, event)[i] == if rows[i].id == Some(id) && rows[i].status == Some(
            "active"@,
        ) {
            RowView { status: Some("fired"@), event_data: Some(event), ..rows[i] }
        } else {
            rows[i]
        },
{
}

/// Whether a row is active and its expiry is at or before `now`, said of its columns.
pub open spec fn time_is_over(row: RowView, now: i64) -> bool {
    row.status == Some("active"@) && match row.expires_at {
        Some(Stamp::At(n)) => n <= now,
        Some(Stamp::Before(n)) => n <= now,
        None => false,
    }
}

proof fn lemma_filter_same(
    rows: Seq<RowView>,
    p: spec_fn(RowView) -> bool,
    q: spec_fn(RowView) -> bool,
)
    requires
        forall|row: RowView| #[trigger] p(row) == q(row),
    ensures
        rows.filter(p) == rows.filter(q),
    decreases rows.len(),
{
    reveal(Seq::filter);
    if rows.len() > 0 {
        lemma_filter_same(rows.drop_last(), p, q);
        assert(p(rows.last()) == q(rows.last()));
    }
}

/// After expiry at `now` every row that was active with an expiry at or before `now` has the
/// status `expired`, whatever its source, mode or condition; nothing else has changed; and as
/// many are counted as there were.
pub proof fn law_every_overdue_row_expires(rows: Seq<RowView>, now: i64, i: int)
    requires
        0 <= i < rows.len(),
    ensures
        with_expired(rows, now).len() == rows.len(),
        time_is_over(rows[i], now) ==> with_expired(rows, now)[i] == (RowView {
            status: Some("expired"@),
            ..rows[i]
        }),
        !time_is_over(rows[i], now) ==> with_expired(rows, now)[i] == rows[i],
        count(rows, |row: RowView| is_overdue(row, now)) == rows.filter(
            |row: RowView| time_is_over(row, now),
        ).len(),
{
    lemma_filter_same(
        rows,
        |row: RowView| is_overdue(row, now),
        |row: RowView| time_is_over(row, now),
    );
}

/// Whether a row has ended and was made before `cutoff`, said of its columns.
pub open spec fn is_old_and_ended(row: RowView, cutoff: i64) -> bool {
    &&& {
        ||| row.status == Some("fired"@)
        ||| row.status == Some("expired"@)
        ||| row.status == Some("cancelled"@)
    }
    &&& match row.created_at {
        Some(Stamp::At(n)) => n < cutoff,
        Some(Stamp::Before(n)) => n <= cutoff,
        None => false,
    }
}

/// Pruning takes out every row that has ended and was made before the cutoff, whatever its
/// other columns hold, leaves all others in their order, and counts those it took.
pub proof fn law_every_old_ended_row_is_pruned(rows: Seq<RowView>, cutoff: i64, row: RowView)
    ensures
        pruned(rows, cutoff) == rows.filter(|row: RowView| !is_old_and_ended(row, cutoff)),
        is_old_and_ended(row, cutoff) ==> !pruned(rows, cutoff).contains(row),
        !is_old_and_ended(row, cutoff) ==> (pruned(rows, cutoff).contains(row) <==> rows.contains(
            row,
        )),
        count(rows, |row: RowView| is_prunable(row, cutoff)) == rows.filter(
            |row: RowView| is_old_and_ended(row, cutoff),
        ).len(),
{
    let kept = |row: RowView| !is_old_and_ended(row, cutoff);
    lemma_filter_same(rows, |row: RowView| !is_prunable(row, cutoff), kept);
    lemma_filter_same(
        rows,
        |row: RowView| is_prunable(row, cutoff),
        |row: RowView| is_old_and_ended(row, cutoff),
    );
    lemma_filter_contains(rows, kept, row);
}

proof fn lemma_filter_contains(rows: Seq<RowView>, p: spec_fn(RowView) -> bool, row: RowView)
    ensures
        rows.filter(p).contains(row) <==> rows.contains(row) && p(row),
    decreases rows.len(),
{
    reveal(Seq::filter);
    if rows.len() > 0 {
        let front = rows.drop_last();
        let some = front.filter(p);
        let all = rows.filter(p);
        lemma_filter_contains(front, p, row);
        if all.contains(row) {
            let k = choose|k: int| 0 <= k < all.len() && all[k] == row;
            if k < some.len() {
                assert(some[k] == row);
                let j = choose|j: int| 0 <= j < front.len() && front[j] == row;
                assert(rows[j] == row);
            } else {
                assert(rows[rows.len() - 1] == row);
            }
        }
        if rows.contains(row) && p(row) {
            let k = choose|k: int| 0 <= k < rows.len() && rows[k] == row;
            if k < front.len() {
                assert(front[k] == row);
                let j = choose|j: int| 0 <= j < some.len() && some[j] == row;
                assert(all[j] == row);
            } else {
                assert(all[all.len() - 1] == row);
            }
        }
    }
}

// ---------------------------------------------------------------------------
// Counting and listing
// ---------------------------------------------------------------------------

/// A row is counted under its status, and under no other, whatever its other columns hold:
/// one row more makes the count of its status one more, and that of no other.
pub proof fn law_counted_under_its_status(rows: Seq<RowView>, row: RowView, status: Seq<char>)
    ensures
        tally(Seq::<RowView>::empty(), status) == 0,
        tally(rows.push(row), status) == tally(rows, status) + if row.status == Some(status) {
            1nat
        } else {
            0nat
        },
{
    reveal(Seq::filter);
    assert(rows.push(row).drop_last() =~= rows);
}

/// Statuses are missing exactly where that of a row is no text.
pub proof fn law_missing_statuses(rows: Seq<RowView>)
    ensures
        !all_have_statuses(rows) <==> exists|i: int|
            0 <= i < rows.len() && (#[trigger] rows[i]).status is None,
{
}

/// Whether a row has the wanted source and status and can be read, said of its columns.
pub open spec fn is_asked_for(
    row: RowView,
    source: Option<Seq<char>>,
    status: Option<Seq<char>>,
) -> bool {
    &&& source matches Some(s) ==> row.source == Some(s)
    &&& status matches Some(s) ==> row.status == Some(s)
    &&& row.condition is Some
}

/// A list has the subscription of every row with the wanted source and status that can be
/// read, and of no other row, whatever else the rows hold: one for each.
pub proof fn law_listed_are_the_rows_asked_for(
    rows: Seq<RowView>,
    source: Option<Seq<char>>,
    status: Option<Seq<char>>,
)
    ensures
        listed(rows, source, status) == rows.filter(
            |row: RowView| is_asked_for(row, source, status),
        ).map_values(|row: RowView| sub_in(row)->0),
        newest_first(listed(rows, source, status)).to_multiset() == listed(
            rows,
            source,
            status,
        ).to_multiset(),
    decreases rows.len(),
{
    reveal(Seq::filter);
    law_list_is_newest_first(listed(rows, source, status), 0);
    let p = |row: RowView| is_asked_for(row, source, status);
    let give = |row: RowView| sub_in(row)->0;
    if rows.len() == 0 {
        assert(listed(rows, source, status) =~= rows.filter(p).map_values(give));
    } else {
        let front = rows.drop_last();
        law_listed_are_the_rows_asked_for(front, source, status);
        assert(front.filter(p).push(rows.last()).map_values(give) =~= front.filter(p).map_values(
            give,
        ).push(sub_in(rows.last())->0));
    }
}

/// The subscription of a row that is asked for and can be read is in the list, and everything
/// in the list is that of such a row.
pub proof fn law_list_has_them_all(
    rows: Seq<RowView>,
    source: Option<Seq<char>>,
    status: Option<Seq<char>>,
    i: int,
    sub: SubscriptionView,
)
    requires
        0 <= i < rows.len(),
    ensures
        is_asked_for(rows[i], source, status) ==> newest_first(
            listed(rows, source, status),
        ).contains(sub_in(rows[i])->0),
        newest_first(listed(rows, source, status)).contains(sub) ==> exists|k: int|
            0 <= k < rows.len() && is_asked_for(#[trigger] rows[k], source, status) && sub_in(
                rows[k],
            ) == Some(sub),
{
    if is_asked_for(rows[i], source, status) {
        assert(is_listed(rows[i], source, status));
        law_list_has_what_is_asked_for(rows, source, status, sub_in(rows[i])->0);
    }
    law_list_has_what_is_asked_for(rows, source, status, sub);
    if newest_first(listed(rows, source, status)).contains(sub) {
        let k = choose|k: int|
            0 <= k < rows.len() && is_listed(#[trigger] rows[k], source, status) && sub_in(rows[k])
                == Some(sub);
        assert(is_asked_for(rows[k], source, status));
    }
}

/// In a list no subscription stands before one that was made later.
pub proof fn law_list_goes_back_in_time(
    rows: Seq<RowView>,
    source: Option<Seq<char>>,
    status: Option<Seq<char>>,
    i: int,
    j: int,
)
    requires
        0 <= i < j < newest_first(listed(rows, source, status)).len(),
    ensures
        newest_first(listed(rows, source, status))[i].created_at >= newest_first(
            listed(rows, source, status),
        )[j].created_at,
{
    law_list_is_newest_first(listed(rows, source, status), 0);
}

// ---------------------------------------------------------------------------
// Changes of the table
// ---------------------------------------------------------------------------

/// What the changes of the table do to each of its rows: an insert puts its row at the end, a
/// change of status and a firing touch those columns of one row, a deletion takes one row
/// out, and the rows before and behind it stay.
pub proof fn law_what_changes_do(
    rows: Seq<RowView>,
    row: RowView,
    at: int,
    text: Seq<char>,
    i: int,
)
    requires
        0 <= at < rows.len(),
        0 <= i < rows.len(),
    ensures
        ChangeView::Insert(row).applied(rows) == rows.push(row),
        (ChangeView::SetStatus { at, status: text }).applied(rows)[i] == if i == at {
            RowView { status: Some(text), ..rows[i] }
        } else {
            rows[i]
        },
        (ChangeView::SetFired { at, event_data: text }).applied(rows)[i] == if i == at {
            RowView { status: Some("fired"@), event_data: Some(text), ..rows[i] }
        } else {
            rows[i]
        },
        (ChangeView::SetStatus { at, status: text }).applied(rows).len() == rows.len(),
        (ChangeView::SetFired { at, event_data: text }).applied(rows).len() == rows.len(),
        (ChangeView::Delete { at }).applied(rows) == rows.take(at) + rows.skip(at + 1),
        (ChangeView::SetStatus { at, status: text }).fits(rows),
        (ChangeView::SetFired { at, event_data: text }).fits(rows),
        (ChangeView::Delete { at }).fits(rows),
        !(ChangeView::SetStatus { at: rows.len() as int, status: text }).fits(rows),
        !(ChangeView::SetFired { at: rows.len() as int, event_data: text }).fits(rows),
        !(ChangeView::Delete { at: rows.len() as int }).fits(rows),
{
    assert(rows.remove(at) =~= rows.take(at) + rows.skip(at + 1));
}

/// Changes are made in turn: none leave the rows as they are, and one more is made to what the
/// others left.
pub proof fn law_changes_are_made_in_turn(
    rows: Seq<RowView>,
    changes: Seq<ChangeView>,
    change: ChangeView,
)
    ensures
        applied_all(rows, Seq::empty()) == rows,
        all_fit(rows, Seq::empty()),
        applied_all(rows, changes.push(change)) == change.applied(applied_all(rows, changes)),
        all_fit(rows, changes.push(change)) <==> all_fit(rows, changes) && change.fits(
            applied_all(rows, changes),
        ),
{
    lemma_one_more(rows, changes, change);
}

} // verus!
