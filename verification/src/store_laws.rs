//! What holds of the store across its operations.
use crate::outside::json_reads;
use crate::row::{row_for, sub_in, RowView};
use crate::store::{
    active_id, all_have_ids, all_readable, count, has_id, is_active, is_listed, is_overdue,
    is_prunable, lemma_front_unique, lemma_only_row, lemma_row_at, lemma_row_of, listed,
    newest_first, pruned, put_newest_first, row_of, sub_with_id, tally, unique_ids, with_expired,
    with_fired, with_status,
};
use crate::subscription::SubscriptionView;
use vstd::prelude::*;

verus! {

// ---------------------------------------------------------------------------
// Reading back what was written
// ---------------------------------------------------------------------------

/// What is stored is read back: after a subscription is inserted, its identifier gives
/// that subscription, which has no event yet.
pub proof fn law_insert_reads_back(rows: Seq<RowView>, sub: SubscriptionView)
    ensures
        sub_with_id(rows.push(row_for(sub)), sub.id) == Some(
            SubscriptionView { event_data: None, ..sub },
        ),
{
    assert(rows.push(row_for(sub)).last() == row_for(sub));
}

/// An insert changes nothing for the other identifiers.
pub proof fn law_insert_keeps_the_others(
    rows: Seq<RowView>,
    sub: SubscriptionView,
    other: Seq<char>,
)
    requires
        other != sub.id,
    ensures
        row_of(rows.push(row_for(sub)), other) == row_of(rows, other),
        sub_with_id(rows.push(row_for(sub)), other) == sub_with_id(rows, other),
{
    assert(rows.push(row_for(sub)).drop_last() =~= rows);
}

/// A change that keeps identifiers changes the row of an identifier, and no more.
proof fn lemma_row_of_changed(
    rows: Seq<RowView>,
    change: spec_fn(RowView) -> RowView,
    id: Seq<char>,
)
    requires
        forall|row: RowView| (#[trigger] change(row)).id == row.id,
    ensures
        row_of(rows.map_values(change), id) == match row_of(rows, id) {
            Some(row) => Some(change(row)),
            None => None,
        },
    decreases rows.len(),
{
    let after = rows.map_values(change);
    if rows.len() > 0 {
        assert(after.last() == change(rows.last()));
        assert(after.drop_last() =~= rows.drop_last().map_values(change));
        lemma_row_of_changed(rows.drop_last(), change, id);
    }
}

/// Expiry changes the row of an identifier where it is overdue, and no more.
pub proof fn lemma_row_of_expired(rows: Seq<RowView>, now: i64, id: Seq<char>)
    ensures
        row_of(with_expired(rows, now), id) == match row_of(rows, id) {
            Some(row) => Some(
                if is_overdue(row, now) {
                    RowView { status: Some("expired"@), ..row }
                } else {
                    row
                },
            ),
            None => None,
        },
{
    let expire = |row: RowView|
        if is_overdue(row, now) {
            RowView { status: Some("expired"@), ..row }
        } else {
            row
        };
    lemma_row_of_changed(rows, expire, id);
}

/// Firing leaves alone what is not active.
pub proof fn lemma_fire_keeps_settled(
    rows: Seq<RowView>,
    any: Seq<char>,
    event: Seq<char>,
    id: Seq<char>,
)
    requires
        !active_id(rows, id),
    ensures
        row_of(with_fired(rows, any, event), id) == row_of(rows, id),
{
    let fire = |row: RowView|
        if row.id == Some(any) && is_active(row) {
            RowView { status: Some("fired"@), event_data: Some(event), ..row }
        } else {
            row
        };
    lemma_row_of_changed(rows, fire, id);
}

/// What fired is read back: an active subscription that fires is given out with the
/// status `fired` and, where the event is JSON, with the event, and is otherwise as it
/// was.
pub proof fn law_fire_reads_back(rows: Seq<RowView>, id: Seq<char>, event: Seq<char>)
    requires
        active_id(rows, id),
    ensures
        row_of(with_fired(rows, id, event), id) == Some(
            RowView { status: Some("fired"@), event_data: Some(event), ..row_of(rows, id)->0 },
        ),
        json_reads(event) && sub_with_id(rows, id) is Some ==> sub_with_id(
            with_fired(rows, id, event),
            id,
        ) == Some(
            SubscriptionView {
                status: "fired"@,
                event_data: Some(event),
                ..sub_with_id(rows, id)->0
            },
        ),
{
    let change = |row: RowView|
        if row.id == Some(id) && is_active(row) {
            RowView { status: Some("fired"@), event_data: Some(event), ..row }
        } else {
            row
        };
    lemma_row_of_changed(rows, change, id);
    lemma_row_of(rows, id);
}

/// What is given a status is read back with it, where it was active.
pub proof fn law_status_reads_back(rows: Seq<RowView>, id: Seq<char>, status: Seq<char>)
    requires
        active_id(rows, id),
    ensures
        row_of(with_status(rows, id, status), id) == Some(
            RowView { status: Some(status), ..row_of(rows, id)->0 },
        ),
{
    let change = |row: RowView|
        if row.id == Some(id) && is_active(row) {
            RowView { status: Some(status), ..row }
        } else {
            row
        };
    lemma_row_of_changed(rows, change, id);
    lemma_row_of(rows, id);
}

/// Firing, and giving a status, change nothing for the other identifiers.
pub proof fn law_changes_keep_the_others(
    rows: Seq<RowView>,
    id: Seq<char>,
    text: Seq<char>,
    other: Seq<char>,
)
    requires
        other != id,
    ensures
        row_of(with_fired(rows, id, text), other) == row_of(rows, other),
        row_of(with_status(rows, id, text), other) == row_of(rows, other),
{
    let fire = |row: RowView|
        if row.id == Some(id) && is_active(row) {
            RowView { status: Some("fired"@), event_data: Some(text), ..row }
        } else {
            row
        };
    let set = |row: RowView|
        if row.id == Some(id) && is_active(row) {
            RowView { status: Some(text), ..row }
        } else {
            row
        };
    lemma_row_of_changed(rows, fire, other);
    lemma_row_of_changed(rows, set, other);
    lemma_row_of(rows, other);
}

// ---------------------------------------------------------------------------
// The life of a subscription
// ---------------------------------------------------------------------------

/// The four statuses are different.
pub proof fn lemma_statuses_differ()
    ensures
        "active"@ != "fired"@,
        "active"@ != "expired"@,
        "active"@ != "cancelled"@,
        "fired"@ != "expired"@,
        "fired"@ != "cancelled"@,
        "expired"@ != "cancelled"@,
{
    reveal_strlit("active");
    reveal_strlit("fired");
    reveal_strlit("expired");
    reveal_strlit("cancelled");
    assert("active"@.len() == 6);
    assert("fired"@.len() == 5);
    assert("expired"@.len() == 7);
    assert("cancelled"@.len() == 9);
}

/// A subscription that is no longer active stays as it is: no change of status, no
/// firing and no expiry touches it.
pub proof fn law_settled_stays_settled(
    rows: Seq<RowView>,
    i: int,
    id: Seq<char>,
    text: Seq<char>,
    now: i64,
)
    requires
        0 <= i < rows.len(),
        !is_active(rows[i]),
    ensures
        with_status(rows, id, text)[i] == rows[i],
        with_fired(rows, id, text)[i] == rows[i],
        with_expired(rows, now)[i] == rows[i],
{
}

/// What is no longer active never becomes so again: whatever is done to the store, with
/// whatever identifier, its row stays as it is, until it is pruned.
pub proof fn law_never_active_again(
    rows: Seq<RowView>,
    id: Seq<char>,
    any: Seq<char>,
    text: Seq<char>,
    now: i64,
    sub: SubscriptionView,
)
    requires
        unique_ids(rows),
        row_of(rows, id) is Some,
        !active_id(rows, id),
    ensures
        row_of(with_status(rows, any, text), id) == row_of(rows, id),
        row_of(with_fired(rows, any, text), id) == row_of(rows, id),
        row_of(with_expired(rows, now), id) == row_of(rows, id),
        !has_id(rows, sub.id) ==> row_of(rows.push(row_for(sub)), id) == row_of(rows, id),
        row_of(pruned(rows, now), id) is None || row_of(pruned(rows, now), id) == row_of(rows, id),
{
    let set = |row: RowView|
        if row.id == Some(any) && is_active(row) {
            RowView { status: Some(text), ..row }
        } else {
            row
        };
    lemma_row_of(rows, id);
    lemma_row_of_changed(rows, set, id);
    lemma_fire_keeps_settled(rows, any, text, id);
    lemma_row_of_expired(rows, now, id);
    if !has_id(rows, sub.id) {
        law_insert_keeps_the_others(rows, sub, id);
    }
    law_prune_takes_only_old_completed(rows, now, id);
}

/// Whatever happens to a subscription, what was asked for stays: only its status and its
/// event ever change, and no row comes, goes or moves.
pub proof fn law_only_status_and_event_change(
    rows: Seq<RowView>,
    i: int,
    id: Seq<char>,
    text: Seq<char>,
    now: i64,
)
    requires
        0 <= i < rows.len(),
    ensures
        with_status(rows, id, text).len() == rows.len(),
        with_fired(rows, id, text).len() == rows.len(),
        with_expired(rows, now).len() == rows.len(),
        with_status(rows, id, text)[i] == (RowView {
            status: with_status(rows, id, text)[i].status,
            ..rows[i]
        }),
        with_fired(rows, id, text)[i] == (RowView {
            status: with_fired(rows, id, text)[i].status,
            event_data: with_fired(rows, id, text)[i].event_data,
            ..rows[i]
        }),
        with_expired(rows, now)[i] == (RowView {
            status: with_expired(rows, now)[i].status,
            ..rows[i]
        }),
{
}

/// A subscription fires once: after it fired it is not active, and firing it again, with
/// whatever event, changes nothing.
pub proof fn law_fires_once(
    rows: Seq<RowView>,
    id: Seq<char>,
    event: Seq<char>,
    again: Seq<char>,
)
    ensures
        !active_id(with_fired(rows, id, event), id),
        with_fired(with_fired(rows, id, event), id, again) == with_fired(rows, id, event),
{
    let change = |row: RowView|
        if row.id == Some(id) && is_active(row) {
            RowView { status: Some("fired"@), event_data: Some(event), ..row }
        } else {
            row
        };
    lemma_statuses_differ();
    lemma_row_of_changed(rows, change, id);
    lemma_row_of(rows, id);
    assert(with_fired(with_fired(rows, id, event), id, again) =~= with_fired(rows, id, event));
}

/// What fired before its time was over does not expire: firing goes before expiry.
pub proof fn law_fired_does_not_expire(
    rows: Seq<RowView>,
    id: Seq<char>,
    event: Seq<char>,
    now: i64,
)
    requires
        active_id(rows, id),
    ensures
        row_of(with_expired(with_fired(rows, id, event), now), id) == row_of(
            with_fired(rows, id, event),
            id,
        ),
{
    lemma_statuses_differ();
    law_fire_reads_back(rows, id, event);
    lemma_row_of_expired(with_fired(rows, id, event), now, id);
}

/// What is overdue expires, and what has expired does not fire any more, nor can it be
/// cancelled.
pub proof fn law_expired_does_not_fire(
    rows: Seq<RowView>,
    id: Seq<char>,
    event: Seq<char>,
    now: i64,
)
    requires
        row_of(rows, id) matches Some(row) && is_overdue(row, now),
    ensures
        row_of(with_expired(rows, now), id) == Some(
            RowView { status: Some("expired"@), ..row_of(rows, id)->0 },
        ),
        !active_id(with_expired(rows, now), id),
        row_of(with_fired(with_expired(rows, now), id, event), id) == row_of(
            with_expired(rows, now),
            id,
        ),
{
    lemma_statuses_differ();
    lemma_row_of_expired(rows, now, id);
    lemma_fire_keeps_settled(with_expired(rows, now), id, event, id);
}

/// After expiry at a moment nothing is overdue at that moment, so expiring again changes
/// nothing.
pub proof fn law_expiry_is_complete(rows: Seq<RowView>, now: i64)
    ensures
        forall|i: int|
            0 <= i < rows.len() ==> !is_overdue(#[trigger] with_expired(rows, now)[i], now),
        with_expired(with_expired(rows, now), now) == with_expired(rows, now),
{
    lemma_statuses_differ();
    assert(with_expired(with_expired(rows, now), now) =~= with_expired(rows, now));
}

// ---------------------------------------------------------------------------
// Pruning
// ---------------------------------------------------------------------------

proof fn lemma_row_of_filtered(rows: Seq<RowView>, p: spec_fn(RowView) -> bool, id: Seq<char>)
    requires
        unique_ids(rows),
    ensures
        row_of(rows.filter(p), id) == match row_of(rows, id) {
            Some(row) => if p(row) {
                Some(row)
            } else {
                None
            },
            None => None,
        },
    decreases rows.len(),
{
    reveal(Seq::filter);
    if rows.len() > 0 {
        let front = rows.drop_last();
        lemma_front_unique(rows);
        lemma_row_of_filtered(front, p, id);
        if p(rows.last()) {
            assert(rows.filter(p).drop_last() =~= front.filter(p));
        } else if rows.last().id == Some(id) {
            lemma_row_of(front, id);
            if has_id(front, id) {
                let i = choose|i: int| 0 <= i < front.len() && (#[trigger] front[i]).id == Some(id);
                assert(rows[i].id != rows[rows.len() - 1].id);
            }
        }
    }
}

/// Pruning takes what is completed and old, and leaves everything else as it was; no
/// active subscription is ever pruned.
pub proof fn law_prune_takes_only_old_completed(rows: Seq<RowView>, cutoff: i64, id: Seq<char>)
    requires
        unique_ids(rows),
    ensures
        row_of(pruned(rows, cutoff), id) == match row_of(rows, id) {
            Some(row) => if is_prunable(row, cutoff) {
                None
            } else {
                Some(row)
            },
            None => None,
        },
        active_id(rows, id) ==> row_of(pruned(rows, cutoff), id) == row_of(rows, id),
{
    lemma_statuses_differ();
    lemma_row_of_filtered(rows, |row: RowView| !is_prunable(row, cutoff), id);
}

/// Every row is either pruned, and counted so, or left.
pub proof fn law_prune_counts(rows: Seq<RowView>, cutoff: i64)
    ensures
        pruned(rows, cutoff).len() + count(rows, |row: RowView| is_prunable(row, cutoff))
            == rows.len(),
    decreases rows.len(),
{
    reveal(Seq::filter);
    if rows.len() > 0 {
        law_prune_counts(rows.drop_last(), cutoff);
    }
}

// ---------------------------------------------------------------------------
// Counting
// ---------------------------------------------------------------------------

proof fn lemma_tally_step(rows: Seq<RowView>, status: Seq<char>)
    requires
        rows.len() > 0,
    ensures
        tally(rows, status) == tally(rows.drop_last(), status) + if rows.last().status == Some(status) {
            1nat
        } else {
            0nat
        },
{
    reveal(Seq::filter);
}

proof fn lemma_tally_update(rows: Seq<RowView>, i: int, row: RowView, status: Seq<char>)
    requires
        0 <= i < rows.len(),
    ensures
        tally(rows.update(i, row), status) + (if rows[i].status == Some(status) {
            1nat
        } else {
            0nat
        }) == tally(rows, status) + (if row.status == Some(status) {
            1nat
        } else {
            0nat
        }),
    decreases rows.len(),
{
    let after = rows.update(i, row);
    lemma_tally_step(rows, status);
    lemma_tally_step(after, status);
    if i == rows.len() - 1 {
        assert(after.drop_last() =~= rows.drop_last());
    } else {
        assert(after.drop_last() =~= rows.drop_last().update(i, row));
        lemma_tally_update(rows.drop_last(), i, row, status);
    }
}

/// Firing moves one subscription from the active to the fired, and touches no other
/// count.
pub proof fn law_fire_moves_one(
    rows: Seq<RowView>,
    id: Seq<char>,
    event: Seq<char>,
    status: Seq<char>,
)
    requires
        unique_ids(rows),
        active_id(rows, id),
    ensures
        tally(with_fired(rows, id, event), "active"@) == tally(rows, "active"@) - 1,
        tally(with_fired(rows, id, event), "fired"@) == tally(rows, "fired"@) + 1,
        status != "active"@ && status != "fired"@ ==> tally(with_fired(rows, id, event), status)
            == tally(rows, status),
{
    lemma_statuses_differ();
    lemma_row_of(rows, id);
    let row = row_of(rows, id)->0;
    let i = choose|i: int| 0 <= i < rows.len() && rows[i] == row;
    let fired = RowView { status: Some("fired"@), event_data: Some(event), ..row };
    lemma_only_row(rows, i, id);
    assert(with_fired(rows, id, event) =~= rows.update(i, fired));
    lemma_tally_update(rows, i, fired, "active"@);
    lemma_tally_update(rows, i, fired, "fired"@);
    lemma_tally_update(rows, i, fired, status);
}

/// Expiry moves as many subscriptions as it reports from the active to the expired.
pub proof fn law_expiry_moves_the_overdue(rows: Seq<RowView>, now: i64)
    ensures
        tally(with_expired(rows, now), "active"@) + count(
            rows,
            |row: RowView| is_overdue(row, now),
        ) == tally(rows, "active"@),
        tally(with_expired(rows, now), "expired"@) == tally(rows, "expired"@) + count(
            rows,
            |row: RowView| is_overdue(row, now),
        ),
    decreases rows.len(),
{
    lemma_statuses_differ();
    let after = with_expired(rows, now);
    if rows.len() == 0 {
        assert(after =~= rows);
        reveal(Seq::filter);
    } else {
        let front = rows.drop_last();
        assert(after.drop_last() =~= with_expired(front, now));
        law_expiry_moves_the_overdue(front, now);
        lemma_tally_step(rows, "active"@);
        lemma_tally_step(rows, "expired"@);
        lemma_tally_step(after, "active"@);
        lemma_tally_step(after, "expired"@);
        reveal(Seq::filter);
    }
}

/// Where every row has one of the four statuses, the four counts add up to all rows.
pub proof fn law_counts_add_up(rows: Seq<RowView>)
    requires
        forall|i: int|
            0 <= i < rows.len() ==> {
                ||| (#[trigger] rows[i]).status == Some("active"@)
                ||| rows[i].status == Some("fired"@)
                ||| rows[i].status == Some("expired"@)
                ||| rows[i].status == Some("cancelled"@)
            },
    ensures
        tally(rows, "active"@) + tally(rows, "fired"@) + tally(rows, "expired"@) + tally(
            rows,
            "cancelled"@,
        ) == rows.len(),
    decreases rows.len(),
{
    lemma_statuses_differ();
    if rows.len() == 0 {
        reveal(Seq::filter);
    } else {
        let front = rows.drop_last();
        assert forall|i: int| 0 <= i < front.len() implies {
            ||| (#[trigger] front[i]).status == Some("active"@)
            ||| front[i].status == Some("fired"@)
            ||| front[i].status == Some("expired"@)
            ||| front[i].status == Some("cancelled"@)
        } by {
            assert(front[i] == rows[i]);
        }
        law_counts_add_up(front);
        lemma_tally_step(rows, "active"@);
        lemma_tally_step(rows, "fired"@);
        lemma_tally_step(rows, "expired"@);
        lemma_tally_step(rows, "cancelled"@);
        assert(rows.last() == rows[rows.len() - 1]);
    }
}

// ---------------------------------------------------------------------------
// Listing
// ---------------------------------------------------------------------------

/// A list has exactly the subscriptions of the rows that are asked for and can be read.
pub proof fn law_list_has_what_is_asked_for(
    rows: Seq<RowView>,
    source: Option<Seq<char>>,
    status: Option<Seq<char>>,
    sub: SubscriptionView,
)
    ensures
        newest_first(listed(rows, source, status)).contains(sub) <==> exists|i: int|
            0 <= i < rows.len() && is_listed(#[trigger] rows[i], source, status) && sub_in(rows[i])
                == Some(sub),
{
    lemma_listed(rows, source, status, sub);
    lemma_newest_first_same(listed(rows, source, status));
    let subs = listed(rows, source, status);
    let sorted = newest_first(subs);
    broadcast use vstd::seq_lib::group_to_multiset_ensures;

    assert(subs.contains(sub) <==> subs.to_multiset().count(sub) > 0);
    assert(sorted.contains(sub) <==> sorted.to_multiset().count(sub) > 0);
}

proof fn lemma_listed(
    rows: Seq<RowView>,
    source: Option<Seq<char>>,
    status: Option<Seq<char>>,
    sub: SubscriptionView,
)
    ensures
        listed(rows, source, status).contains(sub) <==> exists|i: int|
            0 <= i < rows.len() && is_listed(#[trigger] rows[i], source, status) && sub_in(rows[i])
                == Some(sub),
    decreases rows.len(),
{
    if rows.len() > 0 {
        let front = rows.drop_last();
        let before = listed(front, source, status);
        let after = listed(rows, source, status);
        lemma_listed(front, source, status, sub);
        let last = rows[rows.len() - 1];
        let here = is_listed(last, source, status) && sub_in(last) == Some(sub);
        if after.contains(sub) {
            let k = choose|k: int| 0 <= k < after.len() && after[k] == sub;
            if k < before.len() {
                assert(before[k] == sub);
                let i = choose|i: int|
                    0 <= i < front.len() && is_listed(#[trigger] front[i], source, status)
                        && sub_in(front[i]) == Some(sub);
                assert(rows[i] == front[i]);
            }
        }
        if exists|i: int|
            0 <= i < rows.len() && is_listed(#[trigger] rows[i], source, status) && sub_in(rows[i])
                == Some(sub) {
            let i = choose|i: int|
                0 <= i < rows.len() && is_listed(#[trigger] rows[i], source, status) && sub_in(
                    rows[i],
                ) == Some(sub);
            if i < front.len() {
                assert(front[i] == rows[i]);
                assert(before.contains(sub));
                let k = choose|k: int| 0 <= k < before.len() && before[k] == sub;
                assert(after[k] == sub);
            } else {
                assert(after[after.len() - 1] == sub);
            }
        }
    }
}

proof fn lemma_put_same(subs: Seq<SubscriptionView>, sub: SubscriptionView)
    ensures
        put_newest_first(subs, sub).to_multiset() == subs.to_multiset().insert(sub),
        put_newest_first(subs, sub).len() == subs.len() + 1,
    decreases subs.len(),
{
    broadcast use vstd::seq_lib::group_to_multiset_ensures;

    if subs.len() > 0 && subs.last().created_at < sub.created_at {
        let front = subs.drop_last();
        lemma_put_same(front, sub);
        assert(subs =~= front.push(subs.last()));
        assert(front.to_multiset().insert(sub).insert(subs.last())
            =~= front.to_multiset().insert(subs.last()).insert(sub));
    }
}

proof fn lemma_newest_first_same(subs: Seq<SubscriptionView>)
    ensures
        newest_first(subs).to_multiset() == subs.to_multiset(),
        newest_first(subs).len() == subs.len(),
    decreases subs.len(),
{
    broadcast use vstd::seq_lib::group_to_multiset_ensures;

    if subs.len() > 0 {
        let front = subs.drop_last();
        lemma_newest_first_same(front);
        lemma_put_same(newest_first(front), subs.last());
        assert(subs =~= front.push(subs.last()));
    }
}

/// Whether no subscription is older than a later one of the list.
pub open spec fn is_newest_first(subs: Seq<SubscriptionView>) -> bool {
    forall|i: int, j: int|
        0 <= i < j < subs.len() ==> (#[trigger] subs[i]).created_at >= (
        #[trigger] subs[j]).created_at
}

proof fn lemma_put_since(subs: Seq<SubscriptionView>, sub: SubscriptionView, t: i64)
    requires
        forall|i: int| 0 <= i < subs.len() ==> (#[trigger] subs[i]).created_at >= t,
        sub.created_at >= t,
    ensures
        forall|i: int|
            0 <= i < put_newest_first(subs, sub).len() ==> (#[trigger] put_newest_first(
                subs,
                sub,
            )[i]).created_at >= t,
    decreases subs.len(),
{
    if subs.len() > 0 && subs.last().created_at < sub.created_at {
        let front = subs.drop_last();
        let inner = put_newest_first(front, sub);
        let put = put_newest_first(subs, sub);
        assert forall|i: int| 0 <= i < front.len() implies (#[trigger] front[i]).created_at >= t by {
            assert(subs[i].created_at >= t);
        }
        lemma_put_since(front, sub, t);
        assert forall|i: int| 0 <= i < put.len() implies (#[trigger] put[i]).created_at >= t by {
            if i < inner.len() {
                assert(put[i] == inner[i]);
            } else {
                assert(put[i] == subs[subs.len() - 1]);
            }
        }
    }
}

proof fn lemma_put_sorted(subs: Seq<SubscriptionView>, sub: SubscriptionView)
    requires
        is_newest_first(subs),
    ensures
        is_newest_first(put_newest_first(subs, sub)),
    decreases subs.len(),
{
    let put = put_newest_first(subs, sub);
    if subs.len() > 0 && subs.last().created_at < sub.created_at {
        let front = subs.drop_last();
        let inner = put_newest_first(front, sub);
        let t = subs.last().created_at;
        assert forall|i: int, j: int| 0 <= i < j < front.len() implies (
        #[trigger] front[i]).created_at >= (#[trigger] front[j]).created_at by {
            assert(subs[i].created_at >= subs[j].created_at);
        }
        lemma_put_sorted(front, sub);
        assert forall|i: int| 0 <= i < front.len() implies (#[trigger] front[i]).created_at >= t by {
            assert(subs[i].created_at >= subs[subs.len() - 1].created_at);
        }
        lemma_put_since(front, sub, t);
        assert forall|i: int, j: int| 0 <= i < j < put.len() implies (#[trigger] put[i]).created_at
            >= (#[trigger] put[j]).created_at by {
            assert(put[i] == inner[i]);
            if j < inner.len() {
                assert(put[j] == inner[j]);
            }
        }
    } else {
        assert forall|i: int, j: int| 0 <= i < j < put.len() implies (#[trigger] put[i]).created_at
            >= (#[trigger] put[j]).created_at by {
            if j < subs.len() {
                assert(subs[i].created_at >= subs[j].created_at);
            } else if i < subs.len() - 1 {
                assert(subs[i].created_at >= subs[subs.len() - 1].created_at);
            }
        }
    }
}

proof fn lemma_put_stable(subs: Seq<SubscriptionView>, sub: SubscriptionView, t: i64)
    ensures
        put_newest_first(subs, sub).filter(|s: SubscriptionView| s.created_at == t) == if t
            == sub.created_at {
            subs.filter(|s: SubscriptionView| s.created_at == t).push(sub)
        } else {
            subs.filter(|s: SubscriptionView| s.created_at == t)
        },
    decreases subs.len(),
{
    reveal(Seq::filter);
    if subs.len() > 0 && subs.last().created_at < sub.created_at {
        let front = subs.drop_last();
        lemma_put_stable(front, sub, t);
        assert(put_newest_first(subs, sub).drop_last() =~= put_newest_first(front, sub));
    } else {
        assert(put_newest_first(subs, sub).drop_last() =~= subs);
    }
}

/// A list begins with the newest: no subscription stands before a newer one, and those of
/// one age stand in the order in which they were stored. Nothing is lost or doubled.
pub proof fn law_list_is_newest_first(subs: Seq<SubscriptionView>, t: i64)
    ensures
        is_newest_first(newest_first(subs)),
        newest_first(subs).filter(|s: SubscriptionView| s.created_at == t) == subs.filter(
            |s: SubscriptionView| s.created_at == t,
        ),
        newest_first(subs).to_multiset() == subs.to_multiset(),
    decreases subs.len(),
{
    lemma_newest_first_same(subs);
    if subs.len() > 0 {
        let front = subs.drop_last();
        law_list_is_newest_first(front, t);
        lemma_put_sorted(newest_first(front), subs.last());
        lemma_put_stable(newest_first(front), subs.last(), t);
        reveal(Seq::filter);
    }
}

/// The subscriptions of a list of the active ones are active under their identifiers, where
/// every row has one.
pub proof fn law_listed_are_active(rows: Seq<RowView>, sub: SubscriptionView)
    requires
        unique_ids(rows),
        all_have_ids(rows),
        newest_first(listed(rows, None, Some("active"@))).contains(sub),
    ensures
        active_id(rows, sub.id),
        sub_with_id(rows, sub.id) == Some(sub),
{
    law_list_has_what_is_asked_for(rows, None, Some("active"@), sub);
    let i = choose|i: int|
        0 <= i < rows.len() && is_listed(#[trigger] rows[i], None, Some("active"@)) && sub_in(
            rows[i],
        ) == Some(sub);
    lemma_row_at(rows, i);
}

/// The list of the active subscriptions has only active ones.
pub proof fn law_active_list_is_active(rows: Seq<RowView>, sub: SubscriptionView)
    requires
        newest_first(listed(rows, None, Some("active"@))).contains(sub),
    ensures
        sub.status == "active"@,
{
    law_list_has_what_is_asked_for(rows, None, Some("active"@), sub);
}

/// Whether no two subscriptions of a list have the same identifier.
pub open spec fn unique_subs(subs: Seq<SubscriptionView>) -> bool {
    forall|i: int, j: int|
        0 <= i < j < subs.len() ==> (#[trigger] subs[i]).id != (#[trigger] subs[j]).id
}

proof fn lemma_put_avoids(subs: Seq<SubscriptionView>, sub: SubscriptionView, id: Seq<char>)
    requires
        forall|i: int| 0 <= i < subs.len() ==> (#[trigger] subs[i]).id != id,
        sub.id != id,
    ensures
        forall|i: int|
            0 <= i < put_newest_first(subs, sub).len() ==> (#[trigger] put_newest_first(
                subs,
                sub,
            )[i]).id != id,
    decreases subs.len(),
{
    if subs.len() > 0 && subs.last().created_at < sub.created_at {
        let front = subs.drop_last();
        let inner = put_newest_first(front, sub);
        let put = put_newest_first(subs, sub);
        assert forall|i: int| 0 <= i < front.len() implies (#[trigger] front[i]).id != id by {
            assert(subs[i].id != id);
        }
        lemma_put_avoids(front, sub, id);
        assert forall|i: int| 0 <= i < put.len() implies (#[trigger] put[i]).id != id by {
            if i < inner.len() {
                assert(put[i] == inner[i]);
            } else {
                assert(put[i] == subs[subs.len() - 1]);
            }
        }
    }
}

proof fn lemma_put_unique(subs: Seq<SubscriptionView>, sub: SubscriptionView)
    requires
        unique_subs(subs),
        forall|i: int| 0 <= i < subs.len() ==> (#[trigger] subs[i]).id != sub.id,
    ensures
        unique_subs(put_newest_first(subs, sub)),
    decreases subs.len(),
{
    let put = put_newest_first(subs, sub);
    if subs.len() > 0 && subs.last().created_at < sub.created_at {
        let front = subs.drop_last();
        let inner = put_newest_first(front, sub);
        let last = subs[subs.len() - 1];
        assert forall|i: int, j: int| 0 <= i < j < front.len() implies (#[trigger] front[i]).id != (
        #[trigger] front[j]).id by {
            assert(subs[i].id != subs[j].id);
        }
        assert forall|i: int| 0 <= i < front.len() implies (#[trigger] front[i]).id != sub.id
            && front[i].id != last.id by {
            assert(subs[i].id != sub.id);
            assert(subs[i].id != subs[subs.len() - 1].id);
        }
        lemma_put_unique(front, sub);
        lemma_put_avoids(front, sub, last.id);
        assert forall|i: int, j: int| 0 <= i < j < put.len() implies (#[trigger] put[i]).id != (
        #[trigger] put[j]).id by {
            assert(put[i] == inner[i]);
            if j < inner.len() {
                assert(put[j] == inner[j]);
            }
        }
    }
}

/// A list of a store where every row has an identifier has none twice.
pub proof fn law_list_has_unique_ids(
    rows: Seq<RowView>,
    source: Option<Seq<char>>,
    status: Option<Seq<char>>,
)
    requires
        unique_ids(rows),
        all_have_ids(rows),
    ensures
        unique_subs(newest_first(listed(rows, source, status))),
    decreases rows.len(),
{
    if rows.len() > 0 {
        let front = rows.drop_last();
        let last = rows[rows.len() - 1];
        let before = listed(front, source, status);
        lemma_front_unique(rows);
        assert forall|i: int| 0 <= i < front.len() implies (#[trigger] front[i]).id is Some by {
            assert(rows[i].id is Some);
        }
        law_list_has_unique_ids(front, source, status);
        if is_listed(last, source, status) && sub_in(last) is Some {
            let sub = sub_in(last)->0;
            let sorted = newest_first(before);
            assert forall|i: int| 0 <= i < sorted.len() implies (#[trigger] sorted[i]).id
                != sub.id by {
                law_list_has_what_is_asked_for(front, source, status, sorted[i]);
                let k = choose|k: int|
                    0 <= k < front.len() && is_listed(#[trigger] front[k], source, status)
                        && sub_in(front[k]) == Some(sorted[i]);
                assert(rows[k].id != rows[rows.len() - 1].id);
            }
            lemma_put_unique(sorted, sub);
            assert(before.push(sub).drop_last() =~= before);
        }
    }
}

/// As many subscriptions are counted of a status as a list of that status has, where every
/// stored condition can be read.
pub proof fn law_count_is_the_length_of_the_list(rows: Seq<RowView>, status: Seq<char>)
    requires
        all_readable(rows),
    ensures
        newest_first(listed(rows, None, Some(status))).len() == tally(rows, status),
        newest_first(listed(rows, None, Some("active"@))).len() == tally(rows, "active"@),
{
    lemma_listed_len(rows, status);
    lemma_listed_len(rows, "active"@);
    lemma_newest_first_same(listed(rows, None, Some(status)));
    lemma_newest_first_same(listed(rows, None, Some("active"@)));
}

proof fn lemma_listed_len(rows: Seq<RowView>, status: Seq<char>)
    requires
        all_readable(rows),
    ensures
        listed(rows, None, Some(status)).len() == tally(rows, status),
    decreases rows.len(),
{
    if rows.len() == 0 {
        reveal(Seq::filter);
    } else {
        let front = rows.drop_last();
        assert forall|i: int| 0 <= i < front.len() implies (#[trigger] front[i]).condition
            is Some by {
            assert(rows[i].condition is Some);
        }
        lemma_listed_len(front, status);
        lemma_tally_step(rows, status);
        assert(rows[rows.len() - 1].condition is Some);
    }
}

} // verus!
