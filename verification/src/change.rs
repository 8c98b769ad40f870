//! What has to be done to the table so that it holds what the store holds.
use crate::row::{Row, RowView};
use vstd::prelude::*;

verus! {

/// One change of the table. A row is told by its place among the rows that the table holds
/// by then, counted from zero.
pub enum Change {
    /// Adds a row behind the others.
    Insert(Row),
    /// Gives a row a status.
    SetStatus { at: usize, status: String },
    /// Gives a row the status `fired`, and an event.
    SetFired { at: usize, event_data: String },
    /// Takes a row out.
    Delete { at: usize },
}

/// What stands for a [`Change`] in contracts.
pub enum ChangeView {
    Insert(RowView),
    SetStatus { at: int, status: Seq<char> },
    SetFired { at: int, event_data: Seq<char> },
    Delete { at: int },
}

impl View for Change {
    type V = ChangeView;

    open spec fn view(&self) -> ChangeView {
        match *self {
            Change::Insert(row) => ChangeView::Insert(row@),
            Change::SetStatus { at, status } => ChangeView::SetStatus {
                at: at as int,
                status: status@,
            },
            Change::SetFired { at, event_data } => ChangeView::SetFired {
                at: at as int,
                event_data: event_data@,
            },
            Change::Delete { at } => ChangeView::Delete { at: at as int },
        }
    }
}

/// What stands for a list of changes in contracts.
pub open spec fn change_views(changes: Seq<Change>) -> Seq<ChangeView> {
    changes.map_values(|c: Change| c@)
}

impl ChangeView {
    /// Whether the row that is changed is there.
    pub open spec fn fits(self, rows: Seq<RowView>) -> bool {
        match self {
            ChangeView::Insert(_) => true,
            ChangeView::SetStatus { at, .. } => 0 <= at < rows.len(),
            ChangeView::SetFired { at, .. } => 0 <= at < rows.len(),
            ChangeView::Delete { at } => 0 <= at < rows.len(),
        }
    }

    /// The rows after the change.
    pub open spec fn applied(self, rows: Seq<RowView>) -> Seq<RowView> {
        match self {
            ChangeView::Insert(row) => rows.push(row),
            ChangeView::SetStatus { at, status } => rows.update(
                at,
                RowView { status: Some(status), ..rows[at] },
            ),
            ChangeView::SetFired { at, event_data } => rows.update(
                at,
                RowView { status: Some("fired"@), event_data: Some(event_data), ..rows[at] },
            ),
            ChangeView::Delete { at } => rows.remove(at),
        }
    }
}

/// The rows after changes, made in turn.
pub open spec fn applied_all(rows: Seq<RowView>, changes: Seq<ChangeView>) -> Seq<RowView>
    decreases changes.len(),
{
    if changes.len() == 0 {
        rows
    } else {
        changes.last().applied(applied_all(rows, changes.drop_last()))
    }
}

/// Whether changes can be made in turn: the row that one changes is there by then.
pub open spec fn all_fit(rows: Seq<RowView>, changes: Seq<ChangeView>) -> bool
    decreases changes.len(),
{
    changes.len() > 0 ==> all_fit(rows, changes.drop_last()) && changes.last().fits(
        applied_all(rows, changes.drop_last()),
    )
}

/// One more change, made after the others.
pub proof fn lemma_one_more(rows: Seq<RowView>, changes: Seq<ChangeView>, change: ChangeView)
    ensures
        applied_all(rows, changes.push(change)) == change.applied(applied_all(rows, changes)),
        all_fit(rows, changes.push(change)) <==> all_fit(rows, changes) && change.fits(
            applied_all(rows, changes),
        ),
{
    assert(changes.push(change).drop_last() =~= changes);
}

} // verus!
