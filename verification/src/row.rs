//! The rows of the table of subscriptions, and the subscriptions that they hold.
use crate::condition::{Condition, ConditionView};
use crate::outside::{is_json, json_reads};
use crate::subscription::{Subscription, SubscriptionView};
use crate::text::{clone_or_empty, clone_text, text_of, text_or_empty};
use vstd::prelude::*;
use vstd::string::*;

verus! {

/// A value of the table, as far as a subscription is read from it.
pub enum Cell {
    Null,
    Integer(i64),
    /// A number that is not whole, by the next whole number above it.
    Fraction(i64),
    Text(String),
    /// A value of another type.
    Other,
}

/// A moment as the table can hold it, in seconds since the start of 1970.
#[derive(Clone, Copy, Debug, PartialEq, Eq, Structural)]
pub enum Stamp {
    /// A whole second.
    At(i64),
    /// A moment within the second before this one.
    Before(i64),
}

/// A row of the table: a subscription as it is stored. An identifier, a source or a status
/// that is no text is none.
#[derive(Debug)]
pub struct Row {
    pub id: Option<String>,
    pub source: Option<String>,
    /// What the stored condition reads as; nothing where it cannot be read.
    pub condition: Option<Condition>,
    pub mode: String,
    pub callback: Option<String>,
    pub status: Option<String>,
    pub created_at: Option<Stamp>,
    pub expires_at: Option<Stamp>,
    /// The text that was stored as the event.
    pub event_data: Option<String>,
}

/// What stands for a [`Row`] in contracts.
pub struct RowView {
    pub id: Option<Seq<char>>,
    pub source: Option<Seq<char>>,
    pub condition: Option<ConditionView>,
    pub mode: Seq<char>,
    pub callback: Option<Seq<char>>,
    pub status: Option<Seq<char>>,
    pub created_at: Option<Stamp>,
    pub expires_at: Option<Stamp>,
    pub event_data: Option<Seq<char>>,
}

impl Stamp {
    /// Whether the moment is at or before the second `n`.
    pub open spec fn is_by(self, n: i64) -> bool {
        match self {
            Stamp::At(t) => t <= n,
            Stamp::Before(t) => t <= n,
        }
    }

    /// Whether the moment is before the second `n`.
    pub open spec fn is_before(self, n: i64) -> bool {
        match self {
            Stamp::At(t) => t < n,
            Stamp::Before(t) => t <= n,
        }
    }

    /// Whether the moment is at or before the second `n`.
    pub fn reached(&self, n: i64) -> (r: bool)
        ensures
            r == self.is_by(n),
    {
        match self {
            Stamp::At(t) => *t <= n,
            Stamp::Before(t) => *t <= n,
        }
    }

    /// Whether the moment is before the second `n`.
    pub fn earlier(&self, n: i64) -> (r: bool)
        ensures
            r == self.is_before(n),
    {
        match self {
            Stamp::At(t) => *t < n,
            Stamp::Before(t) => *t <= n,
        }
    }
}

/// The moment of a row, where it is a whole second.
pub open spec fn whole_second(stamp: Option<Stamp>) -> Option<i64> {
    match stamp {
        Some(Stamp::At(n)) => Some(n),
        _ => None,
    }
}

/// The moment of a whole second.
pub open spec fn stamp_of(second: Option<i64>) -> Option<Stamp> {
    match second {
        Some(n) => Some(Stamp::At(n)),
        None => None,
    }
}

/// An optional condition by its view.
pub open spec fn condition_of(c: Option<Condition>) -> Option<ConditionView> {
    match c {
        Some(condition) => Some(condition@),
        None => None,
    }
}

impl View for Row {
    type V = RowView;

    open spec fn view(&self) -> RowView {
        RowView {
            id: text_of(self.id),
            source: text_of(self.source),
            condition: condition_of(self.condition),
            mode: self.mode@,
            callback: text_of(self.callback),
            status: text_of(self.status),
            created_at: self.created_at,
            expires_at: self.expires_at,
            event_data: text_of(self.event_data),
        }
    }
}

/// What stands for a list of rows in contracts.
pub open spec fn row_views(rows: Seq<Row>) -> Seq<RowView> {
    rows.map_values(|r: Row| r@)
}

/// The row that a new subscription is stored as: everything but an event.
pub open spec fn row_for(sub: SubscriptionView) -> RowView {
    RowView {
        id: Some(sub.id),
        source: Some(sub.source),
        condition: Some(sub.condition),
        mode: sub.mode,
        callback: sub.callback,
        status: Some(sub.status),
        created_at: Some(Stamp::At(sub.created_at)),
        expires_at: stamp_of(sub.expires_at),
        event_data: None,
    }
}

/// The subscription in a row: none where the condition cannot be read, and without an
/// event where the stored text is no JSON. What is no text reads as the empty text, an
/// expiry that is no whole second as none, and a time of making that is none as zero.
pub open spec fn sub_in(row: RowView) -> Option<SubscriptionView> {
    match row.condition {
        None => None,
        Some(condition) => Some(
            SubscriptionView {
                id: text_or_empty(row.id),
                source: text_or_empty(row.source),
                condition,
                mode: row.mode,
                callback: row.callback,
                status: text_or_empty(row.status),
                created_at: match whole_second(row.created_at) {
                    Some(n) => n,
                    None => 0,
                },
                expires_at: whole_second(row.expires_at),
                event_data: match row.event_data {
                    Some(text) => if json_reads(text) {
                        Some(text)
                    } else {
                        None
                    },
                    None => None,
                },
            },
        ),
    }
}

/// An optional subscription by its view.
pub open spec fn sub_of(s: Option<Subscription>) -> Option<SubscriptionView> {
    match s {
        Some(sub) => Some(sub@),
        None => None,
    }
}

impl Cell {
    /// The text of a cell; the empty text where it holds none.
    pub open spec fn text(self) -> Seq<char> {
        match self {
            Cell::Text(s) => s@,
            _ => Seq::empty(),
        }
    }

    /// The text of a cell that may be null.
    pub open spec fn optional_text(self) -> Option<Seq<char>> {
        match self {
            Cell::Text(s) => Some(s@),
            _ => None,
        }
    }

    /// The moment of a cell that may be null.
    pub open spec fn stamp(self) -> Option<Stamp> {
        match self {
            Cell::Integer(n) => Some(Stamp::At(n)),
            Cell::Fraction(n) => Some(Stamp::Before(n)),
            _ => None,
        }
    }

    fn read_text(&self) -> (r: String)
        ensures
            r@ == self.text(),
    {
        match self {
            Cell::Text(s) => s.clone(),
            _ => String::new(),
        }
    }

    fn read_optional_text(&self) -> (r: Option<String>)
        ensures
            text_of(r) == self.optional_text(),
    {
        match self {
            Cell::Text(s) => Some(s.clone()),
            _ => None,
        }
    }

    fn read_stamp(&self) -> (r: Option<Stamp>)
        ensures
            r == self.stamp(),
    {
        match self {
            Cell::Integer(n) => Some(Stamp::At(*n)),
            Cell::Fraction(n) => Some(Stamp::Before(*n)),
            _ => None,
        }
    }
}

/// The row that the nine cells of the table hold, in the order of its columns: a value
/// of the wrong type counts as none, and a mode as the empty text. The third cell is the
/// text of the condition, and `condition` is what it reads as.
pub open spec fn row_in(cells: Seq<Cell>, condition: Option<ConditionView>) -> RowView {
    RowView {
        id: cells[0].optional_text(),
        source: cells[1].optional_text(),
        condition,
        mode: cells[3].text(),
        callback: cells[4].optional_text(),
        status: cells[5].optional_text(),
        created_at: cells[6].stamp(),
        expires_at: cells[7].stamp(),
        event_data: cells[8].optional_text(),
    }
}

impl Row {
    /// The row that the nine cells of the table hold.
    pub fn from_cells(cells: &Vec<Cell>, condition: Option<Condition>) -> (r: Row)
        requires
            cells@.len() == 9,
        ensures
            r@ == row_in(cells@, condition_of(condition)),
    {
        Row {
            id: cells[0].read_optional_text(),
            source: cells[1].read_optional_text(),
            condition,
            mode: cells[3].read_text(),
            callback: cells[4].read_optional_text(),
            status: cells[5].read_optional_text(),
            created_at: cells[6].read_stamp(),
            expires_at: cells[7].read_stamp(),
            event_data: cells[8].read_optional_text(),
        }
    }

    /// The row that a new subscription is stored as.
    pub fn from_sub(sub: &Subscription) -> (r: Row)
        ensures
            r@ == row_for(sub@),
    {
        Row {
            id: Some(sub.id.clone()),
            source: Some(sub.source.clone()),
            condition: Some(sub.condition.clone()),
            mode: sub.mode.clone(),
            callback: clone_text(&sub.callback),
            status: Some(sub.status.clone()),
            created_at: Some(Stamp::At(sub.created_at)),
            expires_at: match sub.expires_at {
                Some(n) => Some(Stamp::At(n)),
                None => None,
            },
            event_data: None,
        }
    }
}

/// The subscription in a row.
pub fn row_to_sub(row: &Row) -> (r: Option<Subscription>)
    ensures
        sub_of(r) == sub_in(row@),
{
    let condition: Condition = match &row.condition {
        Some(condition) => condition.clone(),
        None => {
            return None;
        },
    };
    let event_data: Option<String> = match &row.event_data {
        Some(text) => if is_json(text.as_str()) {
            Some(text.clone())
        } else {
            None
        },
        None => None,
    };
    Some(
        Subscription {
            id: clone_or_empty(&row.id),
            source: clone_or_empty(&row.source),
            condition,
            mode: row.mode.clone(),
            callback: clone_text(&row.callback),
            status: clone_or_empty(&row.status),
            created_at: match row.created_at {
                Some(Stamp::At(n)) => n,
                _ => 0,
            },
            expires_at: match row.expires_at {
                Some(Stamp::At(n)) => Some(n),
                _ => None,
            },
            event_data,
        },
    )
}

} // verus!
