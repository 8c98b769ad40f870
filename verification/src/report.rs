//! What is shown of the store.
use crate::numeral::{decimal, push_i64};
use crate::outside::{json_pretty, json_reads, pretty_json};
use crate::store::{sub_views, StatusCounts};
use crate::subscription::{Subscription, SubscriptionView};
use crate::text::{text_of, texts};
use vstd::prelude::*;
use vstd::string::*;

verus! {

/// The line of one subscription.
pub open spec fn sub_line(sub: SubscriptionView) -> Seq<char> {
    sub.id + " "@ + sub.status + " "@ + sub.source + " "@ + sub.mode + " "@
        + sub.condition.summary()
}

/// The lines of a list of subscriptions; an empty list is said to be so.
pub open spec fn list_text(subs: Seq<SubscriptionView>) -> Seq<Seq<char>> {
    if subs.len() == 0 {
        seq!["No subscriptions."@]
    } else {
        subs.map_values(|sub: SubscriptionView| sub_line(sub))
    }
}

/// The lines of the status.
pub open spec fn status_text(counts: StatusCounts, running: bool) -> Seq<Seq<char>> {
    seq![
        "Daemon: "@ + if running {
            "running"@
        } else {
            "stopped"@
        },
        "Active:    "@ + decimal(counts.active as int),
        "Fired:     "@ + decimal(counts.fired as int),
        "Expired:   "@ + decimal(counts.expired as int),
        "Cancelled: "@ + decimal(counts.cancelled as int),
    ]
}

/// The line of one subscription.
pub fn line_of(sub: &Subscription) -> (r: String)
    ensures
        r@ == sub_line(sub@),
{
    let summary: String = sub.condition_summary();
    sub.id.clone().concat(" ").concat(sub.status.as_str()).concat(" ").concat(
        sub.source.as_str(),
    ).concat(" ").concat(sub.mode.as_str()).concat(" ").concat(summary.as_str())
}

/// The lines of a list of subscriptions.
pub fn list_lines(subs: &Vec<Subscription>) -> (r: Vec<String>)
    ensures
        texts(r@) == list_text(sub_views(subs@)),
{
    let mut lines: Vec<String> = Vec::new();
    if subs.len() == 0 {
        lines.push("No subscriptions.".to_owned());
        proof {
            assert(texts(lines@) =~= list_text(sub_views(subs@)));
        }
        return lines;
    }
    let mut i: usize = 0;
    while i < subs.len()
        invariant
            i <= subs@.len(),
            lines@.len() == i,
            forall|k: int| 0 <= k < i ==> (#[trigger] lines@[k])@ == sub_line(subs@[k]@),
        decreases subs@.len() - i,
    {
        lines.push(line_of(&subs[i]));
        i = i + 1;
    }
    proof {
        assert(texts(lines@) =~= list_text(sub_views(subs@)));
    }
    lines
}

fn count_line(label: &str, n: i64) -> (r: String)
    ensures
        r@ == label@ + decimal(n as int),
{
    let mut line: String = label.to_owned();
    push_i64(&mut line, n);
    line
}

/// The lines of the status.
pub fn status_lines(counts: &StatusCounts, running: bool) -> (r: Vec<String>)
    ensures
        texts(r@) == status_text(*counts, running),
{
    let daemon: &str = if running {
        "running"
    } else {
        "stopped"
    };
    let mut lines: Vec<String> = Vec::new();
    lines.push("Daemon: ".to_owned().concat(daemon));
    lines.push(count_line("Active:    ", counts.active));
    lines.push(count_line("Fired:     ", counts.fired));
    lines.push(count_line("Expired:   ", counts.expired));
    lines.push(count_line("Cancelled: ", counts.cancelled));
    proof {
        assert(texts(lines@) =~= status_text(*counts, running));
    }
    lines
}

/// The line that says that a subscription was cancelled.
pub fn cancel_line(id: &str) -> (r: String)
    ensures
        r@ == "Cancelled "@ + id@,
{
    "Cancelled ".to_owned().concat(id)
}

/// An event, given as JSON text, laid out over lines; none where it is no JSON.
pub fn event_lines(event: &str) -> (r: Option<String>)
    ensures
        text_of(r) == json_pretty(event@),
        r is Some == json_reads(event@),
{
    pretty_json(event)
}

} // verus!
