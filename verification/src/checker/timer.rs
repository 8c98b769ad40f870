//! Timers: the clock decides.
use crate::clock::Reading;
use crate::error::Error;
use crate::event::{event_of, Event, EventView};
use crate::outside::clock_shows;
use vstd::prelude::*;

verus! {

/// The event of a timer that ran out.
pub open spec fn timer_event(duration: Seq<char>, fired_at: i64) -> EventView {
    EventView {
        texts: seq![
            ("source"@, "timer"@),
            ("type"@, "timer_expired"@),
            ("duration"@, duration),
        ],
        numbers: seq![("fired_at"@, fired_at)],
        checks: None,
    }
}

/// What a timer reports when the clock shows `now`, and `fired_at` where it is read
/// again for the event: the event from `fire_at` on, and nothing before.
pub open spec fn timer_reports(
    fire_at: i64,
    duration: Seq<char>,
    now: i64,
    fired_at: i64,
) -> Option<EventView> {
    if now >= fire_at {
        Some(timer_event(duration, fired_at))
    } else {
        None
    }
}

/// Whether a timer has run out at `now`; the event tells `fired_at`.
pub fn check_at(fire_at: i64, duration: &str, now: i64, fired_at: i64) -> (r: Option<Event>)
    ensures
        event_of(r) == timer_reports(fire_at, duration@, now, fired_at),
{
    if now >= fire_at {
        let event: Event = Event::new("timer", "timer_expired").text("duration", duration).number(
            "fired_at",
            fired_at,
        );
        proof {
            assert(event@.texts =~= timer_event(duration@, fired_at).texts);
            assert(event@.numbers =~= timer_event(duration@, fired_at).numbers);
        }
        Some(event)
    } else {
        None
    }
}

/// Whether a timer has run out at the time of the call.
pub fn check(fire_at: i64, duration: &str) -> (r: Result<Option<Event>, Error>)
    ensures
        r matches Ok(event) && exists|now: Reading, again: Reading|
            clock_shows(now.secs()) && clock_shows(again.secs()) && event_of(event)
                == #[trigger] timer_reports(fire_at, duration@, now.secs(), again.secs()),
{
    let now: Reading = Reading::now();
    let again: Reading = if now.seconds() >= fire_at {
        Reading::now()
    } else {
        now
    };
    let event: Option<Event> = check_at(fire_at, duration, now.seconds(), again.seconds());
    proof {
        assert(event_of(event) == timer_reports(fire_at, duration@, now.secs(), again.secs()));
    }
    Ok(event)
}

/// A timer that has run out stays so: what it reports at one moment it reports at
/// every later one.
pub proof fn law_timer_stays_fired(fire_at: i64, duration: Seq<char>, now: i64, later: i64, f: i64)
    requires
        now <= later,
        timer_reports(fire_at, duration, now, f) is Some,
    ensures
        timer_reports(fire_at, duration, later, f) == timer_reports(fire_at, duration, now, f),
{
}

} // verus!
