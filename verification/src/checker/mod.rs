//! Checking whether a condition is met.
use crate::checker::github::{first_probe, found, CheckStep, CheckStepView};
use crate::checker::timer::timer_reports;
use crate::clock::Reading;
use crate::condition::{Condition, ConditionView};
use crate::error::Error;
use crate::event::{event_of, Event};
use crate::outside::clock_shows;
use crate::subscription::Subscription;
use vstd::prelude::*;

pub mod github;
pub mod timer;
pub mod verdict;

verus! {

/// How a check begins when the clock shows `now`, and `fired_at` where it is read again:
/// a timer is checked at once; of a GitHub condition the first question is asked.
pub open spec fn first_check(cond: ConditionView, now: i64, fired_at: i64) -> CheckStepView {
    match cond {
        ConditionView::Timer { duration, fire_at } => found(
            timer_reports(fire_at, duration, now, fired_at),
        ),
        ConditionView::GitHub(gh) => CheckStepView::Ask(first_probe(gh)),
    }
}

/// Begins the check whether a subscription's condition is met.
pub fn check(sub: &Subscription) -> (r: CheckStep)
    ensures
        sub@.condition is Timer ==> exists|now: Reading, again: Reading|
            clock_shows(now.secs()) && clock_shows(again.secs()) && r@ == #[trigger] first_check(
                sub@.condition,
                now.secs(),
                again.secs(),
            ),
        sub@.condition matches ConditionView::GitHub(gh) ==> r@ == CheckStepView::Ask(
            first_probe(gh),
        ),
        r@ matches CheckStepView::Ask(probe) ==> probe.page_fits(),
{
    match &sub.condition {
        Condition::Timer { duration, fire_at } => {
            let outcome: Result<Option<Event>, Error> = timer::check(*fire_at, duration.as_str());
            let r: CheckStep = CheckStep::Done(outcome);
            proof {
                let (now, again) = choose|now: Reading, again: Reading|
                    clock_shows(now.secs()) && clock_shows(again.secs()) && event_of(
                        outcome->Ok_0,
                    ) == #[trigger] timer_reports(*fire_at, duration@, now.secs(), again.secs());
                assert(r@ == first_check(sub@.condition, now.secs(), again.secs()));
            }
            r
        },
        Condition::GitHub(cond) => {
            CheckStep::Ask(github::check(cond))
        },
    }
}

} // verus!
