//! Subscriptions, and how the command line makes them.
use crate::cli::{OnArgs, WaitArgs};
use crate::clock::Reading;
use crate::condition::{Condition, ConditionView};
use crate::duration::{
    deadline_fits, duration_secs, fits_from, is_deadline_from, law_number_and_unit,
    parse_duration_secs,
};
use crate::error::{fault_of, Error, Fault};
use crate::numeral::decimal;
use crate::outside::{clock_shows, fresh_id, is_uuid_v4};
use crate::text::{clone_text, slice_of, text_of};
use vstd::prelude::*;
use vstd::string::*;

verus! {

/// A subscription.
#[derive(Debug)]
pub struct Subscription {
    pub id: String,
    /// The name of the condition's source.
    pub source: String,
    pub condition: Condition,
    /// `wait` or `on`.
    pub mode: String,
    /// The command to run when it fires, in the mode `on`.
    pub callback: Option<String>,
    /// `active`, `fired`, `expired` or `cancelled`.
    pub status: String,
    /// When it was made, in seconds since the start of 1970.
    pub created_at: i64,
    /// When it expires, where it does.
    pub expires_at: Option<i64>,
    /// The event that fired it, as JSON text.
    pub event_data: Option<String>,
}

/// What stands for a [`Subscription`] in contracts.
pub struct SubscriptionView {
    pub id: Seq<char>,
    pub source: Seq<char>,
    pub condition: ConditionView,
    pub mode: Seq<char>,
    pub callback: Option<Seq<char>>,
    pub status: Seq<char>,
    pub created_at: i64,
    pub expires_at: Option<i64>,
    pub event_data: Option<Seq<char>>,
}

impl View for Subscription {
    type V = SubscriptionView;

    open spec fn view(&self) -> SubscriptionView {
        SubscriptionView {
            id: self.id@,
            source: self.source@,
            condition: self.condition@,
            mode: self.mode@,
            callback: text_of(self.callback),
            status: self.status@,
            created_at: self.created_at,
            expires_at: self.expires_at,
            event_data: text_of(self.event_data),
        }
    }
}

impl Clone for Subscription {
    fn clone(&self) -> (r: Self)
        ensures
            r@ == self@,
    {
        Subscription {
            id: self.id.clone(),
            source: self.source.clone(),
            condition: self.condition.clone(),
            mode: self.mode.clone(),
            callback: clone_text(&self.callback),
            status: self.status.clone(),
            created_at: self.created_at,
            expires_at: self.expires_at,
            event_data: clone_text(&self.event_data),
        }
    }
}

/// A subscription as it is made: active, with the name of its condition's source, and
/// without an event.
pub open spec fn new_subscription(
    condition: ConditionView,
    mode: Seq<char>,
    callback: Option<Seq<char>>,
    id: Seq<char>,
    expires_at: Option<i64>,
    created_at: i64,
) -> SubscriptionView {
    SubscriptionView {
        id,
        source: condition.source_name(),
        condition,
        mode,
        callback,
        status: "active"@,
        created_at,
        expires_at,
        event_data: None,
    }
}

/// After how many seconds a `wait` expires that has no timeout: an hour.
pub const WAIT_SECS: i64 = 3600;

/// When a subscription of `on` made at `now` expires: never without a timeout.
pub open spec fn on_expiry(timeout: Option<Seq<char>>, now: i64) -> Result<
    Option<i64>,
    Fault<Seq<char>>,
> {
    match timeout {
        None => Ok(None),
        Some(t) => match duration_secs(t) {
            Ok(secs) => Ok(Some((now + secs) as i64)),
            Err(e) => Err(e),
        },
    }
}

/// When a subscription of `wait` made at `now` expires: after an hour without a timeout.
pub open spec fn wait_expiry(timeout: Option<Seq<char>>, now: i64) -> Result<
    Option<i64>,
    Fault<Seq<char>>,
> {
    match timeout {
        None => Ok(Some((now + WAIT_SECS) as i64)),
        Some(_) => on_expiry(timeout, now),
    }
}

/// Whether a timeout can be counted from `now`.
pub open spec fn timeout_fits(timeout: Option<Seq<char>>, now: i64) -> bool {
    timeout matches Some(t) ==> fits_from(t, now)
}

/// What `wait` and `on` make of a condition at `now`: a subscription that was made then
/// and expires as said, with an identifier of its own, or the failure of the timeout.
pub open spec fn made_at(
    r: Result<Subscription, Error>,
    condition: ConditionView,
    mode: Seq<char>,
    callback: Option<Seq<char>>,
    expiry: Result<Option<i64>, Fault<Seq<char>>>,
    now: i64,
) -> bool {
    match (expiry, r) {
        (Ok(expires_at), Ok(sub)) => {
            &&& sub@ == new_subscription(condition, mode, callback, sub.id@, expires_at, now)
            &&& is_uuid_v4(sub.id@)
        },
        (Err(f), Err(e)) => e@ == f,
        _ => false,
    }
}

/// What `wait` makes of a condition at `now`.
pub open spec fn wait_made_at(
    r: Result<Subscription, Error>,
    args: WaitArgs,
    condition: ConditionView,
    now: i64,
) -> bool {
    made_at(r, condition, "wait"@, None, wait_expiry(text_of(args.timeout), now), now)
}

/// What `on` makes of a condition at `now`.
pub open spec fn on_made_at(
    r: Result<Subscription, Error>,
    args: OnArgs,
    condition: ConditionView,
    now: i64,
) -> bool {
    made_at(r, condition, "on"@, Some(args.run@), on_expiry(text_of(args.timeout), now), now)
}

/// Whether a subscription with this expiry has expired at `now`.
pub open spec fn expired_at(expires_at: Option<i64>, now: i64) -> bool {
    expires_at matches Some(exp) && now >= exp
}

/// When a subscription of `on` made at `now` expires.
pub fn expires_at(timeout: Option<&str>, now: i64) -> (r: Result<Option<i64>, Error>)
    requires
        timeout_fits(slice_of(timeout), now),
    ensures
        fault_of(r) == on_expiry(slice_of(timeout), now),
{
    match timeout {
        None => Ok(None),
        Some(t) => match parse_duration_secs(t) {
            Ok(secs) => Ok(Some(now + secs)),
            Err(e) => Err(e),
        },
    }
}

/// When a subscription of `wait` made at `now` expires.
pub fn wait_expires_at(timeout: Option<&str>, now: i64) -> (r: Result<Option<i64>, Error>)
    requires
        timeout_fits(slice_of(timeout), now),
        now <= i64::MAX - WAIT_SECS,
    ensures
        fault_of(r) == wait_expiry(slice_of(timeout), now),
{
    match timeout {
        None => Ok(Some(now + WAIT_SECS)),
        Some(_) => expires_at(timeout, now),
    }
}

fn as_slice(s: &Option<String>) -> (r: Option<&str>)
    ensures
        slice_of(r) == text_of(*s),
{
    match s {
        Some(t) => Some(t.as_str()),
        None => None,
    }
}

fn is_timeout_from(timeout: &Option<String>, now: i64) -> (r: bool)
    ensures
        r == timeout_fits(text_of(*timeout), now),
{
    match timeout {
        None => true,
        Some(t) => is_deadline_from(t.as_str(), now),
    }
}

impl Subscription {
    /// A subscription with everything that chance and time decide given.
    pub fn new_at(
        condition: Condition,
        mode: &str,
        callback: Option<String>,
        id: String,
        expires_at: Option<i64>,
        created_at: i64,
    ) -> (r: Subscription)
        ensures
            r@ == new_subscription(
                condition@,
                mode@,
                text_of(callback),
                id@,
                expires_at,
                created_at,
            ),
    {
        let source: String = condition.source_name().to_owned();
        Subscription {
            id,
            source,
            condition,
            mode: mode.to_owned(),
            callback,
            status: "active".to_owned(),
            created_at,
            expires_at,
            event_data: None,
        }
    }

    fn make(
        condition: Condition,
        mode: &str,
        callback: Option<String>,
        expiry: Result<Option<i64>, Error>,
        now: i64,
    ) -> (r: Result<Subscription, Error>)
        ensures
            made_at(r, condition@, mode@, text_of(callback), fault_of(expiry), now),
    {
        match expiry {
            Err(e) => Err(e),
            Ok(expires_at) => Ok(
                Subscription::new_at(condition, mode, callback, fresh_id(), expires_at, now),
            ),
        }
    }

    /// The subscription of `wait` made at `now`, once its condition is read.
    pub fn from_wait_args_at(args: &WaitArgs, condition: Condition, now: i64) -> (r: Result<
        Subscription,
        Error,
    >)
        requires
            timeout_fits(text_of(args.timeout), now),
            now <= i64::MAX - WAIT_SECS,
        ensures
            wait_made_at(r, *args, condition@, now),
    {
        let expiry: Result<Option<i64>, Error> = wait_expires_at(as_slice(&args.timeout), now);
        Self::make(condition, "wait", None, expiry, now)
    }

    /// The subscription of `on` made at `now`, once its condition is read.
    pub fn from_on_args_at(args: &OnArgs, condition: Condition, now: i64) -> (r: Result<
        Subscription,
        Error,
    >)
        requires
            timeout_fits(text_of(args.timeout), now),
        ensures
            on_made_at(r, *args, condition@, now),
    {
        let expiry: Result<Option<i64>, Error> = expires_at(as_slice(&args.timeout), now);
        Self::make(condition, "on", Some(args.run.clone()), expiry, now)
    }

    /// The subscription of `wait` made at the time of the call.
    pub fn from_wait_args(args: &WaitArgs, condition: Condition) -> (r: Result<
        Subscription,
        Error,
    >)
        requires
            args.timeout matches Some(t) ==> deadline_fits(t@),
        ensures
            exists|now: Reading|
                clock_shows(now.secs()) && #[trigger] wait_made_at(
                    r,
                    *args,
                    condition@,
                    now.secs(),
                ),
    {
        let now: Reading = Reading::now();
        let r: Result<Subscription, Error> = Self::from_wait_args_at(args, condition, now.seconds());
        proof {
            assert(wait_made_at(r, *args, condition@, now.secs()));
        }
        r
    }

    /// The subscription of `on` made at the time of the call.
    pub fn from_on_args(args: &OnArgs, condition: Condition) -> (r: Result<Subscription, Error>)
        requires
            args.timeout matches Some(t) ==> deadline_fits(t@),
        ensures
            exists|now: Reading|
                clock_shows(now.secs()) && #[trigger] on_made_at(
                    r,
                    *args,
                    condition@,
                    now.secs(),
                ),
    {
        let now: Reading = Reading::now();
        let r: Result<Subscription, Error> = Self::from_on_args_at(args, condition, now.seconds());
        proof {
            assert(on_made_at(r, *args, condition@, now.secs()));
        }
        r
    }

    /// The subscription of `wait` made at the time of the call, whatever the timeout is;
    /// none where the timeout cannot be counted from that time.
    pub fn try_from_wait_args(args: &WaitArgs, condition: Condition) -> (r: Option<
        Result<Subscription, Error>,
    >)
        ensures
            exists|now: Reading| #[trigger]
                clock_shows(now.secs()) && match r {
                    Some(made) => timeout_fits(text_of(args.timeout), now.secs()) && wait_made_at(
                        made,
                        *args,
                        condition@,
                        now.secs(),
                    ),
                    None => !timeout_fits(text_of(args.timeout), now.secs()),
                },
    {
        let now: Reading = Reading::now();
        if !is_timeout_from(&args.timeout, now.seconds()) {
            return None;
        }
        Some(Self::from_wait_args_at(args, condition, now.seconds()))
    }

    /// The subscription of `on` made at the time of the call, whatever the timeout is;
    /// none where the timeout cannot be counted from that time.
    pub fn try_from_on_args(args: &OnArgs, condition: Condition) -> (r: Option<
        Result<Subscription, Error>,
    >)
        ensures
            exists|now: Reading| #[trigger]
                clock_shows(now.secs()) && match r {
                    Some(made) => timeout_fits(text_of(args.timeout), now.secs()) && on_made_at(
                        made,
                        *args,
                        condition@,
                        now.secs(),
                    ),
                    None => !timeout_fits(text_of(args.timeout), now.secs()),
                },
    {
        let now: Reading = Reading::now();
        if !is_timeout_from(&args.timeout, now.seconds()) {
            return None;
        }
        Some(Self::from_on_args_at(args, condition, now.seconds()))
    }

    /// The condition in one line.
    pub fn condition_summary(&self) -> (r: String)
        ensures
            r@ == self@.condition.summary(),
    {
        self.condition.summary()
    }

    /// Whether the subscription has expired at `now`.
    pub fn is_expired_at(&self, now: i64) -> (r: bool)
        ensures
            r == expired_at(self@.expires_at, now),
    {
        match self.expires_at {
            Some(exp) => now >= exp,
            None => false,
        }
    }

    /// Whether the subscription has expired at the time of the call.
    pub fn is_expired(&self) -> (r: bool)
        ensures
            exists|now: Reading|
                clock_shows(now.secs()) && r == #[trigger] expired_at(
                    self@.expires_at,
                    now.secs(),
                ),
    {
        let now: Reading = Reading::now();
        self.is_expired_at(now.seconds())
    }
}

// ---------------------------------------------------------------------------
// Laws
// ---------------------------------------------------------------------------

/// What `wait` makes: an active subscription without a command or an event, of the
/// condition that was read and its source, made at the time that its expiry is counted
/// from, with the text of a random UUID as its identifier.
pub proof fn law_wait_makes_what_is_asked_for(
    r: Result<Subscription, Error>,
    args: WaitArgs,
    condition: ConditionView,
    now: i64,
)
    requires
        wait_made_at(r, args, condition, now),
    ensures
        r is Err <==> wait_expiry(text_of(args.timeout), now) is Err,
        r matches Ok(s) ==> {
            &&& s.mode@ == "wait"@
            &&& s.callback is None
            &&& s.status@ == "active"@
            &&& s.event_data is None
            &&& s.created_at == now
            &&& s.condition@ == condition
            &&& s.source@ == s.condition@.source_name()
            &&& is_uuid_v4(s.id@)
            &&& Ok::<Option<i64>, Fault<Seq<char>>>(s.expires_at) == wait_expiry(
                text_of(args.timeout),
                s.created_at,
            )
        },
{
}

/// What `on` makes: an active subscription with its command and without an event, of the
/// condition that was read and its source, made at the time that its expiry is counted
/// from, with the text of a random UUID as its identifier.
pub proof fn law_on_makes_what_is_asked_for(
    r: Result<Subscription, Error>,
    args: OnArgs,
    condition: ConditionView,
    now: i64,
)
    requires
        on_made_at(r, args, condition, now),
    ensures
        r is Err <==> on_expiry(text_of(args.timeout), now) is Err,
        r matches Ok(s) ==> {
            &&& s.mode@ == "on"@
            &&& text_of(s.callback) == Some(args.run@)
            &&& s.status@ == "active"@
            &&& s.event_data is None
            &&& s.created_at == now
            &&& s.condition@ == condition
            &&& s.source@ == s.condition@.source_name()
            &&& is_uuid_v4(s.id@)
            &&& Ok::<Option<i64>, Fault<Seq<char>>>(s.expires_at) == on_expiry(
                text_of(args.timeout),
                s.created_at,
            )
        },
{
}

/// Without a timeout a `wait` ends after an hour, and an `on` never.
pub proof fn law_default_timeouts(
    waiting: Result<Subscription, Error>,
    wait: WaitArgs,
    registered: Result<Subscription, Error>,
    on: OnArgs,
    condition: ConditionView,
    now: i64,
)
    requires
        clock_shows(now),
        wait.timeout is None,
        wait_made_at(waiting, wait, condition, now),
        on.timeout is None,
        on_made_at(registered, on, condition, now),
    ensures
        waiting matches Ok(s) && s.expires_at == Some((s.created_at + 3600) as i64),
        registered matches Ok(s) && s.expires_at is None,
{
}

/// The hour of a `wait` without a timeout is the timeout `1h`.
pub proof fn law_default_is_one_hour(now: i64)
    ensures
        wait_expiry(None, now) == wait_expiry(Some("1h"@), now),
{
    reveal_strlit("1h");
    law_number_and_unit(1, 'h');
    assert(decimal(1).push('h') =~= "1h"@);
}

} // verus!
