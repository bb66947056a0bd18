//! The reminder scheduler: one poll tick at a time, with once-per-day
//! deduplication.
//!
//! Each tick first checks the held credential, then whether a reminder
//! already went out for the day, and only then looks at the queried
//! events.  The surrounding application owns the clock, the credential
//! source and the network; it asks [`PollState::plan_tick`] what a tick
//! needs, performs that outside work, and hands the outcome to
//! [`PollState::complete_tick`], which is the whole transition.

use vstd::prelude::*;
use crate::dates::{rfc3339_value, DateYmd, PlainDateTime};
use crate::events::{Event, EventsListRequest};
use crate::model::Timestamp;

verus! {

/// An access credential and its known expiry, as epoch seconds; no
/// expiry means the credential does not expire.
#[derive(Debug)]
pub struct Credential {
    pub token: String,
    pub expires_at: Option<i64>,
}

impl Clone for Credential {
    fn clone(&self) -> (r: Self)
        ensures
            r == *self,
    {
        Credential { token: self.token.clone(), expires_at: self.expires_at }
    }
}

/// The scheduler's working state: the held credential, and the date of
/// the last emitted reminder.
#[derive(Debug)]
pub struct PollState {
    pub credential: Option<Credential>,
    pub last_fire: Option<DateYmd>,
}

/// What a tick needs from the outside world.
#[derive(Clone, Copy, Debug, PartialEq, Eq, Structural)]
pub enum TickAction {
    /// The held credential is missing or expired: refresh it.
    RefreshCredential,
    /// A reminder already went out today: sleep until the next tick.
    AlreadyFired,
    /// Query the events of the lookahead window.
    Query,
}

/// What one completed tick produced: the event to remind about, if one
/// fired, and how many watched events had an unreadable start.
#[derive(Debug)]
pub struct TickOutcome {
    pub fired: Option<Event>,
    pub malformed: usize,
}

/// The held credential is missing or expired at `now_epoch`.
pub open spec fn cred_expired(c: Option<Credential>, now_epoch: i64) -> bool {
    match c {
        None => true,
        Some(cr) => match cr.expires_at {
            None => false,
            Some(e) => e <= now_epoch,
        },
    }
}

/// The event carries the watched title and a date-time start (an
/// all-day event never fires).
pub open spec fn event_qualifies(e: Event, watch: Seq<char>) -> bool {
    e.summary@ == watch && e.start.date_time is Some
}

/// The event qualifies and its start text is a readable RFC 3339
/// date-time.
pub open spec fn event_fires(e: Event, watch: Seq<char>) -> bool {
    &&& e.summary@ == watch
    &&& e.start.date_time matches Some(s) && rfc3339_value(s@) is Some
}

/// The start instant of a firing event (meaningful only where the
/// event fires).
pub open spec fn fired_start(e: Event) -> PlainDateTime {
    match e.start.date_time {
        Some(s) => match rfc3339_value(s@) {
            Some(v) => v,
            None => arbitrary(),
        },
        None => arbitrary(),
    }
}

/// The position of the first firing event, scanning in the order the
/// query returned them.
pub open spec fn first_fire(evs: Seq<Event>, watch: Seq<char>) -> Option<int>
    decreases evs.len(),
{
    if evs.len() == 0 {
        None
    } else if event_fires(evs[0], watch) {
        Some(0)
    } else {
        match first_fire(evs.drop_first(), watch) {
            Some(i) => Some(i + 1),
            None => None,
        }
    }
}

/// How far the scan looks: up to the first firing event, or the whole
/// list when none fires.
pub open spec fn scan_end(evs: Seq<Event>, watch: Seq<char>) -> int {
    match first_fire(evs, watch) {
        Some(i) => i,
        None => evs.len() as int,
    }
}

/// How many of the first `n` events qualify but have an unreadable
/// start.
pub open spec fn malformed_upto(evs: Seq<Event>, watch: Seq<char>, n: int) -> int
    decreases n,
{
    if n <= 0 {
        0
    } else {
        malformed_upto(evs, watch, n - 1) + (if event_qualifies(evs[n - 1], watch) && !event_fires(
            evs[n - 1],
            watch,
        ) {
            1int
        } else {
            0int
        })
    }
}

/// The whole tick transition.  An expired credential blocks the tick on
/// the refresh (a failed refresh changes nothing and the next tick
/// retries); a day that already fired is skipped; a failed query changes
/// nothing; otherwise the first firing event is emitted and its own
/// start date marks the day as fired, with no event leaving the date
/// reset.
pub open spec fn tick_spec(
    s: PollState,
    now_epoch: i64,
    today: DateYmd,
    refreshed: Option<Credential>,
    events: Option<Seq<Event>>,
    watch: Seq<char>,
) -> (PollState, Option<Event>) {
    if cred_expired(s.credential, now_epoch) {
        (
            PollState {
                credential: if refreshed is Some {
                    refreshed
                } else {
                    s.credential
                },
                last_fire: s.last_fire,
            },
            None,
        )
    } else if s.last_fire == Some(today) {
        (s, None)
    } else {
        match events {
            None => (s, None),
            Some(evs) => match first_fire(evs, watch) {
                None => (PollState { last_fire: None, ..s }, None),
                Some(i) => (
                    (PollState { last_fire: Some(fired_start(evs[i]).spec_date()), ..s }),
                    Some(evs[i]),
                ),
            },
        }
    }
}

/// The malformed count a completed tick reports: meaningful only for a
/// tick that reached the scan.
pub open spec fn spec_malformed(
    s: PollState,
    now_epoch: i64,
    today: DateYmd,
    events: Option<Seq<Event>>,
    watch: Seq<char>,
) -> int {
    if cred_expired(s.credential, now_epoch) {
        0
    } else if s.last_fire == Some(today) {
        0
    } else {
        match events {
            None => 0,
            Some(evs) => malformed_upto(evs, watch, scan_end(evs, watch)),
        }
    }
}

/// One tick's outside inputs, gathered for stating properties of whole
/// runs of the scheduler.  Each call of [`PollState::complete_tick`]
/// realizes exactly one such input's transition, so the run lemmas
/// below speak about any sequence of completed ticks.
pub ghost struct TickInput {
    pub now_epoch: i64,
    pub today: DateYmd,
    pub refreshed: Option<Credential>,
    pub events: Option<Seq<Event>>,
}

/// The tick transition over a gathered input.
pub open spec fn tick_step(s: PollState, inp: TickInput, watch: Seq<char>) -> (
    PollState,
    Option<Event>,
) {
    tick_spec(s, inp.now_epoch, inp.today, inp.refreshed, inp.events, watch)
}

/// How many events a run of ticks emits, starting from `s`.
pub open spec fn run_fires(s: PollState, inputs: Seq<TickInput>, watch: Seq<char>) -> nat
    decreases inputs.len(),
{
    if inputs.len() == 0 {
        0
    } else {
        let step = tick_step(s, inputs[0], watch);
        (if step.1 is Some {
            1nat
        } else {
            0nat
        }) + run_fires(step.0, inputs.drop_first(), watch)
    }
}

/// The tick's query window holds the watched meeting (with a readable
/// start).
pub open spec fn tick_finds_meeting(inp: TickInput, watch: Seq<char>) -> bool {
    inp.events matches Some(evs) && first_fire(evs, watch) is Some
}

/// The start date of the meeting the tick's window holds, where it
/// holds one.
pub open spec fn found_meeting_date(inp: TickInput, watch: Seq<char>) -> Option<DateYmd> {
    match inp.events {
        Some(evs) => match first_fire(evs, watch) {
            Some(i) => Some(fired_start(evs[i]).spec_date()),
            None => None,
        },
        None => None,
    }
}

/// Once a reminder has gone out for date `d`, every further tick on
/// that same date emits nothing and keeps the mark, however its
/// credential check or query turns out: the date has to change before
/// anything fires again.
pub proof fn lemma_no_refire_same_day(
    s: PollState,
    inputs: Seq<TickInput>,
    watch: Seq<char>,
    d: DateYmd,
)
    requires
        s.last_fire == Some(d),
        forall|i: int| 0 <= i < inputs.len() ==> #[trigger] inputs[i].today == d,
    ensures
        run_fires(s, inputs, watch) == 0,
    decreases inputs.len(),
{
    if inputs.len() > 0 {
        let step = tick_step(s, inputs[0], watch);
        assert(step.0.last_fire == Some(d));
        assert(step.1 is None);
        assert(forall|i: int|
            0 <= i < inputs.drop_first().len() ==> #[trigger] inputs.drop_first()[i] == inputs[i
                + 1]);
        lemma_no_refire_same_day(step.0, inputs.drop_first(), watch, d);
    }
}

/// Over a day on which the watched meeting shows up in exactly one
/// tick's window — with the meeting's own start on that same date — and
/// the held credential stays valid, a run of ticks emits exactly one
/// event, whatever else the other ticks' queries returned or failed to
/// return.
pub proof fn lemma_fires_once_per_day(
    s: PollState,
    inputs: Seq<TickInput>,
    watch: Seq<char>,
    d: DateYmd,
    k: int,
)
    requires
        s.last_fire != Some(d),
        forall|i: int| 0 <= i < inputs.len() ==> #[trigger] inputs[i].today == d,
        forall|i: int|
            0 <= i < inputs.len() ==> !cred_expired(s.credential, #[trigger] inputs[i].now_epoch),
        0 <= k < inputs.len(),
        tick_finds_meeting(inputs[k], watch),
        forall|i: int|
            0 <= i < inputs.len() && i != k ==> !tick_finds_meeting(#[trigger] inputs[i], watch),
        found_meeting_date(inputs[k], watch) == Some(d),
    ensures
        run_fires(s, inputs, watch) == 1,
    decreases inputs.len(),
{
    let step = tick_step(s, inputs[0], watch);
    assert(forall|i: int|
        0 <= i < inputs.drop_first().len() ==> #[trigger] inputs.drop_first()[i] == inputs[i + 1]);
    if k == 0 {
        assert(step.1 is Some);
        assert(step.0.last_fire == Some(d));
        lemma_no_refire_same_day(step.0, inputs.drop_first(), watch, d);
    } else {
        assert(step.1 is None);
        assert(step.0.credential == s.credential);
        assert(step.0.last_fire != Some(d));
        lemma_fires_once_per_day(step.0, inputs.drop_first(), watch, d, k - 1);
    }
}

/// A scan that found a firing event at `i`, with none before it, pins
/// down the first firing position.
proof fn lemma_first_fire_at(evs: Seq<Event>, watch: Seq<char>, i: int)
    requires
        0 <= i < evs.len(),
        event_fires(evs[i], watch),
        forall|j: int| 0 <= j < i ==> !event_fires(evs[j], watch),
    ensures
        first_fire(evs, watch) == Some(i),
    decreases i,
{
    if i > 0 {
        assert(forall|j: int|
            0 <= j < evs.drop_first().len() ==> evs.drop_first()[j] == evs[j + 1]);
        lemma_first_fire_at(evs.drop_first(), watch, i - 1);
    }
}

/// A scan that found no firing event pins the first firing position to
/// none.
proof fn lemma_first_fire_none(evs: Seq<Event>, watch: Seq<char>)
    requires
        forall|j: int| 0 <= j < evs.len() ==> !event_fires(evs[j], watch),
    ensures
        first_fire(evs, watch) is None,
    decreases evs.len(),
{
    if evs.len() > 0 {
        assert(forall|j: int|
            0 <= j < evs.drop_first().len() ==> evs.drop_first()[j] == evs[j + 1]);
        lemma_first_fire_none(evs.drop_first(), watch);
    }
}

impl PollState {
    /// A fresh state: nothing fired yet.
    pub fn new(credential: Option<Credential>) -> (r: Self)
        ensures
            r.credential == credential,
            r.last_fire is None,
    {
        PollState { credential, last_fire: None }
    }

    /// What this tick needs from the outside world, in the order the
    /// tick checks it: the credential first, then the day, then the
    /// query.
    pub fn plan_tick(&self, now_epoch: i64, today: DateYmd) -> (r: TickAction)
        ensures
            (r == TickAction::RefreshCredential) == cred_expired(self.credential, now_epoch),
            (r == TickAction::AlreadyFired) == (!cred_expired(self.credential, now_epoch)
                && self.last_fire == Some(today)),
            (r == TickAction::Query) == (!cred_expired(self.credential, now_epoch)
                && self.last_fire != Some(today)),
    {
        let expired = (match &self.credential {
            None => true,
            Some(c) => match c.expires_at {
                None => false,
                Some(e) => e <= now_epoch,
            },
        });
        if expired {
            TickAction::RefreshCredential
        } else {
            let fired_today = (match &self.last_fire {
                Some(d) => *d == today,
                None => false,
            });
            if fired_today {
                TickAction::AlreadyFired
            } else {
                TickAction::Query
            }
        }
    }

    /// Completes one tick: applies the whole transition of
    /// [`tick_spec`] to the state and reports what fired and how many
    /// watched events had an unreadable start.
    ///
    /// `refreshed` is what the credential source returned where the
    /// tick asked for a refresh (`None` for a failed refresh), and
    /// `events` is the queried window (`None` for a failed or skipped
    /// query).
    pub fn complete_tick(
        &mut self,
        now_epoch: i64,
        today: DateYmd,
        refreshed: Option<Credential>,
        events: Option<&Vec<Event>>,
        watch: &String,
    ) -> (r: TickOutcome)
        ensures
            ({
                let evs = (match events {
                    Some(v) => Some(v@),
                    None => None::<Seq<Event>>,
                });
                let step = tick_spec(*old(self), now_epoch, today, refreshed, evs, watch@);
                &&& *final(self) == step.0
                &&& r.fired == step.1
                &&& r.malformed as int == spec_malformed(
                    *old(self),
                    now_epoch,
                    today,
                    evs,
                    watch@,
                )
            }),
    {
        let expired = (match &self.credential {
            None => true,
            Some(c) => match c.expires_at {
                None => false,
                Some(e) => e <= now_epoch,
            },
        });
        if expired {
            if let Some(c) = refreshed {
                self.credential = Some(c);
            }
            return TickOutcome { fired: None, malformed: 0 };
        }
        let fired_today = (match &self.last_fire {
            Some(d) => *d == today,
            None => false,
        });
        if fired_today {
            return TickOutcome { fired: None, malformed: 0 };
        }
        match events {
            None => TickOutcome { fired: None, malformed: 0 },
            Some(evs) => {
                let mut i: usize = 0;
                let mut malformed: usize = 0;
                while i < evs.len()
                    invariant
                        events == Some(evs),
                        i <= evs.len(),
                        malformed <= i,
                        malformed as int == malformed_upto(evs@, watch@, i as int),
                        forall|j: int| 0 <= j < i ==> !event_fires(evs@[j], watch@),
                        *self == *old(self),
                        !cred_expired(old(self).credential, now_epoch),
                        old(self).last_fire != Some(today),
                    decreases evs.len() - i,
                {
                    let e = &evs[i];
                    if e.summary == *watch && e.start.date_time.is_some() {
                        match Timestamp::try_from(&e.start) {
                            Ok(Timestamp::DateTime(dt)) => {
                                proof {
                                    lemma_first_fire_at(evs@, watch@, i as int);
                                }
                                self.last_fire = Some(dt.date());
                                return TickOutcome { fired: Some(e.clone()), malformed: malformed };
                            },
                            _ => {
                                malformed = malformed + 1;
                            },
                        }
                    }
                    i = i + 1;
                }
                proof {
                    lemma_first_fire_none(evs@, watch@);
                }
                self.last_fire = None;
                TickOutcome { fired: None, malformed: malformed }
            },
        }
    }
}

/// The pure part of querying the window: the request for all events of
/// `calendar_id` starting in the `lookahead_minutes` after `now`, the
/// window given to the calendar in UTC.  `now` is a local wall-clock
/// instant and `offset_minutes` its zone's offset from UTC; the request
/// asks for single events in start order, at most fifty (plenty for one
/// hour of one calendar).  `None` where the window cannot be expressed
/// (a date outside the calendar arithmetic's range, or a UTC year
/// outside four digits).
pub fn build_events_request(
    calendar_id: String,
    now: &PlainDateTime,
    offset_minutes: i32,
    lookahead_minutes: i64,
) -> (r: Option<EventsListRequest>)
    requires
        -1440 <= offset_minutes <= 1440,
        0 <= lookahead_minutes <= 10080,
    ensures
        ({
            let start_utc = crate::dates::shifted_value(*now, (-offset_minutes) as i64);
            let end_utc = crate::dates::shifted_value(
                *now,
                (lookahead_minutes - offset_minutes as i64) as i64,
            );
            match (start_utc, end_utc) {
                (Some(a), Some(b)) => {
                    if 0 <= a.year <= 9999 && 0 <= b.year <= 9999 {
                        match r {
                            Some(req) => {
                                &&& req.calendar_id == calendar_id
                                &&& req.max_results == Some(50usize)
                                &&& (req.order_by matches Some(o) && o@ == "startTime"@)
                                &&& req.page_token is None
                                &&& req.show_deleted is None
                                &&& req.single_events == Some(true)
                                &&& (req.time_min matches Some(s) && s@ == crate::events::utc_text(
                                    a,
                                ))
                                &&& (req.time_max matches Some(s) && s@ == crate::events::utc_text(
                                    b,
                                ))
                            },
                            None => false,
                        }
                    } else {
                        r is None
                    }
                },
                _ => r is None,
            }
        }),
{
    let start = crate::dates::shift_minutes(now, -(offset_minutes as i64));
    let end = crate::dates::shift_minutes(now, lookahead_minutes - offset_minutes as i64);
    match (start, end) {
        (Some(a), Some(b)) => {
            if 0 <= a.year && a.year <= 9999 && 0 <= b.year && b.year <= 9999 {
                Some(
                    EventsListRequest::new(calendar_id).max_results(50).order_by(
                        String::from_str("startTime"),
                    ).single_events(true).time_min(&a).time_max(&b),
                )
            } else {
                None
            }
        },
        _ => None,
    }
}

} // verus!
