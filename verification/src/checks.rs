//! The checks that an entitlement leaves pending.
//!
//! An entitlement has two boundaries, one from which to warn and one at which to
//! halt. Those that lie ahead are kept as checks, events to report when the
//! boundary is reached.

use std::task::Context;
use std::time::Instant;

use tokio_util::time::DelayQueue;
use vstd::multiset::Multiset;
use vstd::prelude::*;

use crate::clock::is_positive_instant;
use crate::clock::positive_instant;
use crate::clock::positive_instant_at;
use crate::earlier::Earlier;
use crate::entitlement::Claims;
use crate::entitlement::Entitlement;
use crate::entitlement::EntitlementState;
use crate::entitlement::Event;
use crate::timer::clear_queue;
use crate::timer::deadline;
use crate::timer::insert_at;
use crate::timer::instant_nanos;
use crate::timer::is_after;
use crate::timer::millis_until;
use crate::timer::new_queue;
use crate::timer::polls_to;
use crate::timer::queue_checks;
use crate::timer::queue_elapsed;
use crate::timer::queue_in_step;
use crate::timer::queue_reached;
use crate::timer::queue_start;
use crate::timer::read_clocks;
use crate::timer::unix_nanos;
use crate::timer::ClockLog;
use crate::timer::Moment;
use crate::timer::Poll;
use crate::timer::PollLog;
use crate::timer::Reading;
use crate::timer::MAX_DELAY_MILLIS;
use crate::timer::NANOS_PER_MILLI;

verus! {

/// Why a boundary cannot be kept as a check.
#[derive(Clone, Copy, Debug, PartialEq, Eq, Structural)]
pub enum BoundaryError {
    /// The boundary is so far ahead that an `Instant` cannot represent it.
    Unrepresentable,
    /// The boundary is further ahead than the queue of checks can wait.
    TooFar,
}

/// The event that reports `state`.
pub open spec fn update(state: EntitlementState) -> Event {
    Event::UpdateEntitlement(state)
}

/// A check of `state`, if it has a deadline.
pub open spec fn check_at(deadline: Option<nat>, state: EntitlementState) -> Multiset<
    (nat, Event),
> {
    match deadline {
        Some(millis) => Multiset::singleton((millis, update(state))),
        None => Multiset::empty(),
    }
}

/// The checks with these deadlines, in milliseconds from the start of the queue:
/// one to halt and one to warn, or fewer.
pub open spec fn checks_at(halt: Option<nat>, warn: Option<nat>) -> Multiset<(nat, Event)> {
    check_at(halt, EntitlementState::EntitledHalt).add(
        check_at(warn, EntitlementState::EntitledWarn),
    )
}

/// Whether a boundary at `when` is further ahead of `start` than the queue of
/// checks can wait.
pub open spec fn is_too_far(start: int, when: int) -> bool {
    millis_until(start, when) > MAX_DELAY_MILLIS
}

/// The state at `now` of an entitlement with these boundaries. One that halts is
/// by definition also one that warns.
pub open spec fn state_at(halt: int, warn: int, now: int) -> EntitlementState {
    if halt <= now {
        EntitlementState::EntitledHalt
    } else if warn <= now {
        EntitlementState::EntitledWarn
    } else {
        EntitlementState::Entitled
    }
}

/// What comes of an entitlement with these boundaries at `now`: its state, or an
/// error when a boundary that lies ahead is too far. The warn boundary is not
/// looked at once the halt boundary has settled the matter.
pub open spec fn outcome_at(start: int, halt: int, warn: int, now: int) -> Result<
    EntitlementState,
    BoundaryError,
> {
    if halt > now && is_too_far(start, halt) {
        Err(BoundaryError::TooFar)
    } else if halt > now && warn > now && is_too_far(start, warn) {
        Err(BoundaryError::TooFar)
    } else {
        Ok(state_at(halt, warn, now))
    }
}

/// The checks that an entitlement with these boundaries leaves at `now`: one for
/// each boundary that lies ahead, but none to warn where there is none to halt.
pub open spec fn checks_after(start: int, halt: int, warn: int, now: int) -> Multiset<
    (nat, Event),
> {
    if halt <= now || is_too_far(start, halt) {
        Multiset::empty()
    } else if warn <= now || is_too_far(start, warn) {
        checks_at(Some(millis_until(start, halt)), None)
    } else {
        checks_at(Some(millis_until(start, halt)), Some(millis_until(start, warn)))
    }
}

/// The clock readings by which the boundaries of an entitlement are placed.
#[derive(Clone, Copy)]
pub struct Readings {
    /// The clocks when the halt boundary is placed.
    pub halt: Moment,
    /// The clocks when the warn boundary is placed.
    pub warn: Moment,
    /// The present, against which both are held.
    pub now: Reading,
}

impl Readings {
    /// Whether the monotonic clock was read in this order, after `start`.
    pub open spec fn in_order(self, start: int) -> bool {
        &&& self.halt.nanos() <= self.warn.nanos() <= self.now.nanos()
        &&& start <= self.now.nanos()
    }

    /// The instant of the halt boundary.
    pub open spec fn halt_at(self, claims: Claims) -> Option<Instant> {
        positive_instant(claims.halt_at, self.halt.time(), self.halt.instant())
    }

    /// The instant of the warn boundary.
    pub open spec fn warn_at(self, claims: Claims) -> Option<Instant> {
        positive_instant(claims.warn_at, self.warn.time(), self.warn.instant())
    }

    /// Whether the instants of both boundaries lie where the readings place them.
    pub open spec fn places(self, claims: Claims) -> bool {
        &&& is_positive_instant(
            self.halt_at(claims),
            claims.halt_at,
            self.halt.time(),
            self.halt.instant(),
        )
        &&& is_positive_instant(
            self.warn_at(claims),
            claims.warn_at,
            self.warn.time(),
            self.warn.instant(),
        )
    }

    /// The deadline of a check to halt, in milliseconds from `start`.
    pub open spec fn halt_deadline(self, claims: Claims, start: int) -> nat {
        millis_until(start, instant_nanos(self.halt_at(claims)->0))
    }

    /// The deadline of a check to warn, in milliseconds from `start`.
    pub open spec fn warn_deadline(self, claims: Claims, start: int) -> nat {
        millis_until(start, instant_nanos(self.warn_at(claims)->0))
    }

    /// By how much the monotonic clock got ahead of the wall clock between the
    /// placements of the two boundaries, in nanoseconds.
    pub open spec fn drift(self) -> int {
        (self.warn.nanos() - self.halt.nanos()) - (self.warn.unix_nanos() - self.halt.unix_nanos())
    }
}

/// What there is to know of the checks.
#[verifier::ext_equal]
pub struct ChecksState {
    /// The pending checks, each with its deadline in milliseconds from the start.
    pub pending: Multiset<(nat, Event)>,
    /// The point on the monotonic clock from which deadlines are counted.
    pub start: int,
    /// Up to where the checks have been polled, in milliseconds from the start.
    pub reached: nat,
    /// The claims that were taken last, and the readings that they were placed by.
    pub latest: Option<(Claims, Readings)>,
    /// Every answer that polling the checks has given.
    pub polls: Seq<Poll<Option<Event>>>,
    /// Every reading of the monotonic clock that entitlements were placed by.
    pub reads: Seq<Reading>,
}

/// Whether these are the checks that `readings` place for `claims`, or some of
/// them: at most one to halt and one to warn, each due at its boundary.
pub open spec fn are_checks_of(
    pending: Multiset<(nat, Event)>,
    start: int,
    claims: Claims,
    readings: Readings,
) -> bool {
    exists|halt: Option<nat>, warn: Option<nat>|
        {
            &&& pending == #[trigger] checks_at(halt, warn)
            &&& halt is Some ==> readings.halt_at(claims) is Some && halt == Some(
                millis_until(start, instant_nanos(readings.halt_at(claims)->0)),
            )
            &&& warn is Some ==> readings.warn_at(claims) is Some && warn == Some(
                millis_until(start, instant_nanos(readings.warn_at(claims)->0)),
            )
        }
}

impl ChecksState {
    /// Whether the pending checks are those of the claims that were taken last, and
    /// there are none before any were.
    pub open spec fn valid(self) -> bool {
        match self.latest {
            Some((claims, readings)) => {
                &&& readings.in_order(self.start)
                &&& readings.places(claims)
                &&& are_checks_of(self.pending, self.start, claims, readings)
            },
            None => self.pending == Multiset::<(nat, Event)>::empty(),
        }
    }

    /// The point on the monotonic clock up to which the checks have been polled.
    pub open spec fn polled_up_to(self) -> int {
        self.start + self.reached * NANOS_PER_MILLI
    }

    /// Whether `now` on the monotonic clock is no earlier than the start, nor than
    /// the readings of the claims that were taken last.
    pub open spec fn is_past_at(self, now: int) -> bool {
        &&& self.start <= now
        &&& self.latest matches Some((_, readings)) ==> readings.now.nanos() <= now
    }

    /// Whether `readings` are taken after those of the claims that were taken last.
    pub open spec fn is_before(self, readings: Readings) -> bool {
        self.latest matches Some((_, earlier)) ==> earlier.now.nanos() <= readings.halt.nanos()
    }
}

/// Whether polling the checks in `before` gave `expired` and left `after`.
pub open spec fn polled(
    before: ChecksState,
    after: ChecksState,
    expired: Poll<Option<Event>>,
) -> bool {
    &&& after.start == before.start
    &&& after.latest == before.latest
    &&& after.polls == before.polls.push(expired)
    &&& after.reads == before.reads
    &&& polls_to(before.pending, after.pending, after.reached, expired)
    &&& before.pending == Multiset::<(nat, Event)>::empty() <==> expired == Poll::<
        Option<Event>,
    >::Ready(None)
}

/// Whether `result` is what comes of new claims by these readings, and `after` is
/// what they make of the checks in `before`.
pub open spec fn resets_to(
    before: ChecksState,
    after: ChecksState,
    claims: Claims,
    readings: Readings,
    result: Result<Poll<Option<Event>>, BoundaryError>,
) -> bool {
    &&& after.start == before.start
    &&& after.reached == before.reached
    &&& after.polls == before.polls
    &&& after.latest == Some((claims, readings))
    &&& readings.in_order(before.start)
    &&& readings.places(claims)
    &&& match (readings.halt_at(claims), readings.warn_at(claims)) {
        (Some(halt_at), Some(warn_at)) => {
            let halt = instant_nanos(halt_at);
            let warn = instant_nanos(warn_at);
            let now = readings.now.nanos();
            &&& after.pending == checks_after(before.start, halt, warn, now)
            &&& result == match outcome_at(before.start, halt, warn, now) {
                Ok(state) => Ok(Poll::Ready(Some(update(state)))),
                Err(error) => Err(error),
            }
        },
        _ => {
            &&& after.pending == Multiset::<(nat, Event)>::empty()
            &&& result == Err::<Poll<Option<Event>>, BoundaryError>(BoundaryError::Unrepresentable)
        },
    }
}

/// Whether the clock was read by these readings, and nothing else, between `before`
/// and `after`, no earlier than any reading from before.
pub open spec fn reads_now(before: ChecksState, after: ChecksState, readings: Readings) -> bool {
    &&& after.reads == before.reads.push(readings.halt.reading()).push(
        readings.warn.reading(),
    ).push(readings.now)
    &&& forall|i: int|
        0 <= i < before.reads.len() ==> (#[trigger] before.reads[i]).nanos()
            <= readings.halt.nanos()
}

/// Whether none of these readings is later than `last`.
pub open spec fn lie_behind(reads: Seq<Reading>, last: Option<Reading>) -> bool {
    forall|i: int|
        0 <= i < reads.len() ==> last is Some && (#[trigger] reads[i]).nanos() <= last->0.nanos()
}

/// The checks that wait for their boundary.
pub struct Checks {
    queue: DelayQueue<Event>,
    /// A reading of the clock from just before the queue was made.
    origin: Reading,
    /// When the queue started, once that is known.
    started: Option<Instant>,
    /// The readings by which the latest claims were placed.
    readings: Option<Readings>,
    /// The latest claims.
    claims: Ghost<Option<Claims>>,
    /// The answers that polling has given.
    polls: PollLog,
    /// The readings that entitlements were placed by.
    clock: ClockLog,
    /// The last of them.
    last_read: Option<Reading>,
}

impl View for Checks {
    type V = ChecksState;

    closed spec fn view(&self) -> ChecksState {
        ChecksState {
            pending: queue_checks(self.queue),
            start: queue_start(self.queue),
            reached: queue_reached(self.queue),
            latest: match (self.claims@, self.readings) {
                (Some(claims), Some(readings)) => Some((claims, readings)),
                _ => None,
            },
            polls: self.polls.answers(),
            reads: self.clock.reads(),
        }
    }
}

impl Checks {
    /// Whether the queue is in step and what is noted of it is right.
    spec fn is_in_shape(self) -> bool {
        &&& self.origin.nanos() <= queue_start(self.queue)
        &&& self.started matches Some(at) ==> instant_nanos(at) == queue_start(self.queue)
        &&& self.claims@ is Some <==> self.readings is Some
        &&& lie_behind(self.clock.reads(), self.last_read)
        &&& queue_in_step(self.queue)
    }

    /// Whether the pending checks are those of the claims that were taken last, in
    /// a queue that is in shape.
    pub closed spec fn wf(self) -> bool {
        &&& self.is_in_shape()
        &&& self@.valid()
    }

    /// Makes a queue without checks.
    pub fn new() -> (checks: Self)
        ensures
            checks.wf(),
            checks@.pending == Multiset::<(nat, Event)>::empty(),
            checks@.reached == 0,
            checks@.latest is None,
            checks@.polls == Seq::<Poll<Option<Event>>>::empty(),
            checks@.reads == Seq::<Reading>::empty(),
    {
        let origin = ClockLog::new().read(&Earlier::new(None), None);
        Checks {
            queue: new_queue(origin),
            origin,
            started: None,
            readings: None,
            claims: Ghost(None),
            polls: PollLog::new(),
            clock: ClockLog::new(),
            last_read: None,
        }
    }

    /// Reads the monotonic clock.
    pub fn read_clock(&self) -> (reading: Reading)
        ensures
            self@.is_past_at(reading.nanos()),
            self.wf() ==> lie_behind(self@.reads, Some(reading)),
    {
        let latest = match self.readings {
            Some(readings) => Some(readings.now),
            None => None,
        };
        let earlier = Earlier::new(later_of(latest, self.last_read));
        ClockLog::new().read(&earlier, Some(&self.queue))
    }

    /// Reads the clocks to place the boundaries of an entitlement by.
    pub fn take_readings(&self) -> (readings: Readings)
        ensures
            readings.in_order(self@.start),
            self@.is_before(readings),
            self.wf() ==> lie_behind(self@.reads, Some(readings.halt.reading())),
    {
        let latest = match self.readings {
            Some(readings) => Some(readings.now),
            None => None,
        };
        let halt = read_clocks(later_of(latest, self.last_read));
        let warn = read_clocks(Some(halt.get_reading()));
        let now = ClockLog::new().read(
            &Earlier::new(Some(warn.get_reading())),
            Some(&self.queue),
        );
        Readings { halt, warn, now }
    }

    /// Returns when the queue started. The queue does not tell, but an item that is
    /// due no later than that has its deadline there.
    fn learn_start(&mut self) -> (started: Instant)
        requires
            old(self).is_in_shape(),
            queue_checks(old(self).queue) == Multiset::<(nat, Event)>::empty(),
            queue_elapsed(old(self).queue) == 0,
        ensures
            final(self).is_in_shape(),
            instant_nanos(started) == old(self)@.start,
            final(self)@ == old(self)@,
            queue_elapsed(final(self).queue) == 0,
    {
        match self.started {
            Some(started) => started,
            None => {
                let event = Event::UpdateEntitlement(EntitlementState::EntitledHalt);
                let key = insert_at(&mut self.queue, event, self.origin.get());
                let started = deadline(&self.queue, &key);
                clear_queue(&mut self.queue);
                self.started = Some(started);
                started
            },
        }
    }

    /// Replaces the checks by those of an entitlement whose boundaries lie at
    /// these instants, and returns its state.
    ///
    /// A boundary that has passed already leaves no check: it shows in the state.
    fn schedule(&mut self, halt_at: Instant, warn_at: Instant, now: Reading) -> (result: Result<
        EntitlementState,
        BoundaryError,
    >)
        requires
            old(self).is_in_shape(),
            old(self)@.start <= now.nanos(),
        ensures
            final(self).is_in_shape(),
            final(self)@ == (ChecksState {
                pending: checks_after(
                    old(self)@.start,
                    instant_nanos(halt_at),
                    instant_nanos(warn_at),
                    now.nanos(),
                ),
                ..old(self)@
            }),
            result == outcome_at(
                old(self)@.start,
                instant_nanos(halt_at),
                instant_nanos(warn_at),
                now.nanos(),
            ),
    {
        // The new claims make the previous checks void.
        clear_queue(&mut self.queue);
        if !is_after(&halt_at, &now.get()) {
            return Ok(EntitlementState::EntitledHalt);
        }
        let start = self.learn_start();
        if is_out_of_reach(&start, &halt_at) {
            return Err(BoundaryError::TooFar);
        }
        insert_at(
            &mut self.queue,
            Event::UpdateEntitlement(EntitlementState::EntitledHalt),
            halt_at,
        );
        assert(self@.pending =~= checks_at(
            Some(millis_until(self@.start, instant_nanos(halt_at))),
            None,
        ));
        if !is_after(&warn_at, &now.get()) {
            return Ok(EntitlementState::EntitledWarn);
        }
        if is_out_of_reach(&start, &warn_at) {
            return Err(BoundaryError::TooFar);
        }
        insert_at(
            &mut self.queue,
            Event::UpdateEntitlement(EntitlementState::EntitledWarn),
            warn_at,
        );
        assert(self@.pending =~= checks_at(
            Some(millis_until(self@.start, instant_nanos(halt_at))),
            Some(millis_until(self@.start, instant_nanos(warn_at))),
        ));
        Ok(EntitlementState::Entitled)
    }

    /// Takes claims and returns the event for them, given the readings to place
    /// their boundaries by. Boundaries that lie ahead are kept as checks, in place
    /// of all earlier ones.
    pub fn reset_by(&mut self, claims: Claims, readings: Readings) -> (result: Result<
        Poll<Option<Event>>,
        BoundaryError,
    >)
        requires
            old(self).wf(),
            readings.in_order(old(self)@.start),
        ensures
            final(self).wf(),
            resets_to(old(self)@, final(self)@, claims, readings, result),
            final(self)@.reads == old(self)@.reads,
    {
        self.readings = Some(readings);
        self.claims = Ghost(Some(claims));
        let halt_at = positive_instant_at(
            claims.halt_at,
            readings.halt.get_time(),
            readings.halt.get_reading().get(),
        );
        let warn_at = positive_instant_at(
            claims.warn_at,
            readings.warn.get_time(),
            readings.warn.get_reading().get(),
        );
        let result = match (halt_at, warn_at) {
            (Some(halt_at), Some(warn_at)) => match self.schedule(halt_at, warn_at, readings.now) {
                Ok(state) => Ok(Poll::Ready(Some(Event::UpdateEntitlement(state)))),
                Err(error) => Err(error),
            },
            _ => {
                clear_queue(&mut self.queue);
                Err(BoundaryError::Unrepresentable)
            },
        };
        proof {
            lemma_reset_is_valid(old(self)@, self@, claims, readings, result);
        }
        result
    }

    /// Takes an entitlement and returns the event for it. Boundaries that lie
    /// ahead are kept as checks, in place of all earlier ones.
    pub fn reset_checks_for_entitlement(&mut self, entitlement: Entitlement) -> (result: Result<
        Poll<Option<Event>>,
        BoundaryError,
    >)
        requires
            old(self).wf(),
            entitlement.claims is Some,
        ensures
            final(self).wf(),
            final(self)@.latest matches Some((claims, readings)) && claims
                == entitlement.claims->0 && old(self)@.is_before(readings) && reads_now(
                old(self)@,
                final(self)@,
                readings,
            ) && resets_to(old(self)@, final(self)@, claims, readings, result),
    {
        let claims = entitlement.claims.unwrap();
        let latest = match self.readings {
            Some(readings) => Some(readings.now),
            None => None,
        };
        let earlier = Earlier::new(later_of(latest, self.last_read));
        let halt = Moment::read(&mut self.clock, &earlier);
        let warn = Moment::read(&mut self.clock, &Earlier::new(Some(halt.get_reading())));
        let now = self.clock.read(&Earlier::new(Some(warn.get_reading())), Some(&self.queue));
        self.last_read = Some(now);
        self.reset_by(claims, Readings { halt, warn, now })
    }

    /// Takes the check that comes first, if its boundary has been reached.
    pub fn poll_expired(&mut self, cx: &mut Context<'_>) -> (expired: Poll<Option<Event>>)
        requires
            old(self).wf(),
        ensures
            final(self).wf(),
            polled(old(self)@, final(self)@, expired),
    {
        let expired = self.polls.poll(&mut self.queue, cx);
        proof {
            lemma_polling_is_valid(old(self)@, self@, expired);
        }
        expired
    }
}

/// Returns the later of two readings, as far as there are any.
fn later_of(one: Option<Reading>, other: Option<Reading>) -> (later: Option<Reading>)
    ensures
        one matches Some(reading) ==> later is Some && reading.nanos() <= later->0.nanos(),
        other matches Some(reading) ==> later is Some && reading.nanos() <= later->0.nanos(),
{
    match (one, other) {
        (Some(one), Some(other)) => if is_after(&one.get(), &other.get()) {
            Some(one)
        } else {
            Some(other)
        },
        (Some(one), None) => Some(one),
        (None, other) => other,
    }
}

/// Whether a boundary is further ahead than the queue can wait.
fn is_out_of_reach(start: &Instant, when: &Instant) -> (too_far: bool)
    ensures
        too_far == is_too_far(instant_nanos(*start), instant_nanos(*when)),
{
    let nanos: u128 = when.saturating_duration_since(*start).as_nanos();
    nanos > MAX_DELAY_MILLIS as u128 * NANOS_PER_MILLI
}

/// What new claims make of the checks is valid, whatever it was before.
pub(crate) proof fn lemma_reset_is_valid(
    before: ChecksState,
    after: ChecksState,
    claims: Claims,
    readings: Readings,
    result: Result<Poll<Option<Event>>, BoundaryError>,
)
    requires
        resets_to(before, after, claims, readings, result),
    ensures
        after.valid(),
{
    let halt = millis_until(after.start, instant_nanos(readings.halt_at(claims)->0));
    let warn = millis_until(after.start, instant_nanos(readings.warn_at(claims)->0));
    assert(Multiset::<(nat, Event)>::empty() =~= checks_at(None, None));
    assert(after.pending == checks_at(None, None) || after.pending == checks_at(Some(halt), None)
        || after.pending == checks_at(Some(halt), Some(warn)));
}

/// Polling keeps the checks valid.
pub(crate) proof fn lemma_polling_is_valid(
    before: ChecksState,
    after: ChecksState,
    expired: Poll<Option<Event>>,
)
    requires
        before.valid(),
        polled(before, after, expired),
    ensures
        after.valid(),
{
    if let Poll::Ready(Some(event)) = expired {
        let deadline = choose|deadline: nat|
            {
                &&& #[trigger] before.pending.contains((deadline, event))
                &&& forall|other: (nat, Event)| #[trigger]
                    before.pending.contains(other) ==> deadline <= other.0
                &&& deadline <= after.reached
                &&& after.pending == before.pending.remove((deadline, event))
            };
        let (claims, readings) = before.latest->0;
        let (halt, warn) = choose|halt: Option<nat>, warn: Option<nat>|
            {
                &&& before.pending == #[trigger] checks_at(halt, warn)
                &&& halt is Some ==> readings.halt_at(claims) is Some && halt == Some(
                    millis_until(before.start, instant_nanos(readings.halt_at(claims)->0)),
                )
                &&& warn is Some ==> readings.warn_at(claims) is Some && warn == Some(
                    millis_until(before.start, instant_nanos(readings.warn_at(claims)->0)),
                )
            };
        if event == update(EntitlementState::EntitledHalt) {
            assert(after.pending =~= checks_at(None, warn));
        } else {
            assert(after.pending =~= checks_at(halt, None));
        }
    }
}

/// A check never has a deadline before its boundary, nor one a whole millisecond
/// after it.
pub proof fn law_deadline_fits_boundary(start: int, boundary: int)
    requires
        start <= boundary,
    ensures
        boundary <= start + millis_until(start, boundary) * NANOS_PER_MILLI < boundary
            + NANOS_PER_MILLI,
{
}

/// Of two boundaries, the later one never has the earlier deadline.
pub proof fn law_deadlines_keep_order(start: int, earlier: int, later: int)
    requires
        earlier <= later,
    ensures
        millis_until(start, earlier) <= millis_until(start, later),
{
}

/// As time goes by an entitlement may come to warn and come to halt, and never
/// goes back.
pub proof fn law_state_never_goes_back(halt: int, warn: int, now: int, later: int)
    requires
        now <= later,
    ensures
        state_at(halt, warn, now) == EntitlementState::EntitledHalt ==> state_at(halt, warn, later)
            == EntitlementState::EntitledHalt,
        state_at(halt, warn, now) == EntitlementState::EntitledWarn ==> state_at(halt, warn, later)
            != EntitlementState::Entitled,
        state_at(halt, warn, now) != EntitlementState::Unentitled,
{
}

/// The pending checks are always those of one entitlement: at most one to halt, at
/// most one to warn, and nothing else.
pub proof fn law_checks_of_one_entitlement(state: ChecksState)
    requires
        state.valid(),
    ensures
        exists|halt: Option<nat>, warn: Option<nat>|
            state.pending == #[trigger] checks_at(halt, warn),
        state.pending.len() <= 2,
{
    if let Some((claims, readings)) = state.latest {
        let (halt, warn) = choose|halt: Option<nat>, warn: Option<nat>|
            state.pending == #[trigger] checks_at(halt, warn);
        assert(check_at(halt, EntitlementState::EntitledHalt).len() <= 1);
        assert(check_at(warn, EntitlementState::EntitledWarn).len() <= 1);
    } else {
        assert(state.pending =~= checks_at(None, None));
    }
}

/// Claims whose halt boundary has passed are answered with the event to halt at
/// once, wherever their warn boundary lies, and leave no checks.
pub proof fn law_passed_halt_is_reported_at_once(
    before: ChecksState,
    after: ChecksState,
    claims: Claims,
    readings: Readings,
    result: Result<Poll<Option<Event>>, BoundaryError>,
)
    requires
        resets_to(before, after, claims, readings, result),
        unix_nanos(claims.halt_at) <= readings.halt.unix_nanos(),
        readings.warn_at(claims) is Some,
    ensures
        result == Ok::<_, BoundaryError>(
            Poll::Ready(Some(update(EntitlementState::EntitledHalt))),
        ),
        after.pending == Multiset::<(nat, Event)>::empty(),
{
}

/// Claims whose warn boundary has passed are answered with the event to warn or
/// the one to halt, if their halt boundary can be waited for, and leave no check
/// to warn.
pub proof fn law_passed_warn_is_reported_at_once(
    before: ChecksState,
    after: ChecksState,
    claims: Claims,
    readings: Readings,
    result: Result<Poll<Option<Event>>, BoundaryError>,
)
    requires
        resets_to(before, after, claims, readings, result),
        unix_nanos(claims.warn_at) <= readings.warn.unix_nanos(),
        result is Ok,
    ensures
        result->Ok_0 == Poll::Ready(Some(update(EntitlementState::EntitledWarn))) || result->Ok_0
            == Poll::Ready(Some(update(EntitlementState::EntitledHalt))),
        forall|deadline: nat|
            !(#[trigger] after.pending.contains(
                (deadline, update(EntitlementState::EntitledWarn)),
            )),
{
}

/// What new claims are not answered with at once is pending: after the event that
/// all is well, the checks to warn and to halt; after the one to warn, the check to
/// halt; after the one to halt, nothing.
pub proof fn law_what_is_not_reported_is_pending(
    before: ChecksState,
    after: ChecksState,
    claims: Claims,
    readings: Readings,
    result: Result<Poll<Option<Event>>, BoundaryError>,
)
    requires
        resets_to(before, after, claims, readings, result),
        result is Ok,
    ensures
        ({
            let halt = readings.halt_deadline(claims, before.start);
            let warn = readings.warn_deadline(claims, before.start);
            result->Ok_0 matches Poll::Ready(Some(Event::UpdateEntitlement(state))) && match state {
                EntitlementState::Entitled => after.pending == checks_at(Some(halt), Some(warn)),
                EntitlementState::EntitledWarn => after.pending == checks_at(Some(halt), None),
                EntitlementState::EntitledHalt => after.pending == Multiset::<
                    (nat, Event),
                >::empty(),
                EntitlementState::Unentitled => false,
            }
        }),
{
}

/// Claims that warn before they halt leave a check to warn that is due before the
/// one to halt, where they leave both: by a millisecond at least, as long as the
/// boundaries lie further apart than the clocks drift while both are placed, and a
/// millisecond more.
pub proof fn law_warn_is_due_before_halt(
    before: ChecksState,
    after: ChecksState,
    claims: Claims,
    readings: Readings,
    result: Result<Poll<Option<Event>>, BoundaryError>,
)
    requires
        resets_to(before, after, claims, readings, result),
        unix_nanos(claims.warn_at) + readings.drift() + NANOS_PER_MILLI <= unix_nanos(
            claims.halt_at,
        ),
        result == Ok::<_, BoundaryError>(Poll::Ready(Some(update(EntitlementState::Entitled)))),
    ensures
        readings.warn_deadline(claims, before.start) < readings.halt_deadline(claims, before.start),
{
}

/// Checks are reported in the order of their deadlines: of one to warn that is due
/// before the one to halt, the warning comes first, then the halt, and then there
/// are no more.
pub proof fn law_warning_comes_before_halt(
    halt: nat,
    warn: nat,
    start: ChecksState,
    between: ChecksState,
    end: ChecksState,
    first: Event,
    second: Event,
)
    requires
        warn < halt,
        start.pending == checks_at(Some(halt), Some(warn)),
        polled(start, between, Poll::Ready(Some(first))),
        polled(between, end, Poll::Ready(Some(second))),
    ensures
        first == update(EntitlementState::EntitledWarn),
        second == update(EntitlementState::EntitledHalt),
        end.pending == Multiset::<(nat, Event)>::empty(),
{
    assert(start.pending.contains((warn, update(EntitlementState::EntitledWarn))));
    assert(between.pending =~= checks_at(Some(halt), None));
    assert(end.pending =~= Multiset::<(nat, Event)>::empty());
}

/// Every check is reported once: with each the pending ones are one fewer.
pub proof fn law_checks_run_out(before: ChecksState, after: ChecksState, event: Event)
    requires
        polled(before, after, Poll::Ready(Some(event))),
    ensures
        after.pending.len() + 1 == before.pending.len(),
        after.pending.subset_of(before.pending),
{
}

/// A check is reported only when its boundary has been reached: when polling gives
/// the event to halt, or the one to warn, the halt or warn boundary of the latest
/// claims is no later than the point up to which the checks have been polled.
pub proof fn law_no_check_is_early(before: ChecksState, after: ChecksState, event: Event)
    requires
        before.valid(),
        polled(before, after, Poll::Ready(Some(event))),
    ensures
        before.latest matches Some((claims, readings)) && {
            ||| event == update(EntitlementState::EntitledHalt) && readings.halt_at(claims) is Some
                && instant_nanos(readings.halt_at(claims)->0) <= after.polled_up_to()
            ||| event == update(EntitlementState::EntitledWarn) && readings.warn_at(claims) is Some
                && instant_nanos(readings.warn_at(claims)->0) <= after.polled_up_to()
        },
{
}

} // verus!
