//! The clocks of `std` and the delay queue of `tokio_util`, and what the rest of
//! the library relies on of them.
//!
//! Points on a clock are numbers of nanoseconds. A delay queue works in whole
//! milliseconds, which it counts from the instant at which it was made.

use std::task::Context;
use std::time::Duration;
use std::time::Instant;
use std::time::SystemTime;
use std::time::SystemTimeError;

use tokio_util::time::delay_queue::Key;
use tokio_util::time::DelayQueue;
use vstd::multiset::Multiset;
use vstd::prelude::*;

use crate::earlier::Earlier;
use crate::entitlement::Event;
pub use crate::moment::Moment;

verus! {

/// `std::time::Instant`, a point on the monotonic clock.
#[verifier::external_type_specification]
#[verifier::external_body]
pub struct ExInstant(std::time::Instant);

/// `std::time::SystemTime`, a point on the wall clock.
#[verifier::external_type_specification]
#[verifier::external_body]
pub struct ExSystemTime(std::time::SystemTime);

/// `std::time::SystemTimeError`, what `SystemTime::duration_since` fails with.
#[verifier::external_type_specification]
#[verifier::external_body]
pub struct ExSystemTimeError(std::time::SystemTimeError);

/// The length of a `Duration` in nanoseconds, as `Duration::as_nanos` gives it.
pub uninterp spec fn duration_nanos(duration: Duration) -> nat;

/// The point that an `Instant` stands for on the monotonic clock, in
/// nanoseconds from that clock's own origin.
pub uninterp spec fn instant_nanos(instant: Instant) -> int;

/// The point that a `SystemTime` stands for on the wall clock, in nanoseconds
/// from the Unix epoch.
pub uninterp spec fn unix_nanos(time: SystemTime) -> int;

/// What `Instant::checked_add` returns for an instant and a duration of that
/// many nanoseconds.
pub uninterp spec fn instant_plus(instant: Instant, nanos: nat) -> Option<Instant>;

/// `Duration::as_nanos`: the whole length of the duration in nanoseconds.
pub assume_specification[ std::time::Duration::as_nanos ](duration: &Duration) -> (nanos: u128)
    ensures
        nanos == duration_nanos(*duration),
;

/// `SystemTime::now`: a reading of the wall clock, of which nothing is known.
pub assume_specification[ std::time::SystemTime::now ]() -> (time: SystemTime)
;

/// `SystemTime::duration_since`: the time from `earlier` to `time`, and an
/// error exactly when `earlier` is the later of the two.
pub assume_specification[ std::time::SystemTime::duration_since ](
    time: &SystemTime,
    earlier: SystemTime,
) -> (elapsed: Result<Duration, SystemTimeError>)
    ensures
        match elapsed {
            Ok(duration) => duration_nanos(duration) == unix_nanos(*time) - unix_nanos(earlier),
            Err(_) => unix_nanos(*time) < unix_nanos(earlier),
        },
;

/// `Instant::checked_add`: the instant that lies the duration after `instant`,
/// or `None` when an `Instant` cannot represent it. No duration at all leads
/// back to the point of `instant`, which is represented already.
pub assume_specification[ std::time::Instant::checked_add ](
    instant: &Instant,
    duration: Duration,
) -> (sum: Option<Instant>)
    ensures
        sum == instant_plus(*instant, duration_nanos(duration)),
        sum matches Some(later) ==> instant_nanos(later) == instant_nanos(*instant)
            + duration_nanos(duration),
        duration_nanos(duration) == 0 ==> sum is Some,
;

/// `Instant::saturating_duration_since`: the time from `earlier` to `instant`,
/// and zero when `earlier` is the later of the two.
pub assume_specification[ std::time::Instant::saturating_duration_since ](
    instant: &Instant,
    earlier: Instant,
) -> (elapsed: Duration)
    ensures
        duration_nanos(elapsed) == if instant_nanos(*instant) >= instant_nanos(earlier) {
            instant_nanos(*instant) - instant_nanos(earlier)
        } else {
            0
        },
;

/// The `>` of `Instant`: whether `instant` lies after `other` on the monotonic
/// clock.
#[verifier::external_body]
pub(crate) fn is_after(instant: &Instant, other: &Instant) -> (after: bool)
    ensures
        after == (instant_nanos(*instant) > instant_nanos(*other)),
{
    instant > other
}

/// An instant at which the monotonic clock was read.
#[derive(Clone, Copy)]
pub struct Reading {
    at: Instant,
}

impl Reading {
    /// The instant that was read.
    pub closed spec fn instant(self) -> Instant {
        self.at
    }

    /// The instant that was read, on the monotonic clock.
    pub open spec fn nanos(self) -> int {
        instant_nanos(self.instant())
    }

    /// Returns the instant that was read.
    pub fn get(self) -> (instant: Instant)
        ensures
            instant == self.instant(),
    {
        self.at
    }
}

/// The readings of the monotonic clock that were taken through this log, in the
/// order in which they were taken.
pub struct ClockLog {
    reads: Ghost<Seq<Reading>>,
}

impl ClockLog {
    /// The readings that were taken.
    pub closed spec fn reads(self) -> Seq<Reading> {
        self.reads@
    }

    /// Makes a log without readings.
    pub fn new() -> (log: Self)
        ensures
            log.reads() == Seq::<Reading>::empty(),
    {
        ClockLog { reads: Ghost(Seq::empty()) }
    }

    /// Reads the monotonic clock. The reading is taken here and added to the log. It
    /// is no less than an earlier one, nor than the start of a queue.
    pub fn read(&mut self, earlier: &Earlier, queue: Option<&DelayQueue<Event>>) -> (reading:
        Reading)
        ensures
            final(self).reads() == old(self).reads().push(reading),
            earlier.reading() matches Some(before) ==> before.nanos() <= reading.nanos(),
            queue matches Some(made) ==> queue_start(*made) <= reading.nanos(),
    {
        let reading = read_clock(earlier, queue);
        self.reads = Ghost(self.reads@.push(reading));
        reading
    }
}

/// Reads both clocks, the monotonic one no earlier than `earlier`.
pub fn read_clocks(earlier: Option<Reading>) -> (moment: Moment)
    ensures
        earlier matches Some(before) ==> before.nanos() <= moment.nanos(),
{
    let mut log = ClockLog::new();
    Moment::read(&mut log, &Earlier::new(earlier))
}

/// The answers that polling queues through this log gave, in order.
pub struct PollLog {
    answers: Ghost<Seq<Poll<Option<Event>>>>,
}

impl PollLog {
    /// The answers that were given.
    pub closed spec fn answers(self) -> Seq<Poll<Option<Event>>> {
        self.answers@
    }

    /// Makes a log without answers.
    pub fn new() -> (log: Self)
        ensures
            log.answers() == Seq::<Poll<Option<Event>>>::empty(),
    {
        PollLog { answers: Ghost(Seq::empty()) }
    }

    /// Polls a queue and adds its answer to the log.
    pub(crate) fn poll(&mut self, queue: &mut DelayQueue<Event>, cx: &mut Context<'_>) -> (expired:
        Poll<Option<Event>>)
        ensures
            final(self).answers() == old(self).answers().push(expired),
            polls_to(
                queue_checks(*old(queue)),
                queue_checks(*final(queue)),
                queue_reached(*final(queue)),
                expired,
            ),
            queue_start(*final(queue)) == queue_start(*old(queue)),
            queue_in_step(*old(queue)) ==> queue_in_step(*final(queue)),
            queue_in_step(*old(queue)) && queue_checks(*old(queue)) == Multiset::<
                (nat, Event),
            >::empty() ==> expired == Poll::<Option<Event>>::Ready(None),
    {
        let expired = poll_expired(queue, cx);
        self.answers = Ghost(self.answers@.push(expired));
        expired
    }
}

/// `tokio_util::time::DelayQueue`, which hands each item out once its deadline
/// has been reached.
#[verifier::external_type_specification]
#[verifier::external_body]
#[verifier::reject_recursive_types(T)]
pub struct ExDelayQueue<T>(tokio_util::time::DelayQueue<T>);

/// `tokio_util::time::delay_queue::Key`, which stands for an item of a queue.
#[verifier::external_type_specification]
#[verifier::external_body]
pub struct ExKey(tokio_util::time::delay_queue::Key);

/// `std::task::Context`, which carries the waker of the task that polls.
#[verifier::external_type_specification]
#[verifier::external_body]
pub struct ExContext<'a>(std::task::Context<'a>);

/// Whether a value is there yet.
#[derive(Debug, PartialEq, Eq)]
pub enum Poll<T> {
    /// The value is there.
    Ready(T),
    /// It is not, and the task that polled will be woken when to poll again.
    Pending,
}

/// How far ahead of its start a delay queue that was just made or cleared takes a
/// deadline, in milliseconds: a little over two years, the `MAX_DURATION` of its
/// timer wheel.
pub const MAX_DELAY_MILLIS: u64 = 68_719_476_735;

/// How many items a delay queue can hold, its `MAX_ENTRIES`.
pub const MAX_ITEMS: usize = 1_073_741_823;

/// The number of nanoseconds in a millisecond.
pub const NANOS_PER_MILLI: u128 = 1_000_000;

/// What a queue holds: each event with its deadline, in milliseconds from the
/// queue's start.
pub uninterp spec fn queue_checks(queue: DelayQueue<Event>) -> Multiset<(nat, Event)>;

/// When a queue was made, on the monotonic clock in nanoseconds.
pub uninterp spec fn queue_start(queue: DelayQueue<Event>) -> int;

/// How far a queue has advanced, in milliseconds from its start.
pub uninterp spec fn queue_elapsed(queue: DelayQueue<Event>) -> nat;

/// Up to where a queue has been polled, in milliseconds from its start: the
/// deadline for which its timer went off last. A timer goes off when its deadline
/// has come, or when the runtime that it belongs to is shut down.
pub uninterp spec fn queue_reached(queue: DelayQueue<Event>) -> nat;

/// The deadline of the item that `key` stands for, in milliseconds from the
/// queue's start, as `DelayQueue::deadline` gives it; `None` when it stands for
/// none.
pub uninterp spec fn queue_deadline(queue: DelayQueue<Event>, key: Key) -> Option<nat>;

/// Whether a queue has every item in its timer wheel, and its timer set only while
/// the wheel holds an item. An item whose deadline the queue has reached already
/// when it is put in is kept aside, and can leave the timer set behind it.
pub uninterp spec fn queue_in_step(queue: DelayQueue<Event>) -> bool;

/// The milliseconds from `start` to `when`, both in nanoseconds, rounded up; zero
/// when `when` comes first.
pub open spec fn millis_until(start: int, when: int) -> nat {
    if when < start {
        0
    } else {
        ((when - start + (NANOS_PER_MILLI - 1)) / NANOS_PER_MILLI as int) as nat
    }
}

/// Whether `event` is an item with the earliest deadline in `before`, that deadline
/// is no later than `reached`, and `after` is what remains without the item.
pub open spec fn takes_earliest(
    before: Multiset<(nat, Event)>,
    after: Multiset<(nat, Event)>,
    reached: nat,
    event: Event,
) -> bool {
    exists|deadline: nat|
        {
            &&& #[trigger] before.contains((deadline, event))
            &&& forall|other: (nat, Event)| #[trigger]
                before.contains(other) ==> deadline <= other.0
            &&& deadline <= reached
            &&& after == before.remove((deadline, event))
        }
}

/// What polling a queue that holds `before` up to `reached` may give, and what it
/// then holds: an item with the earliest deadline, which leaves; the end, of an
/// empty queue; or nothing yet.
pub open spec fn polls_to(
    before: Multiset<(nat, Event)>,
    after: Multiset<(nat, Event)>,
    reached: nat,
    expired: Poll<Option<Event>>,
) -> bool {
    match expired {
        Poll::Ready(Some(event)) => takes_earliest(before, after, reached, event),
        Poll::Ready(None) => before == Multiset::<(nat, Event)>::empty() && after == before,
        Poll::Pending => after == before,
    }
}

/// `Instant::now`: a reading of the monotonic clock. The clock never runs
/// backwards, so the reading is no less than an earlier one, nor than the one
/// that a queue took when it was made. How it relates to the point up to which a
/// queue has been polled is left open, since a runtime that is shut down sets its
/// timers off early.
#[verifier::external_body]
pub(crate) fn read_clock(earlier: &Earlier, queue: Option<&DelayQueue<Event>>) -> (reading: Reading)
    ensures
        earlier.reading() matches Some(before) ==> before.nanos() <= reading.nanos(),
        queue matches Some(made) ==> queue_start(*made) <= reading.nanos(),
{
    Reading { at: Instant::now() }
}

/// `DelayQueue::new`: an empty queue, which starts at a reading of the monotonic
/// clock, taken no earlier than `earlier` was. (Tokio reads the same clock as
/// `Instant::now` does, unless its `test-util` feature puts a paused one in its
/// place.)
#[verifier::external_body]
pub(crate) fn new_queue(earlier: Reading) -> (queue: DelayQueue<Event>)
    ensures
        queue_checks(queue) == Multiset::<(nat, Event)>::empty(),
        earlier.nanos() <= queue_start(queue),
        queue_elapsed(queue) == 0,
        queue_reached(queue) == 0,
        queue_in_step(queue),
{
    DelayQueue::new()
}

/// `DelayQueue::clear`: drops every item and takes the wheel back to the queue's
/// start, which stays what it was, as does the point up to which the queue has been
/// polled.
#[verifier::external_body]
pub(crate) fn clear_queue(queue: &mut DelayQueue<Event>)
    ensures
        queue_checks(*final(queue)) == Multiset::<(nat, Event)>::empty(),
        queue_start(*final(queue)) == queue_start(*old(queue)),
        queue_elapsed(*final(queue)) == 0,
        queue_reached(*final(queue)) == queue_reached(*old(queue)),
        queue_in_step(*final(queue)),
{
    queue.clear();
}

/// `DelayQueue::insert_at`: adds an item with its deadline, rounded up to a whole
/// millisecond and no earlier than the queue has advanced, and returns the key that
/// stands for it. No deadline too far ahead of the start is taken, nor an item
/// beyond the limit.
///
/// The queue sets a Tokio timer, so the call has to be made inside a Tokio
/// runtime that has timers enabled, and the queue must not outlive that runtime.
#[verifier::external_body]
pub(crate) fn insert_at(queue: &mut DelayQueue<Event>, event: Event, when: Instant) -> (key: Key)
    requires
        queue_checks(*old(queue)).len() < MAX_ITEMS,
        millis_until(queue_start(*old(queue)), instant_nanos(when)) <= MAX_DELAY_MILLIS,
    ensures
        ({
            let asked = millis_until(queue_start(*old(queue)), instant_nanos(when));
            let elapsed = queue_elapsed(*old(queue));
            let deadline = if asked > elapsed {
                asked
            } else {
                elapsed
            };
            &&& queue_checks(*final(queue)) == queue_checks(*old(queue)).insert((deadline, event))
            &&& queue_deadline(*final(queue), key) == Some(deadline)
            &&& queue_in_step(*old(queue)) && asked > elapsed ==> queue_in_step(*final(queue))
        }),
        queue_start(*final(queue)) == queue_start(*old(queue)),
        queue_elapsed(*final(queue)) == queue_elapsed(*old(queue)),
        queue_reached(*final(queue)) == queue_reached(*old(queue)),
{
    queue.insert_at(event, when.into())
}

/// `DelayQueue::deadline`: the instant at which the item that `key` stands for
/// expires. There has to be such an item.
#[verifier::external_body]
pub(crate) fn deadline(queue: &DelayQueue<Event>, key: &Key) -> (when: Instant)
    requires
        queue_deadline(*queue, *key) is Some,
    ensures
        instant_nanos(when) == queue_start(*queue) + queue_deadline(*queue, *key)->0
            * NANOS_PER_MILLI,
{
    queue.deadline(key).into_std()
}

/// `DelayQueue::poll_expired`: takes the item that expires first, if the queue has
/// reached its deadline. Of items with one deadline any may come first. An empty
/// queue whose timer is in step has reached its end. When a deadline is reached is
/// up to the clock, so which of these answers comes for a queue that holds items is
/// left open.
///
/// The queue sets a Tokio timer, so the call has to be made inside a Tokio
/// runtime that has timers enabled, and the queue must not outlive that runtime:
/// when it is shut down the timer goes off at once, or, if it was never polled
/// there, the call panics.
#[verifier::external_body]
pub(crate) fn poll_expired(queue: &mut DelayQueue<Event>, cx: &mut Context<'_>) -> (expired: Poll<
    Option<Event>,
>)
    ensures
        polls_to(
            queue_checks(*old(queue)),
            queue_checks(*final(queue)),
            queue_reached(*final(queue)),
            expired,
        ),
        queue_start(*final(queue)) == queue_start(*old(queue)),
        queue_in_step(*old(queue)) ==> queue_in_step(*final(queue)),
        queue_in_step(*old(queue)) && queue_checks(*old(queue)) == Multiset::<
            (nat, Event),
        >::empty() ==> expired == Poll::<Option<Event>>::Ready(None),
{
    match queue.poll_expired(cx) {
        std::task::Poll::Ready(Some(expired)) => Poll::Ready(Some(expired.into_inner())),
        std::task::Poll::Ready(None) => Poll::Ready(None),
        std::task::Poll::Pending => Poll::Pending,
    }
}

} // verus!
