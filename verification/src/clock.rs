//! Wall-clock times placed on the monotonic clock.
//!
//! Boundaries of an entitlement are wall-clock times, while everything that
//! waits is scheduled by an `Instant`. The two clocks share no origin, so a
//! wall-clock time is placed on the monotonic clock by its distance from the
//! present, as both clocks read at that moment.

use std::time::Instant;
use std::time::SystemTime;

use vstd::prelude::*;

use crate::timer::instant_nanos;
use crate::timer::instant_plus;
use crate::timer::read_clocks;
use crate::timer::unix_nanos;
use crate::timer::Moment;
use crate::timer::Reading;

verus! {

/// The point on the monotonic clock that stands for the wall-clock time `time`
/// when the wall clock reads `wall` and the monotonic clock reads `now`: as far
/// ahead of `now` as `time` is ahead of `wall`, and `now` itself when `time` has
/// passed already.
pub open spec fn positive_nanos(time: int, wall: int, now: int) -> int {
    if time >= wall {
        now + (time - wall)
    } else {
        now
    }
}

/// The instant at `positive_nanos`, or `None` when an `Instant` cannot represent
/// it.
pub open spec fn positive_instant(time: SystemTime, wall: SystemTime, now: Instant) -> Option<
    Instant,
> {
    if unix_nanos(time) >= unix_nanos(wall) {
        instant_plus(now, (unix_nanos(time) - unix_nanos(wall)) as nat)
    } else {
        Some(now)
    }
}

/// Whether `instant` is what `time` becomes when the clocks read `wall` and
/// `now`.
pub open spec fn is_positive_instant(
    instant: Option<Instant>,
    time: SystemTime,
    wall: SystemTime,
    now: Instant,
) -> bool {
    &&& instant == positive_instant(time, wall, now)
    &&& instant matches Some(at) ==> instant_nanos(at) == positive_nanos(
        unix_nanos(time),
        unix_nanos(wall),
        instant_nanos(now),
    )
    &&& unix_nanos(time) <= unix_nanos(wall) ==> instant is Some
}

/// Places a wall-clock time on the monotonic clock, given one reading of each.
///
/// Returns `None` exactly when the time is so far ahead that an `Instant` cannot
/// represent it.
pub fn positive_instant_at(time: SystemTime, wall: SystemTime, now: Instant) -> (instant: Option<
    Instant,
>)
    ensures
        is_positive_instant(instant, time, wall, now),
        unix_nanos(time) >= unix_nanos(wall) ==> instant == instant_plus(
            now,
            (unix_nanos(time) - unix_nanos(wall)) as nat,
        ),
        unix_nanos(time) < unix_nanos(wall) ==> instant == Some(now),
{
    match time.duration_since(wall) {
        // The time lies ahead.
        Ok(ahead) => now.checked_add(ahead),
        // The time has passed: that it did is all that matters, not when.
        Err(_) => Some(now),
    }
}

/// Places a wall-clock time on the monotonic clock as of now, and returns with it
/// the moment that it was placed by, which is no earlier than `earlier`.
pub fn positive_instant_now(time: SystemTime, earlier: Option<Reading>) -> (placed: (
    Option<Instant>,
    Moment,
))
    ensures
        is_positive_instant(placed.0, time, placed.1.time(), placed.1.instant()),
        earlier matches Some(before) ==> before.nanos() <= placed.1.nanos(),
{
    let moment = read_clocks(earlier);
    let instant = positive_instant_at(time, moment.get_time(), moment.get_reading().get());
    (instant, moment)
}

/// Generates an approximate `Instant` from a `SystemTime`: the first component of
/// what `positive_instant_now` returns. The moment that it was placed by, which
/// comes with it there, is left open here.
///
/// The instant is only approximate: there is no real conversion between the two
/// clocks. A time that has passed becomes the present, since subtracting from
/// instants is not supported on all platforms, and what matters of such a time is
/// only that it has passed.
///
/// Returns `None` exactly when the time is so far ahead that an `Instant` cannot
/// represent it.
pub fn to_positive_instant(system_time: SystemTime) -> (instant: Option<Instant>)
    ensures
        exists|moment: Moment| #[trigger]
            is_positive_instant(instant, system_time, moment.time(), moment.instant()),
{
    let placed = positive_instant_now(system_time, None);
    assert(is_positive_instant(placed.0, system_time, placed.1.time(), placed.1.instant()));
    placed.0
}

/// A time never lands before the present, and a time that has passed lands on
/// the present exactly.
pub proof fn law_never_before_now(time: int, wall: int, now: int)
    ensures
        positive_nanos(time, wall, now) >= now,
        positive_nanos(time, wall, now) == now <==> time <= wall,
{
}

/// Of two times, the later one never lands earlier.
pub proof fn law_order_is_kept(earlier: int, later: int, wall: int, now: int)
    requires
        earlier <= later,
    ensures
        positive_nanos(earlier, wall, now) <= positive_nanos(later, wall, now),
{
}

/// Times that have not passed lie as far apart on the monotonic clock as on the
/// wall clock.
pub proof fn law_distance_is_kept(one: int, other: int, wall: int, now: int)
    requires
        one >= wall,
        other >= wall,
    ensures
        positive_nanos(other, wall, now) - positive_nanos(one, wall, now) == other - one,
{
}

/// A time that lies ahead lands on the same point whenever it is placed, as long
/// as both clocks have advanced alike in between.
pub proof fn law_placement_is_stable(time: int, wall: int, now: int, passed: int)
    requires
        0 <= passed,
        wall + passed <= time,
    ensures
        positive_nanos(time, wall + passed, now + passed) == positive_nanos(time, wall, now),
{
}

} // verus!
