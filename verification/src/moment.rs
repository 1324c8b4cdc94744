//! Moments, at which both clocks are read together.

use std::time::Instant;
use std::time::SystemTime;

use vstd::prelude::*;

use crate::earlier::Earlier;
use crate::timer::ClockLog;
use crate::timer::Reading;

verus! {

/// A moment at which both clocks were read, the monotonic one first.
#[derive(Clone, Copy)]
pub struct Moment {
    now: Reading,
    wall: SystemTime,
}

impl Moment {
    /// What the monotonic clock read.
    pub closed spec fn reading(self) -> Reading {
        self.now
    }

    /// What the wall clock read.
    pub closed spec fn time(self) -> SystemTime {
        self.wall
    }

    /// The instant that was read.
    pub open spec fn instant(self) -> Instant {
        self.reading().instant()
    }

    /// What the monotonic clock read, in nanoseconds.
    pub open spec fn nanos(self) -> int {
        self.reading().nanos()
    }

    /// What the wall clock read, in nanoseconds from the Unix epoch.
    pub open spec fn unix_nanos(self) -> int {
        crate::timer::unix_nanos(self.time())
    }

    /// Reads both clocks. The reading of the monotonic one is taken here, as the
    /// log shows, and is no less than an earlier one.
    pub fn read(log: &mut ClockLog, earlier: &Earlier) -> (moment: Self)
        ensures
            final(log).reads() == old(log).reads().push(moment.reading()),
            earlier.reading() matches Some(before) ==> before.nanos() <= moment.nanos(),
    {
        let now = log.read(earlier, None);
        let wall = SystemTime::now();
        Moment { now, wall }
    }

    /// Returns what the monotonic clock read.
    pub fn get_reading(self) -> (reading: Reading)
        ensures
            reading == self.reading(),
    {
        self.now
    }

    /// Returns what the wall clock read.
    pub fn get_time(self) -> (time: SystemTime)
        ensures
            time == self.time(),
    {
        self.wall
    }
}

} // verus!
