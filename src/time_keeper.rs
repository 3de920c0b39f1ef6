//! A fixed-timestep accumulator: wall-clock time is produced frame by frame
//! and consumed in fixed simulation steps. All durations are in nanoseconds.

use vstd::prelude::*;

verus! {

/// Relies on time::precise_time_ns: a reading of a high-resolution
/// performance counter, in nanoseconds since an unspecified epoch. Nothing is
/// known of the value read.
#[verifier::external_body]
fn clock_now_ns() -> (r: u64) {
    time::precise_time_ns()
}

pub open spec fn saturating_add(a: u64, b: u64) -> u64 {
    if a + b > u64::MAX {
        u64::MAX
    } else {
        (a + b) as u64
    }
}

pub open spec fn saturating_sub(a: u64, b: u64) -> u64 {
    if a < b {
        0
    } else {
        (a - b) as u64
    }
}

pub struct TimeKeeper {
    accumulated: u64,
    produced: u64,
    consumed: u64,
    timestamp: u64,
}

impl TimeKeeper {
    /// Time produced and not yet consumed.
    pub closed spec fn spec_accumulated(&self) -> u64 {
        self.accumulated
    }

    /// All time produced so far.
    pub closed spec fn spec_produced(&self) -> u64 {
        self.produced
    }

    /// All time consumed so far.
    pub closed spec fn spec_consumed(&self) -> u64 {
        self.consumed
    }

    /// The clock reading at the end of the last frame.
    pub closed spec fn spec_timestamp(&self) -> u64 {
        self.timestamp
    }

    /// A keeper with nothing produced, whose first frame starts now.
    pub fn new() -> (r: Self)
        ensures
            r.spec_accumulated() == 0,
            r.spec_produced() == 0,
            r.spec_consumed() == 0,
    {
        TimeKeeper { accumulated: 0, produced: 0, consumed: 0, timestamp: clock_now_ns() }
    }

    /// Adds time to be consumed; the counters stop at their largest value.
    pub fn produce(&mut self, time: u64)
        ensures
            final(self).spec_accumulated() == saturating_add(old(self).spec_accumulated(), time),
            final(self).spec_produced() == saturating_add(old(self).spec_produced(), time),
            final(self).spec_consumed() == old(self).spec_consumed(),
            final(self).spec_timestamp() == old(self).spec_timestamp(),
    {
        self.accumulated = self.accumulated.saturating_add(time);
        self.produced = self.produced.saturating_add(time);
    }

    /// Ends a frame: reads the clock and produces the time elapsed since the
    /// previous reading (none if the clock went back), which it returns.
    pub fn produce_frame(&mut self) -> (elapsed: u64)
        ensures
            elapsed == saturating_sub(final(self).spec_timestamp(), old(self).spec_timestamp()),
            final(self).spec_accumulated() == saturating_add(old(self).spec_accumulated(), elapsed),
            final(self).spec_produced() == saturating_add(old(self).spec_produced(), elapsed),
            final(self).spec_consumed() == old(self).spec_consumed(),
    {
        let new_timestamp = clock_now_ns();
        let elapsed = new_timestamp.saturating_sub(self.timestamp);
        self.produce(elapsed);
        self.timestamp = new_timestamp;
        elapsed
    }

    /// Takes one step of `time` from what was produced, if that much is left.
    pub fn consume(&mut self, time: u64) -> (r: bool)
        ensures
            r == (time <= old(self).spec_accumulated()),
            r ==> final(self).spec_accumulated() == old(self).spec_accumulated() - time,
            r ==> final(self).spec_consumed() == saturating_add(old(self).spec_consumed(), time),
            !r ==> final(self).spec_accumulated() == old(self).spec_accumulated()
                && final(self).spec_consumed() == old(self).spec_consumed(),
            final(self).spec_produced() == old(self).spec_produced(),
            final(self).spec_timestamp() == old(self).spec_timestamp(),
    {
        if time <= self.accumulated {
            self.accumulated = self.accumulated - time;
            self.consumed = self.consumed.saturating_add(time);
            true
        } else {
            false
        }
    }

    pub fn accumulated(&self) -> (r: u64)
        ensures
            r == self.spec_accumulated(),
    {
        self.accumulated
    }

    pub fn consumed(&self) -> (r: u64)
        ensures
            r == self.spec_consumed(),
    {
        self.consumed
    }

    pub fn produced(&self) -> (r: u64)
        ensures
            r == self.spec_produced(),
    {
        self.produced
    }
}

} // verus!
