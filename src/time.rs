//! Points in time (UTC) and hourly billing windows.

use vstd::prelude::*;

verus! {

/// The length of one billing window, in seconds.
pub const SECONDS_PER_HOUR: i64 = 3600;

/// A point in time: whole seconds since the Unix epoch (UTC) and the nanoseconds past them.
#[derive(Clone, Copy, Debug, PartialEq, Eq, Structural)]
pub struct Timestamp {
    pub secs: i64,
    pub nanos: u32,
}

/// The start of the hour that holds `secs`.
pub open spec fn hour_floor(secs: int) -> int {
    secs - secs % 3600
}

impl Timestamp {
    /// The point `secs` seconds after the epoch.
    pub fn from_secs(secs: i64) -> (r: Timestamp)
        ensures
            r.secs == secs,
            r.nanos == 0,
    {
        Timestamp { secs, nanos: 0 }
    }

    /// The start of the hour that holds this point (minutes, seconds, nanoseconds set to zero).
    pub open spec fn spec_billing_hour(self) -> Timestamp {
        Timestamp { secs: hour_floor(self.secs as int) as i64, nanos: 0 }
    }

    /// The start of the hour that holds this point (minutes, seconds, nanoseconds set to zero).
    pub fn billing_hour(&self) -> (r: Timestamp)
        requires
            self.secs >= i64::MIN + SECONDS_PER_HOUR,
        ensures
            r == self.spec_billing_hour(),
            r.secs % SECONDS_PER_HOUR == 0,
            r.secs <= self.secs < r.secs + SECONDS_PER_HOUR,
    {
        let rem = self.secs % SECONDS_PER_HOUR;
        let rem = if rem < 0 { rem + SECONDS_PER_HOUR } else { rem };
        assert(rem == (self.secs as int) % 3600);
        Timestamp { secs: self.secs - rem, nanos: 0 }
    }

    /// The point one hour later.
    pub fn plus_hour(&self) -> (r: Timestamp)
        requires
            self.secs <= i64::MAX - SECONDS_PER_HOUR,
        ensures
            r.secs == self.secs + SECONDS_PER_HOUR,
            r.nanos == self.nanos,
    {
        Timestamp { secs: self.secs + SECONDS_PER_HOUR, nanos: self.nanos }
    }
}

/// How far the system clock is from the Unix epoch, and on which side.
#[derive(Clone, Copy, Debug, PartialEq, Eq, Structural)]
pub enum ClockReading {
    /// The clock reads `secs` seconds and `nanos` nanoseconds after the epoch.
    After { secs: u64, nanos: u32 },
    /// The clock reads `secs` seconds and `nanos` nanoseconds before the epoch.
    Before { secs: u64, nanos: u32 },
}

/// The time the clock reads, saturating at the ends of the `i64` range of seconds.
pub open spec fn reading_time(r: ClockReading) -> Timestamp {
    match r {
        ClockReading::After { secs, nanos } => if secs <= i64::MAX {
            Timestamp { secs: secs as i64, nanos }
        } else {
            Timestamp { secs: i64::MAX, nanos }
        },
        ClockReading::Before { secs, nanos } => if nanos == 0 {
            if secs <= i64::MAX {
                Timestamp { secs: (-secs) as i64, nanos: 0 }
            } else {
                Timestamp { secs: i64::MIN, nanos: 0 }
            }
        } else if secs < i64::MAX {
            Timestamp { secs: (-secs - 1) as i64, nanos: (1_000_000_000 - nanos) as u32 }
        } else {
            Timestamp { secs: i64::MIN, nanos: 0 }
        },
    }
}

/// Relies on `std::time::SystemTime::elapsed` called on `UNIX_EPOCH`: `Ok` with the time
/// since the epoch, or an error whose `duration` is how far the clock is before it. The
/// sub-second part of a `Duration` is below one second.
#[verifier::external_body]
fn read_clock() -> (r: ClockReading)
    ensures
        r.wf(),
{
    match std::time::UNIX_EPOCH.elapsed() {
        Ok(d) => ClockReading::After { secs: d.as_secs(), nanos: d.subsec_nanos() },
        Err(e) => ClockReading::Before {
            secs: e.duration().as_secs(),
            nanos: e.duration().subsec_nanos(),
        },
    }
}

impl ClockReading {
    /// The sub-second part is below one second.
    pub open spec fn wf(&self) -> bool {
        match *self {
            ClockReading::After { nanos, .. } => nanos < 1_000_000_000,
            ClockReading::Before { nanos, .. } => nanos < 1_000_000_000,
        }
    }

    /// The point in time the clock reads.
    pub fn to_timestamp(&self) -> (r: Timestamp)
        requires
            self.wf(),
        ensures
            r == reading_time(*self),
    {
        match *self {
            ClockReading::After { secs, nanos } => if secs <= i64::MAX as u64 {
                Timestamp { secs: secs as i64, nanos }
            } else {
                Timestamp { secs: i64::MAX, nanos }
            },
            ClockReading::Before { secs, nanos } => if nanos == 0 {
                if secs <= i64::MAX as u64 {
                    Timestamp { secs: -(secs as i64), nanos: 0 }
                } else {
                    Timestamp { secs: i64::MIN, nanos: 0 }
                }
            } else if secs < i64::MAX as u64 {
                Timestamp { secs: -(secs as i64) - 1, nanos: 1_000_000_000 - nanos }
            } else {
                Timestamp { secs: i64::MIN, nanos: 0 }
            },
        }
    }
}

/// The current time, as the system clock reads it.
pub(crate) fn now() -> (r: Timestamp)
    ensures
        r.nanos < 1_000_000_000,
{
    read_clock().to_timestamp()
}

} // verus!
