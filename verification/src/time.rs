//! Points in time, with the range that `chrono` gives them.

use vstd::prelude::*;

verus! {

/// A point in time: seconds since 1970 and the nanoseconds that follow. A leap second has more
/// than a thousand million nanoseconds.
#[derive(Debug, Clone, Copy, PartialEq, Eq, Structural)]
pub struct Moment {
    pub secs: i64,
    pub nanos: u32,
}

/// A point in time on the wire.
#[derive(Debug, Clone, Copy, PartialEq, Eq, Structural)]
pub struct Timestamp {
    pub seconds: i64,
    pub nanos: i32,
}

/// The first second there is: the start of the year -262143.
pub const FIRST_SECOND: i64 = -8334601228800;

/// The last second there is: the end of the year 262142.
pub const LAST_SECOND: i64 = 8210266876799;

/// The seconds and nanoseconds make a point in time.
pub open spec fn is_moment(secs: int, nanos: int) -> bool {
    &&& FIRST_SECOND <= secs <= LAST_SECOND
    &&& 0 <= nanos < 2_000_000_000
    &&& nanos >= 1_000_000_000 ==> secs % 60 == 59
}

/// The start of 1970.
pub open spec fn epoch() -> Moment {
    Moment { secs: 0, nanos: 0 }
}

/// A point in time on the wire: the second that a leap second overflows into is counted.
pub open spec fn timestamp_of(m: Moment) -> Timestamp {
    if m.nanos >= 1_000_000_000 {
        Timestamp { seconds: (m.secs + 1) as i64, nanos: (m.nanos - 1_000_000_000) as i32 }
    } else {
        Timestamp { seconds: m.secs, nanos: m.nanos as i32 }
    }
}

/// The point in time that the wire carries: negative nanoseconds count as none, and what is no
/// point in time is the start of 1970.
pub open spec fn moment_of(ts: Timestamp) -> Moment {
    let nanos = if ts.nanos < 0 {
        0
    } else {
        ts.nanos as u32
    };
    if is_moment(ts.seconds as int, nanos as int) {
        Moment { secs: ts.seconds, nanos }
    } else {
        epoch()
    }
}

/// Calls `chrono::DateTime::from_timestamp` and reads the parts back: it refuses seconds outside
/// its range of years, and nanoseconds past the second unless they are those of a leap second.
#[verifier::external_body]
fn checked_moment(secs: i64, nanos: u32) -> (out: Option<(i64, u32)>)
    ensures
        out == (if is_moment(secs as int, nanos as int) {
            Some((secs, nanos))
        } else {
            None
        }),
{
    chrono::DateTime::from_timestamp(secs, nanos).map(
        |at| (at.timestamp(), at.timestamp_subsec_nanos()),
    )
}

impl Moment {
    /// Whether the seconds and nanoseconds make a point in time.
    pub fn is_valid(&self) -> (out: bool)
        ensures
            out == is_moment(self.secs as int, self.nanos as int),
    {
        checked_moment(self.secs, self.nanos).is_some()
    }
}

/// Writes a point in time for the wire.
pub fn dt_to_proto(m: Moment) -> (out: Timestamp)
    requires
        is_moment(m.secs as int, m.nanos as int),
    ensures
        out == timestamp_of(m),
{
    if m.nanos >= 1_000_000_000 {
        Timestamp { seconds: m.secs + 1, nanos: (m.nanos - 1_000_000_000) as i32 }
    } else {
        Timestamp { seconds: m.secs, nanos: m.nanos as i32 }
    }
}

/// Reads a point in time from the wire.
pub fn proto_to_dt(ts: &Timestamp) -> (out: Moment)
    ensures
        out == moment_of(*ts),
        is_moment(out.secs as int, out.nanos as int),
{
    let nanos: u32 = if ts.nanos < 0 {
        0
    } else {
        ts.nanos as u32
    };
    match checked_moment(ts.seconds, nanos) {
        Some((secs, nanos)) => Moment { secs, nanos },
        None => Moment { secs: 0, nanos: 0 },
    }
}

/// A point in time that is no leap second crosses the wire as it is.
pub proof fn moment_crosses_the_wire(m: Moment)
    requires
        is_moment(m.secs as int, m.nanos as int),
        m.nanos < 1_000_000_000,
    ensures
        moment_of(timestamp_of(m)) == m,
{
}

} // verus!
