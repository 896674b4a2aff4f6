//! Capture times: the clock reading of a revolution, and the forms in which
//! frames and log records carry it.

use vstd::prelude::*;

verus! {

/// A clock reading as the time elapsed since the Unix epoch: whole seconds
/// and the nanoseconds of the second under way.
#[derive(Clone, Copy, Debug, PartialEq, Eq, Structural)]
pub struct EpochTime {
    pub secs: u64,
    pub subsec_nanos: u32,
}

/// The timestamp that a frame carries on the wire.
#[derive(Clone, Copy, Debug, PartialEq, Eq, Structural)]
pub struct Timestamp {
    pub seconds: i64,
    pub nanos: i32,
}

pub const NANOS_PER_SEC: u64 = 1_000_000_000;

/// The signed 64-bit reading of `secs`: itself while it fits, and its
/// two's complement wrap beyond.
pub open spec fn signed_seconds(secs: u64) -> int {
    if secs <= 0x7fff_ffff_ffff_ffff {
        secs as int
    } else {
        secs - 0x1_0000_0000_0000_0000
    }
}

/// The signed 32-bit reading of `nanos`: itself while it fits, and its
/// two's complement wrap beyond.
pub open spec fn signed_nanos(nanos: u32) -> int {
    if nanos <= 0x7fff_ffff {
        nanos as int
    } else {
        nanos - 0x1_0000_0000
    }
}

/// The wire timestamp of a clock reading.
pub open spec fn proto_time(time: EpochTime) -> Timestamp {
    Timestamp {
        seconds: signed_seconds(time.secs) as i64,
        nanos: signed_nanos(time.subsec_nanos) as i32,
    }
}

/// The nanoseconds from the epoch to `time`.
pub open spec fn epoch_nanos(time: EpochTime) -> int {
    time.secs * NANOS_PER_SEC + time.subsec_nanos
}

impl EpochTime {
    /// The nanoseconds since the epoch, the form in which sinks stamp their
    /// records; `None` when they exceed 64 bits.
    pub fn nanos(&self) -> (stamp: Option<u64>)
        ensures
            epoch_nanos(*self) <= u64::MAX ==> stamp == Some(epoch_nanos(*self) as u64),
            epoch_nanos(*self) > u64::MAX ==> stamp is None,
    {
        assert(self.secs * 1_000_000_000 <= 0xffff_ffff_ffff_ffff * 1_000_000_000) by (nonlinear_arith)
            requires
                self.secs <= 0xffff_ffff_ffff_ffff,
        ;
        let whole: u128 = (self.secs as u128) * (NANOS_PER_SEC as u128)
            + (self.subsec_nanos as u128);
        if whole <= u64::MAX as u128 {
            Some(whole as u64)
        } else {
            None
        }
    }
}

/// Converts a clock reading into the timestamp that frames carry.
///
/// Seconds and nanoseconds are kept as they are while they fit the signed
/// fields of the timestamp, as those of every reading of a clock do.
pub fn system_time_to_proto_time(time: &EpochTime) -> (stamp: Timestamp)
    ensures
        stamp == proto_time(*time),
        stamp.seconds == signed_seconds(time.secs),
        stamp.nanos == signed_nanos(time.subsec_nanos),
{
    let seconds: i64 = if time.secs <= 0x7fff_ffff_ffff_ffff {
        time.secs as i64
    } else {
        ((time.secs - 0x8000_0000_0000_0000) as i64) + i64::MIN
    };
    let nanos: i32 = if time.subsec_nanos <= 0x7fff_ffff {
        time.subsec_nanos as i32
    } else {
        ((time.subsec_nanos - 0x8000_0000) as i32) + i32::MIN
    };
    Timestamp { seconds, nanos }
}

} // verus!
