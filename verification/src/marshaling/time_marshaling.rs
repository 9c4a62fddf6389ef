//! Points in time, from a distance to the epoch to the wire form.

use vstd::prelude::*;
use crate::protos::Timestamp;

verus! {

/// The whole seconds of a distance, held to the range of the wire form.
pub open spec fn clamped_seconds(whole: int) -> int {
    if whole > i64::MAX {
        i64::MAX as int
    } else {
        whole
    }
}

/// The distance to the epoch in nanoseconds.
pub open spec fn distance_nanos(seconds: u64, nanos: u32) -> int {
    seconds * 1_000_000_000 + nanos
}

/// The wire form of the instant that lies the given distance after the
/// epoch, or before it. The nanoseconds of the wire form always count
/// forward from its seconds, so an instant before the epoch that is no whole
/// number of seconds away has the next lower second and the complement of
/// the fraction.
pub open spec fn timestamp_of(seconds: u64, nanos: u32, before_epoch: bool) -> Timestamp {
    let whole = clamped_seconds(distance_nanos(seconds, nanos) / 1_000_000_000);
    let fraction = distance_nanos(seconds, nanos) % 1_000_000_000;
    if !before_epoch {
        Timestamp { seconds: whole as i64, nanos: fraction as i32 }
    } else if fraction == 0 {
        Timestamp { seconds: (-whole) as i64, nanos: 0 }
    } else {
        Timestamp { seconds: (-whole - 1) as i64, nanos: (1_000_000_000 - fraction) as i32 }
    }
}

/// Converts a distance to the epoch into the wire form of the instant.
pub fn to_proto_time(seconds: u64, nanos: u32, before_epoch: bool) -> (r: Timestamp)
    ensures
        r == timestamp_of(seconds, nanos, before_epoch),
{
    let total: u128 = seconds as u128 * 1_000_000_000 + nanos as u128;
    let quotient: u128 = total / 1_000_000_000;
    let fraction: u128 = total % 1_000_000_000;
    let whole: i64 = if quotient > i64::MAX as u128 {
        i64::MAX
    } else {
        quotient as i64
    };
    if !before_epoch {
        Timestamp { seconds: whole, nanos: fraction as i32 }
    } else if fraction == 0 {
        Timestamp { seconds: -whole, nanos: 0 }
    } else {
        Timestamp { seconds: -whole - 1, nanos: (1_000_000_000 - fraction) as i32 }
    }
}

/// Where the distance fits the wire form, the wire form denotes the instant
/// exactly: its seconds and nanoseconds add up to the signed distance, and
/// its nanoseconds are a proper fraction of a second.
pub proof fn lemma_timestamp_denotes_instant(seconds: u64, nanos: u32, before_epoch: bool)
    requires
        distance_nanos(seconds, nanos) / 1_000_000_000 <= i64::MAX,
    ensures
        0 <= timestamp_of(seconds, nanos, before_epoch).nanos < 1_000_000_000,
        timestamp_of(seconds, nanos, before_epoch).seconds * 1_000_000_000 + timestamp_of(
            seconds,
            nanos,
            before_epoch,
        ).nanos == if before_epoch {
            -distance_nanos(seconds, nanos)
        } else {
            distance_nanos(seconds, nanos)
        },
{
}

} // verus!
