//! Stream time: instants in nanoseconds, start offsets in milliseconds.

use vstd::prelude::*;

verus! {

/// Nanoseconds in one millisecond.
pub const NANOS_PER_MILLI: u64 = 1_000_000;

/// The instant, in nanoseconds, that lies `millis` milliseconds into the stream.
pub open spec fn offset_nanos(millis: u64) -> int {
    millis * NANOS_PER_MILLI
}

/// Whether a block stamped `pts` lies before the start offset and is to be
/// trimmed. Without a start offset nothing is trimmed. With one, a block is
/// trimmed when its time stamp is earlier than the offset; a block without a
/// time stamp sorts before every instant.
pub open spec fn precedes_start(pts: Option<u64>, start_millis: Option<u64>) -> bool {
    match start_millis {
        None => false,
        Some(millis) => match pts {
            None => true,
            Some(nanos) => nanos < offset_nanos(millis),
        },
    }
}

/// The position to seek to for a start offset of `millis`, in nanoseconds;
/// `None` where that instant cannot be represented.
pub fn seek_position(millis: u64) -> (position: Option<u64>)
    ensures
        offset_nanos(millis) <= u64::MAX ==> position == Some(offset_nanos(millis) as u64),
        offset_nanos(millis) > u64::MAX ==> position is None,
{
    millis.checked_mul(NANOS_PER_MILLI)
}

/// Decides whether a block stamped `pts` is trimmed by the start offset.
pub fn is_before_start(pts: Option<u64>, start_millis: Option<u64>) -> (trimmed: bool)
    ensures
        trimmed == precedes_start(pts, start_millis),
{
    match start_millis {
        None => false,
        Some(millis) => match pts {
            None => true,
            Some(nanos) => match seek_position(millis) {
                Some(threshold) => nanos < threshold,
                None => true,
            },
        },
    }
}

} // verus!
