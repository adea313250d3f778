//! Points on a clock that never goes back.
use vstd::prelude::*;

verus! {

pub const NANOS_PER_MILLI: u64 = 1_000_000;

/// A point on a clock that never goes back, in nanoseconds since some start.
#[derive(Clone, Copy, Debug, PartialEq, Eq, Structural)]
pub struct MonotonicTime {
    pub nanos: u64,
}

} // verus!
