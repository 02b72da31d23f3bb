//! Points in time.

use vstd::prelude::*;

verus! {

/// A point on the monotonic clock, in nanoseconds after an origin that the caller fixes once.
#[derive(Debug, Clone, Copy, PartialEq, Eq, Structural)]
pub struct Timestamp {
    pub nanos: u64,
}

impl View for Timestamp {
    type V = int;

    open spec fn view(&self) -> int {
        self.nanos as int
    }
}

} // verus!
