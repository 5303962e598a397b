use vstd::prelude::*;

verus! {

/// A span of time in whole milliseconds.
#[derive(Copy, Clone, Debug, PartialEq, Eq, Structural)]
pub struct Duration {
    pub millis: u32,
}

impl Duration {
    pub fn from_millis(millis: u32) -> (r: Duration)
        ensures
            r.millis == millis,
    {
        Duration { millis }
    }

    pub fn to_millis(self) -> (r: u32)
        ensures
            r == self.millis,
    {
        self.millis
    }
}

/// A reading of the monotonic clock, in milliseconds since an arbitrary origin.
#[derive(Copy, Clone, Debug, PartialEq, Eq, Structural)]
pub struct Instant {
    pub millis: u64,
}

impl Instant {
    pub fn from_millis(millis: u64) -> (r: Instant)
        ensures
            r.millis == millis,
    {
        Instant { millis }
    }

    /// Milliseconds elapsed from `earlier` to `self`, or zero when `earlier`
    /// lies in the future.
    pub open spec fn spec_elapsed_since(self, earlier: Instant) -> nat {
        if self.millis >= earlier.millis {
            (self.millis - earlier.millis) as nat
        } else {
            0
        }
    }

    pub fn saturating_duration_since(self, earlier: Instant) -> (r: u64)
        ensures
            r == self.spec_elapsed_since(earlier),
    {
        if self.millis >= earlier.millis {
            self.millis - earlier.millis
        } else {
            0
        }
    }
}

} // verus!
