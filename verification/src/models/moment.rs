use vstd::prelude::*;

verus! {

/// One billion: the nanoseconds in a second.
pub const NANOS_PER_SECOND: u32 = 1_000_000_000;

/// A point in time: whole seconds since the Unix epoch and the nanoseconds
/// past that second.
#[derive(Debug, Clone, Copy, PartialEq, Eq, Structural)]
pub struct Moment {
    pub seconds: i64,
    pub nanos: u32,
}

impl Moment {
    /// The moment as nanoseconds since the epoch.
    pub open spec fn spec_nanos(self) -> int {
        self.seconds as int * 1_000_000_000 + self.nanos as int
    }

    /// The moment `seconds` after the epoch, on the second.
    pub fn from_seconds(seconds: i64) -> (m: Moment)
        ensures
            m.seconds == seconds,
            m.nanos == 0,
    {
        Moment { seconds, nanos: 0 }
    }

    /// Whole seconds from `earlier` to `self`, rounded toward zero; negative
    /// where `self` comes first.
    pub open spec fn spec_seconds_since(self, earlier: Moment) -> int {
        let span = self.spec_nanos() - earlier.spec_nanos();
        if span >= 0 {
            span / 1_000_000_000
        } else {
            -((-span) / 1_000_000_000)
        }
    }

    /// `spec_seconds_since`, held to the range of an `i64`.
    pub open spec fn spec_span(self, earlier: Moment) -> int {
        let span = self.spec_seconds_since(earlier);
        if span < i64::MIN {
            i64::MIN as int
        } else if span > i64::MAX {
            i64::MAX as int
        } else {
            span
        }
    }

    /// Whole seconds from `earlier` to `self`, rounded toward zero and held
    /// to the range of an `i64`.
    pub fn span(&self, earlier: &Moment) -> (r: i64)
        ensures
            r == self.spec_span(*earlier),
    {
        match self.seconds_since(earlier) {
            Some(seconds) => seconds,
            None => if self.seconds >= earlier.seconds {
                i64::MAX
            } else {
                i64::MIN
            },
        }
    }

    /// Whole seconds from `earlier` to `self`, rounded toward zero, or `None`
    /// where that number does not fit in an `i64`.
    pub fn seconds_since(&self, earlier: &Moment) -> (r: Option<i64>)
        ensures
            r matches Some(s) ==> s == self.spec_seconds_since(*earlier),
            r is None <==> !(i64::MIN <= self.spec_seconds_since(*earlier) <= i64::MAX),
    {
        let whole: i128 = self.seconds as i128 - earlier.seconds as i128;
        let span: i128 = whole * 1_000_000_000 + (self.nanos as i128 - earlier.nanos as i128);
        let secs: i128 = span / 1_000_000_000;
        if secs < i64::MIN as i128 || secs > i64::MAX as i128 {
            None
        } else {
            Some(secs as i64)
        }
    }
}

} // verus!
