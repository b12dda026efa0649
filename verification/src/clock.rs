//! Instants and spans on the UTC timeline, counted in nanoseconds.
use vstd::prelude::*;

verus! {

/// Nanoseconds in one second.
pub const NANOS_PER_SEC: u64 = 1_000_000_000;

/// Nanoseconds in one millisecond.
pub const NANOS_PER_MILLI: u64 = 1_000_000;

/// A length of time in whole nanoseconds.
#[derive(Clone, Copy, Debug, PartialEq, Eq, Structural)]
pub struct Span {
    pub nanos: u64,
}

/// An instant, as nanoseconds since the Unix epoch (negative before it).
#[derive(Clone, Copy, Debug, PartialEq, Eq, Structural)]
pub struct Timestamp {
    pub nanos: i128,
}

impl Span {
    /// A span of `secs` seconds, or `None` when it does not fit the counter.
    pub fn from_secs(secs: u64) -> (span: Option<Span>)
        ensures
            secs * NANOS_PER_SEC <= u64::MAX ==> span == Some(Span { nanos: (secs * NANOS_PER_SEC) as u64 }),
            secs * NANOS_PER_SEC > u64::MAX ==> span is None,
    {
        match secs.checked_mul(NANOS_PER_SEC) {
            Some(nanos) => Some(Span { nanos }),
            None => None,
        }
    }

    /// A span of `millis` milliseconds, or `None` when it does not fit the counter.
    pub fn from_millis(millis: u64) -> (span: Option<Span>)
        ensures
            millis * NANOS_PER_MILLI <= u64::MAX ==> span == Some(Span { nanos: (millis * NANOS_PER_MILLI) as u64 }),
            millis * NANOS_PER_MILLI > u64::MAX ==> span is None,
    {
        match millis.checked_mul(NANOS_PER_MILLI) {
            Some(nanos) => Some(Span { nanos }),
            None => None,
        }
    }

    /// A span of exactly `nanos` nanoseconds.
    pub fn from_nanos(nanos: u64) -> (span: Span)
        ensures
            span.nanos == nanos,
    {
        Span { nanos }
    }
}

impl Timestamp {
    /// The instant `nanos` nanoseconds after the Unix epoch.
    pub fn from_unix_nanos(nanos: i128) -> (t: Timestamp)
        ensures
            t.nanos == nanos,
    {
        Timestamp { nanos }
    }

    /// Whether `self + span` is representable.
    pub open spec fn can_add(self, span: Span) -> bool {
        self.nanos + span.nanos <= i128::MAX
    }

    /// Whether `self - span` is representable.
    pub open spec fn can_sub(self, span: Span) -> bool {
        self.nanos - span.nanos >= i128::MIN
    }

    /// The instant `span` later.
    pub fn plus(self, span: Span) -> (t: Timestamp)
        requires
            self.can_add(span),
        ensures
            t.nanos == self.nanos + span.nanos,
    {
        Timestamp { nanos: self.nanos + (span.nanos as i128) }
    }

    /// The instant `span` earlier.
    pub fn minus(self, span: Span) -> (t: Timestamp)
        requires
            self.can_sub(span),
        ensures
            t.nanos == self.nanos - span.nanos,
    {
        Timestamp { nanos: self.nanos - (span.nanos as i128) }
    }

    /// The instant `span` later, or `None` past the end of the counter.
    pub fn checked_plus(self, span: Span) -> (t: Option<Timestamp>)
        ensures
            self.can_add(span) ==> t == Some(Timestamp { nanos: (self.nanos + span.nanos) as i128 }),
            !self.can_add(span) ==> t is None,
    {
        match self.nanos.checked_add(span.nanos as i128) {
            Some(nanos) => Some(Timestamp { nanos }),
            None => None,
        }
    }

    /// The instant `span` earlier, or `None` before the start of the counter.
    pub fn checked_minus(self, span: Span) -> (t: Option<Timestamp>)
        ensures
            self.can_sub(span) ==> t == Some(Timestamp { nanos: (self.nanos - span.nanos) as i128 }),
            !self.can_sub(span) ==> t is None,
    {
        match self.nanos.checked_sub(span.nanos as i128) {
            Some(nanos) => Some(Timestamp { nanos }),
            None => None,
        }
    }

    /// Whether at least `span` has passed between `earlier` and `self`.
    /// An `earlier` that lies in the future counts as no time passed.
    pub fn at_least_since(self, earlier: Timestamp, span: Span) -> (reached: bool)
        ensures
            reached == (span.nanos == 0 || self.nanos - earlier.nanos >= span.nanos),
    {
        if span.nanos == 0 {
            true
        } else {
            match self.nanos.checked_sub(earlier.nanos) {
                Some(gap) => gap >= span.nanos as i128,
                // The true difference lies outside i128, so its sign decides.
                None => self.nanos > earlier.nanos,
            }
        }
    }

    /// Whether `self` and `other` are no more than `tolerance` apart.
    pub fn within(self, other: Timestamp, tolerance: Span) -> (close: bool)
        ensures
            close == (self.nanos - other.nanos <= tolerance.nanos && other.nanos - self.nanos
                <= tolerance.nanos),
    {
        let lo: i128 = if self.nanos <= other.nanos { self.nanos } else { other.nanos };
        let hi: i128 = if self.nanos <= other.nanos { other.nanos } else { self.nanos };
        match hi.checked_sub(lo) {
            Some(gap) => gap <= tolerance.nanos as i128,
            None => false,
        }
    }
}

/// Reads the wall clock through `time::OffsetDateTime::now_utc` and
/// `unix_timestamp_nanos`. Nothing is claimed of the instant returned.
#[verifier::external_body]
pub(crate) fn wall_clock_now() -> (now: Timestamp) {
    Timestamp { nanos: time::OffsetDateTime::now_utc().unix_timestamp_nanos() }
}

} // verus!
