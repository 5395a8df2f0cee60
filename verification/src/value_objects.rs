use vstd::prelude::*;

use crate::error::DomainError;

verus! {

/// Telegram identifier of a user; always positive.
#[derive(Debug, Clone, Copy, PartialEq, Eq, Structural, PartialOrd, Ord, Hash)]
pub struct TelegramId(i64);

impl TelegramId {
    pub closed spec fn spec_value(self) -> i64 {
        self.0
    }

    #[verifier::type_invariant]
    spec fn positive(self) -> bool {
        self.0 > 0
    }

    /// Accepts exactly the positive values.
    pub fn new(value: i64) -> (r: Result<Self, DomainError>)
        ensures
            value > 0 ==> (r matches Ok(id) && id.spec_value() == value),
            value <= 0 ==> r == Err::<Self, DomainError>(DomainError::InvalidTelegramId(value)),
    {
        if value <= 0 {
            return Err(DomainError::InvalidTelegramId(value));
        }
        Ok(TelegramId(value))
    }

    pub fn value(&self) -> (v: i64)
        ensures
            v == self.spec_value(),
            v > 0,
    {
        proof {
            use_type_invariant(self);
        }
        self.0
    }
}

/// Lowest accepted timezone offset, in minutes (-12:00).
pub const MIN_OFFSET_MINUTES: i32 = -720;

/// Highest accepted timezone offset, in minutes (+14:00).
pub const MAX_OFFSET_MINUTES: i32 = 840;

/// Offset of the user's timezone from UTC, in minutes; used only to show
/// local dates in reports.
#[derive(Debug, Clone, Copy, PartialEq, Eq, Structural, PartialOrd, Ord, Hash)]
pub struct TimeZoneOffset(i32);

impl TimeZoneOffset {
    pub closed spec fn spec_minutes(self) -> i32 {
        self.0
    }

    #[verifier::type_invariant]
    spec fn in_range(self) -> bool {
        MIN_OFFSET_MINUTES <= self.0 <= MAX_OFFSET_MINUTES
    }

    /// Accepts exactly the offsets from -12:00 to +14:00.
    pub fn new(minutes: i32) -> (r: Result<Self, DomainError>)
        ensures
            MIN_OFFSET_MINUTES <= minutes <= MAX_OFFSET_MINUTES ==> (r matches Ok(tz)
                && tz.spec_minutes() == minutes),
            !(MIN_OFFSET_MINUTES <= minutes <= MAX_OFFSET_MINUTES) ==> r == Err::<
                Self,
                DomainError,
            >(DomainError::InvalidTimeZoneOffset(minutes)),
    {
        if minutes < MIN_OFFSET_MINUTES || minutes > MAX_OFFSET_MINUTES {
            return Err(DomainError::InvalidTimeZoneOffset(minutes));
        }
        Ok(TimeZoneOffset(minutes))
    }

    /// An offset is its minutes: two offsets with the same minutes are the
    /// same offset (so `utc()` is `TimeZoneOffset::default()`).
    pub proof fn lemma_minutes_determine(a: Self, b: Self)
        requires
            a.spec_minutes() == b.spec_minutes(),
        ensures
            a == b,
    {
    }

    pub fn utc() -> (tz: Self)
        ensures
            tz.spec_minutes() == 0,
    {
        TimeZoneOffset(0)
    }

    pub fn minutes(&self) -> (m: i32)
        ensures
            m == self.spec_minutes(),
            MIN_OFFSET_MINUTES <= m <= MAX_OFFSET_MINUTES,
    {
        proof {
            use_type_invariant(self);
        }
        self.0
    }
}

impl Default for TimeZoneOffset {
    fn default() -> (tz: Self)
        ensures
            tz.spec_minutes() == 0,
    {
        TimeZoneOffset::utc()
    }
}

/// Earliest instant that the calendar library can represent, in milliseconds
/// since 1970-01-01T00:00:00Z (the start of year -262143).
pub const MIN_TIMESTAMP_MILLIS: i64 = -8_334_601_228_800_000;

/// Latest instant that the calendar library can represent, in milliseconds
/// since 1970-01-01T00:00:00Z (the end of year 262142).
pub const MAX_TIMESTAMP_MILLIS: i64 = 8_210_266_876_799_999;

/// A signed span of time, in milliseconds. Like the calendar library's time
/// delta it never holds `i64::MIN` milliseconds.
#[derive(Debug, Clone, Copy, PartialEq, Eq, Structural, PartialOrd, Ord, Hash)]
pub struct Duration {
    millis: i64,
}

/// Largest magnitude of a span, in milliseconds.
pub const MAX_DURATION_MILLIS: i64 = 9_223_372_036_854_775_807;

/// Largest magnitude, in minutes, that `Duration::minutes` accepts.
pub const MAX_DURATION_MINUTES: i64 = 153_722_867_280_912;

/// Largest magnitude, in hours, that `Duration::hours` accepts.
pub const MAX_DURATION_HOURS: i64 = 2_562_047_788_015;

impl Duration {
    pub closed spec fn spec_millis(self) -> int {
        self.millis as int
    }

    #[verifier::type_invariant]
    spec fn in_range(self) -> bool {
        -MAX_DURATION_MILLIS <= self.millis
    }

    /// A span holds an `i64` count of milliseconds.
    pub proof fn lemma_bounds(self)
        ensures
            i64::MIN <= self.spec_millis() <= i64::MAX,
    {
    }

    pub fn zero() -> (d: Self)
        ensures
            d.spec_millis() == 0,
    {
        Duration { millis: 0 }
    }

    pub fn milliseconds(millis: i64) -> (d: Self)
        requires
            -MAX_DURATION_MILLIS <= millis,
        ensures
            d.spec_millis() == millis,
    {
        Duration { millis }
    }

    pub fn minutes(minutes: i64) -> (d: Self)
        requires
            -MAX_DURATION_MINUTES <= minutes <= MAX_DURATION_MINUTES,
        ensures
            d.spec_millis() == minutes * 60_000,
    {
        proof {
            assert(-9_223_372_036_854_720_000 <= minutes * 60_000 <= 9_223_372_036_854_720_000)
                by (nonlinear_arith)
                requires
                    -MAX_DURATION_MINUTES <= minutes <= MAX_DURATION_MINUTES,
            ;
        }
        Duration { millis: minutes * 60_000 }
    }

    pub fn hours(hours: i64) -> (d: Self)
        requires
            -MAX_DURATION_HOURS <= hours <= MAX_DURATION_HOURS,
        ensures
            d.spec_millis() == hours * 3_600_000,
    {
        proof {
            assert(-9_223_372_036_854_000_000 <= hours * 3_600_000 <= 9_223_372_036_854_000_000)
                by (nonlinear_arith)
                requires
                    -MAX_DURATION_HOURS <= hours <= MAX_DURATION_HOURS,
            ;
        }
        Duration { millis: hours * 3_600_000 }
    }

    pub fn num_milliseconds(&self) -> (m: i64)
        ensures
            m == self.spec_millis(),
    {
        self.millis
    }

    /// Whole minutes, truncated toward zero.
    pub fn num_minutes(&self) -> (m: i64)
        ensures
            m == truncated_minutes(self.spec_millis()),
    {
        proof {
            use_type_invariant(self);
        }
        if self.millis >= 0 {
            self.millis / 60_000
        } else {
            -((-self.millis) / 60_000)
        }
    }

    /// The sum of two spans; the sum must stay within the representable range.
    pub fn plus(&self, other: &Duration) -> (d: Duration)
        requires
            -MAX_DURATION_MILLIS <= self.spec_millis() + other.spec_millis()
                <= MAX_DURATION_MILLIS,
        ensures
            d.spec_millis() == self.spec_millis() + other.spec_millis(),
    {
        Duration { millis: self.millis + other.millis }
    }

    /// The difference of two spans; it must stay within the representable range.
    pub fn minus(&self, other: &Duration) -> (d: Duration)
        requires
            -MAX_DURATION_MILLIS <= self.spec_millis() - other.spec_millis()
                <= MAX_DURATION_MILLIS,
        ensures
            d.spec_millis() == self.spec_millis() - other.spec_millis(),
    {
        Duration { millis: self.millis - other.millis }
    }

    /// `self >= other`.
    pub fn is_at_least(&self, other: &Duration) -> (b: bool)
        ensures
            b == (self.spec_millis() >= other.spec_millis()),
    {
        self.millis >= other.millis
    }

    /// `self < other`.
    pub fn is_less_than(&self, other: &Duration) -> (b: bool)
        ensures
            b == (self.spec_millis() < other.spec_millis()),
    {
        self.millis < other.millis
    }
}

/// Whole minutes in a span of milliseconds, truncated toward zero.
pub open spec fn truncated_minutes(millis: int) -> int {
    if millis >= 0 {
        millis / 60_000
    } else {
        -((-millis) / 60_000)
    }
}

/// An instant in UTC, in milliseconds since 1970-01-01T00:00:00Z, within the
/// range that the calendar library can represent.
#[derive(Debug, Clone, Copy, PartialEq, Eq, Structural, PartialOrd, Ord, Hash)]
pub struct UtcTimestamp {
    millis: i64,
}

impl UtcTimestamp {
    pub closed spec fn spec_millis(self) -> int {
        self.millis as int
    }

    #[verifier::type_invariant]
    spec fn representable(self) -> bool {
        MIN_TIMESTAMP_MILLIS <= self.millis <= MAX_TIMESTAMP_MILLIS
    }

    /// An instant holds an `i64` count of milliseconds.
    pub proof fn lemma_bounds(self)
        ensures
            i64::MIN <= self.spec_millis() <= i64::MAX,
    {
    }

    pub fn new(millis: i64) -> (t: Self)
        requires
            MIN_TIMESTAMP_MILLIS <= millis <= MAX_TIMESTAMP_MILLIS,
        ensures
            t.spec_millis() == millis,
    {
        UtcTimestamp { millis }
    }

    /// Milliseconds since 1970-01-01T00:00:00Z.
    pub fn value(&self) -> (m: i64)
        ensures
            m == self.spec_millis(),
            MIN_TIMESTAMP_MILLIS <= m <= MAX_TIMESTAMP_MILLIS,
    {
        proof {
            use_type_invariant(self);
        }
        self.millis
    }

    /// The span from `earlier` to `self` (negative when `earlier` is later).
    pub fn duration_since(&self, earlier: &UtcTimestamp) -> (d: Duration)
        ensures
            d.spec_millis() == self.spec_millis() - earlier.spec_millis(),
    {
        proof {
            use_type_invariant(self);
            use_type_invariant(earlier);
        }
        Duration::milliseconds(self.millis - earlier.millis)
    }

    /// The instant `d` after `self`; it must stay representable.
    pub fn plus(&self, d: &Duration) -> (t: UtcTimestamp)
        requires
            MIN_TIMESTAMP_MILLIS <= self.spec_millis() + d.spec_millis() <= MAX_TIMESTAMP_MILLIS,
        ensures
            t.spec_millis() == self.spec_millis() + d.spec_millis(),
    {
        proof {
            use_type_invariant(self);
        }
        UtcTimestamp { millis: self.millis + d.num_milliseconds() }
    }

    /// `self < other`.
    pub fn is_before(&self, other: &UtcTimestamp) -> (b: bool)
        ensures
            b == (self.spec_millis() < other.spec_millis()),
    {
        self.millis < other.millis
    }

    /// The later of two instants.
    pub fn latest(&self, other: &UtcTimestamp) -> (t: UtcTimestamp)
        ensures
            t.spec_millis() == if self.spec_millis() >= other.spec_millis() {
                self.spec_millis()
            } else {
                other.spec_millis()
            },
    {
        if self.millis >= other.millis {
            *self
        } else {
            *other
        }
    }
}

} // verus!
