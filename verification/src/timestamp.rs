//! Instants on the UTC time line, at nanosecond resolution.

use vstd::prelude::*;

verus! {

/// Nanoseconds in one second.
pub const NANOS_PER_SEC: u32 = 1_000_000_000;

/// Unix seconds of `0000-01-01T00:00:00Z`, the first instant a timestamp may hold.
pub const MIN_SECS: i64 = -62_167_219_200;

/// Unix seconds of `9999-12-31T23:59:59Z`, the last whole second a timestamp may hold.
pub const MAX_SECS: i64 = 253_402_300_799;

/// An instant: whole seconds since `1970-01-01T00:00:00Z` and the nanoseconds
/// past that second.
#[derive(Clone, Copy, Debug, PartialEq, Eq, Structural)]
pub struct Timestamp {
    pub secs: i64,
    pub nanos: u32,
}

/// A signed span of time, held as whole seconds rounded down and the
/// nanoseconds above them: the span is `secs` seconds plus `nanos` nanoseconds.
#[derive(Clone, Copy, Debug, PartialEq, Eq, Structural)]
pub struct TimeDelta {
    pub secs: i64,
    pub nanos: u32,
}

/// The whole seconds in a span of `nanos` nanoseconds, rounded toward zero.
pub open spec fn whole_seconds(nanos: int) -> int {
    if nanos >= 0 {
        nanos / (NANOS_PER_SEC as int)
    } else {
        -((-nanos) / (NANOS_PER_SEC as int))
    }
}

impl TimeDelta {
    /// The nanoseconds are below one second.
    pub open spec fn wf(self) -> bool {
        self.nanos < NANOS_PER_SEC
    }

    /// The span in nanoseconds.
    pub open spec fn total_nanos(self) -> int {
        self.secs * (NANOS_PER_SEC as int) + self.nanos
    }

    /// The whole seconds in the span, rounded toward zero.
    pub fn num_seconds(self) -> (r: i64)
        requires
            self.wf(),
        ensures
            r == whole_seconds(self.total_nanos()),
    {
        if self.secs < 0 && self.nanos > 0 {
            self.secs + 1
        } else {
            self.secs
        }
    }
}

impl Timestamp {
    /// The instant lies in years 0000 to 9999 and its nanoseconds are below one second.
    pub open spec fn wf(self) -> bool {
        &&& MIN_SECS <= self.secs <= MAX_SECS
        &&& self.nanos < NANOS_PER_SEC
    }

    /// Nanoseconds since the epoch.
    pub open spec fn total_nanos(self) -> int {
        self.secs * (NANOS_PER_SEC as int) + self.nanos
    }

    /// Whole seconds from `earlier` to `self`, rounded toward zero; negative when
    /// `self` comes first.
    pub open spec fn seconds_since(self, earlier: Timestamp) -> int {
        whole_seconds(self.total_nanos() - earlier.total_nanos())
    }

    /// The instant `seconds` whole seconds after `self`.
    pub open spec fn shifted(self, seconds: int) -> Timestamp {
        Timestamp { secs: (self.secs + seconds) as i64, nanos: self.nanos }
    }

    /// Builds a timestamp from Unix seconds and nanoseconds. Nanoseconds of one
    /// second or more are carried into the seconds, so that a leap second written
    /// as `:60` lands on the first second of the next minute. `None` when the
    /// instant falls outside years 0000 to 9999.
    pub fn new(secs: i64, nanos: u32) -> (r: Option<Timestamp>)
        ensures
            match r {
                Some(t) => {
                    &&& t.wf()
                    &&& t.secs == secs + nanos / NANOS_PER_SEC
                    &&& t.nanos == nanos % NANOS_PER_SEC
                },
                None => !(MIN_SECS <= secs + nanos / NANOS_PER_SEC <= MAX_SECS),
            },
    {
        let carry: u32 = nanos / NANOS_PER_SEC;
        let rest: u32 = nanos % NANOS_PER_SEC;
        if secs < MIN_SECS - 4 || secs > MAX_SECS {
            return None;
        }
        let whole: i64 = secs + carry as i64;
        if whole < MIN_SECS || whole > MAX_SECS {
            None
        } else {
            Some(Timestamp { secs: whole, nanos: rest })
        }
    }

    /// Tells whether the timestamp is well formed.
    pub fn is_wf(self) -> (r: bool)
        ensures
            r == self.wf(),
    {
        MIN_SECS <= self.secs && self.secs <= MAX_SECS && self.nanos < NANOS_PER_SEC
    }

    /// Whether `self` is no later than `other`.
    pub fn not_after(self, other: Timestamp) -> (r: bool)
        requires
            self.nanos < NANOS_PER_SEC,
            other.nanos < NANOS_PER_SEC,
        ensures
            r == (self.total_nanos() <= other.total_nanos()),
    {
        self.secs < other.secs || (self.secs == other.secs && self.nanos <= other.nanos)
    }

    /// The span from `earlier` to `self`; negative when `self` comes first.
    pub fn signed_duration_since(self, earlier: Timestamp) -> (r: TimeDelta)
        requires
            self.nanos < NANOS_PER_SEC,
            earlier.nanos < NANOS_PER_SEC,
            i64::MIN < self.secs - earlier.secs <= i64::MAX,
        ensures
            r.wf(),
            r.total_nanos() == self.total_nanos() - earlier.total_nanos(),
            r.secs >= 0 <==> earlier.total_nanos() <= self.total_nanos(),
    {
        let apart: i64 = self.secs - earlier.secs;
        if self.nanos >= earlier.nanos {
            TimeDelta { secs: apart, nanos: self.nanos - earlier.nanos }
        } else {
            TimeDelta { secs: apart - 1, nanos: self.nanos + (NANOS_PER_SEC - earlier.nanos) }
        }
    }

    /// Whole seconds elapsed from `earlier` to `self`, rounded toward zero.
    pub fn whole_seconds_since(self, earlier: Timestamp) -> (r: i64)
        requires
            self.nanos < NANOS_PER_SEC,
            earlier.nanos < NANOS_PER_SEC,
            i64::MIN < self.secs - earlier.secs < i64::MAX,
        ensures
            r == self.seconds_since(earlier),
    {
        let apart: i64 = self.secs - earlier.secs;
        if apart > 0 && self.nanos < earlier.nanos {
            apart - 1
        } else if apart < 0 && self.nanos > earlier.nanos {
            apart + 1
        } else {
            apart
        }
    }
}


/// The RFC 3339 text of an instant with the offset written as `+00:00`: what
/// `chrono::DateTime::<Utc>::to_rfc3339` returns for the instant built by
/// `DateTime::from_timestamp(secs, nanos)`.
pub uninterp spec fn rfc3339_text(secs: int, nanos: int) -> Seq<char>;

/// The RFC 3339 text of an instant with the offset written as `Z`: what
/// `chrono::DateTime::<Utc>::to_rfc3339_opts(SecondsFormat::AutoSi, true)`
/// returns for the instant built by `DateTime::from_timestamp(secs, nanos)`.
pub uninterp spec fn rfc3339_zulu_text(secs: int, nanos: int) -> Seq<char>;

/// What chrono reads from a text as a UTC instant: the Unix seconds and the
/// nanoseconds past them of `text.parse::<DateTime<Utc>>()`, or `None` where
/// chrono rejects the text.
pub uninterp spec fn rfc3339_instant(text: Seq<char>) -> Option<(i64, u32)>;

/// Calls `chrono::DateTime::<Utc>::to_rfc3339` on the instant `t`. Trusted:
/// the text depends on the instant alone. chrono holds every instant of years
/// 0000 to 9999, so `DateTime::from_timestamp` returns `Some` here.
#[verifier::external_body]
fn chrono_to_rfc3339(t: Timestamp) -> (text: String)
    requires
        t.wf(),
    ensures
        text@ == rfc3339_text(t.secs as int, t.nanos as int),
{
    serde_with::chrono::DateTime::from_timestamp(t.secs, t.nanos).unwrap_or_default().to_rfc3339()
}

/// Calls `chrono::DateTime::<Utc>::to_rfc3339_opts(SecondsFormat::AutoSi, true)`
/// on the instant `t`, which writes what chrono's `Serialize` writes. Trusted:
/// the text depends on the instant alone, and chrono reads its own text back as
/// the same instant (its `Serialize` and `Deserialize` are each other's inverse,
/// and `from_timestamp` is documented to round-trip with `timestamp` and
/// `timestamp_subsec_nanos`).
#[verifier::external_body]
fn chrono_to_rfc3339_zulu(t: Timestamp) -> (text: String)
    requires
        t.wf(),
    ensures
        text@ == rfc3339_zulu_text(t.secs as int, t.nanos as int),
        rfc3339_instant(text@) == Some((t.secs, t.nanos)),
{
    serde_with::chrono::DateTime::from_timestamp(t.secs, t.nanos).unwrap_or_default().to_rfc3339_opts(
        serde_with::chrono::SecondsFormat::AutoSi,
        true,
    )
}

/// Calls `str::parse::<chrono::DateTime<Utc>>`, chrono's relaxed RFC 3339
/// reader, and hands back `timestamp()` and `timestamp_subsec_nanos()` of what
/// it read. Trusted: the outcome depends on the text alone.
#[verifier::external_body]
fn chrono_parse_rfc3339(text: &str) -> (r: Option<(i64, u32)>)
    ensures
        r == rfc3339_instant(text@),
{
    match text.parse::<serde_with::chrono::DateTime<serde_with::chrono::Utc>>() {
        Ok(instant) => Some((instant.timestamp(), instant.timestamp_subsec_nanos())),
        Err(_) => None,
    }
}

/// The timestamp that a text denotes: chrono's reading of it, with a leap
/// second carried into the next second, where that instant lies in years 0000
/// to 9999.
pub open spec fn timestamp_of_text(text: Seq<char>) -> Option<Timestamp> {
    match rfc3339_instant(text) {
        Some((secs, nanos)) => if MIN_SECS <= secs + nanos / NANOS_PER_SEC <= MAX_SECS {
            Some(
                Timestamp {
                    secs: (secs + nanos / NANOS_PER_SEC) as i64,
                    nanos: nanos % NANOS_PER_SEC,
                },
            )
        } else {
            None
        },
        None => None,
    }
}

impl Timestamp {
    /// Reads an RFC 3339 date and time, such as `2024-05-01T10:00:00Z`. `None`
    /// where the text is no such date and time, or lies outside years 0000 to
    /// 9999.
    pub fn parse_rfc3339(text: &str) -> (r: Option<Timestamp>)
        ensures
            r == timestamp_of_text(text@),
            r matches Some(t) ==> t.wf(),
    {
        match chrono_parse_rfc3339(text) {
            Some((secs, nanos)) => Timestamp::new(secs, nanos),
            None => None,
        }
    }

    /// The RFC 3339 text of the instant, with the offset written `+00:00`.
    pub fn to_rfc3339(self) -> (text: String)
        requires
            self.wf(),
        ensures
            text@ == rfc3339_text(self.secs as int, self.nanos as int),
    {
        chrono_to_rfc3339(self)
    }

    /// The RFC 3339 text of the instant, with the offset written `Z`. Reading
    /// the text back gives the same instant.
    pub fn to_rfc3339_zulu(self) -> (text: String)
        requires
            self.wf(),
        ensures
            text@ == rfc3339_zulu_text(self.secs as int, self.nanos as int),
            timestamp_of_text(text@) == Some(self),
    {
        chrono_to_rfc3339_zulu(self)
    }
}

} // verus!
