use vstd::prelude::*;

verus! {

/// Unix seconds of 0000-01-01T00:00:00Z, the first instant with a four-digit year.
pub const MIN_UNIX_SECS: i64 = -62167219200;

/// Unix seconds of 9999-12-31T23:59:59Z, the last instant with a four-digit year.
pub const MAX_UNIX_SECS: i64 = 253402300799;

pub const NANOS_PER_SEC: u32 = 1000000000;

pub const SECS_PER_DAY: u32 = 86400;

/// A UTC instant: whole seconds since the Unix epoch and the nanoseconds past them.
#[derive(Debug, Clone, Copy, PartialEq, Eq, Structural)]
pub struct Timestamp {
    pub secs: i64,
    pub nanos: u32,
}

/// A time of day with no date: seconds since midnight and the nanoseconds past them.
#[derive(Debug, Clone, Copy, PartialEq, Eq, Structural)]
pub struct WallClockTime {
    pub secs: u32,
    pub nanos: u32,
}

pub open spec fn instant_in_range(secs: int, nanos: int) -> bool {
    MIN_UNIX_SECS <= secs <= MAX_UNIX_SECS && 0 <= nanos < NANOS_PER_SEC
}

pub open spec fn clock_in_range(secs: int, nanos: int) -> bool {
    0 <= secs < SECS_PER_DAY && 0 <= nanos < NANOS_PER_SEC
}

impl Timestamp {
    /// The instant is one that both wire forms can carry.
    pub open spec fn wf(self) -> bool {
        instant_in_range(self.secs as int, self.nanos as int)
    }

    /// The instant with these parts, where they are in range.
    pub open spec fn from_parts(secs: int, nanos: int) -> Option<Timestamp> {
        if instant_in_range(secs, nanos) {
            Some(Timestamp { secs: secs as i64, nanos: nanos as u32 })
        } else {
            None
        }
    }

    pub fn is_valid(&self) -> (r: bool)
        ensures
            r == self.wf(),
    {
        MIN_UNIX_SECS <= self.secs && self.secs <= MAX_UNIX_SECS && self.nanos < NANOS_PER_SEC
    }

    /// Builds an instant; `None` where the seconds fall outside the years
    /// 0000 to 9999 or the nanoseconds are not below one second.
    pub fn from_unix(secs: i64, nanos: u32) -> (r: Option<Timestamp>)
        ensures
            r == Timestamp::from_parts(secs as int, nanos as int),
    {
        if MIN_UNIX_SECS <= secs && secs <= MAX_UNIX_SECS && nanos < NANOS_PER_SEC {
            Some(Timestamp { secs, nanos })
        } else {
            None
        }
    }
}

impl WallClockTime {
    pub open spec fn wf(self) -> bool {
        clock_in_range(self.secs as int, self.nanos as int)
    }

    pub open spec fn from_parts(secs: int, nanos: int) -> Option<WallClockTime> {
        if clock_in_range(secs, nanos) {
            Some(WallClockTime { secs: secs as u32, nanos: nanos as u32 })
        } else {
            None
        }
    }

    pub fn is_valid(&self) -> (r: bool)
        ensures
            r == self.wf(),
    {
        self.secs < SECS_PER_DAY && self.nanos < NANOS_PER_SEC
    }

    /// Builds a time of day from seconds since midnight and nanoseconds; `None`
    /// where either is out of range (a leap second included).
    pub fn from_seconds(secs: u32, nanos: u32) -> (r: Option<WallClockTime>)
        ensures
            r == WallClockTime::from_parts(secs as int, nanos as int),
    {
        if secs < SECS_PER_DAY && nanos < NANOS_PER_SEC {
            Some(WallClockTime { secs, nanos })
        } else {
            None
        }
    }

    /// Builds a time of day from hours, minutes and seconds; `None` where one
    /// of them is out of its range.
    pub fn from_hms(hour: u32, minute: u32, second: u32) -> (r: Option<WallClockTime>)
        ensures
            r == (if hour < 24 && minute < 60 && second < 60 {
                Some(WallClockTime { secs: (hour * 3600 + minute * 60 + second) as u32, nanos: 0 })
            } else {
                None
            }),
    {
        if hour < 24 && minute < 60 && second < 60 {
            Some(WallClockTime { secs: hour * 3600 + minute * 60 + second, nanos: 0 })
        } else {
            None
        }
    }
}

/// The RFC 3339 text that chrono writes for an instant.
pub uninterp spec fn instant_text(secs: int, nanos: int) -> Seq<char>;

/// The instant that chrono reads from an RFC 3339 text, if it reads one.
pub uninterp spec fn instant_of_text(text: Seq<char>) -> Option<(int, int)>;

/// The text that chrono writes for a time of day.
pub uninterp spec fn clock_text(secs: int, nanos: int) -> Seq<char>;

/// The time of day that chrono reads from a text, if it reads one.
pub uninterp spec fn clock_of_text(text: Seq<char>) -> Option<(int, int)>;

/// Relies on chrono's `DateTime::<Utc>::from_timestamp` and
/// `to_rfc3339_opts(SecondsFormat::Nanos, true)`: the instant as RFC 3339 text
/// with nine fraction digits and a `Z` offset, which for years 0000 to 9999
/// `DateTime::parse_from_rfc3339` reads back as the same instant.
#[verifier::external_body]
pub(crate) fn format_instant(secs: i64, nanos: u32) -> (r: String)
    requires
        instant_in_range(secs as int, nanos as int),
    ensures
        r@ == instant_text(secs as int, nanos as int),
        instant_of_text(r@) == Some((secs as int, nanos as int)),
{
    chrono::DateTime::from_timestamp(secs, nanos).map(
        |t| t.to_rfc3339_opts(chrono::SecondsFormat::Nanos, true),
    ).unwrap_or_default()
}

/// Relies on chrono's `DateTime::parse_from_rfc3339`: the instant that the
/// text names, as Unix seconds and the nanoseconds past them.
#[verifier::external_body]
pub(crate) fn parse_instant(text: &str) -> (r: Option<(i64, u32)>)
    ensures
        r matches Some(p) ==> instant_of_text(text@) == Some((p.0 as int, p.1 as int)),
        r is None ==> instant_of_text(text@) is None,
{
    chrono::DateTime::parse_from_rfc3339(text).ok().map(
        |t| (t.timestamp(), t.timestamp_subsec_nanos()),
    )
}

/// Relies on chrono's `NaiveTime::from_num_seconds_from_midnight_opt` and its
/// `Display` ("HH:MM:SS" and the fraction digits needed), which `NaiveTime`'s
/// `FromStr` reads back as the same time of day.
#[verifier::external_body]
pub(crate) fn format_clock(secs: u32, nanos: u32) -> (r: String)
    requires
        clock_in_range(secs as int, nanos as int),
    ensures
        r@ == clock_text(secs as int, nanos as int),
        clock_of_text(r@) == Some((secs as int, nanos as int)),
{
    chrono::NaiveTime::from_num_seconds_from_midnight_opt(secs, nanos).map(|t| t.to_string()).unwrap_or_default()
}

/// Relies on chrono's `FromStr` for `NaiveTime`: the time of day that the text
/// names, as seconds since midnight and the nanoseconds past them.
#[verifier::external_body]
pub(crate) fn parse_clock(text: &str) -> (r: Option<(u32, u32)>)
    ensures
        r matches Some(p) ==> clock_of_text(text@) == Some((p.0 as int, p.1 as int)),
        r is None ==> clock_of_text(text@) is None,
{
    text.parse::<chrono::NaiveTime>().ok().map(
        |t| (chrono::Timelike::num_seconds_from_midnight(&t), chrono::Timelike::nanosecond(&t)),
    )
}

} // verus!
