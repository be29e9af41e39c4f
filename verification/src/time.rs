use vstd::prelude::*;

verus! {

/// The earliest UNIX timestamp that `chrono::DateTime<Utc>` represents
/// (`DateTime::<Utc>::MIN_UTC`, January 1 of year -262143).
pub const CHRONO_MIN_SECS: i64 = -8334601315200;

/// The latest UNIX timestamp that `chrono::DateTime<Utc>` represents
/// (`DateTime::<Utc>::MAX_UTC`, December 31 of year 262142, 23:59:59).
pub const CHRONO_MAX_SECS: i64 = 8210266876799;

pub const SECS_PER_DAY: i64 = 86400;

/// An instant in UTC: whole seconds since 1970-01-01T00:00:00Z and the
/// nanoseconds within that second (from 10^9 on only inside a leap second).
#[derive(Debug, Clone, Copy, PartialEq, Eq, Structural)]
pub struct Instant {
    pub secs: i64,
    pub nanos: u32,
}

impl Instant {
    /// The instant is one that `chrono::DateTime<Utc>` can hold.
    pub open spec fn valid(self) -> bool {
        &&& CHRONO_MIN_SECS <= self.secs <= CHRONO_MAX_SECS
        &&& (self.nanos < 1_000_000_000 || (self.nanos < 2_000_000_000 && self.secs % 60 == 59))
    }

    /// Strict chronological order.
    pub open spec fn before(self, other: Instant) -> bool {
        self.secs < other.secs || (self.secs == other.secs && self.nanos < other.nanos)
    }

    /// Chronological order, equal instants included.
    pub open spec fn not_after(self, other: Instant) -> bool {
        self.before(other) || self == other
    }

    /// The day (days since 1970-01-01) on which the instant falls in UTC.
    pub open spec fn day(self) -> int {
        self.secs as int / SECS_PER_DAY as int
    }

    /// The instant at a whole second.
    pub open spec fn at(secs: int) -> Instant {
        Instant { secs: secs as i64, nanos: 0 }
    }

    /// Whether the instant is one that `chrono::DateTime<Utc>` can hold.
    pub fn is_valid(&self) -> (r: bool)
        ensures
            r == self.valid(),
    {
        let second = self.secs.checked_rem_euclid(60).unwrap();
        CHRONO_MIN_SECS <= self.secs && self.secs <= CHRONO_MAX_SECS && (self.nanos < 1_000_000_000
            || (self.nanos < 2_000_000_000 && second == 59))
    }

    pub fn is_before(&self, other: &Instant) -> (r: bool)
        ensures
            r == self.before(*other),
    {
        self.secs < other.secs || (self.secs == other.secs && self.nanos < other.nanos)
    }

    pub fn same_as(&self, other: &Instant) -> (r: bool)
        ensures
            r == (*self == *other),
    {
        self.secs == other.secs && self.nanos == other.nanos
    }

    /// The day on which the instant falls, as `DateTime::date_naive` gives it.
    pub fn day_number(&self) -> (d: i64)
        ensures
            d == self.day(),
    {
        self.secs.checked_div_euclid(SECS_PER_DAY).unwrap()
    }
}

/// The timestamp and nanoseconds of `DateTime::parse_from_rfc3339(s)` taken
/// to UTC, or `None` where chrono refuses `s`.
pub uninterp spec fn rfc3339_parsed(s: Seq<char>) -> Option<(i64, u32)>;

/// The text of `DateTime::<Utc>::to_rfc3339` for an instant.
pub uninterp spec fn rfc3339_text(secs: i64, nanos: u32) -> Seq<char>;

/// The text of `format("%Y%m%d%H%M%S")` for a whole-second UTC instant.
pub uninterp spec fn compact_timestamp(secs: i64) -> Seq<char>;

/// The UTC-midnight timestamp of `NaiveDate::parse_from_str(s, "%Y-%m-%d")`,
/// or `None` where chrono refuses `s`.
pub uninterp spec fn ymd_midnight(s: Seq<char>) -> Option<i64>;

/// Calls `DateTime::parse_from_rfc3339` and converts the result to UTC.
/// Every `DateTime<Utc>` lies between `MIN_UTC` and `MAX_UTC`, so a parsed
/// instant is valid.
#[verifier::external_body]
pub(crate) fn parse_rfc3339(s: &str) -> (r: Option<Instant>)
    ensures
        r matches Some(i) ==> i.valid() && rfc3339_parsed(s@) == Some((i.secs, i.nanos)),
        r is None ==> rfc3339_parsed(s@) is None,
{
    match chrono::DateTime::parse_from_rfc3339(s) {
        Ok(d) => {
            let u = d.with_timezone(&chrono::Utc);
            Some(Instant { secs: u.timestamp(), nanos: u.timestamp_subsec_nanos() })
        },
        Err(_) => None,
    }
}

/// Calls `DateTime::<Utc>::to_rfc3339` on the instant.
#[verifier::external_body]
pub(crate) fn format_rfc3339(i: Instant) -> (r: String)
    requires
        i.valid(),
    ensures
        r@ == rfc3339_text(i.secs, i.nanos),
{
    chrono::DateTime::from_timestamp(i.secs, i.nanos).unwrap().to_rfc3339()
}

/// Calls `format("%Y%m%d%H%M%S")` on a whole-second UTC instant.
#[verifier::external_body]
pub(crate) fn format_compact(secs: i64) -> (r: String)
    requires
        CHRONO_MIN_SECS <= secs <= CHRONO_MAX_SECS,
    ensures
        r@ == compact_timestamp(secs),
{
    chrono::DateTime::from_timestamp(secs, 0).unwrap().format("%Y%m%d%H%M%S").to_string()
}

/// Calls `NaiveDate::parse_from_str(s, "%Y-%m-%d")` and gives the UTC-midnight
/// timestamp of the date. A `NaiveDate` lies between `NaiveDate::MIN` and
/// `NaiveDate::MAX`, so its midnight is a whole day within chrono's range.
#[verifier::external_body]
pub(crate) fn parse_ymd(s: &str) -> (r: Option<i64>)
    ensures
        r == ymd_midnight(s@),
        r matches Some(t) ==> t % SECS_PER_DAY == 0 && CHRONO_MIN_SECS <= t <= CHRONO_MAX_SECS,
{
    match chrono::NaiveDate::parse_from_str(s, "%Y-%m-%d") {
        Ok(d) => Some(d.and_time(chrono::NaiveTime::MIN).and_utc().timestamp()),
        Err(_) => None,
    }
}

/// Reads the clock with `chrono::Utc::now`; only the validity of the
/// instant is promised.
#[verifier::external_body]
pub(crate) fn utc_now() -> (r: Instant)
    ensures
        r.valid(),
{
    let n = chrono::Utc::now();
    Instant { secs: n.timestamp(), nanos: n.timestamp_subsec_nanos() }
}

} // verus!
