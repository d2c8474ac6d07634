use vstd::prelude::*;

verus! {

/// Microseconds since 1970-01-01T00:00:00Z of the earliest instant that chrono's
/// `DateTime<Utc>` can hold (January 1 of the proleptic year -262143, i.e. 262144 BCE, midnight).
pub const MIN_UTC_MICROS: i64 = -8334601228800000000i64;

/// Microseconds since 1970-01-01T00:00:00Z of the latest instant that chrono's
/// `DateTime<Utc>` can hold, truncated to whole microseconds (December 31 of the year 262142).
pub const MAX_UTC_MICROS: i64 = 8210266876799999999i64;

/// Microseconds in one day.
pub const MICROS_PER_DAY: i64 = 86400000000i64;

/// An instant in UTC, counted in microseconds since the Unix epoch
/// (the precision of a PostgreSQL `timestamptz`).
#[derive(Clone, Copy, Debug, PartialEq, Eq, Structural)]
pub struct Timestamp {
    pub micros: i64,
}

impl Timestamp {
    /// The instant lies in the range of chrono's `DateTime<Utc>`.
    pub open spec fn wf(self) -> bool {
        MIN_UTC_MICROS <= self.micros <= MAX_UTC_MICROS
    }

    /// The instant with the given microsecond count, if chrono can represent it.
    pub fn from_micros(micros: i64) -> (t: Option<Timestamp>)
        ensures
            t is Some <==> MIN_UTC_MICROS <= micros <= MAX_UTC_MICROS,
            t matches Some(t) ==> t.micros == micros && t.wf(),
    {
        if MIN_UTC_MICROS <= micros && micros <= MAX_UTC_MICROS {
            Some(Timestamp { micros })
        } else {
            None
        }
    }
}


/// Earliest day number (days since 1970-01-01) of chrono's `NaiveDate`.
pub const MIN_DAY: i32 = -96465292i32;

/// Latest day number (days since 1970-01-01) of chrono's `NaiveDate`.
pub const MAX_DAY: i32 = 95026236i32;

/// A calendar date (exposed as `Date` in the GraphQL schema), counted in days since
/// 1970-01-01.
#[derive(Clone, Copy, Debug, PartialEq, Eq, Structural)]
pub struct GqlDate {
    pub days: i32,
}

impl GqlDate {
    /// The date lies in the range of chrono's `NaiveDate`.
    pub open spec fn wf(self) -> bool {
        MIN_DAY <= self.days <= MAX_DAY
    }

    /// The first instant of the date in UTC (midnight), as stored in the database.
    pub fn midnight(self) -> (t: Timestamp)
        requires
            self.wf(),
        ensures
            t.micros == self.days as int * MICROS_PER_DAY as int,
            t.wf(),
    {
        assert(MIN_DAY as int * MICROS_PER_DAY as int <= self.days as int * MICROS_PER_DAY as int <= MAX_DAY as int * MICROS_PER_DAY as int)
            by (nonlinear_arith)
            requires MIN_DAY <= self.days <= MAX_DAY;
        Timestamp { micros: self.days as i64 * MICROS_PER_DAY }
    }
}

impl Timestamp {
    /// The UTC calendar date on which the instant falls.
    pub fn date(self) -> (d: GqlDate)
        requires
            self.wf(),
        ensures
            d.days as int == self.micros as int / MICROS_PER_DAY as int,
            d.wf(),
    {
        let m = self.micros;
        let q: i64 = if m >= 0 {
            m / MICROS_PER_DAY
        } else {
            let n: i64 = -m - 1;
            -(n / MICROS_PER_DAY) - 1
        };
        assert(q as int == m as int / 86400000000int) by (nonlinear_arith)
            requires
                m >= 0 ==> q as int == m as int / 86400000000int,
                m < 0 ==> q as int == -((-m - 1) as int / 86400000000int) - 1,
        ;
        assert(-96465292 <= m as int / 86400000000int <= 95026236) by (nonlinear_arith)
            requires -8334601228800000000 <= m <= 8210266876799999999;
        GqlDate { days: q as i32 }
    }
}

/// A date read back from its midnight is the same date.
pub proof fn lemma_date_of_midnight(d: GqlDate)
    requires
        d.wf(),
    ensures
        (d.days as int * MICROS_PER_DAY as int) / MICROS_PER_DAY as int == d.days as int,
{
    assert((d.days as int * 86400000000int) / 86400000000int == d.days as int) by (nonlinear_arith);
}

/// The midnight of an instant's date is the latest midnight not after the instant.
pub proof fn lemma_midnight_of_date(t: Timestamp)
    requires
        t.wf(),
    ensures
        (t.micros as int / MICROS_PER_DAY as int) * MICROS_PER_DAY as int <= t.micros as int,
        (t.micros as int) < (t.micros as int / MICROS_PER_DAY as int) * MICROS_PER_DAY as int
            + MICROS_PER_DAY as int,
{
    let m = t.micros as int;
    let q = m / 86400000000int;
    assert(q * 86400000000int <= m) by (nonlinear_arith)
        requires q == m / 86400000000int;
    assert(m < q * 86400000000int + 86400000000int) by (nonlinear_arith)
        requires q == m / 86400000000int;
}


/// The proleptic Gregorian `(year, month, day)` of a day number (days since
/// 1970-01-01).
pub open spec fn civil_from_days(days: int) -> (int, int, int) {
    let z = days + 719468;
    let era = z / 146097;
    let doe = z - era * 146097;
    let yoe = (doe - doe / 1460 + doe / 36524 - doe / 146096) / 365;
    let doy = doe - (365 * yoe + yoe / 4 - yoe / 100);
    let mp = (5 * doy + 2) / 153;
    let d = doy - (153 * mp + 2) / 5 + 1;
    let m = if mp < 10 { mp + 3 } else { mp - 9 };
    let y = yoe + era * 400;
    (if m <= 2 { y + 1 } else { y }, m, d)
}

/// Two decimal digits of `n` (which is below 100).
pub open spec fn two_digits(n: int) -> Seq<char> {
    seq![crate::text::digit_char((n / 10) as nat), crate::text::digit_char((n % 10) as nat)]
}

/// Six decimal digits of `n` (which is below 1_000_000), zero padded.
pub open spec fn six_digits(n: int) -> Seq<char> {
    two_digits(n / 10000) + two_digits((n / 100) % 100) + two_digits(n % 100)
}

/// How the year of a date is written: four digits for the years 0 to 9999; otherwise
/// with an explicit sign, the digits of a negative year padded to four with zeros
/// (as Rust's `{:+05}` writes them).
pub open spec fn year_text(y: int) -> Seq<char> {
    if 0 <= y <= 9999 {
        two_digits(y / 100) + two_digits(y % 100)
    } else if y > 9999 {
        seq!['+'] + crate::text::decimal(y as nat)
    } else if -y <= 9999 {
        seq!['-'] + two_digits(-y / 100) + two_digits(-y % 100)
    } else {
        seq!['-'] + crate::text::decimal((-y) as nat)
    }
}

/// The RFC 3339 form with microsecond precision and `Z` of an instant, e.g.
/// `2024-02-02T08:04:08.924549Z`.
pub open spec fn rfc3339_micros_string(micros: int) -> Seq<char> {
    let days = micros / 86400000000;
    let rem = micros % 86400000000;
    let (y, m, d) = civil_from_days(days);
    let secs = rem / 1000000;
    let frac = rem % 1000000;
    year_text(y) + seq!['-'] + two_digits(m) + seq!['-'] + two_digits(d)
        + seq!['T'] + two_digits(secs / 3600) + seq![':'] + two_digits((secs / 60) % 60) + seq![':']
        + two_digits(secs % 60) + seq!['.'] + six_digits(frac) + seq!['Z']
}

/// Formats an instant as chrono's `to_rfc3339_opts(SecondsFormat::Micros, true)` does.
///
/// Trusted: converts with `chrono::DateTime::from_timestamp_micros` (which yields a
/// value exactly on the range that `requires` admits) and formats with
/// `DateTime::to_rfc3339_opts`. The contract states the text field by field, as
/// chrono's `write_rfc3339` writes it: the year (four digits for 0 to 9999,
/// `{:+05}` otherwise), month, day, hours, minutes, seconds, six digits of
/// microseconds and `Z`.
#[verifier::external_body]
pub fn format_rfc3339_micros(micros: i64) -> (s: String)
    requires
        MIN_UTC_MICROS <= micros <= MAX_UTC_MICROS,
    ensures
        s@ == rfc3339_micros_string(micros as int),
{
    chrono::DateTime::from_timestamp_micros(micros).unwrap().to_rfc3339_opts(chrono::SecondsFormat::Micros, true)
}

/// A timestamp as exposed in the GraphQL schema (`Timestamp`): RFC 3339 with
/// microsecond precision and `Z` for UTC, e.g. `2024-02-02T08:04:08.924549Z`.
#[derive(Debug, Clone)]
pub struct GqlTimestamp(pub String);

impl GqlTimestamp {
    /// The GraphQL form of an instant.
    pub fn from(t: Timestamp) -> (g: GqlTimestamp)
        requires
            t.wf(),
        ensures
            g.0@ == rfc3339_micros_string(t.micros as int),
    {
        GqlTimestamp(format_rfc3339_micros(t.micros))
    }

    /// An exact copy.
    pub fn duplicate(&self) -> (g: GqlTimestamp)
        ensures
            g == *self,
    {
        GqlTimestamp(self.0.clone())
    }
}

/// The GraphQL form of an optional instant.
pub fn gql_timestamp_opt(t: Option<Timestamp>) -> (g: Option<GqlTimestamp>)
    requires
        t matches Some(t) ==> t.wf(),
    ensures
        g is Some <==> t is Some,
        g matches Some(g) ==> g.0@ == rfc3339_micros_string(t->0.micros as int),
{
    match t {
        Some(t) => Some(GqlTimestamp::from(t)),
        None => None,
    }
}


/// The current instant.
///
/// Trusted: calls `chrono::Utc::now` and converts with `DateTime::timestamp_micros`.
/// The result depends on the clock; only that it is an instant chrono can hold is
/// stated.
#[verifier::external_body]
pub fn now() -> (t: Timestamp)
    ensures
        t.wf(),
{
    Timestamp { micros: chrono::Utc::now().timestamp_micros() }
}

/// Seconds that chrono's `TimeDelta::seconds` accepts without panicking:
/// `i64::MAX / 1000`.
pub const MAX_DELTA_SECS: i64 = 9223372036854775i64;

/// The whole seconds since the epoch of an instant (chrono's `DateTime::timestamp`,
/// which rounds towards the past).
pub open spec fn whole_seconds(micros: int) -> int {
    micros / 1000000
}

/// Adds whole seconds to an instant and returns the whole seconds since the epoch of
/// the result, or `None` where the result leaves chrono's range.
///
/// Trusted: converts with `DateTime::from_timestamp_micros`, adds with
/// `DateTime::checked_add_signed(TimeDelta::seconds(secs))` and converts the result
/// with `DateTime::timestamp`. `checked_add_signed` returns `None` exactly when the
/// resulting date would be out of range; `TimeDelta::seconds` panics beyond
/// `MAX_DELTA_SECS`, which `requires` excludes.
#[verifier::external_body]
pub fn checked_add_seconds(micros: i64, secs: i64) -> (r: Option<i64>)
    requires
        MIN_UTC_MICROS <= micros <= MAX_UTC_MICROS,
        -MAX_DELTA_SECS <= secs <= MAX_DELTA_SECS,
    ensures
        r is Some <==> MIN_UTC_MICROS <= micros + secs * 1000000 <= MAX_UTC_MICROS,
        r matches Some(t) ==> t == whole_seconds(micros as int) + secs,
{
    chrono::DateTime::from_timestamp_micros(micros).unwrap().checked_add_signed(chrono::TimeDelta::seconds(secs)).map(|d| d.timestamp())
}

} // verus!
