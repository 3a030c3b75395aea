//! Points in time, and their renderings in the two wire formats.
//!
//! The calendar arithmetic and the time-zone lookups are chrono's; this module states what the
//! message formats need of the text that chrono produces.

use chrono::{DateTime, Local, SecondsFormat, Utc};
use vstd::prelude::*;

verus! {

/// The earliest representable instant, 0000-01-01T00:00:00Z, in seconds since the Unix epoch.
pub const MIN_SECS: i64 = -62_167_219_200;

/// The latest representable whole second, 9999-12-31T23:59:59Z, in seconds since the Unix epoch.
pub const MAX_SECS: i64 = 253_402_300_799;

/// An instant between the years 0 and 9999 (the years that RFC 3339 writes with four digits), as
/// seconds since the Unix epoch and the nanoseconds since the last whole second.
#[derive(Copy, Clone, Debug)]
pub struct Timestamp {
    secs: i64,
    nanos: u32,
}

impl Timestamp {
    #[verifier::type_invariant]
    spec fn inv(self) -> bool {
        MIN_SECS <= self.secs <= MAX_SECS && self.nanos < 1_000_000_000
    }

    /// Seconds since the Unix epoch.
    pub closed spec fn spec_secs(self) -> i64 {
        self.secs
    }

    /// Nanoseconds since the last whole second.
    pub closed spec fn spec_nanos(self) -> u32 {
        self.nanos
    }

    /// The instant `secs` seconds and `nanos` nanoseconds after the Unix epoch, if it lies in
    /// the representable range and `nanos` is less than a second.
    pub fn new(secs: i64, nanos: u32) -> (r: Option<Timestamp>)
        ensures
            r is Some <==> (MIN_SECS <= secs <= MAX_SECS && nanos < 1_000_000_000),
            r matches Some(t) ==> t.spec_secs() == secs && t.spec_nanos() == nanos,
    {
        if MIN_SECS <= secs && secs <= MAX_SECS && nanos < 1_000_000_000 {
            Some(Timestamp { secs, nanos })
        } else {
            None
        }
    }

    /// Seconds since the Unix epoch.
    pub fn secs(&self) -> (r: i64)
        ensures
            r == self.spec_secs(),
            MIN_SECS <= r <= MAX_SECS,
    {
        proof {
            use_type_invariant(self);
        }
        self.secs
    }

    /// Nanoseconds since the last whole second.
    pub fn nanos(&self) -> (r: u32)
        ensures
            r == self.spec_nanos(),
            r < 1_000_000_000,
    {
        proof {
            use_type_invariant(self);
        }
        self.nanos
    }
}

/// The ASCII decimal digit for `d`, below ten.
pub open spec fn digit_char(d: int) -> char {
    ((48 + d) as u8) as char
}

/// `n` below a million, written with exactly six decimal digits, zero-padded.
pub open spec fn six_digits(n: int) -> Seq<char> {
    seq![
        digit_char((n / 100000) % 10),
        digit_char((n / 10000) % 10),
        digit_char((n / 1000) % 10),
        digit_char((n / 100) % 10),
        digit_char((n / 10) % 10),
        digit_char(n % 10),
    ]
}

/// The tail of a UTC timestamp with microsecond precision: a dot, six digits giving `micros`,
/// and the offset `+00:00`.
pub open spec fn micros_utc_tail(micros: int) -> Seq<char> {
    seq!['.'] + six_digits(micros) + seq!['+', '0', '0', ':', '0', '0']
}

/// `s` ends with a dot, exactly six digits of fractional seconds, and the UTC offset `+00:00`.
pub open spec fn ends_with_micros_utc(s: Seq<char>) -> bool {
    exists|micros: int|
        0 <= micros < 1_000_000 && s.len() >= 13 && #[trigger] micros_utc_tail(micros) == s.subrange(
            s.len() - 13,
            s.len() as int,
        )
}

/// The RFC 3339 rendering, with microseconds and a `+00:00` offset, of the instant `secs`
/// seconds and `nanos` nanoseconds after the Unix epoch, as chrono writes it.
pub uninterp spec fn rfc3339_micros_of(secs: int, nanos: int) -> Seq<char>;

/// Every character is ASCII.
pub open spec fn is_ascii_text(s: Seq<char>) -> bool {
    forall|i: int| 0 <= i < s.len() ==> (#[trigger] s[i] as u32) < 128
}

/// The month abbreviations that `%b` writes.
pub open spec fn is_month_abbreviation(m: Seq<char>) -> bool {
    m == "Jan"@ || m == "Feb"@ || m == "Mar"@ || m == "Apr"@ || m == "May"@ || m == "Jun"@
        || m == "Jul"@ || m == "Aug"@ || m == "Sep"@ || m == "Oct"@ || m == "Nov"@ || m == "Dec"@
}

/// The character is an ASCII decimal digit.
pub open spec fn is_digit_char(c: char) -> bool {
    '0' <= c <= '9'
}

/// `s` has the shape `Mmm _d HH:MM:SS`: a month abbreviation, a space, a day padded with a
/// space to two places, a space, and a 24-hour time.
pub open spec fn is_bsd_time(s: Seq<char>) -> bool {
    &&& s.len() == 15
    &&& is_month_abbreviation(s.subrange(0, 3))
    &&& s[3] == ' '
    &&& (s[4] == ' ' || is_digit_char(s[4]))
    &&& is_digit_char(s[5])
    &&& s[6] == ' '
    &&& is_digit_char(s[7]) && is_digit_char(s[8])
    &&& s[9] == ':'
    &&& is_digit_char(s[10]) && is_digit_char(s[11])
    &&& s[12] == ':'
    &&& is_digit_char(s[13]) && is_digit_char(s[14])
}

/// Relies on chrono's `DateTime::from_timestamp`, which accepts every instant of this type's
/// range, and `DateTime::to_rfc3339_opts` with `SecondsFormat::Micros` and no `Z`: the text is
/// ASCII and ends with `.`, the nanoseconds divided by 1000 in six digits, and `+00:00`.
#[verifier::external_body]
pub(crate) fn rfc3339_micros(t: &Timestamp) -> (r: String)
    ensures
        r@ == rfc3339_micros_of(t.spec_secs() as int, t.spec_nanos() as int),
        is_ascii_text(r@),
        r@.len() >= 13,
        r@.subrange(r@.len() - 13, r@.len() as int) == micros_utc_tail(t.spec_nanos() as int / 1000),
{
    DateTime::from_timestamp(t.secs, t.nanos).unwrap().to_rfc3339_opts(SecondsFormat::Micros, false)
}

/// Relies on chrono's `Utc::now` and `DateTime::to_rfc3339_opts` with `SecondsFormat::Micros`
/// and no `Z`: the text is ASCII and ends with `.`, six digits, and `+00:00`.
#[verifier::external_body]
pub(crate) fn rfc3339_micros_now() -> (r: String)
    ensures
        is_ascii_text(r@),
        ends_with_micros_utc(r@),
{
    Utc::now().to_rfc3339_opts(SecondsFormat::Micros, false)
}

/// Relies on chrono's `DateTime::from_timestamp`, `DateTime::with_timezone(&Local)` and
/// `format("%b %_d %H:%M:%S")`: the instant in the machine's time zone, in the shape that
/// `is_bsd_time` describes.
#[verifier::external_body]
pub(crate) fn bsd_local_time(t: &Timestamp) -> (r: String)
    ensures
        is_bsd_time(r@),
{
    DateTime::from_timestamp(t.secs, t.nanos).unwrap().with_timezone(&Local).format(
        "%b %_d %H:%M:%S",
    ).to_string()
}

/// Relies on chrono's `Local::now` and `format("%b %_d %H:%M:%S")`: the current time in the
/// machine's time zone, in the shape that `is_bsd_time` describes.
#[verifier::external_body]
pub(crate) fn bsd_local_now() -> (r: String)
    ensures
        is_bsd_time(r@),
{
    Local::now().format("%b %_d %H:%M:%S").to_string()
}

} // verus!
