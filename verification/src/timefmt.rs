//! Timestamps and the footer's "edited on" clock format.
//!
//! A page's edit time is stored as an absolute instant (seconds and
//! nanoseconds since the Unix epoch) and converted to local civil time
//! only when a page is rendered.  The display format is a 12-hour clock
//! with a lowercase meridiem marker, a lowercase abbreviated month name,
//! the day of the month and the full year, e.g. `03:45pm, mar 9, 2024`.

use vstd::prelude::*;
use vstd::string::StringExecFns;
use chrono::Datelike;
use chrono::Timelike;

verus! {

/// Bound on the seconds of an [`Instant`]; roughly 250 000 years away from
/// the epoch, comfortably inside the range that chrono can represent and
/// convert to local time.
pub const MAX_INSTANT_SECS: i64 = 8_000_000_000_000;

/// An absolute, timezone-independent instant: seconds and nanoseconds
/// since the Unix epoch.
#[derive(Clone, Copy, Debug, PartialEq, Eq, PartialOrd, Ord)]
pub struct Instant {
    pub secs: i64,
    pub nanos: u32,
}

impl Instant {
    /// The instant is inside the range that local-time conversion accepts.
    pub open spec fn wf(self) -> bool {
        &&& -MAX_INSTANT_SECS <= self.secs <= MAX_INSTANT_SECS
        &&& self.nanos < 1_000_000_000
    }
}

/// A civil (wall clock) date and time in some local time zone, to minute
/// precision: all that the footer's clock format displays.
#[derive(Clone, Copy, Debug, PartialEq, Eq)]
pub struct CivilTime {
    pub year: i32,
    pub month: u8,
    pub day: u8,
    pub hour: u8,
    pub minute: u8,
}

impl CivilTime {
    pub open spec fn wf(self) -> bool {
        &&& -260_000 <= self.year <= 260_000
        &&& 1 <= self.month <= 12
        &&& 1 <= self.day <= 31
        &&& self.hour <= 23
        &&& self.minute <= 59
    }
}

/// The proleptic Gregorian civil reading of `t` seconds since the Unix
/// epoch, to minute precision.  Days and the second of the day come from
/// Euclidean division; the date from the day count follows the standard
/// era decomposition of the Gregorian calendar (400-year eras of 146 097
/// days, years counted from March so that the leap day falls last).
pub open spec fn spec_civil_of(t: int) -> CivilTime {
    let days = t / 86400;
    let sod = t % 86400;
    let z = days + 719468;
    let era = z / 146097;
    let doe = z % 146097;
    let yoe = (doe - doe / 1460 + doe / 36524 - doe / 146096) / 365;
    let y = yoe + era * 400;
    let doy = doe - (365 * yoe + yoe / 4 - yoe / 100);
    let mp = (5 * doy + 2) / 153;
    let d = doy - (153 * mp + 2) / 5 + 1;
    let m = if mp < 10 {
        mp + 3
    } else {
        mp - 9
    };
    let year = if m <= 2 {
        y + 1
    } else {
        y
    };
    CivilTime {
        year: year as i32,
        month: m as u8,
        day: d as u8,
        hour: (sod / 3600) as u8,
        minute: ((sod % 3600) / 60) as u8,
    }
}

/// Relies on chrono's `Utc::now`, `DateTime::timestamp` and
/// `DateTime::timestamp_subsec_nanos`: the current wall-clock instant.
/// The nanosecond part is below 2 000 000 000 because chrono stores the
/// subsecond part of a time as a nanosecond count below that bound (the
/// values at or above 1 000 000 000 represent a leap second).  Nothing
/// else can be promised of a clock reading.  `Utc::now` panics, rather
/// than returning, if the system clock reads before the Unix epoch.
#[verifier::external_body]
pub(crate) fn now_instant() -> (r: Instant)
    ensures
        r.nanos < 2_000_000_000,
{
    let t = chrono::Utc::now();
    Instant { secs: t.timestamp(), nanos: t.timestamp_subsec_nanos() }
}

/// The civil time `c` is the proleptic Gregorian reading of the instant
/// `secs` shifted by some zone offset strictly smaller than one day.
pub open spec fn is_local_reading(c: CivilTime, secs: int) -> bool {
    exists|off: int| -86400 < off < 86400 && c == #[trigger] spec_civil_of(secs + off)
}

/// Relies on chrono's `DateTime::from_timestamp`, `DateTime::with_timezone`
/// with `Local`, and the `Datelike` / `Timelike` accessors: the local civil
/// time of an instant.  `from_timestamp` accepts every instant admitted
/// here (its range of seconds is wider, and a nanosecond part below
/// 1 000 000 000 is valid with any seconds), and the accessors return a month in
/// 1..=12, a day in 1..=31, an hour below 24 and a minute below 60; the
/// year is bounded because the instant is, with a wide margin for the
/// local offset.  chrono reads local time as the instant plus the zone's
/// fixed offset for that instant, a `FixedOffset`, which by construction
/// is strictly smaller than one day in either direction; chrono's civil
/// calendar is the proleptic Gregorian one that `spec_civil_of` states.
/// Which offset applies depends on the machine's time zone, so only its
/// bound is stated.
#[verifier::external_body]
pub(crate) fn local_civil_time(secs: i64, nanos: u32) -> (r: CivilTime)
    requires
        -MAX_INSTANT_SECS <= secs <= MAX_INSTANT_SECS,
        nanos < 1_000_000_000,
    ensures
        r.wf(),
        is_local_reading(r, secs as int),
{
    let dt = chrono::DateTime::from_timestamp(secs, nanos)
        .unwrap()
        .with_timezone(&chrono::Local);
    CivilTime {
        year: dt.year(),
        month: dt.month() as u8,
        day: dt.day() as u8,
        hour: dt.hour() as u8,
        minute: dt.minute() as u8,
    }
}

/// The character for a decimal digit.
pub open spec fn digit_char(d: int) -> char {
    if d == 0 {
        '0'
    } else if d == 1 {
        '1'
    } else if d == 2 {
        '2'
    } else if d == 3 {
        '3'
    } else if d == 4 {
        '4'
    } else if d == 5 {
        '5'
    } else if d == 6 {
        '6'
    } else if d == 7 {
        '7'
    } else if d == 8 {
        '8'
    } else {
        '9'
    }
}

/// Decimal digits of a number, most significant first, no padding.
pub open spec fn spec_decimal(n: nat) -> Seq<char>
    decreases n,
{
    if n < 10 {
        seq![digit_char(n as int)]
    } else {
        spec_decimal(n / 10).push(digit_char((n % 10) as int))
    }
}

/// Decimal digits zero-padded to width two.
pub open spec fn spec_pad2(n: nat) -> Seq<char> {
    if n < 10 {
        seq!['0'] + spec_decimal(n)
    } else {
        spec_decimal(n)
    }
}

/// Decimal digits zero-padded to width four, as chrono's `%Y` writes a year.
pub open spec fn spec_pad4(n: nat) -> Seq<char> {
    if n < 10 {
        seq!['0', '0', '0'] + spec_decimal(n)
    } else if n < 100 {
        seq!['0', '0'] + spec_decimal(n)
    } else if n < 1000 {
        seq!['0'] + spec_decimal(n)
    } else {
        spec_decimal(n)
    }
}

/// A year with its sign, zero-padded to four digits.
pub open spec fn spec_year(y: int) -> Seq<char> {
    if y < 0 {
        seq!['-'] + spec_pad4((-y) as nat)
    } else {
        spec_pad4(y as nat)
    }
}

/// The hour on a 12-hour clock: 0 and 12 both display as 12.
pub open spec fn spec_hour12(h: int) -> int {
    if h % 12 == 0 {
        12
    } else {
        h % 12
    }
}

/// Lowercase meridiem marker.
pub open spec fn spec_meridiem(h: int) -> Seq<char> {
    if h < 12 {
        seq!['a', 'm']
    } else {
        seq!['p', 'm']
    }
}

/// Lowercase abbreviated month name.
pub open spec fn spec_month_abbr(m: int) -> Seq<char> {
    if m == 1 {
        "jan"@
    } else if m == 2 {
        "feb"@
    } else if m == 3 {
        "mar"@
    } else if m == 4 {
        "apr"@
    } else if m == 5 {
        "may"@
    } else if m == 6 {
        "jun"@
    } else if m == 7 {
        "jul"@
    } else if m == 8 {
        "aug"@
    } else if m == 9 {
        "sep"@
    } else if m == 10 {
        "oct"@
    } else if m == 11 {
        "nov"@
    } else {
        "dec"@
    }
}

/// The footer's clock format: `hh:mm(am|pm), mon d, yyyy`.
pub open spec fn spec_time_string(c: CivilTime) -> Seq<char> {
    spec_pad2(spec_hour12(c.hour as int) as nat) + seq![':'] + spec_pad2(c.minute as nat)
        + spec_meridiem(c.hour as int) + ", "@ + spec_month_abbr(c.month as int) + seq![' ']
        + spec_decimal(c.day as nat) + ", "@ + spec_year(c.year as int)
}

/// One decimal digit as a string.
fn digit_str(d: u32) -> (r: String)
    requires
        d < 10,
    ensures
        r@ == seq![digit_char(d as int)],
{
    proof {
        reveal_strlit("0");
        reveal_strlit("1");
        reveal_strlit("2");
        reveal_strlit("3");
        reveal_strlit("4");
        reveal_strlit("5");
        reveal_strlit("6");
        reveal_strlit("7");
        reveal_strlit("8");
        reveal_strlit("9");
    }
    let s: &str = match d {
        0 => "0",
        1 => "1",
        2 => "2",
        3 => "3",
        4 => "4",
        5 => "5",
        6 => "6",
        7 => "7",
        8 => "8",
        _ => "9",
    };
    String::from_str(s)
}

/// Decimal digits of `n`, most significant first.
fn decimal_string(n: u32) -> (r: String)
    ensures
        r@ == spec_decimal(n as nat),
    decreases n,
{
    if n < 10 {
        digit_str(n)
    } else {
        let mut s = decimal_string(n / 10);
        let d = digit_str(n % 10);
        s.append(d.as_str());
        s
    }
}

/// Decimal digits of `n` zero-padded to width two.
fn pad2_string(n: u32) -> (r: String)
    ensures
        r@ == spec_pad2(n as nat),
{
    if n < 10 {
        let mut s = digit_str(0);
        let d = digit_str(n);
        s.append(d.as_str());
        proof {
            assert(s@ =~= seq!['0'] + spec_decimal(n as nat));
        }
        s
    } else {
        decimal_string(n)
    }
}

/// Decimal digits of `n` zero-padded to width four.
fn pad4_string(n: u32) -> (r: String)
    ensures
        r@ == spec_pad4(n as nat),
{
    let digits = decimal_string(n);
    let mut s = String::new();
    if n < 10 {
        let z = digit_str(0);
        s.append(z.as_str());
        s.append(z.as_str());
        s.append(z.as_str());
    } else if n < 100 {
        let z = digit_str(0);
        s.append(z.as_str());
        s.append(z.as_str());
    } else if n < 1000 {
        let z = digit_str(0);
        s.append(z.as_str());
    }
    s.append(digits.as_str());
    proof {
        if n < 10 {
            assert(s@ =~= seq!['0', '0', '0'] + spec_decimal(n as nat));
        } else if n < 100 {
            assert(s@ =~= seq!['0', '0'] + spec_decimal(n as nat));
        } else if n < 1000 {
            assert(s@ =~= seq!['0'] + spec_decimal(n as nat));
        }
    }
    s
}

/// The month's lowercase abbreviated name.
fn month_abbr_str(m: u8) -> (r: String)
    requires
        1 <= m <= 12,
    ensures
        r@ == spec_month_abbr(m as int),
{
    let s: &str = match m {
        1 => "jan",
        2 => "feb",
        3 => "mar",
        4 => "apr",
        5 => "may",
        6 => "jun",
        7 => "jul",
        8 => "aug",
        9 => "sep",
        10 => "oct",
        11 => "nov",
        _ => "dec",
    };
    String::from_str(s)
}

/// Renders a civil time in the footer's clock format.
pub fn format_civil_time(c: CivilTime) -> (r: String)
    requires
        c.wf(),
    ensures
        r@ == spec_time_string(c),
{
    proof {
        reveal_strlit(":");
        reveal_strlit("am");
        reveal_strlit("pm");
        reveal_strlit(", ");
        reveal_strlit(" ");
        reveal_strlit("-");
    }
    let hour12: u32 = if c.hour % 12 == 0 {
        12
    } else {
        (c.hour % 12) as u32
    };
    let mut s = pad2_string(hour12);
    s.append(":");
    let minutes = pad2_string(c.minute as u32);
    s.append(minutes.as_str());
    if c.hour < 12 {
        s.append("am");
    } else {
        s.append("pm");
    }
    s.append(", ");
    let month = month_abbr_str(c.month);
    s.append(month.as_str());
    s.append(" ");
    let day = decimal_string(c.day as u32);
    s.append(day.as_str());
    s.append(", ");
    if c.year < 0 {
        s.append("-");
        let y = pad4_string((-(c.year as i64)) as u32);
        s.append(y.as_str());
    } else {
        let y = pad4_string(c.year as u32);
        s.append(y.as_str());
    }
    proof {
        assert("am"@ =~= seq!['a', 'm']);
        assert("pm"@ =~= seq!['p', 'm']);
        assert(":"@ =~= seq![':']);
        assert(" "@ =~= seq![' ']);
        assert("-"@ =~= seq!['-']);
        if c.year < 0 {
            assert(spec_year(c.year as int) =~= seq!['-'] + spec_pad4((-(c.year as int)) as nat));
        }
        assert(s@ =~= spec_time_string(c));
    }
    s
}

} // verus!

