use vstd::prelude::*;

verus! {

/// The earliest year that chrono's dates hold.
pub const MIN_YEAR: i32 = -262143;

/// The latest year that chrono's dates hold.
pub const MAX_YEAR: i32 = 262142;

/// A UTC date and time of day to the second, as plain values.
#[derive(Debug, Clone, Copy, PartialEq, Eq)]
pub struct UtcTimestamp {
    pub year: i32,
    pub month: u32,
    pub day: u32,
    pub hour: u32,
    pub minute: u32,
    pub second: u32,
}

pub open spec fn is_leap_year(y: int) -> bool {
    (y % 4 == 0 && y % 100 != 0) || y % 400 == 0
}

pub open spec fn days_in_month(y: int, m: int) -> int {
    if m == 2 {
        if is_leap_year(y) {
            29
        } else {
            28
        }
    } else if m == 4 || m == 6 || m == 9 || m == 11 {
        30
    } else {
        31
    }
}

/// Whether `t` is a date of the proleptic Gregorian calendar within chrono's
/// range, and a time of day without leap second.
pub open spec fn is_valid_timestamp(t: UtcTimestamp) -> bool {
    &&& MIN_YEAR <= t.year <= MAX_YEAR
    &&& 1 <= t.month <= 12
    &&& 1 <= t.day <= days_in_month(t.year as int, t.month as int)
    &&& t.hour < 24
    &&& t.minute < 60
    &&& t.second < 60
}

/// The text `YYYY-MM-DD-HH-MM-SS` of a date and time, as chrono formats it
/// with `%Y-%m-%d-%H-%M-%S`.
pub uninterp spec fn timestamp_text(
    year: i32,
    month: u32,
    day: u32,
    hour: u32,
    minute: u32,
    second: u32,
) -> Seq<char>;

/// The object key of an image stored at `t`.
pub open spec fn timestamp_key(t: UtcTimestamp) -> Seq<char> {
    timestamp_text(t.year, t.month, t.day, t.hour, t.minute, t.second) + ".jpg"@
}

/// The UTC date and time that `secs` seconds after the Unix epoch fall on, as
/// chrono computes it; `None` outside chrono's range.
pub uninterp spec fn utc_of_epoch_seconds(secs: i64) -> Option<UtcTimestamp>;

/// The system clock's reading, carried through unread.
#[verifier::external_type_specification]
#[verifier::external_body]
pub struct ExSystemTime(std::time::SystemTime);

/// Relies on `std::time::SystemTime::now`: the clock's reading, of which
/// nothing is known.
pub assume_specification[ std::time::SystemTime::now ]() -> std::time::SystemTime;

/// Relies on `std::time::Duration::as_secs`: the whole seconds of a duration.
pub assume_specification[ std::time::Duration::as_secs ](d: &std::time::Duration) -> u64;

/// Relies on `std::time::SystemTime::duration_since` against `UNIX_EPOCH`:
/// the time since the epoch, `None` where `t` lies before it.
#[verifier::external_body]
fn duration_since_epoch(t: &std::time::SystemTime) -> (r: Option<std::time::Duration>) {
    t.duration_since(std::time::UNIX_EPOCH).ok()
}

/// Whole seconds since the Unix epoch by the system clock; `None` where the
/// clock reads before it.
fn seconds_since_epoch() -> (r: Option<u64>) {
    let now = std::time::SystemTime::now();
    match duration_since_epoch(&now) {
        Some(d) => Some(d.as_secs()),
        None => None,
    }
}

/// Relies on chrono's `DateTime::from_timestamp` and its `Datelike` and
/// `Timelike` accessors: a date within chrono's range, a month of 1 to 12, a
/// day that the month has, an hour of 0 to 23, a minute and a second of 0 to
/// 59; `None` where the date leaves chrono's range.
#[verifier::external_body]
fn utc_from_epoch_seconds(secs: i64) -> (r: Option<UtcTimestamp>)
    ensures
        r == utc_of_epoch_seconds(secs),
        r matches Some(t) ==> is_valid_timestamp(t),
{
    let now = chrono::DateTime::from_timestamp(secs, 0)?;
    Some(UtcTimestamp {
        year: chrono::Datelike::year(&now),
        month: chrono::Datelike::month(&now),
        day: chrono::Datelike::day(&now),
        hour: chrono::Timelike::hour(&now),
        minute: chrono::Timelike::minute(&now),
        second: chrono::Timelike::second(&now),
    })
}

/// The decimal digit `d`.
pub open spec fn digit_char(d: int) -> char {
    seq!['0', '1', '2', '3', '4', '5', '6', '7', '8', '9'][d]
}

/// `n` in two zero-padded decimal digits, for `n` below 100.
pub open spec fn two_digits(n: int) -> Seq<char> {
    seq![digit_char(n / 10), digit_char(n % 10)]
}

/// `n` in four zero-padded decimal digits, for `n` below 10000.
pub open spec fn four_digits(n: int) -> Seq<char> {
    two_digits(n / 100) + two_digits(n % 100)
}

/// The layout `YYYY-MM-DD-HH-MM-SS` of a timestamp whose year has at most
/// four digits.
pub open spec fn timestamp_layout(t: UtcTimestamp) -> Seq<char> {
    four_digits(t.year as int) + seq!['-'] + two_digits(t.month as int) + seq!['-'] + two_digits(
        t.day as int,
    ) + seq!['-'] + two_digits(t.hour as int) + seq!['-'] + two_digits(t.minute as int) + seq!['-']
        + two_digits(t.second as int)
}

/// Relies on chrono's `NaiveDate::from_ymd_opt`, `NaiveDate::and_hms_opt` and
/// `NaiveDateTime::format` with `%Y-%m-%d-%H-%M-%S`; both constructors accept
/// every valid timestamp, and `%Y` writes a year of 0 to 9999 as four
/// zero-padded digits, the other fields as two.
#[verifier::external_body]
fn format_timestamp(t: &UtcTimestamp) -> (r: String)
    requires
        is_valid_timestamp(*t),
    ensures
        r@ == timestamp_text(t.year, t.month, t.day, t.hour, t.minute, t.second),
        0 <= t.year <= 9999 ==> r@ == timestamp_layout(*t),
{
    let date = match chrono::NaiveDate::from_ymd_opt(t.year, t.month, t.day) {
        Some(d) => d,
        None => return String::new(),
    };
    match date.and_hms_opt(t.hour, t.minute, t.second) {
        Some(dt) => dt.format("%Y-%m-%d-%H-%M-%S").to_string(),
        None => String::new(),
    }
}

fn leap_year(year: i32) -> (r: bool)
    requires
        MIN_YEAR <= year <= MAX_YEAR,
    ensures
        r == is_leap_year(year as int),
{
    let a: u32 = if year < 0 {
        (0 - year) as u32
    } else {
        year as u32
    };
    proof {
        let y = year as int;
        let n = a as int;
        assert(y == n || y == -n);
        assert((y % 4 == 0) == (n % 4 == 0)) by (nonlinear_arith)
            requires
                y == n || y == -n,
        ;
        assert((y % 100 == 0) == (n % 100 == 0)) by (nonlinear_arith)
            requires
                y == n || y == -n,
        ;
        assert((y % 400 == 0) == (n % 400 == 0)) by (nonlinear_arith)
            requires
                y == n || y == -n,
        ;
    }
    (a % 4 == 0 && a % 100 != 0) || a % 400 == 0
}

impl UtcTimestamp {
    /// The timestamp of these fields; `None` where they name no valid date
    /// and time of day.
    pub fn new(year: i32, month: u32, day: u32, hour: u32, minute: u32, second: u32) -> (r: Option<
        UtcTimestamp,
    >)
        ensures
            match r {
                Some(t) => is_valid_timestamp(t) && t == (UtcTimestamp {
                    year,
                    month,
                    day,
                    hour,
                    minute,
                    second,
                }),
                None => !is_valid_timestamp(
                    UtcTimestamp { year, month, day, hour, minute, second },
                ),
            },
    {
        if year < MIN_YEAR || year > MAX_YEAR || month < 1 || month > 12 || day < 1 || hour >= 24
            || minute >= 60 || second >= 60 {
            return None;
        }
        let last: u32 = if month == 2 {
            if leap_year(year) {
                29
            } else {
                28
            }
        } else if month == 4 || month == 6 || month == 9 || month == 11 {
            30
        } else {
            31
        };
        if day > last {
            return None;
        }
        Some(UtcTimestamp { year, month, day, hour, minute, second })
    }
}

/// The object key of an image stored at `t`: `YYYY-MM-DD-HH-MM-SS.jpg`.
pub fn s3_key_for(t: &UtcTimestamp) -> (r: String)
    requires
        is_valid_timestamp(*t),
    ensures
        r@ == timestamp_key(*t),
        0 <= t.year <= 9999 ==> r@ == timestamp_layout(*t) + ".jpg"@,
{
    let mut r = format_timestamp(t);
    r.append(".jpg");
    r
}

/// The object key of an image stored `secs` seconds after the Unix epoch;
/// `None` where that date leaves chrono's range.
pub fn s3_key_for_epoch_seconds(secs: i64) -> (r: Option<String>)
    ensures
        match utc_of_epoch_seconds(secs) {
            Some(t) => is_valid_timestamp(t) && (r matches Some(k) && k@ == timestamp_key(t)),
            None => r is None,
        },
{
    match utc_from_epoch_seconds(secs) {
        Some(t) => Some(s3_key_for(&t)),
        None => None,
    }
}

/// The object key for an image stored now; `None` where the system clock
/// reads before the Unix epoch or beyond chrono's range.
pub fn generate_s3_key_with_timestamp() -> (r: Option<String>)
    ensures
        r matches Some(k) ==> exists|t: UtcTimestamp| is_valid_timestamp(t) && k@ == timestamp_key(t),
{
    let secs = match seconds_since_epoch() {
        Some(s) => s,
        None => {
            return None;
        },
    };
    if secs > i64::MAX as u64 {
        return None;
    }
    let r = s3_key_for_epoch_seconds(secs as i64);
    proof {
        if let Some(t) = utc_of_epoch_seconds(secs as i64) {
            assert(is_valid_timestamp(t));
        }
    }
    r
}

} // verus!
