//! Calendar dates: `YYYY-MM-DD` parsed to a Unix timestamp at midnight
//! UTC, by counting the days since the epoch in the proleptic Gregorian
//! calendar.

use vstd::prelude::*;

use vstd::string::StringSliceAdditionalSpecFns;

use crate::dec::dec_num;
use crate::dec::is_dec_seq;
use crate::dec::parse_dec_range;

verus! {

/// Gregorian leap-year rule.
pub open spec fn spec_is_leap_year(y: u32) -> bool {
    y % 4 == 0 && (y % 100 != 0 || y % 400 == 0)
}

/// Whether `year` is a leap year.
pub fn is_leap_year(year: u32) -> (r: bool)
    ensures
        r == spec_is_leap_year(year),
{
    (year % 4 == 0) && (year % 100 != 0 || year % 400 == 0)
}

/// Days in month `m` of a non-leap year.
pub open spec fn month_days(m: int) -> int {
    if m == 2 {
        28
    } else if m == 4 || m == 6 || m == 9 || m == 11 {
        30
    } else {
        31
    }
}

/// Days of the year before month `m` begins.
pub open spec fn days_before_month(m: int, leap: bool) -> int
    decreases m,
{
    if m <= 1 {
        0
    } else {
        days_before_month(m - 1, leap) + month_days(m - 1) + (if m - 1 == 2 && leap {
            1int
        } else {
            0int
        })
    }
}

/// Days before year `y` begins, counted from 1970.
pub open spec fn days_before_year(y: int) -> int
    decreases y
        when y >= 1970
{
    if y <= 1970 {
        0
    } else {
        days_before_year(y - 1) + (if spec_is_leap_year((y - 1) as u32) {
            366int
        } else {
            365int
        })
    }
}

/// Days from the epoch to midnight at the start of `y`-`m`-`d`.
pub open spec fn spec_days_since_epoch(y: u32, m: u32, d: u32) -> int {
    days_before_year(y as int) + days_before_month(m as int, spec_is_leap_year(y)) + d - 1
}

/// `days_before_year` grows at most 366 days per year.
proof fn lemma_days_before_year_bound(y: int)
    requires
        y >= 1970,
    ensures
        0 <= days_before_year(y) <= 366 * (y - 1970),
    decreases y,
{
    if y > 1970 {
        lemma_days_before_year_bound(y - 1);
    }
}

/// The days before any month fit well under a year.
proof fn lemma_days_before_month_bound(m: int, leap: bool)
    requires
        1 <= m <= 13,
    ensures
        0 <= days_before_month(m, leap) <= 31 * (m - 1) + 1,
    decreases m,
{
    if m > 1 {
        lemma_days_before_month_bound(m - 1, leap);
    }
}

/// Why a date was refused.
#[derive(Clone, Copy, Debug, PartialEq, Eq, Structural)]
pub enum DateError {
    /// Not three dash-separated parts.
    Format,
    /// The year part is not a number.
    Year,
    /// The month part is not a number between one and twelve.
    Month,
    /// The day part is not a number between one and thirty-one.
    Day,
    /// The year lies before 1970.
    BeforeEpoch,
}

/// Days from the Unix epoch to midnight at the start of the given date.
/// The month and day must already be range-checked; years before 1970 are
/// refused.
pub fn days_since_unix_epoch(year: u32, month: u32, day: u32) -> (r: Result<u64, DateError>)
    requires
        1 <= month <= 12,
        1 <= day <= 31,
    ensures
        r is Err <==> year < 1970,
        r matches Err(e) ==> e == DateError::BeforeEpoch,
        r matches Ok(v) ==> v == spec_days_since_epoch(year, month, day) && v <= 366 * (
        year as int - 1970) + 400,
{
    if year < 1970 {
        return Err(DateError::BeforeEpoch);
    }
    let mut days: u64 = 0;
    let mut y: u32 = 1970;
    while y < year
        invariant
            1970 <= y <= year,
            days == days_before_year(y as int),
            days <= 366 * (y as int - 1970),
        decreases year - y,
    {
        proof {
            lemma_days_before_year_bound(y + 1);
        }
        if is_leap_year(y) {
            days = days + 366;
        } else {
            days = days + 365;
        }
        y = y + 1;
    }
    proof {
        lemma_days_before_year_bound(year as int);
    }
    let leap = is_leap_year(year);
    let mut m: u32 = 1;
    let ghost base = days as int;
    while m < month
        invariant
            1 <= m <= month <= 12,
            base == days_before_year(year as int),
            0 <= base <= 366 * (year as int - 1970),
            days == base + days_before_month(m as int, leap),
            leap == spec_is_leap_year(year),
            days <= base + 31 * (m as int - 1) + 1,
        decreases month - m,
    {
        proof {
            lemma_days_before_month_bound(m as int + 1, leap);
            lemma_days_before_month_bound(m as int, leap);
        }
        let add: u32 = if m == 2 {
            if leap {
                29
            } else {
                28
            }
        } else if m == 4 || m == 6 || m == 9 || m == 11 {
            30
        } else {
            31
        };
        days = days + add as u64;
        m = m + 1;
    }
    proof {
        lemma_days_before_month_bound(month as int, leap);
    }
    Ok(days + (day - 1) as u64)
}

/// The first dash in `s` at or after `from` (or the length when there is
/// none).
pub open spec fn find_dash(s: Seq<u8>, from: int) -> int
    decreases s.len() - from
        when 0 <= from <= s.len()
{
    if from >= s.len() {
        s.len() as int
    } else if s[from] == 0x2D {
        from
    } else {
        find_dash(s, from + 1)
    }
}

/// Bounds and meaning of [`find_dash`].
proof fn lemma_find_dash(s: Seq<u8>, from: int)
    requires
        0 <= from <= s.len(),
    ensures
        from <= find_dash(s, from) <= s.len(),
        find_dash(s, from) < s.len() ==> s[find_dash(s, from)] == 0x2D,
        forall|k: int| from <= k < find_dash(s, from) ==> s[k] != 0x2D,
    decreases s.len() - from,
{
    if from < s.len() && s[from] != 0x2D {
        lemma_find_dash(s, from + 1);
    }
}

/// Find the first dash at or after `from`.
fn scan_dash(b: &[u8], from: usize) -> (r: usize)
    requires
        from <= b@.len(),
    ensures
        r == find_dash(b@, from as int),
{
    let n = b.len();
    let mut i: usize = from;
    while i < n
        invariant
            from <= i <= n,
            n == b@.len(),
            find_dash(b@, from as int) == find_dash(b@, i as int),
        decreases n - i,
    {
        if b[i] == 0x2D {
            return i;
        }
        i = i + 1;
    }
    i
}

/// Whether `s` splits into exactly three dash-separated parts.
pub open spec fn date_parts_ok(s: Seq<u8>) -> bool {
    let i1 = find_dash(s, 0);
    let i2 = find_dash(s, i1 + 1);
    &&& i1 < s.len()
    &&& i2 < s.len()
    &&& find_dash(s, i2 + 1) == s.len()
}

/// The year part: everything before the first dash.
pub open spec fn year_part(s: Seq<u8>) -> Seq<u8> {
    s.subrange(0, find_dash(s, 0))
}

/// The month part: between the two dashes.
pub open spec fn month_part(s: Seq<u8>) -> Seq<u8> {
    s.subrange(find_dash(s, 0) + 1, find_dash(s, find_dash(s, 0) + 1))
}

/// The day part: everything after the second dash.
pub open spec fn day_part(s: Seq<u8>) -> Seq<u8> {
    s.subrange(find_dash(s, find_dash(s, 0) + 1) + 1, s.len() as int)
}

/// Whether `p` is a decimal number that fits in `u32`.
pub open spec fn is_u32_decimal(p: Seq<u8>) -> bool {
    is_dec_seq(p) && dec_num(p) <= u32::MAX
}

/// Whether the parsed parts make a valid date request.
pub open spec fn date_fields_ok(s: Seq<u8>) -> bool {
    &&& date_parts_ok(s)
    &&& is_u32_decimal(year_part(s))
    &&& is_u32_decimal(month_part(s))
    &&& 1 <= dec_num(month_part(s)) <= 12
    &&& is_u32_decimal(day_part(s))
    &&& 1 <= dec_num(day_part(s)) <= 31
    &&& dec_num(year_part(s)) >= 1970
}

/// Parse a `YYYY-MM-DD` date into the Unix timestamp of its midnight
/// (UTC).  Each failure names the part at fault.
pub fn parse_date_to_timestamp(date_str: &str) -> (r: Result<u64, DateError>)
    ensures
        r matches Err(DateError::Format) <==> !date_parts_ok(date_str.spec_bytes()),
        r matches Err(DateError::Year) <==> (date_parts_ok(date_str.spec_bytes())
            && !is_u32_decimal(year_part(date_str.spec_bytes()))),
        r matches Err(DateError::Month) <==> (date_parts_ok(date_str.spec_bytes())
            && is_u32_decimal(year_part(date_str.spec_bytes())) && !(is_u32_decimal(
            month_part(date_str.spec_bytes()),
        ) && 1 <= dec_num(month_part(date_str.spec_bytes())) <= 12)),
        r matches Err(DateError::Day) <==> (date_parts_ok(date_str.spec_bytes())
            && is_u32_decimal(year_part(date_str.spec_bytes())) && is_u32_decimal(
            month_part(date_str.spec_bytes()),
        ) && 1 <= dec_num(month_part(date_str.spec_bytes())) <= 12 && !(is_u32_decimal(
            day_part(date_str.spec_bytes()),
        ) && 1 <= dec_num(day_part(date_str.spec_bytes())) <= 31)),
        r is Ok <==> date_fields_ok(date_str.spec_bytes()),
        r matches Ok(ts) ==> ts == 86400 * spec_days_since_epoch(
            dec_num(year_part(date_str.spec_bytes())) as u32,
            dec_num(month_part(date_str.spec_bytes())) as u32,
            dec_num(day_part(date_str.spec_bytes())) as u32,
        ),
{
    let b = date_str.as_bytes();
    let ghost sb = date_str.spec_bytes();
    let n = b.len();
    let i1 = scan_dash(b, 0);
    proof {
        lemma_find_dash(sb, 0);
    }
    if i1 == n {
        return Err(DateError::Format);
    }
    let i2 = scan_dash(b, i1 + 1);
    proof {
        lemma_find_dash(sb, i1 + 1);
    }
    if i2 == n {
        return Err(DateError::Format);
    }
    let i3 = scan_dash(b, i2 + 1);
    proof {
        lemma_find_dash(sb, i2 + 1);
    }
    if i3 != n {
        return Err(DateError::Format);
    }
    let year64 = match parse_dec_range(b, 0, i1, 0xFFFF_FFFF) {
        Some(v) => v,
        None => {
            return Err(DateError::Year);
        },
    };
    let month64 = match parse_dec_range(b, i1 + 1, i2, 0xFFFF_FFFF) {
        Some(v) => v,
        None => {
            return Err(DateError::Month);
        },
    };
    if !(1 <= month64 && month64 <= 12) {
        return Err(DateError::Month);
    }
    let day64 = match parse_dec_range(b, i2 + 1, n, 0xFFFF_FFFF) {
        Some(v) => v,
        None => {
            return Err(DateError::Day);
        },
    };
    if !(1 <= day64 && day64 <= 31) {
        return Err(DateError::Day);
    }
    let year: u32 = year64 as u32;
    let month: u32 = month64 as u32;
    let day: u32 = day64 as u32;
    match days_since_unix_epoch(year, month, day) {
        Ok(days) => Ok(days * 86400),
        Err(e) => Err(e),
    }
}

} // verus!
