//! The timestamp grammar of the time value model.
//!
//! A timestamp text is `YYYY-MM-DD` and `HH:MM:SS`, joined by `T` or a
//! space, optionally followed by a fractional-second part (`.` and digits,
//! not preserved) and an offset suffix: `Z`, or `+HH:MM` / `-HH:MM` giving
//! the local offset in seconds.  A bare text yields an unknown offset.
//!
//! The wall-clock fields are converted to seconds since the epoch by the
//! proleptic Gregorian calendar; with an explicit offset the stored instant
//! is the wall-clock value minus that offset, so that the instant is UTC.

use vstd::prelude::*;

verus! {

/// ASCII decimal digit.
pub open spec fn is_digit(b: u8) -> bool {
    48 <= b <= 57
}

/// Value of one ASCII digit.
pub open spec fn dv(b: u8) -> int {
    b - 48
}

/// Value of two ASCII digits starting at `i`.
pub open spec fn d2(s: Seq<u8>, i: int) -> int {
    dv(s[i]) * 10 + dv(s[i + 1])
}

/// Value of four ASCII digits starting at `i`.
pub open spec fn d4(s: Seq<u8>, i: int) -> int {
    dv(s[i]) * 1000 + dv(s[i + 1]) * 100 + dv(s[i + 2]) * 10 + dv(s[i + 3])
}

/// Gregorian leap year.
pub open spec fn is_leap(y: int) -> bool {
    y % 4 == 0 && (y % 100 != 0 || y % 400 == 0)
}

/// Days of month `m` in year `y`.
pub open spec fn days_in_month(y: int, m: int) -> int {
    if m == 2 {
        if is_leap(y) {
            29
        } else {
            28
        }
    } else if m == 4 || m == 6 || m == 9 || m == 11 {
        30
    } else {
        31
    }
}

/// Days from the epoch (1970-01-01) to the civil date `y-m-d`, by the
/// era decomposition of the proleptic Gregorian calendar.
pub open spec fn days_from_civil(y: int, m: int, d: int) -> int {
    let yy = if m <= 2 {
        y - 1
    } else {
        y
    };
    let era = yy / 400;
    let yoe = yy - era * 400;
    let mp = if m > 2 {
        m - 3
    } else {
        m + 9
    };
    let doy = (153 * mp + 2) / 5 + d - 1;
    let doe = yoe * 365 + yoe / 4 - yoe / 100 + doy;
    era * 146097 + doe - 719468
}

/// Seconds from the epoch to the civil date-time, as a wall clock.
pub open spec fn civil_secs(y: int, m: int, d: int, h: int, mi: int, se: int) -> int {
    days_from_civil(y, m, d) * 86400 + h * 3600 + mi * 60 + se
}

/// The first 19 bytes spell `YYYY-MM-DD` and `HH:MM:SS`, joined by `T` or
/// a space.
pub open spec fn head_shape_ok(s: Seq<u8>) -> bool {
    &&& s.len() >= 19
    &&& is_digit(s[0]) && is_digit(s[1]) && is_digit(s[2]) && is_digit(s[3])
    &&& s[4] == 45u8
    &&& is_digit(s[5]) && is_digit(s[6])
    &&& s[7] == 45u8
    &&& is_digit(s[8]) && is_digit(s[9])
    &&& (s[10] == 84u8 || s[10] == 32u8)
    &&& is_digit(s[11]) && is_digit(s[12])
    &&& s[13] == 58u8
    &&& is_digit(s[14]) && is_digit(s[15])
    &&& s[16] == 58u8
    &&& is_digit(s[17]) && is_digit(s[18])
}

/// The spelled calendar fields denote a real date and time of day.
pub open spec fn head_fields_ok(s: Seq<u8>) -> bool {
    &&& 1 <= d4(s, 0)
    &&& 1 <= d2(s, 5) <= 12
    &&& 1 <= d2(s, 8) <= days_in_month(d4(s, 0), d2(s, 5))
    &&& d2(s, 11) <= 23
    &&& d2(s, 14) <= 59
    &&& d2(s, 17) <= 59
}

/// First position at or after `i` holding no digit.
pub open spec fn digits_end(s: Seq<u8>, i: int) -> int
    decreases s.len() - i when 0 <= i <= s.len()
{
    if i < s.len() && is_digit(s[i]) {
        digits_end(s, i + 1)
    } else {
        i
    }
}

/// Where the offset suffix starts, after an optional fractional part;
/// `None` when a lone `.` carries no digit.
pub open spec fn spec_tail_start(s: Seq<u8>) -> Option<int> {
    if s.len() == 19 {
        Some(19)
    } else if s[19] == 46u8 {
        if s.len() >= 21 && is_digit(s[20]) {
            Some(digits_end(s, 20))
        } else {
            None
        }
    } else {
        Some(19)
    }
}

/// The offset suffix starting at `k`: `None` when malformed,
/// `Some(None)` when absent, `Some(Some(o))` for `Z` or `+HH:MM`/`-HH:MM`.
pub open spec fn spec_offset_part(s: Seq<u8>, k: int) -> Option<Option<int>> {
    if k == s.len() {
        Some(None)
    } else if s[k] == 90u8 && k + 1 == s.len() {
        Some(Some(0))
    } else if (s[k] == 43u8 || s[k] == 45u8) && k + 6 == s.len() && is_digit(s[k + 1]) && is_digit(
        s[k + 2],
    ) && s[k + 3] == 58u8 && is_digit(s[k + 4]) && is_digit(s[k + 5]) && d2(s, k + 1) <= 23 && d2(
        s,
        k + 4,
    ) <= 59 {
        let v = d2(s, k + 1) * 3600 + d2(s, k + 4) * 60;
        Some(
            Some(
                if s[k] == 45u8 {
                    -v
                } else {
                    v
                },
            ),
        )
    } else {
        None
    }
}

/// What a timestamp text denotes: the UTC instant in seconds and the
/// recorded local offset, or nothing when the text is not a timestamp.
pub open spec fn spec_parse_timestamp(s: Seq<u8>) -> Option<(int, Option<int>)> {
    if head_shape_ok(s) && head_fields_ok(s) {
        match spec_tail_start(s) {
            None => None,
            Some(k) => match spec_offset_part(s, k) {
                None => None,
                Some(off) => {
                    let wall = civil_secs(
                        d4(s, 0),
                        d2(s, 5),
                        d2(s, 8),
                        d2(s, 11),
                        d2(s, 14),
                        d2(s, 17),
                    );
                    match off {
                        None => Some((wall, None)),
                        Some(o) => Some((wall - o, Some(o))),
                    }
                },
            },
        }
    } else {
        None
    }
}

/// The executable result agrees with the specification value.
pub open spec fn ts_matches(r: Option<(i64, Option<i64>)>, q: Option<(int, Option<int>)>) -> bool {
    match (r, q) {
        (None, None) => true,
        (Some(p), Some(v)) => p.0 == v.0 && match (p.1, v.1) {
            (None, None) => true,
            (Some(a), Some(b)) => a == b,
            _ => false,
        },
        _ => false,
    }
}

fn digit(b: u8) -> (r: bool)
    ensures
        r == is_digit(b),
{
    48 <= b && b <= 57
}

fn read2(s: &[u8], i: usize) -> (r: u64)
    requires
        i + 2 <= s@.len(),
        is_digit(s@[i as int]),
        is_digit(s@[i + 1]),
    ensures
        r == d2(s@, i as int),
        r <= 99,
{
    (s[i] - 48) as u64 * 10 + (s[i + 1] - 48) as u64
}

fn read4(s: &[u8], i: usize) -> (r: u64)
    requires
        i + 4 <= s@.len(),
        is_digit(s@[i as int]),
        is_digit(s@[i + 1]),
        is_digit(s@[i + 2]),
        is_digit(s@[i + 3]),
    ensures
        r == d4(s@, i as int),
        r <= 9999,
{
    (s[i] - 48) as u64 * 1000 + (s[i + 1] - 48) as u64 * 100 + (s[i + 2] - 48) as u64 * 10 + (s[i
        + 3] - 48) as u64
}

fn days_in_month_exec(y: u64, m: u64) -> (r: u64)
    requires
        1 <= m <= 12,
    ensures
        r == days_in_month(y as int, m as int),
        28 <= r <= 31,
{
    if m == 2 {
        if y % 4 == 0 && (y % 100 != 0 || y % 400 == 0) {
            29
        } else {
            28
        }
    } else if m == 4 || m == 6 || m == 9 || m == 11 {
        30
    } else {
        31
    }
}

/// Days from the epoch to `y-m-d`, executable form of [`days_from_civil`].
fn days_from_civil_exec(y: u64, m: u64, d: u64) -> (r: i64)
    requires
        1 <= y <= 9999,
        1 <= m <= 12,
        1 <= d <= 31,
    ensures
        r == days_from_civil(y as int, m as int, d as int),
        -719468 <= r <= 2932961,
{
    let yy: u64 = if m <= 2 {
        y - 1
    } else {
        y
    };
    let era: u64 = yy / 400;
    assert(era * 400 <= yy && era <= 24) by (nonlinear_arith)
        requires
            era == yy as int / 400,
            yy <= 9999,
    ;
    let yoe: u64 = yy - era * 400;
    assert(yoe < 400) by (nonlinear_arith)
        requires
            era == yy as int / 400,
            yoe == yy - era * 400,
            yy <= 9999,
    ;
    let mp: u64 = if m > 2 {
        m - 3
    } else {
        m + 9
    };
    let doy: u64 = (153 * mp + 2) / 5 + d - 1;
    assert(yoe * 365 + yoe / 4 - yoe / 100 + doy <= 146101 && yoe / 100 <= yoe * 365 + yoe / 4) by (
    nonlinear_arith)
        requires
            yoe < 400,
            doy == (153 * mp + 2) / 5 + d - 1,
            mp <= 11,
            1 <= d <= 31,
    ;
    let doe: u64 = yoe * 365 + yoe / 4 - yoe / 100 + doy;
    let days: u64 = era * 146097 + doe;
    days as i64 - 719468
}

/// Parses a timestamp text; the result is exactly what the grammar
/// assigns to the bytes, and nothing is returned on any other text.
pub fn parse_timestamp(s: &[u8]) -> (r: Option<(i64, Option<i64>)>)
    ensures
        ts_matches(r, spec_parse_timestamp(s@)),
{
    if s.len() < 19 {
        return None;
    }
    if !(digit(s[0]) && digit(s[1]) && digit(s[2]) && digit(s[3]) && s[4] == 45 && digit(s[5])
        && digit(s[6]) && s[7] == 45 && digit(s[8]) && digit(s[9]) && (s[10] == 84 || s[10] == 32)
        && digit(s[11]) && digit(s[12]) && s[13] == 58 && digit(s[14]) && digit(s[15]) && s[16]
        == 58 && digit(s[17]) && digit(s[18])) {
        return None;
    }
    let y = read4(s, 0);
    let mo = read2(s, 5);
    let d = read2(s, 8);
    let h = read2(s, 11);
    let mi = read2(s, 14);
    let se = read2(s, 17);
    if !(1 <= y && 1 <= mo && mo <= 12 && 1 <= d && h <= 23 && mi <= 59 && se <= 59) {
        return None;
    }
    if d > days_in_month_exec(y, mo) {
        return None;
    }
    // Optional fractional part.
    let mut k: usize = 19;
    if k < s.len() && s[k] == 46 {
        if !(20 < s.len() && digit(s[20])) {
            return None;
        }
        k = 20;
        while k < s.len() && digit(s[k])
            invariant
                20 <= k <= s@.len(),
                digits_end(s@, 20) == digits_end(s@, k as int),
            decreases s@.len() - k,
        {
            k = k + 1;
        }
        assert(digits_end(s@, k as int) == k);
    }
    assert(spec_tail_start(s@) == Some(k as int));
    // Optional offset suffix.
    let off: Option<i64> = if k == s.len() {
        None
    } else if s[k] == 90 && k + 1 == s.len() {
        Some(0)
    } else if (s[k] == 43 || s[k] == 45) && s.len() - k == 6 && digit(s[k + 1]) && digit(s[k + 2])
        && s[k + 3] == 58 && digit(s[k + 4]) && digit(s[k + 5]) {
        let hh = read2(s, k + 1);
        let mm = read2(s, k + 4);
        if !(hh <= 23 && mm <= 59) {
            return None;
        }
        let v = (hh * 3600 + mm * 60) as i64;
        if s[k] == 45 {
            Some(-v)
        } else {
            Some(v)
        }
    } else {
        return None;
    };
    let days = days_from_civil_exec(y, mo, d);
    let wall: i64 = days * 86400 + (h * 3600 + mi * 60 + se) as i64;
    match off {
        None => Some((wall, None)),
        Some(o) => Some((wall - o, Some(o))),
    }
}

/// A parsed timestamp always lies in the calendar's representable span,
/// and its wall-clock value is the instant plus the offset.
pub proof fn lemma_parse_timestamp_bounds(s: Seq<u8>)
    ensures
        spec_parse_timestamp(s) matches Some(p) ==> {
            &&& -62162035200 <= p.0 + (match p.1 {
                Some(o) => o,
                None => 0int,
            }) <= 253407916799
            &&& (p.1 matches Some(o) ==> -86340 <= o <= 86340)
        },
{
    if spec_parse_timestamp(s) is Some {
        assert(head_shape_ok(s) && head_fields_ok(s));
        let y = d4(s, 0);
        let m = d2(s, 5);
        let d = d2(s, 8);
        assert(1 <= y <= 9999 && 1 <= m <= 12 && 1 <= d <= 31);
        let yy = if m <= 2 {
            y - 1
        } else {
            y
        };
        let era = yy / 400;
        assert(0 <= era * 400 <= yy && era <= 24) by (nonlinear_arith)
            requires
                era == yy / 400,
                0 <= yy <= 9999,
        ;
        let yoe = yy - era * 400;
        assert(yoe < 400) by (nonlinear_arith)
            requires
                era == yy / 400,
                yoe == yy - era * 400,
                0 <= yy <= 9999,
        ;
        let mp = if m > 2 {
            m - 3
        } else {
            m + 9
        };
        let doy = (153 * mp + 2) / 5 + d - 1;
        let doe = yoe * 365 + yoe / 4 - yoe / 100 + doy;
        assert(0 <= doe <= 146101) by (nonlinear_arith)
            requires
                doe == yoe * 365 + yoe / 4 - yoe / 100 + doy,
                0 <= yoe < 400,
                doy == (153 * mp + 2) / 5 + d - 1,
                0 <= mp <= 11,
                1 <= d <= 31,
        ;
        assert(-719468 <= days_from_civil(y, m, d) <= 2932961);
        assert(-62162035200 <= civil_secs(y, m, d, d2(s, 11), d2(s, 14), d2(s, 17))
            <= 253407916799) by (nonlinear_arith)
            requires
                -719468 <= days_from_civil(y, m, d) <= 2932961,
                civil_secs(y, m, d, d2(s, 11), d2(s, 14), d2(s, 17)) == days_from_civil(y, m, d)
                    * 86400 + d2(s, 11) * 3600 + d2(s, 14) * 60 + d2(s, 17),
                0 <= d2(s, 11) <= 23,
                0 <= d2(s, 14) <= 59,
                0 <= d2(s, 17) <= 59,
        ;
    }
}

} // verus!
