//! Calendar dates of Unix timestamps in the proleptic Gregorian calendar,
//! UTC. The date is stated directly: the day count from 1970-01-01 of a
//! valid year/month/day. `format_unix_date` computes it with the
//! era-based "civil from days" method and is proved to give that date.

use vstd::prelude::*;

use crate::text::{pad2, pad4, push_pad2, push_pad4, push_str};

verus! {

pub open spec fn is_leap(y: int) -> bool {
    (y % 4 == 0 && y % 100 != 0) || y % 400 == 0
}

pub open spec fn month_len(y: int, m: int) -> int {
    if m == 2 {
        if is_leap(y) {
            29
        } else {
            28
        }
    } else if m == 4 || m == 6 || m == 9 || m == 11 {
        30
    } else {
        31
    }
}

/// `y-m-d` names a day of the calendar.
pub open spec fn valid_date(y: int, m: int, d: int) -> bool {
    1 <= m <= 12 && 1 <= d <= month_len(y, m)
}

/// Leap years among years `1..=y`.
pub open spec fn leaps_through(y: int) -> int {
    y / 4 - y / 100 + y / 400
}

/// Days from 1970-01-01 to January 1 of year `y`.
pub open spec fn days_before_year(y: int) -> int {
    365 * (y - 1970) + leaps_through(y - 1) - leaps_through(1969)
}

/// Days of the months before month `m` in a common year.
pub open spec fn common_days_before_month(m: int) -> int {
    if m <= 1 {
        0
    } else if m == 2 {
        31
    } else if m == 3 {
        59
    } else if m == 4 {
        90
    } else if m == 5 {
        120
    } else if m == 6 {
        151
    } else if m == 7 {
        181
    } else if m == 8 {
        212
    } else if m == 9 {
        243
    } else if m == 10 {
        273
    } else if m == 11 {
        304
    } else {
        334
    }
}

/// Days from January 1 of `y` to the first of month `m`.
pub open spec fn days_before_month(y: int, m: int) -> int {
    common_days_before_month(m) + if m > 2 && is_leap(y) {
        1int
    } else {
        0int
    }
}

/// Days from 1970-01-01 to `y-m-d`.
pub open spec fn days_from_civil(y: int, m: int, d: int) -> int {
    days_before_year(y) + days_before_month(y, m) + d - 1
}

/// The date of day `n` counted from 1970-01-01.
pub open spec fn civil_from_days(n: int) -> (int, int, int) {
    choose|t: (int, int, int)| valid_date(t.0, t.1, t.2) && days_from_civil(t.0, t.1, t.2) == n
}

/// `YYYY-MM-DD`, each part zero padded.
pub open spec fn date_text(t: (int, int, int)) -> Seq<char> {
    pad4(t.0 as nat) + "-"@ + pad2(t.1 as nat) + "-"@ + pad2(t.2 as nat)
}

/// A leap year adds exactly one day to the leap-year count.
proof fn lemma_leaps_step(y: int)
    ensures
        leaps_through(y) - leaps_through(y - 1) == if is_leap(y) {
            1int
        } else {
            0int
        },
{
}

/// Days of the March-based year `t` of a 400-year era, counted from the
/// era's first March 1.
pub open spec fn era_year_start(t: int) -> int {
    365 * t + t / 4 - t / 100
}

/// March 1 of year `400 * e + t` is day `146097 * e + era_year_start(t) - 719468`.
proof fn lemma_march_first(e: int, t: int)
    requires
        e >= 0,
        0 <= t < 400,
    ensures
        days_before_year(400 * e + t) + 59 + (if is_leap(400 * e + t) {
            1int
        } else {
            0int
        }) == 146097 * e + era_year_start(t) - 719468,
{
    let y = 400 * e + t;
    assert(leaps_through(y) == 97 * e + t / 4 - t / 100) by {
        assert(y / 4 == 100 * e + t / 4);
        assert(y / 100 == 4 * e + t / 100);
        assert(y / 400 == e + t / 400);
    }
    lemma_leaps_step(y);
}

/// Era-day `doe` lies in century `c`, 4-year block `q` and day `s` of
/// that block; the era formula's divisions come out as these counts say.
proof fn lemma_era_divisions(doe: int, c: int, q: int, s: int)
    requires
        0 <= c <= 3,
        0 <= q <= 24,
        0 <= s <= 1460,
        q == 24 ==> s <= 1459,
        doe == 36524 * c + 1461 * q + s,
    ensures
        doe / 1460 == 25 * c + q + if 24 * c + q + s >= 1460 {
            1int
        } else {
            0int
        },
        doe / 36524 == c,
        doe / 146096 == 0,
{
    let extra = 24 * c + q + s;
    assert(doe == 1460 * (25 * c + q) + extra);
    if extra >= 1460 {
        assert(doe == 1460 * (25 * c + q + 1) + (extra - 1460));
        assert(extra - 1460 < 1460);
    }
}

/// The March-based year of era-day `doe` and the day's offset in it.
pub open spec fn year_of_era(doe: int) -> int {
    (doe - doe / 1460 + doe / 36524 - doe / 146096) / 365
}

/// The number of days of the March-based year `t` of an era: one more
/// when the February it ends with is a leap February.
pub open spec fn era_year_len(t: int) -> int {
    365 + if ((t + 1) % 4 == 0 && (t + 1) % 100 != 0) || t == 399 {
        1int
    } else {
        0int
    }
}

proof fn lemma_year_of_era(doe: int)
    requires
        0 <= doe < 146097,
    ensures
        0 <= year_of_era(doe) < 400,
        era_year_start(year_of_era(doe)) <= doe,
        doe - era_year_start(year_of_era(doe)) < era_year_len(year_of_era(doe)),
{
    if doe == 146096 {
        assert(year_of_era(doe) == 399);
        assert(era_year_start(399) == 145731);
    } else {
        let c = doe / 36524;
        let r = doe % 36524;
        let q = r / 1461;
        let s = r % 1461;
        assert(doe == 36524 * c + r);
        assert(r == 1461 * q + s);
        assert(c <= 3);
        assert(q <= 24);
        lemma_era_divisions(doe, c, q, s);
        let delta = if 24 * c + q + s >= 1460 {
            1int
        } else {
            0int
        };
        let k = if s / 365 > 3 {
            3int
        } else {
            s / 365
        };
        let t = 100 * c + 4 * q + k;
        assert(doe - doe / 1460 + doe / 36524 - doe / 146096 == 36500 * c + 1460 * q + s - delta);
        assert((s - delta) / 365 == k);
        assert(year_of_era(doe) == t) by {
            assert(36500 * c + 1460 * q + s - delta == 365 * (100 * c + 4 * q) + (s - delta));
        }
        assert(t / 4 == 25 * c + q);
        assert(t / 100 == c);
        assert(era_year_start(t) == 36524 * c + 1461 * q + 365 * k);
    }
}

/// Days of the months before month `mp` of a March-based year
/// (`0` is March, `11` February).
pub open spec fn march_days_before(mp: int) -> int {
    if mp <= 0 {
        0
    } else if mp == 1 {
        31
    } else if mp == 2 {
        61
    } else if mp == 3 {
        92
    } else if mp == 4 {
        122
    } else if mp == 5 {
        153
    } else if mp == 6 {
        184
    } else if mp == 7 {
        214
    } else if mp == 8 {
        245
    } else if mp == 9 {
        275
    } else if mp == 10 {
        306
    } else {
        337
    }
}

/// The calendar month of March-based month `mp`.
pub open spec fn civil_month(mp: int) -> int {
    if mp < 10 {
        mp + 3
    } else {
        mp - 9
    }
}

/// The month of day `doy` of a March-based year found by the
/// `(5 * doy + 2) / 153` formula, and the day's place in it.
proof fn lemma_month_of_year(doy: int, len: int)
    requires
        0 <= doy < len,
        len == 365 || len == 366,
    ensures
        0 <= (5 * doy + 2) / 153 <= 11,
        (153 * ((5 * doy + 2) / 153) + 2) / 5 == march_days_before((5 * doy + 2) / 153),
        march_days_before((5 * doy + 2) / 153) <= doy,
        doy - march_days_before((5 * doy + 2) / 153) < if (5 * doy + 2) / 153 == 11 {
            len - 337
        } else {
            month_len(1, civil_month((5 * doy + 2) / 153))
        },
{
    let mp = (5 * doy + 2) / 153;
    assert(5 * doy + 2 == 153 * mp + (5 * doy + 2) % 153);
    assert(0 <= mp <= 11);
    if mp == 0 {
    } else if mp == 1 {
    } else if mp == 2 {
    } else if mp == 3 {
    } else if mp == 4 {
    } else if mp == 5 {
    } else if mp == 6 {
    } else if mp == 7 {
    } else if mp == 8 {
    } else if mp == 9 {
    } else if mp == 10 {
    } else {
    }
}

/// The date the era method computes for day `n`.
spec fn era_date(n: int) -> (int, int, int) {
    let z = n + 719468;
    let e = z / 146097;
    let doe = z % 146097;
    let t = year_of_era(doe);
    let doy = doe - era_year_start(t);
    let mp = (5 * doy + 2) / 153;
    let m = civil_month(mp);
    (400 * e + t + if m <= 2 {
        1int
    } else {
        0int
    }, m, doy - march_days_before(mp) + 1)
}

/// A year is 365 days long, 366 in a leap year.
proof fn lemma_year_length(y: int)
    ensures
        days_before_year(y + 1) == days_before_year(y) + 365 + if is_leap(y) {
            1int
        } else {
            0int
        },
{
    lemma_leaps_step(y);
}

/// The February a March-based era year ends with is a leap February
/// exactly when the calendar year it falls in is a leap year.
proof fn lemma_leap_february(e: int, t: int)
    requires
        e >= 0,
        0 <= t < 400,
    ensures
        is_leap(400 * e + t + 1) == (era_year_len(t) == 366),
{
    assert((400 * e + t + 1) % 4 == (t + 1) % 4);
    assert((400 * e + t + 1) % 100 == (t + 1) % 100);
    assert((400 * e + t + 1) % 400 == (t + 1) % 400);
}

/// The day count of the date `(y, m, d)` the era method builds from
/// March-based year `t` of era `e`, month `mp` and day offset `doy`.
proof fn lemma_era_date_days(e: int, t: int, doy: int, mp: int)
    requires
        e >= 0,
        0 <= t < 400,
        0 <= mp <= 11,
        march_days_before(mp) <= doy,
    ensures
        ({
            let m = civil_month(mp);
            let y = 400 * e + t + if m <= 2 {
                1int
            } else {
                0int
            };
            days_from_civil(y, m, doy - march_days_before(mp) + 1) == 146097 * e
                + era_year_start(t) + doy - 719468
        }),
{
    lemma_march_first(e, t);
    let m = civil_month(mp);
    if m <= 2 {
        lemma_year_length(400 * e + t);
    }
}

proof fn lemma_era_date_correct(n: int)
    requires
        n >= 0,
    ensures
        valid_date(era_date(n).0, era_date(n).1, era_date(n).2),
        days_from_civil(era_date(n).0, era_date(n).1, era_date(n).2) == n,
{
    let z = n + 719468;
    let e = z / 146097;
    let doe = z % 146097;
    assert(z == 146097 * e + doe);
    lemma_year_of_era(doe);
    let t = year_of_era(doe);
    let doy = doe - era_year_start(t);
    let len = era_year_len(t);
    lemma_month_of_year(doy, len);
    let mp = (5 * doy + 2) / 153;
    lemma_era_date_days(e, t, doy, mp);
    lemma_leap_february(e, t);
}

/// Where in its year a valid date falls: before the year's end.
proof fn lemma_offset_in_year(y: int, m: int, d: int)
    requires
        valid_date(y, m, d),
    ensures
        0 <= days_before_month(y, m) + d - 1 < 365 + if is_leap(y) {
            1int
        } else {
            0int
        },
{
}

/// Later years start later.
proof fn lemma_years_ordered(y1: int, y2: int)
    requires
        y1 < y2,
    ensures
        days_before_year(y1) + 365 + (if is_leap(y1) {
            1int
        } else {
            0int
        }) <= days_before_year(y2),
    decreases y2 - y1,
{
    lemma_year_length(y1);
    if y1 + 1 < y2 {
        lemma_years_ordered(y1 + 1, y2);
        lemma_year_length(y1 + 1);
    }
}

/// Different valid dates fall on different days.
pub proof fn lemma_days_from_civil_injective(a: (int, int, int), b: (int, int, int))
    requires
        valid_date(a.0, a.1, a.2),
        valid_date(b.0, b.1, b.2),
        days_from_civil(a.0, a.1, a.2) == days_from_civil(b.0, b.1, b.2),
    ensures
        a == b,
{
    lemma_offset_in_year(a.0, a.1, a.2);
    lemma_offset_in_year(b.0, b.1, b.2);
    if a.0 < b.0 {
        lemma_years_ordered(a.0, b.0);
    } else if b.0 < a.0 {
        lemma_years_ordered(b.0, a.0);
    }
    assert(a.0 == b.0);
}

/// Every day from 1970-01-01 on has exactly one valid date, and
/// `civil_from_days` gives it.
pub proof fn lemma_civil_from_days(n: int)
    requires
        n >= 0,
    ensures
        valid_date(civil_from_days(n).0, civil_from_days(n).1, civil_from_days(n).2),
        days_from_civil(civil_from_days(n).0, civil_from_days(n).1, civil_from_days(n).2) == n,
{
    lemma_civil_is_era_date(n);
}

proof fn lemma_civil_is_era_date(n: int)
    requires
        n >= 0,
    ensures
        civil_from_days(n) == era_date(n),
        valid_date(era_date(n).0, era_date(n).1, era_date(n).2),
        days_from_civil(era_date(n).0, era_date(n).1, era_date(n).2) == n,
{
    lemma_era_date_correct(n);
    let w = era_date(n);
    assert(valid_date(w.0, w.1, w.2) && days_from_civil(w.0, w.1, w.2) == n);
    let c = civil_from_days(n);
    lemma_days_from_civil_injective(c, w);
}

/// `YYYY-MM-DD` of the UTC day that Unix time `secs` falls on.
pub fn format_unix_date(secs: u64) -> (r: String)
    ensures
        r@ == date_text(civil_from_days((secs / 86400) as int)),
{
    let days = secs / 86_400;
    let z = days + 719_468;
    let era = z / 146_097;
    let doe = z - era * 146_097;
    proof {
        lemma_civil_is_era_date(days as int);
        lemma_year_of_era(doe as int);
        lemma_era_divisions_bounds(doe as int);
    }
    let yoe = (doe - doe / 1460 + doe / 36_524 - doe / 146_096) / 365;
    let doy = doe - (365 * yoe + yoe / 4 - yoe / 100);
    proof {
        lemma_month_of_year(doy as int, era_year_len(yoe as int));
    }
    let mp = (5 * doy + 2) / 153;
    let d = doy - (153 * mp + 2) / 5 + 1;
    let m = if mp < 10 {
        mp + 3
    } else {
        mp - 9
    };
    let y = if m <= 2 {
        yoe + era * 400 + 1
    } else {
        yoe + era * 400
    };
    let mut s = String::new();
    push_pad4(&mut s, y);
    push_str(&mut s, "-");
    push_pad2(&mut s, m);
    push_str(&mut s, "-");
    push_pad2(&mut s, d);
    s
}

proof fn lemma_era_divisions_bounds(doe: int)
    requires
        0 <= doe < 146097,
    ensures
        doe / 1460 <= doe,
        doe / 146096 <= 1,
        doe - doe / 1460 + doe / 36524 - doe / 146096 >= 0,
{
}

} // verus!
