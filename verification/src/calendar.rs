use crate::time_unit::TimeUnit;
use vstd::prelude::*;

verus! {

/// A decoded, human-meaningful datetime: proleptic Gregorian calendar date
/// plus time of day, as opposed to a raw tick.
#[derive(Clone, Copy, Debug, PartialEq, Eq, Structural)]
pub struct CalendarDateTime {
    pub year: i32,
    pub month: u8,
    pub day: u8,
    pub hour: u8,
    pub minute: u8,
    pub second: u8,
    pub nanosecond: u32,
}

/// Gregorian leap-year rule.
pub open spec fn is_leap_year(y: int) -> bool {
    y % 4 == 0 && (y % 100 != 0 || y % 400 == 0)
}

/// Number of days in a month of the Gregorian calendar.
pub open spec fn days_in_month(y: int, m: int) -> int {
    if m == 2 {
        if is_leap_year(y) {
            29
        } else {
            28
        }
    } else if m == 4 || m == 6 || m == 9 || m == 11 {
        30
    } else {
        31
    }
}

impl CalendarDateTime {
    /// A calendar value is valid when every field lies in its calendar range.
    pub open spec fn valid(self) -> bool {
        &&& 1 <= self.month <= 12
        &&& 1 <= self.day <= days_in_month(self.year as int, self.month as int)
        &&& self.hour < 24
        &&& self.minute < 60
        &&& self.second < 60
        &&& self.nanosecond < 1_000_000_000
    }
}

/// Days since the epoch 1970-01-01 of the Gregorian date (y, m, d), for
/// 1 <= m <= 12. Counts in eras of 400 years (146097 days), with years
/// starting in March so the leap day falls last.
pub open spec fn days_from_civil(y: int, m: int, d: int) -> int {
    let yy = if m <= 2 {
        y - 1
    } else {
        y
    };
    let era = yy / 400;
    let yoe = yy - era * 400;
    let mp = if m > 2 {
        m - 3
    } else {
        m + 9
    };
    let doy = (153 * mp + 2) / 5 + d - 1;
    let doe = yoe * 365 + yoe / 4 - yoe / 100 + doy;
    era * 146097 + doe - 719468
}

/// The Gregorian date (year, month, day) that lies `days` days after the
/// epoch 1970-01-01. Inverse of `days_from_civil`.
pub open spec fn civil_from_days(days: int) -> (int, int, int) {
    let z = days + 719468;
    let era = z / 146097;
    let doe = z - era * 146097;
    let yoe = (doe - doe / 1460 + doe / 36524 - doe / 146096) / 365;
    let y = yoe + era * 400;
    let doy = doe - (365 * yoe + yoe / 4 - yoe / 100);
    let mp = (5 * doy + 2) / 153;
    let d = doy - (153 * mp + 2) / 5 + 1;
    let m = if mp < 10 {
        mp + 3
    } else {
        mp - 9
    };
    (
        if m <= 2 {
            y + 1
        } else {
            y
        },
        m,
        d,
    )
}

/// The tick that encodes calendar value `v` at resolution `tu`: whole seconds
/// since the epoch scaled by the tick rate, plus the sub-second part of the
/// nanosecond field truncated to whole ticks.
pub open spec fn tick_of_datetime(v: CalendarDateTime, tu: TimeUnit) -> int {
    let days = days_from_civil(v.year as int, v.month as int, v.day as int);
    let secs = days * 86400 + (v.hour as int) * 3600 + (v.minute as int) * 60 + (v.second as int);
    secs * tu.ticks_per_second() + (v.nanosecond as int) / tu.nanos_per_tick()
}

/// The calendar value that tick `t` decodes to at resolution `tu`.
/// Total: every tick decodes.
pub open spec fn datetime_of_tick(t: int, tu: TimeUnit) -> CalendarDateTime {
    let tps = tu.ticks_per_second();
    let secs = t / tps;
    let frac = t % tps;
    let days = secs / 86400;
    let sod = secs % 86400;
    let ymd = civil_from_days(days);
    CalendarDateTime {
        year: ymd.0 as i32,
        month: ymd.1 as u8,
        day: ymd.2 as u8,
        hour: (sod / 3600) as u8,
        minute: ((sod % 3600) / 60) as u8,
        second: (sod % 60) as u8,
        nanosecond: (frac * tu.nanos_per_tick()) as u32,
    }
}

/// Euclidean division by a positive divisor stays between the dividend
/// and zero, so it never leaves the `i64` range.
pub proof fn lemma_floor_div_in_i64_range(a: int, b: int)
    requires
        b >= 1,
    ensures
        a >= 0 ==> 0 <= a / b <= a,
        a < 0 ==> a <= a / b <= 0,
{
    if a >= 0 {
        vstd::arithmetic::div_mod::lemma_div_pos_is_pos(a, b);
        vstd::arithmetic::div_mod::lemma_div_is_ordered_by_denominator(a, 1, b);
        vstd::arithmetic::div_mod::lemma_fundamental_div_mod_converse(a, 1, a, 0);
    } else {
        let m = -a - 1;
        let md = m / b;
        let r = m % b;
        vstd::arithmetic::div_mod::lemma_div_pos_is_pos(m, b);
        vstd::arithmetic::div_mod::lemma_div_is_ordered_by_denominator(m, 1, b);
        vstd::arithmetic::div_mod::lemma_fundamental_div_mod_converse(m, 1, m, 0);
        vstd::arithmetic::div_mod::lemma_fundamental_div_mod(m, b);
        vstd::arithmetic::div_mod::lemma_mod_bound(m, b);
        assert(a == b * (-md - 1) + (b - 1 - r)) by (nonlinear_arith)
            requires
                m == b * md + r,
                a == -m - 1,
        ;
        vstd::arithmetic::div_mod::lemma_fundamental_div_mod_converse(a, b, -md - 1, b - 1 - r);
    }
}

/// Euclidean division of an `i64` by a positive `i64`.
pub(crate) fn div_e(a: i64, b: i64) -> (r: i64)
    requires
        b >= 1,
    ensures
        r as int == a as int / b as int,
{
    proof {
        lemma_floor_div_in_i64_range(a as int, b as int);
    }
    a.checked_div_euclid(b).unwrap()
}

/// Euclidean remainder of an `i64` by a positive `i64`.
pub(crate) fn rem_e(a: i64, b: i64) -> (r: i64)
    requires
        b >= 1,
    ensures
        r as int == a as int % b as int,
        0 <= r < b,
{
    proof {
        vstd::arithmetic::div_mod::lemma_mod_bound(a as int, b as int);
    }
    a.checked_rem_euclid(b).unwrap()
}

/// Executable counterpart of `days_in_month`.
pub fn days_in_month_exec(y: i32, m: u8) -> (r: u8)
    ensures
        r as int == days_in_month(y as int, m as int),
{
    if m == 2 {
        let r4 = rem_e(y as i64, 4);
        let r100 = rem_e(y as i64, 100);
        let r400 = rem_e(y as i64, 400);
        if r4 == 0 && (r100 != 0 || r400 == 0) {
            29
        } else {
            28
        }
    } else if m == 4 || m == 6 || m == 9 || m == 11 {
        30
    } else {
        31
    }
}

/// Executable counterpart of `CalendarDateTime::valid`.
pub fn valid_exec(v: &CalendarDateTime) -> (r: bool)
    ensures
        r == v.valid(),
{
    1 <= v.month && v.month <= 12 && 1 <= v.day && v.day <= days_in_month_exec(v.year, v.month)
        && v.hour < 24 && v.minute < 60 && v.second < 60 && v.nanosecond < 1_000_000_000
}

/// Executable counterpart of `days_from_civil`.
pub fn days_from_civil_exec(y: i64, m: i64, d: i64) -> (r: i64)
    requires
        -3_000_000_000 <= y <= 3_000_000_000,
        1 <= m <= 12,
        1 <= d <= 31,
    ensures
        r as int == days_from_civil(y as int, m as int, d as int),
{
    let yy: i64 = if m <= 2 {
        y - 1
    } else {
        y
    };
    let era = div_e(yy, 400);
    proof {
        lemma_floor_div_in_i64_range(yy as int, 400);
        vstd::arithmetic::div_mod::lemma_fundamental_div_mod(yy as int, 400);
        vstd::arithmetic::div_mod::lemma_mod_bound(yy as int, 400);
    }
    let yoe = yy - era * 400;
    let mp: i64 = if m > 2 {
        m - 3
    } else {
        m + 9
    };
    let doy = div_e(153 * mp + 2, 5) + d - 1;
    proof {
        lemma_floor_div_in_i64_range(153 * mp as int + 2, 5);
        lemma_floor_div_in_i64_range(yoe as int, 4);
        lemma_floor_div_in_i64_range(yoe as int, 100);
    }
    let doe = yoe * 365 + div_e(yoe, 4) - div_e(yoe, 100) + doy;
    era * 146097 + doe - 719468
}

/// Executable counterpart of `civil_from_days`. The year is truncated into
/// `i32` and month and day into `u8` exactly as the specification does.
pub fn civil_from_days_exec(days: i64) -> (r: (i32, u8, u8))
    requires
        -300_000_000_000 <= days <= 300_000_000_000,
    ensures
        r.0 as int == civil_from_days(days as int).0 as i32 as int,
        r.1 as int == civil_from_days(days as int).1 as u8 as int,
        r.2 as int == civil_from_days(days as int).2 as u8 as int,
{
    let z = days + 719468;
    let era = div_e(z, 146097);
    proof {
        lemma_floor_div_in_i64_range(z as int, 146097);
        vstd::arithmetic::div_mod::lemma_fundamental_div_mod(z as int, 146097);
        vstd::arithmetic::div_mod::lemma_mod_bound(z as int, 146097);
    }
    let doe = z - era * 146097;
    proof {
        lemma_floor_div_in_i64_range(doe as int, 1460);
        lemma_floor_div_in_i64_range(doe as int, 36524);
        lemma_floor_div_in_i64_range(doe as int, 146096);
    }
    let adj = doe - div_e(doe, 1460) + div_e(doe, 36524) - div_e(doe, 146096);
    proof {
        lemma_floor_div_in_i64_range(adj as int, 365);
    }
    let yoe = div_e(adj, 365);
    let y = yoe + era * 400;
    proof {
        lemma_floor_div_in_i64_range(yoe as int, 4);
        lemma_floor_div_in_i64_range(yoe as int, 100);
    }
    let doy = doe - (365 * yoe + div_e(yoe, 4) - div_e(yoe, 100));
    proof {
        lemma_floor_div_in_i64_range(5 * doy as int + 2, 153);
    }
    let mp = div_e(5 * doy + 2, 153);
    proof {
        lemma_floor_div_in_i64_range(153 * mp as int + 2, 5);
    }
    let d = doy - div_e(153 * mp + 2, 5) + 1;
    let m: i64 = if mp < 10 {
        mp + 3
    } else {
        mp - 9
    };
    let yr: i64 = if m <= 2 {
        y + 1
    } else {
        y
    };
    (
        #[verifier::truncate] (yr as i32),
        #[verifier::truncate] (m as u8),
        #[verifier::truncate] (d as u8),
    )
}

/// Encode a calendar value as a tick at resolution `tu`.
///
/// Returns the tick when the value is valid and the result fits in 64 bits;
/// `None` exactly otherwise. The sub-second part is truncated to whole ticks.
pub fn encode(v: &CalendarDateTime, tu: TimeUnit) -> (r: Option<i64>)
    ensures
        r matches Some(t) ==> t as int == tick_of_datetime(*v, tu),
        r is Some <==> (v.valid() && i64::MIN <= tick_of_datetime(*v, tu) <= i64::MAX),
{
    if !valid_exec(v) {
        return None;
    }
    let days = days_from_civil_exec(v.year as i64, v.month as i64, v.day as i64);
    proof {
        lemma_days_from_civil_bounded(v.year as int, v.month as int, v.day as int);
    }
    let secs = days * 86400 + (v.hour as i64) * 3600 + (v.minute as i64) * 60 + (v.second as i64);
    let tps = tu.ticks_per_second_exec();
    let npt = tu.nanos_per_tick_exec();
    let sub = v.nanosecond / (npt as u32);
    proof {
        crate::time_unit::lemma_tps_values(tu);
        vstd::arithmetic::div_mod::lemma_div_pos_is_pos(v.nanosecond as int, npt as int);
    }
    let total: i128 = (secs as i128) * (tps as i128) + (sub as i128);
    if total >= i64::MIN as i128 && total <= i64::MAX as i128 {
        Some(total as i64)
    } else {
        None
    }
}

/// For a valid calendar date the day number is moderate in size: it fits
/// comfortably within the ranges the encoding arithmetic needs.
pub proof fn lemma_days_from_civil_bounded(y: int, m: int, d: int)
    requires
        -3_000_000_000 <= y <= 3_000_000_000,
        1 <= m <= 12,
        1 <= d <= 31,
    ensures
        -1_200_000_000_000 <= days_from_civil(y, m, d) <= 1_200_000_000_000,
{
    let yy = if m <= 2 {
        y - 1
    } else {
        y
    };
    let era = yy / 400;
    lemma_floor_div_in_i64_range(yy, 400);
    vstd::arithmetic::div_mod::lemma_fundamental_div_mod(yy, 400);
    vstd::arithmetic::div_mod::lemma_mod_bound(yy, 400);
    let yoe = yy - era * 400;
    let mp = if m > 2 {
        m - 3
    } else {
        m + 9
    };
    lemma_floor_div_in_i64_range(153 * mp + 2, 5);
    lemma_floor_div_in_i64_range(yoe, 4);
    lemma_floor_div_in_i64_range(yoe, 100);
    assert(-8_000_000 <= era <= 8_000_000) by (nonlinear_arith)
        requires
            yy == 400 * era + yy % 400,
            0 <= yy % 400 < 400,
            -3_000_000_001 <= yy <= 3_000_000_000,
    ;
}

/// Decode a tick at resolution `tu` into a calendar value. Total.
pub fn decode(t: i64, tu: TimeUnit) -> (r: CalendarDateTime)
    ensures
        r == datetime_of_tick(t as int, tu),
{
    let tps = tu.ticks_per_second_exec();
    proof {
        crate::time_unit::lemma_tps_values(tu);
        lemma_floor_div_in_i64_range(t as int, tps as int);
    }
    let secs = div_e(t, tps);
    let frac = rem_e(t, tps);
    let npt = tu.nanos_per_tick_exec();
    proof {
        lemma_decode_cast_fields(t as int, tu);
        lemma_floor_div_in_i64_range(secs as int, 86400);
    }
    let ns = (frac as u64) * (npt as u64);
    let days = div_e(secs, 86400);
    let sod = rem_e(secs, 86400);
    let sodu = sod as u64;
    let h = sodu / 3600;
    let mi = (sodu % 3600) / 60;
    let s = sodu % 60;
    let ymd = civil_from_days_exec(days);
    CalendarDateTime {
        year: ymd.0,
        month: ymd.1,
        day: ymd.2,
        hour: h as u8,
        minute: mi as u8,
        second: s as u8,
        nanosecond: ns as u32,
    }
}

/// The time-of-day and sub-second casts in `datetime_of_tick` are never
/// truncating: the divided and reduced values already lie in range.
proof fn lemma_decode_cast_fields(t: int, tu: TimeUnit)
    ensures
        ({
            let tps = tu.ticks_per_second();
            let secs = t / tps;
            let sod = secs % 86400;
            let frac = t % tps;
            &&& 0 <= sod < 86400
            &&& 0 <= sod / 3600 < 24
            &&& 0 <= (sod % 3600) / 60 < 60
            &&& 0 <= sod % 60 < 60
            &&& 0 <= frac * tu.nanos_per_tick() < 1_000_000_000
        }),
{
    crate::time_unit::lemma_tps_values(tu);
    let tps = tu.ticks_per_second();
    let secs = t / tps;
    let sod = secs % 86400;
    let frac = t % tps;
    vstd::arithmetic::div_mod::lemma_mod_bound(secs, 86400);
    vstd::arithmetic::div_mod::lemma_mod_bound(t, tps);
    vstd::arithmetic::div_mod::lemma_mod_bound(sod, 3600);
    vstd::arithmetic::div_mod::lemma_mod_bound(sod, 60);
    lemma_floor_div_in_i64_range(sod, 3600);
    lemma_floor_div_in_i64_range(sod % 3600, 60);
    assert(sod / 3600 < 24) by {
        vstd::arithmetic::div_mod::lemma_div_is_ordered(sod, 86399, 3600);
    }
    assert((sod % 3600) / 60 < 60) by {
        vstd::arithmetic::div_mod::lemma_div_is_ordered(sod % 3600, 3599, 60);
    }
    assert(frac * tu.nanos_per_tick() < 1_000_000_000) by (nonlinear_arith)
        requires
            0 <= frac < tps,
            tps * tu.nanos_per_tick() == 1_000_000_000,
            tu.nanos_per_tick() >= 1,
    ;
    assert(tps * tu.nanos_per_tick() == 1_000_000_000) by {
        crate::time_unit::lemma_tps_values(tu);
    }
    assert(0 <= frac * tu.nanos_per_tick()) by (nonlinear_arith)
        requires
            0 <= frac,
            tu.nanos_per_tick() >= 1,
    ;
}

/// Decode is a left inverse of encode: decoding an encoded calendar value
/// returns it unchanged, for every valid calendar value whose nanosecond
/// field is representable at the resolution (a whole number of ticks).
pub proof fn lemma_decode_encode_identity(v: CalendarDateTime, tu: TimeUnit)
    requires
        v.valid(),
        (v.nanosecond as int) % tu.nanos_per_tick() == 0,
    ensures
        datetime_of_tick(tick_of_datetime(v, tu), tu) == v,
{
    crate::time_unit::lemma_tps_values(tu);
    let tps = tu.ticks_per_second();
    let npt = tu.nanos_per_tick();
    let days = days_from_civil(v.year as int, v.month as int, v.day as int);
    let tod = (v.hour as int) * 3600 + (v.minute as int) * 60 + (v.second as int);
    let secs = days * 86400 + tod;
    let ns = v.nanosecond as int;
    let sub = ns / npt;
    let t = tick_of_datetime(v, tu);
    assert(t == secs * tps + sub);
    assert(0 <= sub) by {
        vstd::arithmetic::div_mod::lemma_div_pos_is_pos(ns, npt);
    }
    assert(sub < tps) by {
        assert(npt * tps == 1_000_000_000);
        vstd::arithmetic::div_mod::lemma_multiply_divide_lt(ns, npt, tps);
    }
    assert(t == tps * secs + sub) by (nonlinear_arith)
        requires
            t == secs * tps + sub,
    ;
    vstd::arithmetic::div_mod::lemma_fundamental_div_mod_converse(t, tps, secs, sub);
    assert(t / tps == secs);
    assert(t % tps == sub);
    assert(sub * npt == ns) by {
        vstd::arithmetic::div_mod::lemma_fundamental_div_mod(ns, npt);
        assert(ns == npt * sub + 0);
        assert(npt * sub == sub * npt) by (nonlinear_arith);
    }
    assert(0 <= tod < 86400);
    assert(secs == 86400 * days + tod) by (nonlinear_arith)
        requires
            secs == days * 86400 + tod,
    ;
    vstd::arithmetic::div_mod::lemma_fundamental_div_mod_converse(secs, 86400, days, tod);
    assert(secs % 86400 == tod);
    let rest = (v.minute as int) * 60 + (v.second as int);
    assert(tod == 3600 * (v.hour as int) + rest) by (nonlinear_arith)
        requires
            tod == (v.hour as int) * 3600 + rest,
    ;
    assert(0 <= rest < 3600);
    vstd::arithmetic::div_mod::lemma_fundamental_div_mod_converse(tod, 3600, v.hour as int, rest);
    assert(tod / 3600 == v.hour as int);
    assert(tod % 3600 == rest);
    assert(rest == 60 * (v.minute as int) + (v.second as int)) by (nonlinear_arith)
        requires
            rest == (v.minute as int) * 60 + (v.second as int),
    ;
    vstd::arithmetic::div_mod::lemma_fundamental_div_mod_converse(
        rest,
        60,
        v.minute as int,
        v.second as int,
    );
    assert(rest / 60 == v.minute as int);
    assert(rest % 60 == v.second as int);
    lemma_civil_round_trip(v.year as int, v.month as int, v.day as int);
    assert(secs / 86400 == days);
    assert(civil_from_days(days).0 == v.year as int);
    assert(datetime_of_tick(t, tu) == v);
}

/// `civil_from_days` is a left inverse of `days_from_civil` on every
/// valid Gregorian date.
#[verifier::rlimit(100)]
pub proof fn lemma_civil_round_trip(y: int, m: int, d: int)
    requires
        -3_000_000_000 <= y <= 3_000_000_000,
        1 <= m <= 12,
        1 <= d <= days_in_month(y, m),
    ensures
        civil_from_days(days_from_civil(y, m, d)).0 == y,
        civil_from_days(days_from_civil(y, m, d)).1 == m,
        civil_from_days(days_from_civil(y, m, d)).2 == d,
{
    let yy = if m <= 2 { y - 1 } else { y };
    let era = yy / 400;
    let yoe = yy - era * 400;
    vstd::arithmetic::div_mod::lemma_fundamental_div_mod(yy, 400);
    vstd::arithmetic::div_mod::lemma_mod_bound(yy, 400);
    assert(0 <= yoe < 400);
    let mp = if m > 2 { m - 3 } else { m + 9 };
    let doy = (153 * mp + 2) / 5 + d - 1;
    assert(0 <= doy <= 365);
    let doe = yoe * 365 + yoe / 4 - yoe / 100 + doy;
    assert(0 <= doe < 146097);
    let days = days_from_civil(y, m, d);
    let z = days + 719468;
    assert(z == era * 146097 + doe);
    assert(z == 146097 * era + doe) by (nonlinear_arith)
        requires z == era * 146097 + doe,
    ;
    vstd::arithmetic::div_mod::lemma_fundamental_div_mod_converse(z, 146097, era, doe);
    assert(z / 146097 == era);
    let adj = doe - doe / 1460 + doe / 36524 - doe / 146096;
    assert(365 * yoe <= adj < 365 * yoe + 365);
    assert(adj / 365 == yoe);
    let doy2 = doe - (365 * yoe + yoe / 4 - yoe / 100);
    assert(doy2 == doy);
    let mp2 = (5 * doy + 2) / 153;
    assert(mp2 == mp);
    let d2 = doy - (153 * mp + 2) / 5 + 1;
    assert(d2 == d);
}

} // verus!
