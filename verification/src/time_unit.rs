use vstd::prelude::*;

verus! {

/// The tick granularity of a temporal column: how many ticks make up one
/// second of elapsed time since the epoch.
#[derive(Clone, Copy, Debug, PartialEq, Eq, Structural)]
pub enum TimeUnit {
    Nanoseconds,
    Microseconds,
    Milliseconds,
}

impl TimeUnit {
    /// Number of ticks in one second at this resolution.
    pub open spec fn ticks_per_second(self) -> int {
        match self {
            TimeUnit::Nanoseconds => 1_000_000_000,
            TimeUnit::Microseconds => 1_000_000,
            TimeUnit::Milliseconds => 1_000,
        }
    }

    /// Number of nanoseconds in one tick at this resolution.
    pub open spec fn nanos_per_tick(self) -> int {
        match self {
            TimeUnit::Nanoseconds => 1,
            TimeUnit::Microseconds => 1_000,
            TimeUnit::Milliseconds => 1_000_000,
        }
    }

    /// Executable counterpart of `ticks_per_second`.
    pub fn ticks_per_second_exec(self) -> (r: i64)
        ensures
            r == self.ticks_per_second(),
    {
        match self {
            TimeUnit::Nanoseconds => 1_000_000_000,
            TimeUnit::Microseconds => 1_000_000,
            TimeUnit::Milliseconds => 1_000,
        }
    }

    /// Executable counterpart of `nanos_per_tick`.
    pub fn nanos_per_tick_exec(self) -> (r: i64)
        ensures
            r == self.nanos_per_tick(),
    {
        match self {
            TimeUnit::Nanoseconds => 1,
            TimeUnit::Microseconds => 1_000,
            TimeUnit::Milliseconds => 1_000_000,
        }
    }
}

/// The integer scale factor between two resolutions: always 1, 1,000 or
/// 1,000,000, since the three supported resolutions are decimally related.
pub open spec fn spec_scale_factor(a: TimeUnit, b: TimeUnit) -> int {
    if a.ticks_per_second() >= b.ticks_per_second() {
        a.ticks_per_second() / b.ticks_per_second()
    } else {
        b.ticks_per_second() / a.ticks_per_second()
    }
}

/// Integer scale factor between two resolutions (see `spec_scale_factor`).
pub fn scale_factor(a: TimeUnit, b: TimeUnit) -> (r: i64)
    ensures
        r == spec_scale_factor(a, b),
        r == 1 || r == 1_000 || r == 1_000_000,
{
    let x = a.ticks_per_second_exec();
    let y = b.ticks_per_second_exec();
    if x >= y {
        x / y
    } else {
        y / x
    }
}

/// Division truncating toward zero, as the `/` operator of the execution
/// language behaves on signed integers. Meaningful for `b > 0`.
pub open spec fn trunc_div(a: int, b: int) -> int {
    if a >= 0 {
        a / b
    } else {
        -((-a) / b)
    }
}

/// What one tick becomes when a column is rescaled from resolution `from`
/// to resolution `to`: multiplied by the scale factor when moving to a finer
/// resolution, divided by it (truncating toward zero, losing any remainder)
/// when moving to a coarser one.
pub open spec fn rescaled_tick(t: int, from: TimeUnit, to: TimeUnit) -> int {
    if to.ticks_per_second() >= from.ticks_per_second() {
        t * (to.ticks_per_second() / from.ticks_per_second())
    } else {
        trunc_div(t, from.ticks_per_second() / to.ticks_per_second())
    }
}

/// The three resolutions have these tick rates and no others.
pub proof fn lemma_tps_values(u: TimeUnit)
    ensures
        u.ticks_per_second() == 1_000_000_000 || u.ticks_per_second() == 1_000_000
            || u.ticks_per_second() == 1_000,
{
    match u {
        TimeUnit::Nanoseconds => {},
        TimeUnit::Microseconds => {},
        TimeUnit::Milliseconds => {},
    }
}

/// Rescaling is exactly reversible on ticks that are a whole multiple of the
/// scale factor: going from a finer resolution `from` to a coarser `to` and
/// back returns the original tick unchanged.
pub proof fn lemma_rescale_exact_round_trip(t: int, from: TimeUnit, to: TimeUnit)
    requires
        from.ticks_per_second() >= to.ticks_per_second(),
        t % (from.ticks_per_second() / to.ticks_per_second()) == 0,
    ensures
        rescaled_tick(rescaled_tick(t, from, to), to, from) == t,
{
    lemma_tps_values(from);
    lemma_tps_values(to);
    let f = from.ticks_per_second() / to.ticks_per_second();
    lemma_trunc_div_exact(t, f);
    let k = trunc_div(t, f);
    assert(k * f == t);
    if from.ticks_per_second() == to.ticks_per_second() {
        assert(rescaled_tick(t, from, to) == t * 1);
        assert(rescaled_tick(t * 1, to, from) == t * 1 * 1);
    } else {
        assert(rescaled_tick(t, from, to) == k);
        assert(rescaled_tick(k, to, from) == k * f);
    }
}

/// The instance spelled out: a nanosecond tick that is a whole multiple of
/// 1,000,000 survives the trip to milliseconds and back unchanged.
pub proof fn lemma_ns_ms_ns_round_trip(t: int)
    requires
        t % 1_000_000 == 0,
    ensures
        rescaled_tick(
            rescaled_tick(t, TimeUnit::Nanoseconds, TimeUnit::Milliseconds),
            TimeUnit::Milliseconds,
            TimeUnit::Nanoseconds,
        ) == t,
{
    lemma_rescale_exact_round_trip(t, TimeUnit::Nanoseconds, TimeUnit::Milliseconds);
}

/// For a positive divisor `f` that divides `t` exactly, truncating division
/// is exact: `trunc_div(t, f) * f == t`.
pub proof fn lemma_trunc_div_exact(t: int, f: int)
    requires
        f > 0,
        t % f == 0,
    ensures
        trunc_div(t, f) * f == t,
{
    vstd::arithmetic::div_mod::lemma_fundamental_div_mod(t, f);
    let k = t / f;
    assert(t == f * k);
    if t >= 0 {
        assert(trunc_div(t, f) == k);
        assert(k * f == f * k) by (nonlinear_arith);
    } else {
        assert(-t == f * (-k)) by (nonlinear_arith)
            requires
                t == f * k,
        ;
        assert((f * (-k)) / f == -k) by {
            vstd::arithmetic::div_mod::lemma_fundamental_div_mod_converse(f * (-k), f, -k, 0);
        }
        assert(trunc_div(t, f) == -((-t) / f));
        assert(trunc_div(t, f) == k);
        assert(k * f == f * k) by (nonlinear_arith);
    }
}

/// Rescaling to a coarser resolution truncates toward zero: going back to the
/// finer resolution yields the original tick with its remainder against the
/// scale factor discarded.
pub proof fn lemma_rescale_lossy_round_trip(t: int, from: TimeUnit, to: TimeUnit)
    requires
        from.ticks_per_second() >= to.ticks_per_second(),
    ensures
        rescaled_tick(rescaled_tick(t, from, to), to, from) == trunc_div(
            t,
            from.ticks_per_second() / to.ticks_per_second(),
        ) * (from.ticks_per_second() / to.ticks_per_second()),
{
    lemma_tps_values(from);
    lemma_tps_values(to);
    let f = from.ticks_per_second() / to.ticks_per_second();
    let k = trunc_div(t, f);
    if from.ticks_per_second() == to.ticks_per_second() {
        assert(f == 1);
        lemma_trunc_div_one(t);
        assert(rescaled_tick(t, from, to) == t * 1);
        assert(rescaled_tick(t * 1, to, from) == t * 1 * 1);
    } else {
        assert(rescaled_tick(t, from, to) == k);
        assert(rescaled_tick(k, to, from) == k * f);
    }
}

/// Truncating division by one is the identity.
pub proof fn lemma_trunc_div_one(t: int)
    ensures
        trunc_div(t, 1) == t,
{
    if t >= 0 {
        vstd::arithmetic::div_mod::lemma_fundamental_div_mod_converse(t, 1, t, 0);
    } else {
        vstd::arithmetic::div_mod::lemma_fundamental_div_mod_converse(-t, 1, -t, 0);
    }
}

} // verus!
