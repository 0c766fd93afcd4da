use crate::column::{same_null_mask, zone_view, DatetimeChunked};
use crate::errors::TemporalError;
use crate::time_unit::TimeUnit;
use crate::zone::{
    local_offset_of, utc_offset_of, valid_zone, validate_time_zone, zone_local_offset,
    zone_utc_offset,
};
use vstd::prelude::*;

verus! {

/// Spec view of an optional borrowed zone identifier.
pub open spec fn opt_zone_view(z: Option<&str>) -> Option<Seq<char>> {
    match z {
        Option::Some(s) => Option::Some(s@),
        Option::None => Option::None,
    }
}

/// Reading tick `t` as wall-clock time in zone `z`, the UTC tick of the
/// same instant: the zone's offset at that wall time, scaled to ticks, is
/// subtracted. Nothing when the zone cannot resolve the wall time or the
/// result leaves the 64-bit range.
pub open spec fn wall_to_utc(t: int, tu: TimeUnit, z: Seq<char>) -> Option<int> {
    let tps = tu.ticks_per_second();
    match zone_local_offset(z, t / tps) {
        Option::Some(off) => {
            let r = t - off * tps;
            if i64::MIN <= r <= i64::MAX {
                Option::Some(r)
            } else {
                Option::None
            }
        },
        Option::None => Option::None,
    }
}

/// Reading tick `t` as a UTC instant, the wall-clock tick it shows in zone
/// `z`: the zone's offset at that instant, scaled to ticks, is added.
pub open spec fn utc_to_wall(t: int, tu: TimeUnit, z: Seq<char>) -> Option<int> {
    let tps = tu.ticks_per_second();
    match zone_utc_offset(z, t / tps) {
        Option::Some(off) => {
            let r = t + off * tps;
            if i64::MIN <= r <= i64::MAX {
                Option::Some(r)
            } else {
                Option::None
            }
        },
        Option::None => Option::None,
    }
}

/// What one tick becomes under a zone cast, by (source zone, target zone):
/// zone to zone goes through UTC, dropping the zone converts to the UTC
/// reading, attaching a zone treats the naive ticks as already UTC, and the
/// naive-to-naive cast is the identity.
pub open spec fn converted_tick(
    t: int,
    tu: TimeUnit,
    from: Option<Seq<char>>,
    to: Option<Seq<char>>,
) -> Option<int> {
    match (from, to) {
        (Option::None, Option::None) => Option::Some(t),
        (Option::Some(f), Option::None) => wall_to_utc(t, tu, f),
        (Option::None, Option::Some(g)) => utc_to_wall(t, tu, g),
        (Option::Some(f), Option::Some(g)) => match wall_to_utc(t, tu, f) {
            Option::Some(u) => utc_to_wall(u, tu, g),
            Option::None => Option::None,
        },
    }
}

/// Whether the requested target zone is acceptable: a missing target always
/// is, a present one must be a valid zone.
pub open spec fn target_zone_ok(to: Option<Seq<char>>) -> bool {
    to matches Some(z) ==> valid_zone(z)
}

/// Element-wise conversion relation between two tick sequences: same length,
/// same null mask, and every non-null tick of `src` converts to the tick at
/// the same index of `dst`.
pub open spec fn ticks_cast(
    src: Seq<Option<i64>>,
    dst: Seq<Option<i64>>,
    tu: TimeUnit,
    from: Option<Seq<char>>,
    to: Option<Seq<char>>,
) -> bool {
    &&& same_null_mask(src, dst)
    &&& forall|i: int|
        0 <= i < src.len() ==> (#[trigger] src[i] matches Some(t) ==> converted_tick(
            t as int,
            tu,
            from,
            to,
        ) == Some(dst[i].unwrap() as int))
}

/// Every non-null tick of the sequence converts between the two zones.
pub open spec fn ticks_castable(
    src: Seq<Option<i64>>,
    tu: TimeUnit,
    from: Option<Seq<char>>,
    to: Option<Seq<char>>,
) -> bool {
    forall|i: int|
        0 <= i < src.len() ==> (#[trigger] src[i] matches Some(t) ==> converted_tick(
            t as int,
            tu,
            from,
            to,
        ) is Some)
}

/// `mid` is the neutral-frame image of a column whose zone is `z`: the same
/// name and resolution, the neutral zone label, and every tick converted
/// from `z` to the neutral zone.
pub open spec fn neutral_frame_of(src: DatetimeChunked, mid: DatetimeChunked, z: Seq<char>) -> bool {
    &&& mid.name@ == src.name@
    &&& mid.unit == src.unit
    &&& zone_view(mid.zone) == Some("UTC"@)
    &&& ticks_cast(src.ticks@, mid.ticks@, src.unit, Some(z), Some("UTC"@))
}

/// Executable counterpart of `wall_to_utc`.
fn wall_to_utc_exec(t: i64, tu: TimeUnit, z: &str) -> (r: Option<i64>)
    ensures
        (r is Some) <==> (wall_to_utc(t as int, tu, z@) is Some),
        r matches Some(v) ==> wall_to_utc(t as int, tu, z@) == Some(v as int),
{
    let tps = tu.ticks_per_second_exec();
    proof {
        crate::time_unit::lemma_tps_values(tu);
    }
    let lsecs = crate::calendar::div_e(t, tps);
    match local_offset_of(z, lsecs) {
        None => None,
        Some(off) => {
            proof {
                assert(-86_400_000_000_000 < off * tps < 86_400_000_000_000) by (nonlinear_arith)
                    requires
                        -86400 < off < 86400,
                        0 < tps <= 1_000_000_000,
                ;
            }
            let delta = off * tps;
            t.checked_sub(delta)
        },
    }
}

/// Executable counterpart of `utc_to_wall`.
fn utc_to_wall_exec(t: i64, tu: TimeUnit, z: &str) -> (r: Option<i64>)
    ensures
        (r is Some) <==> (utc_to_wall(t as int, tu, z@) is Some),
        r matches Some(v) ==> utc_to_wall(t as int, tu, z@) == Some(v as int),
{
    let tps = tu.ticks_per_second_exec();
    proof {
        crate::time_unit::lemma_tps_values(tu);
    }
    let usecs = crate::calendar::div_e(t, tps);
    match utc_offset_of(z, usecs) {
        None => None,
        Some(off) => {
            proof {
                assert(-86_400_000_000_000 < off * tps < 86_400_000_000_000) by (nonlinear_arith)
                    requires
                        -86400 < off < 86400,
                        0 < tps <= 1_000_000_000,
                ;
            }
            let delta = off * tps;
            t.checked_add(delta)
        },
    }
}

/// Executable counterpart of `converted_tick`.
pub(crate) fn convert_tick_exec(t: i64, tu: TimeUnit, from: Option<&str>, to: Option<&str>) -> (r: Option<
    i64,
>)
    ensures
        (r is Some) <==> (converted_tick(t as int, tu, opt_zone_view(from), opt_zone_view(to))
            is Some),
        r matches Some(v) ==> converted_tick(t as int, tu, opt_zone_view(from), opt_zone_view(to))
            == Some(v as int),
{
    match (from, to) {
        (None, None) => Some(t),
        (Some(f), None) => wall_to_utc_exec(t, tu, f),
        (None, Some(g)) => utc_to_wall_exec(t, tu, g),
        (Some(f), Some(g)) => match wall_to_utc_exec(t, tu, f) {
            Some(u) => utc_to_wall_exec(u, tu, g),
            None => None,
        },
    }
}

impl DatetimeChunked {
    /// Cast the column to another zone (or to none). The target zone is
    /// validated before anything is converted; on any failure the error is
    /// returned with no partial output and the input column untouched.
    /// Every non-null tick converts independently as `converted_tick` says;
    /// nulls, length, name and resolution pass through unchanged.
    pub fn cast_time_zone(&self, tz: Option<&str>) -> (r: Result<DatetimeChunked, TemporalError>)
        ensures
            r matches Ok(out) ==> (out.name@ == self.name@ && out.unit == self.unit && zone_view(
                out.zone,
            ) == opt_zone_view(tz) && out.wf() && ticks_cast(
                self.ticks@,
                out.ticks@,
                self.unit,
                zone_view(self.zone),
                opt_zone_view(tz),
            )),
            (r is Ok) <==> (target_zone_ok(opt_zone_view(tz)) && ticks_castable(
                self.ticks@,
                self.unit,
                zone_view(self.zone),
                opt_zone_view(tz),
            )),
            r matches Err(e) ==> ((e matches TemporalError::InvalidTimeZone(zz) && tz matches Some(
                s,
            ) && zz@ == s@ && !valid_zone(s@)) || (e == TemporalError::ComputeError
                && target_zone_ok(opt_zone_view(tz)))),
    {
        match tz {
            Some(z) => {
                match validate_time_zone(z) {
                    Ok(_) => {
                        proof {
                            assert(valid_zone(z@));
                            assert(target_zone_ok(opt_zone_view(tz)));
                        }
                    },
                    Err(e) => {
                        return Err(e);
                    },
                }
            },
            None => {},
        }
        let from: Option<&str> = match &self.zone {
            Some(s) => Some(s.as_str()),
            None => None,
        };
        proof {
            assert(opt_zone_view(from) == zone_view(self.zone));
        }
        let mut out_ticks: Vec<Option<i64>> = Vec::new();
        let mut i: usize = 0;
        while i < self.ticks.len()
            invariant
                0 <= i <= self.ticks@.len(),
                out_ticks@.len() == i,
                opt_zone_view(from) == zone_view(self.zone),
                target_zone_ok(opt_zone_view(tz)),
                forall|j: int|
                    0 <= j < i ==> (self.ticks@[j] is Some <==> #[trigger] out_ticks@[j] is Some),
                forall|j: int|
                    0 <= j < i ==> (#[trigger] self.ticks@[j] matches Some(t) ==> converted_tick(
                        t as int,
                        self.unit,
                        zone_view(self.zone),
                        opt_zone_view(tz),
                    ) == Some(out_ticks@[j].unwrap() as int)),
            decreases self.ticks@.len() - i,
        {
            match self.ticks[i] {
                None => out_ticks.push(None),
                Some(t) => {
                    match convert_tick_exec(t, self.unit, from, tz) {
                        Some(v) => out_ticks.push(Some(v)),
                        None => {
                            return Err(TemporalError::ComputeError);
                        },
                    }
                },
            }
            i += 1;
        }
        let out_zone: Option<String> = match tz {
            Some(z) => Some(String::from_str(z)),
            None => None,
        };
        Ok(
            DatetimeChunked {
                name: self.name.clone(),
                ticks: out_ticks,
                unit: self.unit,
                zone: out_zone,
            },
        )
    }

    /// A field-for-field copy of the column.
    pub fn copy_column(&self) -> (r: DatetimeChunked)
        ensures
            r.name@ == self.name@,
            r.ticks@ == self.ticks@,
            r.unit == self.unit,
            zone_view(r.zone) == zone_view(self.zone),
    {
        let mut out_ticks: Vec<Option<i64>> = Vec::new();
        let mut i: usize = 0;
        while i < self.ticks.len()
            invariant
                0 <= i <= self.ticks@.len(),
                out_ticks@.len() == i,
                forall|j: int| 0 <= j < i ==> #[trigger] out_ticks@[j] == self.ticks@[j],
            decreases self.ticks@.len() - i,
        {
            out_ticks.push(self.ticks[i]);
            i += 1;
        }
        proof {
            assert(out_ticks@ =~= self.ticks@);
        }
        DatetimeChunked {
            name: self.name.clone(),
            ticks: out_ticks,
            unit: self.unit,
            zone: match &self.zone {
                Some(z) => Some(z.clone()),
                None => None,
            },
        }
    }

    /// Run a zone-oblivious transformation in the neutral reference zone.
    ///
    /// A naive column is handed to the transformation directly, unchanged,
    /// and the transformation's own result comes back unchanged. A zoned
    /// column is first cast to the neutral zone; the transformation's output
    /// is then relabeled as neutral and cast back to the original zone. The
    /// transformation is assumed to preserve nothing beyond length and null
    /// alignment, and any failure along the way aborts the whole operation
    /// with that error; when every tick converts both ways and the
    /// transformation succeeds with a zoned column, the result is owed.
    pub fn apply_on_tz_corrected<F: Fn(DatetimeChunked) -> Result<
        DatetimeChunked,
        TemporalError,
    >>(&self, func: F) -> (r: Result<DatetimeChunked, TemporalError>)
        requires
            forall|c: DatetimeChunked| #[trigger] call_requires(func, (c,)),
            forall|c: DatetimeChunked, out: Result<DatetimeChunked, TemporalError>|
                #[trigger] call_ensures(func, (c,), out) ==> (out matches Ok(o) ==> same_null_mask(
                    c.ticks@,
                    o.ticks@,
                )),
        ensures
            r matches Ok(out) ==> same_null_mask(self.ticks@, out.ticks@),
            self.zone is None ==> (exists|c: DatetimeChunked|
                {
                    &&& c.ticks@ == self.ticks@
                    &&& c.unit == self.unit
                    &&& c.zone is None
                    &&& c.name@ == self.name@
                    &&& #[trigger] call_ensures(func, (c,), r)
                }),
            self.zone matches Some(z) ==> (r matches Ok(out) ==> (exists|
                mid: DatetimeChunked,
                fo: DatetimeChunked,
            |
                {
                    &&& neutral_frame_of(*self, mid, z@)
                    &&& #[trigger] call_ensures(func, (mid,), Result::<
                        DatetimeChunked,
                        TemporalError,
                    >::Ok(fo))
                    &&& fo.zone is Some
                    &&& out.name@ == fo.name@
                    &&& out.unit == fo.unit
                    &&& out.zone matches Some(z2) && z2@ == z@
                    &&& ticks_cast(fo.ticks@, out.ticks@, fo.unit, Some("UTC"@), Some(z@))
                })),
            self.zone matches Some(z) ==> (r matches Err(e) ==> ((exists|mid: DatetimeChunked|
                neutral_frame_of(*self, mid, z@) && #[trigger] call_ensures(
                    func,
                    (mid,),
                    Result::<DatetimeChunked, TemporalError>::Err(e),
                )) || (e == TemporalError::ComputeError && (!ticks_castable(
                self.ticks@,
                self.unit,
                Some(z@),
                Some("UTC"@),
            ) || (exists|mid: DatetimeChunked, fo: DatetimeChunked|
                neutral_frame_of(*self, mid, z@) && #[trigger] call_ensures(
                    func,
                    (mid,),
                    Result::<DatetimeChunked, TemporalError>::Ok(fo),
                ) && !ticks_castable(fo.ticks@, fo.unit, Some("UTC"@), Some(z@))))) || (e
                == TemporalError::NoZoneToRetarget && (exists|
                mid: DatetimeChunked,
                fo: DatetimeChunked,
            |
                neutral_frame_of(*self, mid, z@) && #[trigger] call_ensures(
                    func,
                    (mid,),
                    Result::<DatetimeChunked, TemporalError>::Ok(fo),
                ) && fo.zone is None)) || (e matches TemporalError::InvalidTimeZone(s) && ((s@
                == "UTC"@ && !valid_zone("UTC"@)) || (s@ == z@ && !valid_zone(z@)))))),
            self.zone matches Some(z) ==> ((valid_zone("UTC"@) && valid_zone(z@) && ticks_castable(
                self.ticks@,
                self.unit,
                Some(z@),
                Some("UTC"@),
            ) && (forall|mid: DatetimeChunked, fr: Result<DatetimeChunked, TemporalError>|
                (neutral_frame_of(*self, mid, z@) && #[trigger] call_ensures(func, (mid,), fr))
                    ==> (fr matches Ok(fo) && fo.zone is Some && ticks_castable(
                    fo.ticks@,
                    fo.unit,
                    Some("UTC"@),
                    Some(z@),
                )))) ==> r is Ok),
    {
        let has_zone = match &self.zone {
            Some(_) => true,
            None => false,
        };
        let ca = if has_zone {
            match self.cast_time_zone(Some("UTC")) {
                Ok(c) => c,
                Err(e) => {
                    return Err(e);
                },
            }
        } else {
            self.copy_column()
        };
        let ghost gmid = ca;
        proof {
            if self.zone is Some {
                assert(neutral_frame_of(*self, gmid, self.zone.unwrap()@));
            }
        }
        let res = func(ca);
        let out = match res {
            Ok(o) => o,
            Err(e) => {
                proof {
                    if self.zone is Some {
                        assert(call_ensures(
                            func,
                            (gmid,),
                            Result::<DatetimeChunked, TemporalError>::Err(e),
                        ));
                    }
                }
                return Err(e);
            },
        };
        let ghost gfo = out;
        assert(same_null_mask(self.ticks@, out.ticks@));
        match &self.zone {
            Some(tz) => {
                proof {
                    assert(call_ensures(
                        func,
                        (gmid,),
                        Result::<DatetimeChunked, TemporalError>::Ok(gfo),
                    ));
                }
                let relabeled = match out.with_time_zone(String::from_str("UTC")) {
                    Ok(c) => c,
                    Err(e) => {
                        return Err(e);
                    },
                };
                match relabeled.cast_time_zone(Some(tz.as_str())) {
                    Ok(c) => {
                        proof {
                            assert(relabeled.ticks@ == gfo.ticks@);
                            assert(relabeled.unit == gfo.unit);
                        }
                        Ok(c)
                    },
                    Err(e) => Err(e),
                }
            },
            None => Ok(out),
        }
    }
}

/// The naive-to-naive zone cast is the identity on every tick.
pub proof fn lemma_naive_cast_identity(t: int, tu: TimeUnit)
    ensures
        converted_tick(t, tu, None, None) == Some(t),
{
}

/// Casting between two fixed-offset zones loses nothing: converting a tick
/// from zone `a` to zone `b` and back restores it exactly, because both
/// conversions are referenced to the same fixed-offset baseline.
pub proof fn lemma_fixed_zone_round_trip(t: int, tu: TimeUnit, a: Seq<char>, b: Seq<char>, m: int)
    requires
        crate::zone::is_fixed_offset(a),
        crate::zone::is_fixed_offset(b),
        i64::MIN <= t <= i64::MAX,
        converted_tick(t, tu, Some(a), Some(b)) == Some(m),
    ensures
        converted_tick(m, tu, Some(b), Some(a)) == Some(t),
{
    let tps = tu.ticks_per_second();
    let fa = crate::zone::fixed_offset_secs(a);
    let fb = crate::zone::fixed_offset_secs(b);
    let u = wall_to_utc(t, tu, a).unwrap();
    assert(u == t - fa * tps);
    assert(m == u + fb * tps);
    assert(wall_to_utc(m, tu, b) == Some(u));
    assert(utc_to_wall(u, tu, a) == Some(t));
}

/// Attaching a fixed-offset zone to a naive column and dropping it again
/// loses nothing either: the naive ticks come back exactly.
pub proof fn lemma_fixed_zone_attach_detach(t: int, tu: TimeUnit, b: Seq<char>, m: int)
    requires
        crate::zone::is_fixed_offset(b),
        i64::MIN <= t <= i64::MAX,
        converted_tick(t, tu, None, Some(b)) == Some(m),
    ensures
        converted_tick(m, tu, Some(b), None) == Some(t),
{
    let tps = tu.ticks_per_second();
    let fb = crate::zone::fixed_offset_secs(b);
    assert(m == t + fb * tps);
    assert(wall_to_utc(m, tu, b) == Some(t));
}

} // verus!
