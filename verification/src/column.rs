use crate::calendar::{datetime_of_tick, decode, encode, tick_of_datetime, CalendarDateTime};
use crate::errors::TemporalError;
use crate::time_unit::{rescaled_tick, scale_factor, TimeUnit};
use crate::zone::{valid_zone, validate_time_zone};
use vstd::prelude::*;

verus! {

/// Spec view of an optional zone label as an optional character sequence.
pub open spec fn zone_view(z: Option<String>) -> Option<Seq<char>> {
    match z {
        Option::Some(s) => Option::Some(s@),
        Option::None => Option::None,
    }
}

/// Two tick sequences have the same length and nulls at the same indices.
pub open spec fn same_null_mask(a: Seq<Option<i64>>, b: Seq<Option<i64>>) -> bool {
    &&& a.len() == b.len()
    &&& forall|i: int| 0 <= i < a.len() ==> (a[i] is Some <==> #[trigger] b[i] is Some)
}

/// A null-aware column of 64-bit ticks at a single resolution, optionally
/// anchored to a time zone. The resolution and the zone are column-level
/// metadata, uniform across all elements.
pub struct DatetimeChunked {
    /// A label, passed through unchanged by every operation.
    pub name: String,
    /// The nullable tick values; a tick counts `unit` steps since the epoch.
    pub ticks: Vec<Option<i64>>,
    /// The resolution every tick is scaled in.
    pub unit: TimeUnit,
    /// `None` is a naive column; `Some(id)` anchors the wall-clock reading
    /// of the ticks to the zone `id`.
    pub zone: Option<String>,
}

impl DatetimeChunked {
    /// A zone label, once present, has passed validation: an invalid zone
    /// string is never stored.
    pub open spec fn wf(self) -> bool {
        self.zone matches Some(z) ==> valid_zone(z@)
    }

    /// Build a column from raw ticks plus metadata. The zone, when given,
    /// is validated first; nothing is built from an invalid zone.
    pub fn new(name: String, ticks: Vec<Option<i64>>, unit: TimeUnit, zone: Option<String>) -> (r:
        Result<Self, TemporalError>)
        ensures
            r matches Ok(c) ==> (c.name == name && c.ticks == ticks && c.unit == unit && c.zone
                == zone && c.wf()),
            (r is Ok) <==> (zone matches Some(z) ==> valid_zone(z@)),
            r matches Err(e) ==> (e matches TemporalError::InvalidTimeZone(z) && Some(z@)
                == zone_view(zone)),
    {
        match &zone {
            Some(z) => {
                match validate_time_zone(z.as_str()) {
                    Ok(_) => {},
                    Err(e) => {
                        return Err(e);
                    },
                }
            },
            None => {},
        }
        Ok(DatetimeChunked { name, ticks, unit, zone })
    }

    /// The column's resolution.
    pub fn time_unit(&self) -> (r: TimeUnit)
        ensures
            r == self.unit,
    {
        self.unit
    }

    /// The column's zone label, `None` for a naive column.
    pub fn time_zone(&self) -> (r: &Option<String>)
        ensures
            r == self.zone,
    {
        &self.zone
    }

    /// The column's label.
    pub fn name(&self) -> (r: &str)
        ensures
            r@ == self.name@,
    {
        self.name.as_str()
    }

    /// Number of elements, nulls included.
    pub fn len(&self) -> (r: usize)
        ensures
            r == self.ticks@.len(),
    {
        self.ticks.len()
    }

    /// The tick values as one contiguous vector: available exactly when the
    /// column has no null.
    pub fn cont_slice(&self) -> (r: Option<Vec<i64>>)
        ensures
            (r is Some) <==> (forall|i: int|
                0 <= i < self.ticks@.len() ==> #[trigger] self.ticks@[i] is Some),
            r matches Some(v) ==> (v@.len() == self.ticks@.len() && (forall|i: int|
                0 <= i < v@.len() ==> #[trigger] v@[i] == self.ticks@[i].unwrap())),
    {
        let mut out: Vec<i64> = Vec::new();
        let mut i: usize = 0;
        while i < self.ticks.len()
            invariant
                0 <= i <= self.ticks@.len(),
                out@.len() == i,
                forall|j: int| 0 <= j < i ==> #[trigger] self.ticks@[j] is Some,
                forall|j: int| 0 <= j < i ==> #[trigger] out@[j] == self.ticks@[j].unwrap(),
            decreases self.ticks@.len() - i,
        {
            match self.ticks[i] {
                Some(t) => out.push(t),
                None => {
                    return None;
                },
            }
            i += 1;
        }
        Some(out)
    }

    /// Relabel the resolution tag without touching the data. This is not a
    /// rescaling: the ticks keep their numeric values and are simply
    /// re-interpreted at the new resolution.
    pub fn set_time_unit(&mut self, tu: TimeUnit)
        ensures
            final(self).ticks == old(self).ticks,
            final(self).unit == tu,
            final(self).zone == old(self).zone,
            final(self).name == old(self).name,
    {
        self.unit = tu;
    }

    /// Relabel the zone tag without touching the data. The new zone is
    /// validated; on rejection nothing changes.
    pub fn set_time_zone(&mut self, tz: String) -> (r: Result<(), TemporalError>)
        ensures
            (r is Ok) <==> valid_zone(tz@),
            r is Ok ==> (final(self).zone == Some(tz) && final(self).ticks == old(self).ticks
                && final(self).unit == old(self).unit && final(self).name == old(self).name
                && final(self).wf()),
            r is Err ==> *final(self) == *old(self),
            r matches Err(e) ==> (e matches TemporalError::InvalidTimeZone(z) && z@ == tz@),
    {
        match validate_time_zone(tz.as_str()) {
            Ok(_) => {
                self.zone = Some(tz);
                Ok(())
            },
            Err(e) => Err(e),
        }
    }

    /// Relabel the zone of a column that already has one. A naive column is
    /// rejected with `NoZoneToRetarget`: relabeling cannot establish a zone,
    /// only a full conversion can.
    pub fn with_time_zone(self, tz: String) -> (r: Result<Self, TemporalError>)
        ensures
            self.zone is None ==> (r matches Err(e) && e == TemporalError::NoZoneToRetarget),
            self.zone is Some ==> ((r is Ok) <==> valid_zone(tz@)),
            r matches Ok(c) ==> (self.zone is Some && valid_zone(tz@) && c.zone == Some(tz)
                && c.ticks == self.ticks && c.unit == self.unit && c.name == self.name && c.wf()),
            (self.zone is Some && !valid_zone(tz@)) ==> (r matches Err(e) && e
                matches TemporalError::InvalidTimeZone(z) && z@ == tz@),
    {
        match &self.zone {
            Some(_) => {
                let mut out = self;
                match out.set_time_zone(tz) {
                    Ok(_) => Ok(out),
                    Err(e) => Err(e),
                }
            },
            None => Err(TemporalError::NoZoneToRetarget),
        }
    }

    /// Change the resolution and rescale the data accordingly: every
    /// non-null tick is multiplied when moving to a finer resolution and
    /// divided, truncating toward zero, when moving to a coarser one. Nulls
    /// pass through untouched; length, name and zone are unchanged.
    ///
    /// Never fails. Only a move to a strictly finer resolution multiplies,
    /// so only there must the caller keep ticks small enough that the scaled
    /// value fits in 64 bits, which the machine width forces; a move to an
    /// equal or coarser resolution accepts every column.
    pub fn cast_time_unit(&self, tu: TimeUnit) -> (r: Self)
        requires
            tu.ticks_per_second() > self.unit.ticks_per_second() ==> (forall|i: int|
                0 <= i < self.ticks@.len() ==> (#[trigger] self.ticks@[i] matches Some(t)
                    ==> i64::MIN <= rescaled_tick(t as int, self.unit, tu) <= i64::MAX)),
        ensures
            r.name == self.name,
            r.zone == self.zone,
            r.unit == tu,
            same_null_mask(self.ticks@, r.ticks@),
            forall|i: int|
                0 <= i < self.ticks@.len() ==> (#[trigger] self.ticks@[i] matches Some(t)
                    ==> r.ticks@[i] == Some((rescaled_tick(t as int, self.unit, tu) as i64))),
    {
        let finer = tu.ticks_per_second_exec() >= self.unit.ticks_per_second_exec();
        let factor = if finer {
            scale_factor(tu, self.unit)
        } else {
            scale_factor(self.unit, tu)
        };
        let mut out_ticks: Vec<Option<i64>> = Vec::new();
        let mut i: usize = 0;
        while i < self.ticks.len()
            invariant
                0 <= i <= self.ticks@.len(),
                out_ticks@.len() == i,
                finer == (tu.ticks_per_second() >= self.unit.ticks_per_second()),
                finer ==> factor == tu.ticks_per_second() / self.unit.ticks_per_second(),
                !finer ==> factor == self.unit.ticks_per_second() / tu.ticks_per_second(),
                factor == 1 || factor == 1_000 || factor == 1_000_000,
                forall|j: int|
                    0 <= j < i ==> (self.ticks@[j] is Some <==> #[trigger] out_ticks@[j] is Some),
                forall|j: int|
                    0 <= j < i ==> (#[trigger] self.ticks@[j] matches Some(t) ==> out_ticks@[j]
                        == Some((rescaled_tick(t as int, self.unit, tu) as i64))),
                tu.ticks_per_second() > self.unit.ticks_per_second() ==> (forall|j: int|
                    0 <= j < self.ticks@.len() ==> (#[trigger] self.ticks@[j] matches Some(t)
                        ==> i64::MIN <= rescaled_tick(t as int, self.unit, tu) <= i64::MAX)),
            decreases self.ticks@.len() - i,
        {
            match self.ticks[i] {
                None => out_ticks.push(None),
                Some(t) => {
                    if finer {
                        proof {
                            if tu.ticks_per_second() == self.unit.ticks_per_second() {
                                crate::time_unit::lemma_tps_values(tu);
                                assert(factor == 1);
                                assert(t as int * factor as int == t as int);
                            }
                        }
                        out_ticks.push(Some(t * factor));
                    } else {
                        proof {
                            crate::calendar::lemma_floor_div_in_i64_range(t as int, factor as int);
                            crate::calendar::lemma_floor_div_in_i64_range(
                                -(t as int),
                                factor as int,
                            );
                        }
                        let q = t.checked_div(factor).unwrap();
                        out_ticks.push(Some(q));
                    }
                },
            }
            i += 1;
        }
        DatetimeChunked {
            name: self.name.clone(),
            ticks: out_ticks,
            unit: tu,
            zone: match &self.zone {
                Some(z) => Some(z.clone()),
                None => None,
            },
        }
    }

    /// Build a naive column from calendar values, encoding each at the given
    /// resolution. Succeeds exactly when every value is valid and encodes
    /// within 64 bits; fails atomically with `ComputeError` otherwise.
    pub fn from_naive_datetime(name: &str, v: &Vec<CalendarDateTime>, tu: TimeUnit) -> (r: Result<
        Self,
        TemporalError,
    >)
        ensures
            r matches Ok(c) ==> (c.name@ == name@ && c.unit == tu && c.zone is None && c.wf()
                && c.ticks@.len() == v@.len() && (forall|i: int|
                0 <= i < v@.len() ==> #[trigger] c.ticks@[i] is Some) && (forall|i: int|
                0 <= i < v@.len() ==> (#[trigger] c.ticks@[i]).unwrap() as int == tick_of_datetime(
                    v@[i],
                    tu,
                ))),
            (r is Ok) <==> (forall|i: int|
                0 <= i < v@.len() ==> ((#[trigger] v@[i]).valid() && i64::MIN <= tick_of_datetime(
                    v@[i],
                    tu,
                ) <= i64::MAX)),
            r matches Err(e) ==> e == TemporalError::ComputeError,
    {
        let mut out_ticks: Vec<Option<i64>> = Vec::new();
        let mut i: usize = 0;
        while i < v.len()
            invariant
                0 <= i <= v@.len(),
                out_ticks@.len() == i,
                forall|j: int| 0 <= j < i ==> #[trigger] out_ticks@[j] is Some,
                forall|j: int|
                    0 <= j < i ==> (#[trigger] out_ticks@[j]).unwrap() as int == tick_of_datetime(
                        v@[j],
                        tu,
                    ),
                forall|j: int|
                    0 <= j < i ==> ((#[trigger] v@[j]).valid() && i64::MIN <= tick_of_datetime(
                        v@[j],
                        tu,
                    ) <= i64::MAX),
            decreases v@.len() - i,
        {
            match encode(&v[i], tu) {
                Some(t) => out_ticks.push(Some(t)),
                None => {
                    return Err(TemporalError::ComputeError);
                },
            }
            i += 1;
        }
        Ok(
            DatetimeChunked {
                name: String::from_str(name),
                ticks: out_ticks,
                unit: tu,
                zone: None,
            },
        )
    }

    /// Build a naive column from optional calendar values: nulls pass
    /// straight through, present values encode as in `from_naive_datetime`.
    pub fn from_naive_datetime_options(name: &str, v: &Vec<Option<CalendarDateTime>>, tu: TimeUnit)
        -> (r: Result<Self, TemporalError>)
        ensures
            r matches Ok(c) ==> (c.name@ == name@ && c.unit == tu && c.zone is None && c.wf()
                && c.ticks@.len() == v@.len() && (forall|i: int|
                0 <= i < v@.len() ==> (#[trigger] c.ticks@[i] is Some <==> v@[i] is Some)) && (
            forall|i: int|
                0 <= i < v@.len() ==> (#[trigger] v@[i] matches Some(cv) ==> c.ticks@[i].unwrap() as int
                    == tick_of_datetime(cv, tu)))),
            (r is Ok) <==> (forall|i: int|
                0 <= i < v@.len() ==> (#[trigger] v@[i] matches Some(cv) ==> (cv.valid()
                    && i64::MIN <= tick_of_datetime(cv, tu) <= i64::MAX))),
            r matches Err(e) ==> e == TemporalError::ComputeError,
    {
        let mut out_ticks: Vec<Option<i64>> = Vec::new();
        let mut i: usize = 0;
        while i < v.len()
            invariant
                0 <= i <= v@.len(),
                out_ticks@.len() == i,
                forall|j: int|
                    0 <= j < i ==> (#[trigger] out_ticks@[j] is Some <==> v@[j] is Some),
                forall|j: int|
                    0 <= j < i ==> (#[trigger] v@[j] matches Some(cv) ==> out_ticks@[j].unwrap() as int
                        == tick_of_datetime(cv, tu)),
                forall|j: int|
                    0 <= j < i ==> (#[trigger] v@[j] matches Some(cv) ==> (cv.valid() && i64::MIN
                        <= tick_of_datetime(cv, tu) <= i64::MAX)),
            decreases v@.len() - i,
        {
            match &v[i] {
                None => out_ticks.push(None),
                Some(cv) => {
                    match encode(cv, tu) {
                        Some(t) => out_ticks.push(Some(t)),
                        None => {
                            return Err(TemporalError::ComputeError);
                        },
                    }
                },
            }
            i += 1;
        }
        Ok(
            DatetimeChunked {
                name: String::from_str(name),
                ticks: out_ticks,
                unit: tu,
                zone: None,
            },
        )
    }

    /// Decode every element into an optional calendar value: a strict
    /// one-to-one map, never filtering and never merging, so the result has
    /// exactly the column's length and null mask.
    pub fn as_datetime_iter(&self) -> (r: Vec<Option<CalendarDateTime>>)
        ensures
            r@.len() == self.ticks@.len(),
            forall|i: int|
                0 <= i < r@.len() ==> (#[trigger] r@[i] is Some <==> self.ticks@[i] is Some),
            forall|i: int|
                0 <= i < r@.len() ==> (#[trigger] self.ticks@[i] matches Some(t) ==> r@[i] == Some(
                    datetime_of_tick(t as int, self.unit),
                )),
    {
        let mut out: Vec<Option<CalendarDateTime>> = Vec::new();
        let mut i: usize = 0;
        while i < self.ticks.len()
            invariant
                0 <= i <= self.ticks@.len(),
                out@.len() == i,
                forall|j: int|
                    0 <= j < i ==> (#[trigger] out@[j] is Some <==> self.ticks@[j] is Some),
                forall|j: int|
                    0 <= j < i ==> (#[trigger] self.ticks@[j] matches Some(t) ==> out@[j] == Some(
                        datetime_of_tick(t as int, self.unit),
                    )),
            decreases self.ticks@.len() - i,
        {
            match self.ticks[i] {
                None => out.push(None),
                Some(t) => out.push(Some(decode(t, self.unit))),
            }
            i += 1;
        }
        out
    }
}

} // verus!
