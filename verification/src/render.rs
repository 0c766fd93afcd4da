use crate::calendar::{datetime_of_tick, decode, CalendarDateTime};
use crate::column::{zone_view, DatetimeChunked};
use crate::errors::TemporalError;
use crate::time_unit::TimeUnit;
use crate::zone_cast::{converted_tick, convert_tick_exec, opt_zone_view};
use std::fmt::Write;
use vstd::prelude::*;

verus! {

/// What the calendar formatting grammar renders for the given pattern and
/// calendar fields, or nothing when the pattern is malformed or the fields
/// name no representable datetime. Depends on the arguments alone.
pub uninterp spec fn rendered(
    pattern: Seq<char>,
    y: int,
    mo: int,
    d: int,
    h: int,
    mi: int,
    s: int,
    ns: int,
) -> Option<Seq<char>>;

/// Relies on chrono: `NaiveDate::from_ymd_opt` and `and_hms_nano_opt`
/// accept exactly the representable calendar values, and formatting with
/// `NaiveDateTime::format` writes the strftime-style rendering of the value
/// or fails on a malformed pattern. The result depends on the pattern and
/// the calendar fields alone.
#[verifier::external_body]
fn render_datetime(pattern: &str, v: &CalendarDateTime) -> (r: Option<String>)
    ensures
        (r is Some) <==> (rendered(
            pattern@,
            v.year as int,
            v.month as int,
            v.day as int,
            v.hour as int,
            v.minute as int,
            v.second as int,
            v.nanosecond as int,
        ) is Some),
        r matches Some(x) ==> rendered(
            pattern@,
            v.year as int,
            v.month as int,
            v.day as int,
            v.hour as int,
            v.minute as int,
            v.second as int,
            v.nanosecond as int,
        ) == Some(x@),
{
    let date = chrono::NaiveDate::from_ymd_opt(v.year, v.month as u32, v.day as u32)?;
    let dt = date.and_hms_nano_opt(v.hour as u32, v.minute as u32, v.second as u32, v.nanosecond)?;
    let mut buf = String::new();
    match write!(buf, "{}", dt.format(pattern)) {
        Ok(_) => Some(buf),
        Err(_) => None,
    }
}

/// The rendering of one tick at a resolution: decode, then format.
pub open spec fn rendered_tick(t: int, tu: TimeUnit, pattern: Seq<char>) -> Option<Seq<char>> {
    let v = datetime_of_tick(t, tu);
    rendered(
        pattern,
        v.year as int,
        v.month as int,
        v.day as int,
        v.hour as int,
        v.minute as int,
        v.second as int,
        v.nanosecond as int,
    )
}

/// What one element of a column renders to: a zoned tick is first converted
/// to the neutral reference zone, so that rendering reflects a single
/// well-defined instant interpretation; a naive tick renders as it stands.
pub open spec fn strftime_cell(
    t: int,
    tu: TimeUnit,
    zone: Option<Seq<char>>,
    pattern: Seq<char>,
) -> Option<Seq<char>> {
    match zone {
        Option::Some(z) => match converted_tick(t, tu, Some(z), Some("UTC"@)) {
            Option::Some(u) => rendered_tick(u, tu, pattern),
            Option::None => Option::None,
        },
        Option::None => rendered_tick(t, tu, pattern),
    }
}

/// A null-aware column of text values, the output of rendering: same length
/// and null mask as its source, independent lifetime.
pub struct Utf8Chunked {
    /// The label, carried over from the source column.
    pub name: String,
    /// The rendered values; nulls mirror the source's nulls.
    pub values: Vec<Option<String>>,
}

impl DatetimeChunked {
    /// Render every element with a strftime-style pattern into a parallel
    /// text column of equal length and null mask. A zoned column renders
    /// its neutral-zone reading. A malformed pattern, or an element that
    /// cannot convert or render, fails the whole operation with
    /// `ComputeError` and no partial output.
    pub fn strftime(&self, fmt: &str) -> (r: Result<Utf8Chunked, TemporalError>)
        ensures
            r matches Ok(out) ==> (out.name@ == self.name@ && out.values@.len()
                == self.ticks@.len() && (forall|i: int|
                0 <= i < self.ticks@.len() ==> (#[trigger] out.values@[i] is Some
                    <==> self.ticks@[i] is Some)) && (forall|i: int|
                0 <= i < self.ticks@.len() ==> (#[trigger] self.ticks@[i] matches Some(t) ==> (
                out.values@[i] matches Some(x) && strftime_cell(
                    t as int,
                    self.unit,
                    zone_view(self.zone),
                    fmt@,
                ) == Some(x@))))),
            (r is Ok) <==> (forall|i: int|
                0 <= i < self.ticks@.len() ==> (#[trigger] self.ticks@[i] matches Some(t)
                    ==> strftime_cell(t as int, self.unit, zone_view(self.zone), fmt@) is Some)),
            r matches Err(e) ==> e == TemporalError::ComputeError,
    {
        let from: Option<&str> = match &self.zone {
            Some(s) => Some(s.as_str()),
            None => None,
        };
        proof {
            assert(opt_zone_view(from) == zone_view(self.zone));
        }
        let mut out: Vec<Option<String>> = Vec::new();
        let mut i: usize = 0;
        while i < self.ticks.len()
            invariant
                0 <= i <= self.ticks@.len(),
                out@.len() == i,
                opt_zone_view(from) == zone_view(self.zone),
                forall|j: int|
                    0 <= j < i ==> (#[trigger] out@[j] is Some <==> self.ticks@[j] is Some),
                forall|j: int|
                    0 <= j < i ==> (#[trigger] self.ticks@[j] matches Some(t) ==> (out@[j]
                        matches Some(x) && strftime_cell(
                        t as int,
                        self.unit,
                        zone_view(self.zone),
                        fmt@,
                    ) == Some(x@))),
            decreases self.ticks@.len() - i,
        {
            match self.ticks[i] {
                None => out.push(None),
                Some(t) => {
                    let u_opt = match from {
                        None => Some(t),
                        Some(_) => convert_tick_exec(t, self.unit, from, Some("UTC")),
                    };
                    match u_opt {
                        None => {
                            return Err(TemporalError::ComputeError);
                        },
                        Some(u) => {
                            let v = decode(u, self.unit);
                            match render_datetime(fmt, &v) {
                                None => {
                                    return Err(TemporalError::ComputeError);
                                },
                                Some(sx) => out.push(Some(sx)),
                            }
                        },
                    }
                },
            }
            i += 1;
        }
        Ok(Utf8Chunked { name: self.name.clone(), values: out })
    }
}

} // verus!
