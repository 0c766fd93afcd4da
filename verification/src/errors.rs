use vstd::prelude::*;

verus! {

/// Errors surfaced by the temporal column engine.
///
/// Every failure is deterministic given the same inputs: nothing here is
/// transient, and no operation retries internally.
#[derive(Debug, PartialEq, Eq)]
pub enum TemporalError {
    /// The given string is neither a fixed UTC offset nor a known named zone.
    /// Carries the offending string.
    InvalidTimeZone(String),
    /// A zone relabeling was requested on a column that has no zone.
    NoZoneToRetarget,
    /// Catch-all for an internal computation that could not produce a value,
    /// such as an out-of-range tick or a malformed format pattern.
    ComputeError,
}

} // verus!
