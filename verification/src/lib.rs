//! A temporal column engine: null-aware columns of scaled integer ticks,
//! tagged with a time resolution and an optional time zone, together with
//! the rescaling, zone-conversion and text-rendering primitives needed to
//! use that representation inside a columnar data-processing system.

pub mod calendar;
pub mod column;
pub mod errors;
pub mod render;
pub mod time_unit;
pub mod zone;
pub mod zone_cast;

