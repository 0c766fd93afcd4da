use crate::errors::TemporalError;
use vstd::prelude::*;

verus! {

/// Whether the string names a zone of the bundled IANA database, as
/// chrono-tz's `Tz` parser decides it. Depends on the string alone.
pub uninterp spec fn named_zone(s: Seq<char>) -> bool;

/// The UTC offset, in seconds, that the named zone assigns to the UTC
/// instant `utc_secs` (seconds since the epoch); `None` when the instant
/// is out of the range the zone database can answer for.
pub uninterp spec fn named_zone_utc_offset(s: Seq<char>, utc_secs: int) -> Option<int>;

/// The UTC offset, in seconds, that the named zone assigns to the local
/// wall-clock time `local_secs` (seconds since the epoch, read as wall
/// time); for an ambiguous wall time the earliest mapping is taken, and
/// `None` stands for a wall time that does not exist in the zone or is out
/// of range.
pub uninterp spec fn named_zone_local_offset(s: Seq<char>, local_secs: int) -> Option<int>;

/// Relies on chrono-tz: `Tz`'s `FromStr` accepts exactly the identifiers of
/// the bundled IANA zone database.
#[verifier::external_body]
pub(crate) fn is_named_zone(s: &str) -> (r: bool)
    ensures
        r == named_zone(s@),
{
    s.parse::<chrono_tz::Tz>().is_ok()
}

/// Relies on chrono-tz: `Tz::offset_from_utc_datetime` returns the zone's
/// offset at a UTC instant, and chrono's `FixedOffset` keeps that offset
/// strictly between -86400 and 86400 seconds. `DateTime::from_timestamp`
/// (chrono) turns the second count into the instant and fails only out of
/// chrono's representable range.
#[verifier::external_body]
pub(crate) fn named_zone_offset_at_utc(s: &str, utc_secs: i64) -> (r: Option<i64>)
    ensures
        !named_zone(s@) ==> r is None,
        named_zone(s@) ==> ((r is Some) <==> (named_zone_utc_offset(s@, utc_secs as int)
            is Some)),
        named_zone(s@) ==> (r matches Some(o) ==> (named_zone_utc_offset(s@, utc_secs as int)
            == Some(o as int) && -86400 < o < 86400)),
{
    let tz: chrono_tz::Tz = match s.parse() {
        Ok(t) => t,
        Err(_) => {
            return None;
        },
    };
    let ndt = chrono::DateTime::from_timestamp(utc_secs, 0)?.naive_utc();
    let off = chrono::TimeZone::offset_from_utc_datetime(&tz, &ndt);
    Some(chrono::Offset::fix(&off).local_minus_utc() as i64)
}

/// Relies on chrono-tz: `Tz::offset_from_local_datetime` resolves a local
/// wall-clock time in the zone; an ambiguous wall time yields its earliest
/// offset, a nonexistent one yields nothing. The offset returned is chrono's
/// `FixedOffset`, strictly between -86400 and 86400 seconds.
#[verifier::external_body]
pub(crate) fn named_zone_offset_at_local(s: &str, local_secs: i64) -> (r: Option<i64>)
    ensures
        !named_zone(s@) ==> r is None,
        named_zone(s@) ==> ((r is Some) <==> (named_zone_local_offset(s@, local_secs as int)
            is Some)),
        named_zone(s@) ==> (r matches Some(o) ==> (named_zone_local_offset(s@, local_secs as int)
            == Some(o as int) && -86400 < o < 86400)),
{
    let tz: chrono_tz::Tz = match s.parse() {
        Ok(t) => t,
        Err(_) => {
            return None;
        },
    };
    let ndt = chrono::DateTime::from_timestamp(local_secs, 0)?.naive_utc();
    let off = chrono::TimeZone::offset_from_local_datetime(&tz, &ndt).earliest()?;
    Some(chrono::Offset::fix(&off).local_minus_utc() as i64)
}

/// Digit value of an ASCII character.
pub open spec fn digit_val(c: char) -> int {
    c as int - '0' as int
}

/// Whether a character is an ASCII decimal digit.
pub open spec fn is_ascii_digit_char(c: char) -> bool {
    '0' as int <= c as int <= '9' as int
}

/// The hour part of a fixed-offset string of the shape `+hh:mm`.
pub open spec fn fixed_offset_hours(s: Seq<char>) -> int {
    digit_val(s[1]) * 10 + digit_val(s[2])
}

/// The minute part of a fixed-offset string of the shape `+hh:mm`.
pub open spec fn fixed_offset_minutes(s: Seq<char>) -> int {
    digit_val(s[4]) * 10 + digit_val(s[5])
}

/// A fixed UTC offset is written with a mandatory sign as `+hh:mm` or
/// `-hh:mm`, with hours up to 23 and minutes up to 59.
pub open spec fn is_fixed_offset(s: Seq<char>) -> bool {
    &&& s.len() == 6
    &&& (s[0] == '+' || s[0] == '-')
    &&& is_ascii_digit_char(s[1])
    &&& is_ascii_digit_char(s[2])
    &&& s[3] == ':'
    &&& is_ascii_digit_char(s[4])
    &&& is_ascii_digit_char(s[5])
    &&& fixed_offset_hours(s) <= 23
    &&& fixed_offset_minutes(s) <= 59
}

/// The offset in seconds east of UTC that a fixed-offset string denotes.
pub open spec fn fixed_offset_secs(s: Seq<char>) -> int {
    let magnitude = fixed_offset_hours(s) * 3600 + fixed_offset_minutes(s) * 60;
    if s[0] == '-' {
        -magnitude
    } else {
        magnitude
    }
}

/// A zone identifier is valid when it parses as a fixed UTC offset or
/// resolves to a known named zone of the zone database.
pub open spec fn valid_zone(s: Seq<char>) -> bool {
    is_fixed_offset(s) || named_zone(s)
}

/// Parse a fixed UTC offset of the shape `+hh:mm` / `-hh:mm` into its
/// offset in seconds east of UTC. Returns `None` exactly on strings that
/// are not such an offset.
pub fn parse_fixed_offset(s: &str) -> (r: Option<i64>)
    ensures
        (r is Some) <==> is_fixed_offset(s@),
        r matches Some(o) ==> o == fixed_offset_secs(s@) && -86340 <= o <= 86340,
{
    if s.unicode_len() != 6 {
        return None;
    }
    let c0 = s.get_char(0);
    let c1 = s.get_char(1);
    let c2 = s.get_char(2);
    let c3 = s.get_char(3);
    let c4 = s.get_char(4);
    let c5 = s.get_char(5);
    if !(c0 == '+' || c0 == '-') || c3 != ':' {
        return None;
    }
    let d1 = c1 as u32;
    let d2 = c2 as u32;
    let d4 = c4 as u32;
    let d5 = c5 as u32;
    if d1 < 48 || d1 > 57 || d2 < 48 || d2 > 57 || d4 < 48 || d4 > 57 || d5 < 48 || d5 > 57 {
        return None;
    }
    let hours = (d1 - 48) * 10 + (d2 - 48);
    let minutes = (d4 - 48) * 10 + (d5 - 48);
    if hours > 23 || minutes > 59 {
        return None;
    }
    let magnitude = (hours * 3600 + minutes * 60) as i64;
    if c0 == '-' {
        Some(-magnitude)
    } else {
        Some(magnitude)
    }
}

/// Validate a zone identifier: accepted when it parses as a fixed UTC
/// offset or resolves to a known named zone; rejected with
/// `InvalidTimeZone`, carrying the offending string, exactly otherwise.
pub fn validate_time_zone(tz: &str) -> (r: Result<(), TemporalError>)
    ensures
        (r is Ok) <==> valid_zone(tz@),
        r matches Err(e) ==> (e matches TemporalError::InvalidTimeZone(z) && z@ == tz@),
{
    match parse_fixed_offset(tz) {
        Some(_) => Ok(()),
        None => {
            if is_named_zone(tz) {
                Ok(())
            } else {
                Err(TemporalError::InvalidTimeZone(String::from_str(tz)))
            }
        },
    }
}

/// The offset in seconds that zone `z` assigns to the local wall-clock
/// time `local_secs`: a fixed-offset zone has its constant offset, a named
/// zone follows the zone database, anything else resolves to nothing.
pub open spec fn zone_local_offset(z: Seq<char>, local_secs: int) -> Option<int> {
    if is_fixed_offset(z) {
        Some(fixed_offset_secs(z))
    } else if named_zone(z) {
        named_zone_local_offset(z, local_secs)
    } else {
        None
    }
}

/// The offset in seconds that zone `z` assigns to the UTC instant
/// `utc_secs`; as `zone_local_offset`, but keyed by the instant.
pub open spec fn zone_utc_offset(z: Seq<char>, utc_secs: int) -> Option<int> {
    if is_fixed_offset(z) {
        Some(fixed_offset_secs(z))
    } else if named_zone(z) {
        named_zone_utc_offset(z, utc_secs)
    } else {
        None
    }
}

/// Executable counterpart of `zone_local_offset`.
pub fn local_offset_of(z: &str, local_secs: i64) -> (r: Option<i64>)
    ensures
        (r is Some) <==> (zone_local_offset(z@, local_secs as int) is Some),
        r matches Some(o) ==> zone_local_offset(z@, local_secs as int) == Some(o as int) && -86400
            < o < 86400,
{
    match parse_fixed_offset(z) {
        Some(o) => Some(o),
        None => named_zone_offset_at_local(z, local_secs),
    }
}

/// Executable counterpart of `zone_utc_offset`.
pub fn utc_offset_of(z: &str, utc_secs: i64) -> (r: Option<i64>)
    ensures
        (r is Some) <==> (zone_utc_offset(z@, utc_secs as int) is Some),
        r matches Some(o) ==> zone_utc_offset(z@, utc_secs as int) == Some(o as int) && -86400 < o
            < 86400,
{
    match parse_fixed_offset(z) {
        Some(o) => Some(o),
        None => named_zone_offset_at_utc(z, utc_secs),
    }
}

} // verus!
