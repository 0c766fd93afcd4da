use chrono::Datelike;
use chrono::NaiveDateTime;
use chrono::Timelike;
use temporal_core::calendar::{decode, encode, CalendarDateTime};
use temporal_core::column::DatetimeChunked;
use temporal_core::errors::TemporalError;
use temporal_core::render::Utf8Chunked;
use temporal_core::time_unit::TimeUnit;
use temporal_core::zone::validate_time_zone;

fn to_calendar(ndt: NaiveDateTime) -> CalendarDateTime {
    CalendarDateTime {
        year: ndt.year(),
        month: ndt.month() as u8,
        day: ndt.day() as u8,
        hour: ndt.hour() as u8,
        minute: ndt.minute() as u8,
        second: ndt.second() as u8,
        nanosecond: ndt.nanosecond(),
    }
}

fn cal(year: i32, month: u8, day: u8, hour: u8, minute: u8, second: u8, ns: u32) -> CalendarDateTime {
    CalendarDateTime { year, month, day, hour, minute, second, nanosecond: ns }
}

#[test]
fn from_datetime() {
    let datetimes: Vec<CalendarDateTime> = [
        "1988-08-25 00:00:16",
        "2015-09-05 23:56:04",
        "2012-12-21 00:00:00",
    ]
    .iter()
    .map(|s| to_calendar(NaiveDateTime::parse_from_str(s, "%Y-%m-%d %H:%M:%S").unwrap()))
    .collect();

    let dt =
        DatetimeChunked::from_naive_datetime("name", &datetimes, TimeUnit::Nanoseconds).unwrap();
    assert_eq!(
        vec![588470416000_000_000i64, 1441497364000_000_000, 1356048000000_000_000],
        dt.cont_slice().unwrap()
    );
}

#[test]
fn null_preservation_across_transformations() {
    let ticks: Vec<Option<i64>> = vec![Some(1_500_000_000), None, Some(0), None];
    let col = DatetimeChunked::new(
        "n".to_string(),
        ticks.clone(),
        TimeUnit::Nanoseconds,
        Some("UTC".to_string()),
    )
    .unwrap();

    let rescaled = col.cast_time_unit(TimeUnit::Milliseconds);
    assert_eq!(rescaled.len(), 4);
    for i in 0..4 {
        assert_eq!(ticks[i].is_none(), rescaled.ticks[i].is_none());
    }

    let zoned = col.cast_time_zone(Some("Europe/Amsterdam")).unwrap();
    assert_eq!(zoned.len(), 4);
    for i in 0..4 {
        assert_eq!(ticks[i].is_none(), zoned.ticks[i].is_none());
    }

    let text: Utf8Chunked = col.strftime("%Y-%m-%d").unwrap();
    assert_eq!(text.values.len(), 4);
    for i in 0..4 {
        assert_eq!(ticks[i].is_none(), text.values[i].is_none());
    }
}

#[test]
fn resolution_round_trip_exact() {
    let col = DatetimeChunked::new(
        "n".to_string(),
        vec![Some(3_000_000_000), Some(-2_000_000_000)],
        TimeUnit::Nanoseconds,
        None,
    )
    .unwrap();
    let back =
        col.cast_time_unit(TimeUnit::Milliseconds).cast_time_unit(TimeUnit::Nanoseconds);
    assert_eq!(vec![3_000_000_000i64, -2_000_000_000], back.cont_slice().unwrap());
}

#[test]
fn resolution_round_trip_lossy_truncation() {
    let col = DatetimeChunked::new(
        "n".to_string(),
        vec![Some(1_500_000)],
        TimeUnit::Nanoseconds,
        None,
    )
    .unwrap();
    let ms = col.cast_time_unit(TimeUnit::Milliseconds);
    assert_eq!(vec![1i64], ms.cont_slice().unwrap());
    let back = ms.cast_time_unit(TimeUnit::Nanoseconds);
    assert_eq!(vec![1_000_000i64], back.cont_slice().unwrap());
}

#[test]
fn timezone_identity_on_naive() {
    let col = DatetimeChunked::new(
        "n".to_string(),
        vec![Some(42), None, Some(-7)],
        TimeUnit::Microseconds,
        None,
    )
    .unwrap();
    let out = col.cast_time_zone(None).unwrap();
    assert!(out.time_zone().is_none());
    assert_eq!(col.ticks, out.ticks);
}

#[test]
fn timezone_round_trip_named_zone() {
    let col = DatetimeChunked::new(
        "n".to_string(),
        vec![Some(1356048000000_000_000), Some(0)],
        TimeUnit::Nanoseconds,
        Some("UTC".to_string()),
    )
    .unwrap();
    let there = col.cast_time_zone(Some("Europe/Amsterdam")).unwrap();
    let back = there.cast_time_zone(Some("UTC")).unwrap();
    assert_eq!(col.cont_slice().unwrap(), back.cont_slice().unwrap());
}

#[test]
fn timezone_round_trip_fixed_offset() {
    let col = DatetimeChunked::new(
        "n".to_string(),
        vec![Some(123_456_789)],
        TimeUnit::Milliseconds,
        Some("+00:00".to_string()),
    )
    .unwrap();
    let there = col.cast_time_zone(Some("+05:30")).unwrap();
    assert_eq!(
        vec![123_456_789i64 + 19_800 * 1_000],
        there.cont_slice().unwrap()
    );
    let back = there.cast_time_zone(Some("+00:00")).unwrap();
    assert_eq!(vec![123_456_789i64], back.cont_slice().unwrap());
}

#[test]
fn attach_named_zone_offsets_ticks() {
    let col = DatetimeChunked::new(
        "n".to_string(),
        vec![Some(0)],
        TimeUnit::Nanoseconds,
        None,
    )
    .unwrap();
    let zoned = col.cast_time_zone(Some("Europe/Amsterdam")).unwrap();
    assert_eq!(vec![3_600_000_000_000i64], zoned.cont_slice().unwrap());
    let detached = zoned.cast_time_zone(None).unwrap();
    assert_eq!(vec![0i64], detached.cont_slice().unwrap());
}

#[test]
fn invalid_zone_rejection() {
    let r = validate_time_zone("Not/AZone");
    assert!(matches!(r, Err(TemporalError::InvalidTimeZone(ref z)) if z == "Not/AZone"));

    let col = DatetimeChunked::new(
        "n".to_string(),
        vec![Some(1)],
        TimeUnit::Milliseconds,
        None,
    )
    .unwrap();
    let c = col.cast_time_zone(Some("Not/AZone"));
    assert!(matches!(c, Err(TemporalError::InvalidTimeZone(_))));

    let built = DatetimeChunked::new(
        "n".to_string(),
        vec![Some(1)],
        TimeUnit::Milliseconds,
        Some("Not/AZone".to_string()),
    );
    assert!(matches!(built, Err(TemporalError::InvalidTimeZone(_))));
}

#[test]
fn encode_decode_identity() {
    let v = cal(1988, 8, 25, 0, 0, 16, 0);
    let t = encode(&v, TimeUnit::Nanoseconds).unwrap();
    assert_eq!(t, 588470416000_000_000);
    assert_eq!(decode(t, TimeUnit::Nanoseconds), v);

    let w = cal(2015, 9, 5, 23, 56, 4, 250_000_000);
    let tm = encode(&w, TimeUnit::Milliseconds).unwrap();
    assert_eq!(decode(tm, TimeUnit::Milliseconds), w);

    let pre_epoch = cal(1969, 12, 31, 23, 59, 59, 0);
    let tp = encode(&pre_epoch, TimeUnit::Microseconds).unwrap();
    assert_eq!(tp, -1_000_000);
    assert_eq!(decode(tp, TimeUnit::Microseconds), pre_epoch);
}

#[test]
fn encode_rejects_invalid_calendar_value() {
    let bad = cal(2020, 13, 1, 0, 0, 0, 0);
    assert!(encode(&bad, TimeUnit::Nanoseconds).is_none());
    let r = DatetimeChunked::from_naive_datetime("n", &vec![bad], TimeUnit::Nanoseconds);
    assert!(matches!(r, Err(TemporalError::ComputeError)));
    let feb30 = cal(2021, 2, 30, 0, 0, 0, 0);
    assert!(encode(&feb30, TimeUnit::Milliseconds).is_none());
    let leap_ok = cal(2020, 2, 29, 12, 0, 0, 0);
    assert!(encode(&leap_ok, TimeUnit::Milliseconds).is_some());
}

#[test]
fn formatting_epoch_tick() {
    let col = DatetimeChunked::new(
        "n".to_string(),
        vec![Some(0)],
        TimeUnit::Nanoseconds,
        None,
    )
    .unwrap();
    let text = col.strftime("%Y-%m-%d").unwrap();
    assert_eq!(text.values[0].as_deref(), Some("1970-01-01"));
}

#[test]
fn formatting_full_pattern_and_zone() {
    let datetimes = vec![cal(2012, 12, 21, 0, 0, 0, 0)];
    let col =
        DatetimeChunked::from_naive_datetime("n", &datetimes, TimeUnit::Milliseconds).unwrap();
    let text = col.strftime("%Y-%m-%d %H:%M:%S").unwrap();
    assert_eq!(text.values[0].as_deref(), Some("2012-12-21 00:00:00"));
}

#[test]
fn length_invariant() {
    let ticks: Vec<Option<i64>> = vec![Some(5), None, Some(9), Some(11), None];
    let col =
        DatetimeChunked::new("n".to_string(), ticks, TimeUnit::Microseconds, None).unwrap();
    assert_eq!(col.strftime("%H:%M").unwrap().values.len(), col.len());
    assert_eq!(col.cast_time_unit(TimeUnit::Milliseconds).len(), col.len());
    assert_eq!(col.cast_time_zone(Some("+01:00")).unwrap().len(), col.len());

    let empty =
        DatetimeChunked::new("n".to_string(), vec![], TimeUnit::Nanoseconds, None).unwrap();
    assert_eq!(empty.strftime("%Y").unwrap().values.len(), 0);
    assert_eq!(empty.cast_time_unit(TimeUnit::Milliseconds).len(), 0);
}

#[test]
fn no_zone_to_retarget() {
    let col = DatetimeChunked::new(
        "n".to_string(),
        vec![Some(1)],
        TimeUnit::Milliseconds,
        None,
    )
    .unwrap();
    let r = col.with_time_zone("UTC".to_string());
    assert!(matches!(r, Err(TemporalError::NoZoneToRetarget)));
}

#[test]
fn set_time_unit_relabels_without_touching_data() {
    let mut col = DatetimeChunked::new(
        "n".to_string(),
        vec![Some(77), None],
        TimeUnit::Nanoseconds,
        None,
    )
    .unwrap();
    col.set_time_unit(TimeUnit::Milliseconds);
    assert_eq!(col.time_unit(), TimeUnit::Milliseconds);
    assert_eq!(col.ticks, vec![Some(77), None]);
}

#[test]
fn set_time_zone_validates_and_relabels() {
    let mut col = DatetimeChunked::new(
        "n".to_string(),
        vec![Some(77)],
        TimeUnit::Nanoseconds,
        Some("UTC".to_string()),
    )
    .unwrap();
    assert!(col.set_time_zone("Europe/Amsterdam".to_string()).is_ok());
    assert_eq!(col.time_zone().as_deref(), Some("Europe/Amsterdam"));
    assert_eq!(col.ticks, vec![Some(77)]);
    assert!(matches!(
        col.set_time_zone("Nope".to_string()),
        Err(TemporalError::InvalidTimeZone(_))
    ));
    assert_eq!(col.time_zone().as_deref(), Some("Europe/Amsterdam"));
}

#[test]
fn as_datetime_iter_decodes_elementwise() {
    let col = DatetimeChunked::new(
        "n".to_string(),
        vec![Some(0), None, Some(86_400_000)],
        TimeUnit::Milliseconds,
        None,
    )
    .unwrap();
    let vals = col.as_datetime_iter();
    assert_eq!(vals.len(), 3);
    assert_eq!(vals[0], Some(cal(1970, 1, 1, 0, 0, 0, 0)));
    assert_eq!(vals[1], None);
    assert_eq!(vals[2], Some(cal(1970, 1, 2, 0, 0, 0, 0)));
}

#[test]
fn apply_on_tz_corrected_runs_in_neutral_frame() {
    let col = DatetimeChunked::new(
        "n".to_string(),
        vec![Some(1356048000000i64), None],
        TimeUnit::Milliseconds,
        Some("Europe/Amsterdam".to_string()),
    )
    .unwrap();
    let out = col.apply_on_tz_corrected(|c: DatetimeChunked| Ok(c)).unwrap();
    assert_eq!(out.len(), 2);
    assert_eq!(out.ticks[0], col.ticks[0]);
    assert!(out.ticks[1].is_none());
    assert_eq!(out.time_zone().as_deref(), Some("Europe/Amsterdam"));

    let naive = DatetimeChunked::new(
        "n".to_string(),
        vec![Some(5)],
        TimeUnit::Milliseconds,
        None,
    )
    .unwrap();
    let failed: Result<DatetimeChunked, TemporalError> =
        naive.apply_on_tz_corrected(|_c: DatetimeChunked| Err(TemporalError::ComputeError));
    assert!(matches!(failed, Err(TemporalError::ComputeError)));
}

#[test]
fn fixed_offset_parsing_policy() {
    assert!(validate_time_zone("+05:30").is_ok());
    assert!(validate_time_zone("-23:59").is_ok());
    assert!(validate_time_zone("+24:00").is_err());
    assert!(validate_time_zone("05:30").is_err());
    assert!(validate_time_zone("+5:30").is_err());
    assert!(validate_time_zone("UTC").is_ok());
    assert!(validate_time_zone("Europe/Amsterdam").is_ok());
}

#[test]
fn malformed_pattern_is_a_compute_error() {
    let col = DatetimeChunked::new(
        "n".to_string(),
        vec![Some(0)],
        TimeUnit::Nanoseconds,
        None,
    )
    .unwrap();
    let r = col.strftime("%");
    assert!(matches!(r, Err(TemporalError::ComputeError)));
}
