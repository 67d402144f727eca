use polygon_io::types::{CalendarDate, PolygonTimestamp, UtcDateTime};

#[test]
fn calendar_dates() {
    assert!(CalendarDate::from_ymd(2023, 2, 29).is_none());
    assert!(CalendarDate::from_ymd(2024, 2, 29).is_some());
    assert!(CalendarDate::from_ymd(2024, 13, 1).is_none());
    assert!(CalendarDate::from_ymd(2024, 4, 31).is_none());
    assert!(CalendarDate::from_ymd(2024, 1, 0).is_none());
    assert!(CalendarDate::from_ymd(400000, 1, 1).is_none());
    let d = CalendarDate::from_ymd(2024, 1, 5).unwrap();
    assert_eq!((d.year(), d.month(), d.day()), (2024, 1, 5));
    assert_eq!(d.iso_text(), "2024-01-05");
    assert_eq!(CalendarDate::from_ymd(-1, 12, 31).unwrap().iso_text(), "-0001-12-31");
    assert_eq!(CalendarDate::from_ymd(12345, 6, 7).unwrap().iso_text(), "+12345-06-07");
    assert_eq!(CalendarDate::from_ymd(987, 6, 7).unwrap().iso_text(), "0987-06-07");
}

#[test]
fn calendar_date_range() {
    assert!(CalendarDate::from_ymd(262142, 12, 31).is_some());
    assert!(CalendarDate::from_ymd(262143, 1, 1).is_none());
    assert!(CalendarDate::from_ymd(-262143, 1, 1).is_some());
    assert!(CalendarDate::from_ymd(-262144, 12, 31).is_none());
    assert!(CalendarDate::from_ymd(-4, 2, 29).is_some());
    assert!(CalendarDate::from_ymd(1900, 2, 29).is_none());
    assert!(CalendarDate::from_ymd(2000, 2, 29).is_some());
    assert_eq!(CalendarDate::from_ymd(-262143, 1, 1).unwrap().iso_text(), "-262143-01-01");
}

#[test]
fn timestamps() {
    let t = PolygonTimestamp::from_nanos(1_431_648_000_123_456_789);
    assert_eq!(t.nanos(), 1_431_648_000_123_456_789);
    let dt = t.to_datetime().unwrap();
    assert_eq!(dt.timestamp(), 1_431_648_000);
    assert_eq!(dt.timestamp_subsec_nanos(), 123_456_789);

    // Before the epoch, the seconds round down and the nanoseconds stay positive.
    let just_before = PolygonTimestamp::from_nanos(-1).to_datetime().unwrap();
    assert_eq!(just_before.timestamp(), -1);
    assert_eq!(just_before.timestamp_subsec_nanos(), 999_999_999);
    let earlier = PolygonTimestamp::from_nanos(-1_500_000_000).to_datetime().unwrap();
    assert_eq!((earlier.timestamp(), earlier.timestamp_subsec_nanos()), (-2, 500_000_000));
    let first = PolygonTimestamp::from_nanos(i64::MIN).to_datetime().unwrap();
    assert_eq!((first.timestamp(), first.timestamp_subsec_nanos()), (-9_223_372_037, 145_224_192));
    // Whole negative seconds do.
    let before = PolygonTimestamp::from_nanos(-2_000_000_000).to_datetime().unwrap();
    assert_eq!(before.timestamp(), -2);
    assert_eq!(before.timestamp_subsec_nanos(), 0);
    assert!(PolygonTimestamp::from_nanos(i64::MAX).to_datetime().is_some());
}

#[test]
fn utc_date_times() {
    assert!(UtcDateTime::from_timestamp(0, 2_000_000_000).is_none());
    assert!(UtcDateTime::from_timestamp(0, 1_000_000_000).is_none());
    assert!(UtcDateTime::from_timestamp(59, 1_000_000_000).is_some());
    let t = UtcDateTime::from_timestamp(86_400, 5).unwrap();
    assert_eq!((t.timestamp(), t.timestamp_subsec_nanos()), (86_400, 5));
}

#[test]
fn timestamps_at_the_ends_of_chrono_range() {
    assert!(UtcDateTime::from_timestamp(-8_334_601_228_800, 0).is_some());
    assert!(UtcDateTime::from_timestamp(-8_334_601_228_801, 999_999_999).is_none());
    assert!(UtcDateTime::from_timestamp(8_210_266_876_799, 999_999_999).is_some());
    assert!(UtcDateTime::from_timestamp(8_210_266_876_800, 0).is_none());
    assert!(UtcDateTime::from_timestamp(8_210_266_876_799, 1_500_000_000).is_some());
    assert!(UtcDateTime::from_timestamp(i64::MAX, 0).is_none());
    assert!(UtcDateTime::from_timestamp(i64::MIN, 0).is_none());
}
