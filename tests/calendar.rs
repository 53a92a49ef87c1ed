use dolt_diesel_demo::calendar::{CalendarDate, Timestamp};

#[test]
fn calendar_date_accepts_existing_days_only() {
    assert!(CalendarDate::new(2018, 8, 6).is_some());
    assert!(CalendarDate::new(2024, 2, 29).is_some());
    assert!(CalendarDate::new(2000, 2, 29).is_some());
    assert!(CalendarDate::new(-4, 2, 29).is_some());
    assert!(CalendarDate::new(2023, 2, 29).is_none());
    assert!(CalendarDate::new(1900, 2, 29).is_none());
    assert!(CalendarDate::new(2023, 4, 31).is_none());
    assert!(CalendarDate::new(2023, 0, 1).is_none());
    assert!(CalendarDate::new(2023, 13, 1).is_none());
    assert!(CalendarDate::new(2023, 1, 0).is_none());
    assert!(CalendarDate::new(262142, 12, 31).is_some());
    assert!(CalendarDate::new(262143, 1, 1).is_none());
    assert!(CalendarDate::new(-262143, 1, 1).is_some());
    assert!(CalendarDate::new(-262144, 1, 1).is_none());
}

#[test]
fn calendar_date_new_keeps_fields() {
    let d = CalendarDate::new(2021, 4, 19).unwrap();
    assert_eq!(d, CalendarDate { year: 2021, month: 4, day: 19 });
}

#[test]
fn calendar_date_text_pads_fields() {
    assert_eq!(CalendarDate::new(2018, 8, 6).unwrap().text(), "2018-08-06");
    assert_eq!(CalendarDate::new(2023, 12, 25).unwrap().text(), "2023-12-25");
    assert_eq!(CalendarDate::new(5, 1, 2).unwrap().text(), "0005-01-02");
    assert_eq!(CalendarDate::new(0, 1, 1).unwrap().text(), "0000-01-01");
    assert_eq!(CalendarDate::new(-1, 3, 1).unwrap().text(), "-0001-03-01");
    assert_eq!(CalendarDate::new(12345, 1, 1).unwrap().text(), "+12345-01-01");
}

#[test]
fn timestamp_accepts_times_of_day_only() {
    let d = CalendarDate::new(2023, 7, 4).unwrap();
    assert!(Timestamp::new(d, 23, 59, 59, 999_999_999).is_some());
    assert!(Timestamp::new(d, 23, 59, 59, 1_500_000_000).is_some());
    assert!(Timestamp::new(d, 23, 59, 58, 1_500_000_000).is_none());
    assert!(Timestamp::new(d, 23, 59, 59, 2_000_000_000).is_none());
    assert!(Timestamp::new(d, 24, 0, 0, 0).is_none());
    assert!(Timestamp::new(d, 0, 60, 0, 0).is_none());
    assert!(Timestamp::new(d, 0, 0, 60, 0).is_none());
    let t = Timestamp::new(d, 1, 2, 3, 4).unwrap();
    assert_eq!((t.date, t.hour, t.minute, t.second, t.nanosecond), (d, 1, 2, 3, 4));
}

#[test]
fn timestamp_midnight_is_start_of_day() {
    let d = CalendarDate::new(2023, 7, 4).unwrap();
    let t = Timestamp::midnight(d);
    assert_eq!(t, Timestamp::new(d, 0, 0, 0, 0).unwrap());
}
