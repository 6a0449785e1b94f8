use ukeep::date::{expiry_text_after, today, CalendarDate, MAX_DAY, MIN_DAY};

#[test]
fn iso_text_round_trip() {
    let d = CalendarDate::parse_iso("2024-05-01").unwrap();
    assert_eq!(d.day_number(), 739007);
    assert_eq!(d.to_iso_string(), "2024-05-01");
    let first = CalendarDate::from_day_number(1).unwrap();
    assert_eq!(first.to_iso_string(), "0001-01-01");
}

#[test]
fn parse_rejects_non_dates() {
    assert!(CalendarDate::parse_iso("2023-02-29").is_none());
    assert!(CalendarDate::parse_iso("yesterday").is_none());
    assert!(CalendarDate::parse_iso("").is_none());
    assert!(CalendarDate::parse_iso("2024-02-29").is_some());
}

#[test]
fn day_number_range() {
    assert!(CalendarDate::from_day_number(MIN_DAY as i64).is_some());
    assert!(CalendarDate::from_day_number(MAX_DAY as i64).is_some());
    assert!(CalendarDate::from_day_number(MIN_DAY as i64 - 1).is_none());
    assert!(CalendarDate::from_day_number(MAX_DAY as i64 + 1).is_none());
    assert!(CalendarDate::from_day_number(100_000_000).is_none());
}

#[test]
fn adding_days() {
    let d = CalendarDate::parse_iso("2024-12-30").unwrap();
    assert_eq!(d.add_days(3).unwrap().to_iso_string(), "2025-01-02");
    assert_eq!(d.add_days(-365).unwrap().to_iso_string(), "2023-12-31");
    assert!(d.add_days(i64::MAX).is_none());
    assert!(d.add_days(i64::MIN).is_none());
    let last = CalendarDate::from_day_number(MAX_DAY as i64).unwrap();
    assert!(last.add_days(1).is_none());
    assert_eq!(last.add_days(0), Some(last));
}

#[test]
fn days_between_dates() {
    let a = CalendarDate::parse_iso("2024-01-01").unwrap();
    let b = CalendarDate::parse_iso("2025-01-01").unwrap();
    assert_eq!(a.days_until(&b), 366);
    assert_eq!(b.days_until(&a), -366);
}

#[test]
fn expiry_from_production_date() {
    assert_eq!(expiry_text_after("2024-02-27", 3), Some("2024-03-01".to_string()));
    assert_eq!(expiry_text_after("2023-02-27", 3), Some("2023-03-02".to_string()));
    assert_eq!(expiry_text_after("2024-05-01", 0), Some("2024-05-01".to_string()));
    assert_eq!(expiry_text_after("not a date", 3), None);
    assert_eq!(expiry_text_after("2024-05-01", i64::MAX), None);
}

#[test]
fn today_is_a_holdable_date() {
    let t = today();
    assert!(t.day_number() >= MIN_DAY && t.day_number() <= MAX_DAY);
    assert_eq!(CalendarDate::parse_iso(&t.to_iso_string()), Some(t));
}
