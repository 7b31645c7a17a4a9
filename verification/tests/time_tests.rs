use chrono::NaiveDateTime;
use voicemail::time::{format_date, is_valid_id, local_call_id, local_time, utc_time};

#[test]
fn test_format_date() {
    let aa = utc_time().unwrap().parse::<i64>().unwrap();
    let ndt = NaiveDateTime::parse_from_str(&aa.to_string(), "%Y%m%d%H%M%S").unwrap();
    println!("{}", ndt.format("%Y-%m-%dT%H:%M:%SZ").to_string());
}

#[test]
fn format_date_concrete() {
    assert_eq!(format_date(20250903120320), "2025-09-03T12:03:20Z");
    assert_eq!(format_date(20240229235959), "2024-02-29T23:59:59Z");
}

#[test]
fn id_validity() {
    assert!(is_valid_id(20250903120320));
    // leap day exists in 2024 but not 2023
    assert!(is_valid_id(20240229000000));
    assert!(!is_valid_id(20230229000000));
    // field range violations
    assert!(!is_valid_id(20251303120320)); // month 13
    assert!(!is_valid_id(20250932120320)); // day 32
    assert!(!is_valid_id(20250903240320)); // hour 24
    assert!(!is_valid_id(20250903126020)); // minute 60
    assert!(!is_valid_id(20250903120360)); // second 60
    // wrong digit count
    assert!(!is_valid_id(2025090312032));
    assert!(!is_valid_id(-20250903120320));
}

#[test]
fn local_formatter_round_trips_through_format_date() {
    let compact = local_time().unwrap();
    assert_eq!(compact.len(), 14);
    assert!(compact.bytes().all(|b| b.is_ascii_digit()));
    let id = local_call_id().unwrap();
    assert!(is_valid_id(id));
    let rfc = format_date(id);
    // strip the separators of the RFC 3339 shape to get the compact form back
    let back: String = rfc.chars().filter(|c| c.is_ascii_digit()).collect();
    assert_eq!(back.parse::<i64>().unwrap(), id);
}

#[test]
fn clock_sources_agree_on_shape() {
    let l = local_time().unwrap();
    let u = utc_time().unwrap();
    assert_eq!(l.len(), 14);
    assert_eq!(u.len(), 14);
    assert!(is_valid_id(u.parse::<i64>().unwrap()));
    assert!(is_valid_id(l.parse::<i64>().unwrap()));
}
