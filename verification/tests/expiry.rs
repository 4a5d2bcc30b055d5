use kiro_accounts::expiry::{
    check_lifetime, expiry_after, fallback_ide_expiry, ide_expiry, kam_expires_at_to_ide_rfc3339,
    kam_wall_time, Instant, MAX_SECS, MIN_SECS,
};

fn at(secs: i64, nanos: u32) -> Instant {
    Instant { secs, nanos }
}

fn is_an_hour_from_now(text: &str) -> bool {
    let t = chrono::DateTime::parse_from_rfc3339(text).unwrap();
    let ahead = t.timestamp() - chrono::Utc::now().timestamp();
    (3590..=3610).contains(&ahead)
}

#[test]
fn kam_expires_at_converts_to_rfc3339_utc() {
    let rfc = kam_expires_at_to_ide_rfc3339(Some("2026/07/20 10:02:25"));
    assert!(rfc.contains('T'), "expected RFC3339, got {rfc}");
}

#[test]
fn stored_expiry_is_read_in_the_local_zone() {
    let rfc = kam_expires_at_to_ide_rfc3339(Some("  2026/07/20 10:02:25 "));
    let t = chrono::DateTime::parse_from_rfc3339(&rfc).unwrap();
    // 2026-07-20T10:02:25Z, give or take a day.
    assert!((t.timestamp() - 1_784_541_745).abs() < 86_400, "got {rfc}");
    assert!(rfc.ends_with(":25.000Z"), "got {rfc}");
    let back = t.with_timezone(&chrono::Local).format("%Y/%m/%d %H:%M:%S").to_string();
    assert_eq!(back, "2026/07/20 10:02:25");
}

#[test]
fn wall_time_is_read_from_the_store() {
    assert_eq!(kam_wall_time(Some(" 2026/07/20 10:02:25\n")), Some(at(1_784_541_745, 0)));
    assert_eq!(kam_wall_time(Some("1970/01/01 00:00:00")), Some(at(0, 0)));
    assert_eq!(kam_wall_time(Some("1970/01/01 00:00:60")), Some(at(59, 1_000_000_000)));
    assert_eq!(kam_wall_time(None), None);
    assert_eq!(kam_wall_time(Some(" ")), None);
    assert_eq!(kam_wall_time(Some("2026-07-20 10:02:25")), None);
    assert_eq!(kam_wall_time(Some("2026/02/30 10:02:25")), None);
}

#[test]
fn unreadable_expiry_becomes_an_hour() {
    assert!(is_an_hour_from_now(&kam_expires_at_to_ide_rfc3339(None)));
    assert!(is_an_hour_from_now(&kam_expires_at_to_ide_rfc3339(Some("  "))));
    assert!(is_an_hour_from_now(&kam_expires_at_to_ide_rfc3339(Some("2026-07-20T10:02:25Z"))));
    assert!(is_an_hour_from_now(&kam_expires_at_to_ide_rfc3339(Some("2026/13/20 10:02:25"))));
}

#[test]
fn ide_expiry_is_utc_with_milliseconds() {
    assert_eq!(ide_expiry(at(0, 0)), "1970-01-01T00:00:00.000Z");
    assert_eq!(
        ide_expiry(at(1_784_541_745, 123_999_999)),
        "2026-07-20T10:02:25.123Z"
    );
    assert_eq!(ide_expiry(at(-1, 0)), "1969-12-31T23:59:59.000Z");
    assert_eq!(fallback_ide_expiry(at(1_784_541_745, 7_000_000)), "2026-07-20T11:02:25.007Z");
}

#[test]
fn leap_seconds_are_shown() {
    assert_eq!(ide_expiry(at(59, 1_500_000_000)), "1970-01-01T00:00:60.500Z");
    // In a zone with odd seconds the leap second lies within a minute of UTC.
    assert_eq!(ide_expiry(at(20, 1_500_000_000)), "1970-01-01T00:00:21.500Z");
    assert_eq!(ide_expiry(at(-41, 1_000_000_000)), "1969-12-31T23:59:20.000Z");
}

#[test]
fn last_representable_second_is_the_limit() {
    assert_eq!(fallback_ide_expiry(at(MAX_SECS, 0)), "+262142-12-31T23:59:59.000Z");
    assert_eq!(fallback_ide_expiry(at(MAX_SECS - 3600, 0)), "+262142-12-31T23:59:59.000Z");
    assert_eq!(ide_expiry(at(MIN_SECS, 0)), "-262143-01-01T00:00:00.000Z");
    assert!(chrono::DateTime::from_timestamp(MAX_SECS, 0).is_some());
    assert!(chrono::DateTime::from_timestamp(MAX_SECS + 1, 0).is_none());
    assert!(chrono::DateTime::from_timestamp(MIN_SECS, 0).is_some());
    assert!(chrono::DateTime::from_timestamp(MIN_SECS - 1, 0).is_none());
}

#[test]
fn fresh_token_expires_after_its_lifetime() {
    assert_eq!(expiry_after(at(1_784_541_745, 0), 3600), "2026-07-20T11:02:25+00:00");
    assert_eq!(
        expiry_after(at(1_784_541_745, 500_000_000), -25),
        "2026-07-20T10:02:00.500+00:00"
    );
}

#[test]
fn lifetime_has_to_fit() {
    let now = at(1_784_541_745, 0);
    assert!(check_lifetime(now, 3600));
    assert!(check_lifetime(now, MAX_SECS - now.secs));
    assert!(!check_lifetime(now, MAX_SECS - now.secs + 1));
    assert!(check_lifetime(now, MIN_SECS - now.secs));
    assert!(!check_lifetime(now, MIN_SECS - now.secs - 1));
    assert!(!check_lifetime(now, i64::MAX));
    assert!(!check_lifetime(now, i64::MIN));
}
