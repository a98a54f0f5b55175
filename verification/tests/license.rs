use videopos::clock::{instant_from_epoch_offset, Instant, LocalReading};
use videopos::license::{expired_against, License};

fn license(expire: Option<&str>, hwid: Option<&str>) -> License {
    License {
        value: "KEY".to_string(),
        expire: expire.map(|s| s.to_string()),
        username: "user".to_string(),
        hwid: hwid.map(|s| s.to_string()),
    }
}

#[test]
fn no_expiry_never_expires() {
    assert!(!license(None, None).is_expired());
}

#[test]
fn unreadable_expiry_never_expires() {
    assert!(!license(Some(""), None).is_expired());
    assert!(!license(Some("tomorrow"), None).is_expired());
    assert!(!license(Some("2001-01-01T00:00:00"), None).is_expired());
    assert!(!license(Some("2001-01-01 00:00:00.000000"), None).is_expired());
}

#[test]
fn past_expiry_expires() {
    assert!(license(Some("2001-01-01T00:00:00.000000"), None).is_expired());
    assert!(license(Some("2020-06-15T12:30:45.123456"), None).is_expired());
}

#[test]
fn future_expiry_does_not_expire() {
    assert!(!license(Some("2999-01-01T00:00:00.000000"), None).is_expired());
}

fn at(secs: i64, nanos: u32) -> Instant {
    Instant { secs, nanos }
}

#[test]
fn single_reading_compares_instants() {
    let reading = LocalReading::Single(at(100, 500));
    assert!(!expired_against(reading, at(99, 999)));
    assert!(!expired_against(reading, at(100, 500)));
    assert!(expired_against(reading, at(100, 501)));
    assert!(expired_against(reading, at(101, 0)));
}

#[test]
fn ambiguous_reading_waits_for_both() {
    for reading in [
        LocalReading::Ambiguous(at(100, 0), at(3700, 0)),
        LocalReading::Ambiguous(at(3700, 0), at(100, 0)),
    ] {
        assert!(!expired_against(reading, at(50, 0)));
        assert!(!expired_against(reading, at(200, 0)));
        assert!(!expired_against(reading, at(3700, 0)));
        assert!(expired_against(reading, at(3700, 1)));
    }
}

#[test]
fn epoch_offsets_after() {
    assert_eq!(instant_from_epoch_offset(Ok((5, 7))), at(5, 7));
    assert_eq!(instant_from_epoch_offset(Ok((0, 0))), at(0, 0));
    assert_eq!(instant_from_epoch_offset(Ok((1_700_000_000, 999_999_999))), at(1_700_000_000, 999_999_999));
    assert_eq!(instant_from_epoch_offset(Ok((u64::MAX, 3))), at(i64::MAX, 999_999_999));
}

#[test]
fn epoch_offsets_before() {
    assert_eq!(instant_from_epoch_offset(Err((3, 0))), at(-3, 0));
    assert_eq!(instant_from_epoch_offset(Err((1, 500_000_000))), at(-2, 500_000_000));
    assert_eq!(instant_from_epoch_offset(Err((0, 1))), at(-1, 999_999_999));
    assert_eq!(instant_from_epoch_offset(Err((u64::MAX, 1))), at(i64::MIN, 0));
}

#[test]
fn skipped_reading_never_expires() {
    assert!(!expired_against(LocalReading::Gap, at(i64::MAX, 0)));
}

#[test]
fn expiry_stays() {
    let reading = LocalReading::Single(at(10, 0));
    assert!(expired_against(reading, at(11, 0)));
    assert!(expired_against(reading, at(1_000_000, 0)));
}

#[test]
fn clone_keeps_fields() {
    let l = license(Some("2001-01-01T00:00:00.000000"), Some("abc"));
    let c = l.clone();
    assert_eq!(c.value, "KEY");
    assert_eq!(c.username, "user");
    assert_eq!(c.expire.as_deref(), Some("2001-01-01T00:00:00.000000"));
    assert_eq!(c.hwid.as_deref(), Some("abc"));
}

#[test]
fn expiry_wall_time_reads_the_date() {
    assert_eq!(
        license(Some("2001-01-01T00:00:00.000000"), None).expiry_wall_time(),
        Some(Instant { secs: 978_307_200, nanos: 0 })
    );
    assert_eq!(
        license(Some("2020-06-15T12:30:45.000000500"), None).expiry_wall_time(),
        Some(Instant { secs: 1_592_224_245, nanos: 500 })
    );
    assert_eq!(license(Some(""), None).expiry_wall_time(), None);
    assert_eq!(license(None, None).expiry_wall_time(), None);
    assert_eq!(license(Some("2001-01-01T00:00:00"), None).expiry_wall_time(), None);
}
