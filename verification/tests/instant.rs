use rtime::instant::{Instant, MAX_SECS, MIN_SECS, NANOS_PER_SEC, SECS_PER_DAY};

fn chrono_accepts(secs: i64, nanos: u32) -> bool {
    chrono::DateTime::from_timestamp(secs, nanos).is_some()
}

#[test]
fn new_keeps_both_numbers() {
    let at = Instant::new(1_431_648_000, 5).unwrap();
    assert_eq!(at.seconds(), 1_431_648_000);
    assert_eq!(at.subsec_nanos(), 5);
    let before_epoch = Instant::new(-1, 999_999_999).unwrap();
    assert_eq!(before_epoch.seconds(), -1);
    assert_eq!(before_epoch.subsec_nanos(), 999_999_999);
}

#[test]
fn constants_have_their_values() {
    assert_eq!(NANOS_PER_SEC, 1_000_000_000);
    assert_eq!(SECS_PER_DAY, 86_400);
    assert_eq!(MIN_SECS, chrono::DateTime::<chrono::Utc>::MIN_UTC.timestamp());
    assert_eq!(MAX_SECS, chrono::DateTime::<chrono::Utc>::MAX_UTC.timestamp());
    assert_eq!(MIN_SECS, -8_334_601_228_800);
    assert_eq!(MAX_SECS, 8_210_266_876_799);
}

#[test]
fn range_of_seconds_is_that_of_chrono() {
    let seconds = [
        i64::MIN,
        MIN_SECS - 86_400,
        MIN_SECS - 1,
        MIN_SECS,
        MIN_SECS + 1,
        -1,
        0,
        1,
        MAX_SECS - 1,
        MAX_SECS,
        MAX_SECS + 1,
        MAX_SECS + 86_400,
        i64::MAX,
    ];
    for secs in seconds {
        for nanos in [0, 1, 999_999_999] {
            assert_eq!(Instant::new(secs, nanos).is_some(), chrono_accepts(secs, nanos));
        }
    }
    assert!(Instant::new(MIN_SECS, 0).is_some());
    assert!(Instant::new(MIN_SECS - 1, 0).is_none());
    assert!(Instant::new(MAX_SECS, 999_999_999).is_some());
    assert!(Instant::new(MAX_SECS + 1, 0).is_none());
    assert!(Instant::new(i64::MIN, 0).is_none());
    assert!(Instant::new(i64::MAX, 0).is_none());
}

#[test]
fn leap_second_only_after_the_last_second_of_a_minute() {
    assert!(Instant::new(59, 1_000_000_000).is_some());
    assert!(Instant::new(59, 1_999_999_999).is_some());
    assert!(Instant::new(59, 2_000_000_000).is_none());
    assert!(Instant::new(58, 1_000_000_000).is_none());
    assert!(Instant::new(60, 1_000_000_000).is_none());
    assert!(Instant::new(0, 1_500_000_000).is_none());
    assert!(Instant::new(-1, 1_500_000_000).is_some());
    assert!(Instant::new(-2, 1_500_000_000).is_none());
    assert!(Instant::new(-61, 1_500_000_000).is_some());
    assert!(Instant::new(0, u32::MAX).is_none());
    assert!(Instant::new(MAX_SECS, 1_999_999_999).is_some());
    assert!(Instant::new(MIN_SECS + 59, 1_000_000_000).is_some());
    assert!(Instant::new(MIN_SECS, 1_000_000_000).is_none());
}

#[test]
fn nanoseconds_are_accepted_as_chrono_accepts_them() {
    let seconds = [MIN_SECS, MIN_SECS + 59, -61, -60, -2, -1, 0, 1, 58, 59, 60, 119, 86_399, 86_400, MAX_SECS];
    let nanos = [0, 999_999_999, 1_000_000_000, 1_500_000_000, 1_999_999_999, 2_000_000_000, u32::MAX];
    for secs in seconds {
        for n in nanos {
            assert_eq!(Instant::new(secs, n).is_some(), chrono_accepts(secs, n));
        }
    }
}

#[test]
fn instants_compare_by_both_numbers() {
    assert_eq!(Instant::new(7, 8), Instant::new(7, 8));
    assert_ne!(Instant::new(7, 8), Instant::new(7, 9));
    assert_ne!(Instant::new(7, 8), Instant::new(8, 8));
    let at = Instant::new(7, 8).unwrap();
    let copy = at;
    assert_eq!(at, copy);
}
