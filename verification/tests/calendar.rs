use rustlog::calendar::civil_from_days_utc;
use rustlog::clock::{write_rendered, write_timestamp, write_utc_stamp, Clock, MAX_OFFSET};
use rustlog::digits::{push_decimal, push_padded};

fn utc(secs: u64, millis: u32) -> String {
    let mut s = String::new();
    write_utc_stamp(&mut s, secs, millis);
    s
}

fn stamp(now: Clock) -> String {
    let mut s = String::new();
    write_timestamp(&mut s, &now);
    s
}

fn days_in_month(y: i64, m: u32) -> u32 {
    let leap = y % 4 == 0 && (y % 100 != 0 || y % 400 == 0);
    match m {
        2 => {
            if leap {
                29
            } else {
                28
            }
        }
        4 | 6 | 9 | 11 => 30,
        _ => 31,
    }
}

#[test]
fn known_days_of_the_calendar() {
    assert_eq!(civil_from_days_utc(0), (1970, 1, 1));
    assert_eq!(civil_from_days_utc(-1), (1969, 12, 31));
    assert_eq!(civil_from_days_utc(1), (1970, 1, 2));
    assert_eq!(civil_from_days_utc(58), (1970, 2, 28));
    assert_eq!(civil_from_days_utc(59), (1970, 3, 1));
    assert_eq!(civil_from_days_utc(365), (1971, 1, 1));
    assert_eq!(civil_from_days_utc(11_016), (2000, 2, 29));
    assert_eq!(civil_from_days_utc(11_017), (2000, 3, 1));
    assert_eq!(civil_from_days_utc(19_782), (2024, 2, 29));
    assert_eq!(civil_from_days_utc(19_783), (2024, 3, 1));
    assert_eq!(civil_from_days_utc(47_540), (2100, 2, 28));
    assert_eq!(civil_from_days_utc(47_541), (2100, 3, 1));
    assert_eq!(civil_from_days_utc(-25_509), (1900, 2, 28));
    assert_eq!(civil_from_days_utc(-25_508), (1900, 3, 1));
    assert_eq!(civil_from_days_utc(-719_468), (0, 3, 1));
    assert_eq!(civil_from_days_utc(-719_469), (0, 2, 29));
    assert_eq!(civil_from_days_utc(-719_528), (0, 1, 1));
    assert_eq!(civil_from_days_utc(-719_529), (-1, 12, 31));
    assert_eq!(civil_from_days_utc(2_932_896), (9999, 12, 31));
}

#[test]
fn the_ends_of_the_count_are_days_too() {
    let (y, m, d) = civil_from_days_utc(i64::MAX);
    assert!(y > 25_000_000_000_000_000);
    assert!((1..=12).contains(&m) && d >= 1 && d <= days_in_month(y, m));
    let (y, m, d) = civil_from_days_utc(i64::MIN);
    assert!(y < -25_000_000_000_000_000);
    assert!((1..=12).contains(&m) && d >= 1 && d <= days_in_month(y, m));
}

#[test]
fn days_follow_each_other() {
    let mut prev = civil_from_days_utc(-800_000);
    for n in -799_999..800_000i64 {
        let (y, m, d) = civil_from_days_utc(n);
        let (py, pm, pd) = prev;
        let next = if pd < days_in_month(py, pm) {
            (py, pm, pd + 1)
        } else if pm < 12 {
            (py, pm + 1, 1)
        } else {
            (py + 1, 1, 1)
        };
        assert_eq!((y, m, d), next, "day {n}");
        prev = (y, m, d);
    }
}

#[test]
fn utc_stamps_are_exact() {
    assert_eq!(utc(0, 0), "1970-01-01 00:00:00.000Z ");
    assert_eq!(utc(1, 1), "1970-01-01 00:00:01.001Z ");
    assert_eq!(utc(86_399, 999), "1970-01-01 23:59:59.999Z ");
    assert_eq!(utc(86_400, 0), "1970-01-02 00:00:00.000Z ");
    assert_eq!(utc(951_782_400, 42), "2000-02-29 00:00:00.042Z ");
    assert_eq!(utc(1_700_000_000, 7), "2023-11-14 22:13:20.007Z ");
    assert_eq!(utc(1_709_251_199, 120), "2024-02-29 23:59:59.120Z ");
    assert_eq!(utc(253_402_300_799, 0), "9999-12-31 23:59:59.000Z ");
    assert_eq!(utc(253_402_300_800, 0), "10000-01-01 00:00:00.000Z ");
    assert_eq!(utc(0, 1_234), "1970-01-01 00:00:00.1234Z ");
}

#[test]
fn utc_stamp_of_the_last_second() {
    let s = utc(u64::MAX, 0);
    assert!(s.ends_with(":15.000Z "), "{s}");
    assert!(s.starts_with("584554051223-11-09 07:00"), "{s}");
}

#[test]
fn numbers_are_written_in_decimal() {
    let mut s = String::new();
    push_decimal(&mut s, 0);
    s.push(' ');
    push_decimal(&mut s, 7);
    s.push(' ');
    push_decimal(&mut s, 10);
    s.push(' ');
    push_decimal(&mut s, 4_294_967_295);
    s.push(' ');
    push_decimal(&mut s, u128::MAX);
    assert_eq!(
        s,
        "0 7 10 4294967295 340282366920938463463374607431768211455"
    );
    let mut s = String::new();
    push_padded(&mut s, 5, 2);
    s.push(' ');
    push_padded(&mut s, 0, 3);
    s.push(' ');
    push_padded(&mut s, 123, 3);
    s.push(' ');
    push_padded(&mut s, 1234, 3);
    s.push(' ');
    push_padded(&mut s, 9, 0);
    s.push(' ');
    push_padded(&mut s, 9, 1);
    assert_eq!(s, "05 000 123 1234 9 9");
}

#[test]
fn utc_timestamp_of_a_clock_reading() {
    assert_eq!(
        stamp(Clock::utc(1_700_000_000, 7)),
        "2023-11-14 22:13:20.007Z "
    );
    assert_eq!(
        stamp(Clock::Utc {
            secs: 0,
            millis: 0
        }),
        "1970-01-01 00:00:00.000Z "
    );
}

#[test]
fn local_stamps_are_rendered_at_their_offset() {
    let at = |secs: u64, nanos: u32, offset: i32| {
        stamp(Clock::Local {
            secs,
            nanos,
            offset,
        })
    };
    assert_eq!(at(0, 0, 0), "1970-01-01 00:00:00.000 ");
    assert_eq!(at(0, 0, 3_600), "1970-01-01 01:00:00.000 ");
    assert_eq!(at(0, 0, -3_600), "1969-12-31 23:00:00.000 ");
    assert_eq!(at(1_700_000_000, 7_999_999, 19_800), "2023-11-15 03:43:20.007 ");
    assert_eq!(at(1_709_251_199, 120_000_000, 1), "2024-03-01 00:00:00.120 ");
    assert_eq!(at(951_782_400, 0, -1), "2000-02-28 23:59:59.000 ");
}

#[test]
fn local_stamps_agree_with_utc_stamps() {
    for secs in [0u64, 59, 86_399, 951_782_400, 1_700_000_000, 4_102_444_800] {
        for millis in [0u32, 1, 999] {
            let local = stamp(Clock::Local {
                secs,
                nanos: millis * 1_000_000,
                offset: 0,
            });
            let utc = utc(secs, millis);
            assert_eq!(format!("{}Z ", local.trim_end()), utc);
        }
    }
}

#[test]
fn what_cannot_be_rendered_leaves_no_stamp() {
    let far = stamp(Clock::Local {
        secs: u64::MAX,
        nanos: 0,
        offset: 0,
    });
    assert_eq!(far, "");
    let skewed = stamp(Clock::Local {
        secs: 0,
        nanos: 0,
        offset: 200_000,
    });
    assert_eq!(skewed, "");
    let edge = stamp(Clock::Local {
        secs: 253_402_300_799,
        nanos: 0,
        offset: 1,
    });
    assert_eq!(edge, "");
}

#[test]
fn rendered_text_is_followed_by_a_space() {
    let mut s = String::from("x");
    write_rendered(&mut s, Some(String::from("12:00")));
    assert_eq!(s, "x12:00 ");
    write_rendered(&mut s, None);
    assert_eq!(s, "x12:00 ");
    write_rendered(&mut s, Some(String::new()));
    assert_eq!(s, "x12:00  ");
}

#[test]
fn local_clock_keeps_the_reading() {
    match Clock::local(1_700_000_000, 123_456_789) {
        Clock::Local {
            secs,
            nanos,
            offset,
        } => {
            assert_eq!(secs, 1_700_000_000);
            assert_eq!(nanos, 123_456_789);
            assert!((-MAX_OFFSET..=MAX_OFFSET).contains(&offset));
        }
        other => panic!("not a local reading: {other:?}"),
    }
}

#[test]
fn a_local_stamp_carries_no_zone_letter() {
    let line = stamp(Clock::local(1_700_000_000, 0));
    assert!(!line.contains("Z "), "{line}");
    assert_eq!(line.len(), "2023-11-14 22:13:20.000 ".len());
    let far = Clock::local(u64::MAX, 0);
    assert_eq!(
        far,
        Clock::Local {
            secs: u64::MAX,
            nanos: 0,
            offset: 0
        }
    );
    assert_eq!(stamp(far), "");
}
