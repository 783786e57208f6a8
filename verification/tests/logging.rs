use kiosk_desktop::calendar::{civil_from_days, format_unix_ts, Date};
use kiosk_desktop::logging::{enabled, log_line, log_path, max_log_level, LogLevel};
use kiosk_desktop::path::DesktopPath;

#[test]
fn times_are_written_in_utc() {
    for (secs, text) in [
        (0, "1970-01-01T00:00:00Z"),
        (59, "1970-01-01T00:00:59Z"),
        (86_399, "1970-01-01T23:59:59Z"),
        (86_400, "1970-01-02T00:00:00Z"),
        (951_782_400, "2000-02-29T00:00:00Z"),
        (951_868_800, "2000-03-01T00:00:00Z"),
        (1_000_000_000, "2001-09-09T01:46:40Z"),
        (1_709_164_800, "2024-02-29T00:00:00Z"),
        (4_102_444_799, "2099-12-31T23:59:59Z"),
        (4_107_542_400, "2100-03-01T00:00:00Z"),
        (253_402_300_799, "9999-12-31T23:59:59Z"),
        (253_402_300_800, "10000-01-01T00:00:00Z"),
    ] {
        assert_eq!(format_unix_ts(secs), text);
    }
    assert!(format_unix_ts(u64::MAX).ends_with("Z"));
}

fn days_in_month(year: u64, month: u64) -> u64 {
    match month {
        2 if year % 4 == 0 && (year % 100 != 0 || year % 400 == 0) => 29,
        2 => 28,
        4 | 6 | 9 | 11 => 30,
        _ => 31,
    }
}

#[test]
fn days_follow_the_calendar() {
    let mut date = Date { year: 1970, month: 1, day: 1 };
    for n in 0..200_000 {
        assert_eq!(civil_from_days(n), date);
        date.day += 1;
        if date.day > days_in_month(date.year, date.month) {
            date.day = 1;
            date.month += 1;
        }
        if date.month > 12 {
            date.month = 1;
            date.year += 1;
        }
    }
}

#[test]
fn the_level_is_read_from_the_environment() {
    let level = |s: &str| max_log_level(&Some(s.to_string()));
    assert_eq!(max_log_level(&None), LogLevel::Info);
    for (value, wanted) in [
        ("", LogLevel::Info),
        ("nonsense", LogLevel::Info),
        ("INFO", LogLevel::Info),
        ("error", LogLevel::Error),
        ("Warn", LogLevel::Warn),
        ("kiosk=DEBUG,error", LogLevel::Debug),
        ("warn,error", LogLevel::Warn),
        ("debug,trace", LogLevel::Trace),
        ("\u{212a}error", LogLevel::Error),
    ] {
        assert_eq!(level(value), wanted, "{:?}", value);
    }
}

#[test]
fn no_other_character_has_a_letter_of_the_words_as_its_lower_case() {
    for n in 0x80..=0x10FFFFu32 {
        if let Some(c) = char::from_u32(n) {
            for l in c.to_lowercase() {
                assert!(!"tracedebugwarnerror".contains(l));
            }
        }
    }
}

#[test]
fn grave_messages_are_kept() {
    let levels =
        [LogLevel::Error, LogLevel::Warn, LogLevel::Info, LogLevel::Debug, LogLevel::Trace];
    for (i, a) in levels.iter().enumerate() {
        for (j, b) in levels.iter().enumerate() {
            assert_eq!(enabled(*a, *b), i <= j);
        }
    }
}

#[test]
fn a_line_has_its_time_and_its_level() {
    assert_eq!(
        log_line(0, LogLevel::Info, "kiosk", "hello"),
        "[1970-01-01T00:00:00Z INFO  kiosk] hello\n"
    );
    assert_eq!(
        log_line(1, LogLevel::Warn, "k", "m"),
        "[1970-01-01T00:00:01Z WARN  k] m\n"
    );
    for (level, name) in
        [(LogLevel::Error, "ERROR"), (LogLevel::Debug, "DEBUG"), (LogLevel::Trace, "TRACE")]
    {
        assert_eq!(log_line(0, level, "k", ""), format!("[1970-01-01T00:00:00Z {} k] \n", name));
    }
    assert_eq!(log_path(&DesktopPath::text("/d")).parts, ["kiosk.log"]);
}
