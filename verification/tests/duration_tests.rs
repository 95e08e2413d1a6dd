use x402_watch::config::default_method;
use x402_watch::duration::{
    parse_duration, parse_duration_parts, try_parse_duration, unit_from_lowercase,
    DurationError, TimeUnit,
};
use x402_watch::text::u64_to_decimal;

#[test]
fn default_method_is_get() {
    assert_eq!(default_method(), "GET");
}

#[test]
fn seconds_minutes_hours() {
    assert_eq!(parse_duration("5s"), Ok(5));
    assert_eq!(parse_duration("10m"), Ok(600));
    assert_eq!(parse_duration("1h"), Ok(3600));
    assert_eq!(parse_duration("60s"), Ok(60));
}

#[test]
fn bare_number_is_seconds() {
    assert_eq!(parse_duration("30"), Ok(30));
    assert_eq!(parse_duration("007"), Ok(7));
}

#[test]
fn unit_is_case_and_space_insensitive() {
    assert_eq!(parse_duration("5M"), Ok(300));
    assert_eq!(parse_duration(" 2 H "), Ok(7200));
    assert_eq!(parse_duration("3\tS"), Ok(3));
}

#[test]
fn digits_are_gathered_wherever_they_stand() {
    assert_eq!(parse_duration("1m2"), Ok(720));
    assert_eq!(parse_duration_parts("1m2"), Ok((12, TimeUnit::Minutes)));
}

#[test]
fn no_digit_is_invalid_format() {
    let e = parse_duration("abc").unwrap_err();
    assert_eq!(e, DurationError::InvalidFormat("abc".to_string()));
    assert_eq!(e.message(), "Invalid duration format: abc");
    assert_eq!(parse_duration(""), Err(DurationError::InvalidFormat(String::new())));
}

#[test]
fn unknown_unit_is_invalid_unit() {
    let e = parse_duration("5x").unwrap_err();
    assert_eq!(e, DurationError::InvalidUnit("x".to_string()));
    assert_eq!(e.message(), "Invalid duration unit: x. Use s, m, or h.");
    assert_eq!(parse_duration("5ms"), Err(DurationError::InvalidUnit("ms".to_string())));
    assert_eq!(parse_duration("1 d"), Err(DurationError::InvalidUnit(" d".to_string())));
}

#[test]
fn number_too_large() {
    let e = parse_duration("18446744073709551616s").unwrap_err();
    assert_eq!(e, DurationError::NumberTooLarge);
    assert_eq!(e.message(), "number too large to fit in target type");
    assert_eq!(parse_duration("18446744073709551615"), Ok(u64::MAX));
}

#[test]
fn seconds_overflow_is_detected() {
    assert_eq!(try_parse_duration("18446744073709551615h"), None);
    assert_eq!(try_parse_duration("18446744073709551615m"), None);
    assert_eq!(try_parse_duration("5m"), Some(Ok(300)));
    assert_eq!(try_parse_duration("x"), Some(Err(DurationError::InvalidFormat("x".to_string()))));
}

#[test]
fn unit_names() {
    assert_eq!(unit_from_lowercase(""), Some(TimeUnit::Seconds));
    assert_eq!(unit_from_lowercase("  "), Some(TimeUnit::Seconds));
    assert_eq!(unit_from_lowercase("s"), Some(TimeUnit::Seconds));
    assert_eq!(unit_from_lowercase("\u{3000}m\u{a0}"), Some(TimeUnit::Minutes));
    assert_eq!(unit_from_lowercase("h"), Some(TimeUnit::Hours));
    assert_eq!(unit_from_lowercase("H"), None);
    assert_eq!(unit_from_lowercase("m s"), None);
}

#[test]
fn decimal_round_trip() {
    assert_eq!(u64_to_decimal(0), "0");
    assert_eq!(u64_to_decimal(402), "402");
    assert_eq!(u64_to_decimal(u64::MAX), u64::MAX.to_string());
    for n in [0u64, 9, 10, 99, 100, 12345, u64::MAX] {
        assert_eq!(parse_duration(&u64_to_decimal(n)), Ok(n));
    }
}

/// The reading of durations that `str` methods give, to hold the library to.
fn std_reading(s: &str) -> Option<Result<u64, ()>> {
    let mut num_str = String::new();
    let mut unit = String::new();
    for c in s.chars() {
        if c.is_digit(10) {
            num_str.push(c);
        } else {
            unit.push(c);
        }
    }
    if num_str.is_empty() {
        return Some(Err(()));
    }
    let num: u64 = match num_str.parse() {
        Ok(n) => n,
        Err(_) => return Some(Err(())),
    };
    let per = match unit.to_lowercase().trim() {
        "s" | "" => 1,
        "m" => 60,
        "h" => 3600,
        _ => return Some(Err(())),
    };
    num.checked_mul(per).map(Ok)
}

#[test]
fn agrees_with_std_on_whitespace_and_case() {
    let spaces = [
        '\t', '\n', '\u{b}', '\u{c}', '\r', ' ', '\u{85}', '\u{a0}', '\u{1680}', '\u{2000}',
        '\u{2005}', '\u{200a}', '\u{2028}', '\u{2029}', '\u{202f}', '\u{205f}', '\u{3000}',
        '\u{180e}', '\u{200b}', '\u{feff}', 'x', 'S', 'M', 'H', 's', '\u{17f}', '\u{212a}',
    ];
    for a in spaces {
        for b in spaces {
            for unit in ["s", "m", "h", "", "S", "M"] {
                let text = format!("{}12{}{}", a, unit, b);
                let expected = std_reading(&text);
                let got = try_parse_duration(&text).map(|r| r.map_err(|_| ()));
                assert_eq!(got, expected, "for {:?}", text);
            }
        }
    }
}
