use standing_desk_reminder::humane::{parse_duration, TOO_MANY_DIGITS};
use standing_desk_reminder::span::Span;

#[test]
fn span_parts_and_seconds() {
    let span = Span::from_millis(12_345);
    assert_eq!(span.as_secs(), 12);
    assert_eq!(span.subsec_nanos(), 345_000_000);
    assert_eq!(span, Span::new(12, 345_000_000));
    assert!(Span::zero().is_zero());
    assert!(!Span::new(0, 1).is_zero());
}

#[test]
fn span_min_and_saturating_sub() {
    let a = Span::from_millis(250);
    let b = Span::from_secs(2);
    assert_eq!(a.min(b), a);
    assert_eq!(b.min(a), a);
    assert_eq!(b.saturating_sub(a), Span::from_millis(1750));
    assert_eq!(a.saturating_sub(b), Span::zero());
    assert_eq!(
        Span::new(3, 100).saturating_sub(Span::new(1, 200)),
        Span::new(1, 999_999_900)
    );
    assert!(a.shorter_than(&b));
    assert!(!b.shorter_than(&a));
    assert!(!a.shorter_than(&a));
}

#[test]
fn parse_friendly_durations() {
    assert_eq!(parse_duration("45m"), Ok(Span::from_secs(2700)));
    assert_eq!(parse_duration("1h 30m"), Ok(Span::from_secs(5400)));
    assert_eq!(parse_duration("30s"), Ok(Span::from_secs(30)));
    assert_eq!(parse_duration("32ms"), Ok(Span::from_millis(32)));
    assert_eq!(parse_duration("0"), Ok(Span::zero()));
}

#[test]
fn parse_rejects_garbage() {
    assert_eq!(parse_duration(""), Err("value was empty".to_string()));
    let unknown = parse_duration("5 parsecs").unwrap_err();
    assert!(unknown.starts_with("unknown time unit \"parsecs\""), "{unknown}");
    assert!(parse_duration("ten minutes").is_err());
}

#[test]
fn new_carries_whole_seconds() {
    assert_eq!(Span::new(1, 2_500_000_000), Span::new(3, 500_000_000));
    assert_eq!(Span::new(1, 2_500_000_000).as_secs(), 3);
    assert_eq!(Span::new(0, 999_999_999).as_secs(), 0);
}

#[test]
fn parse_refuses_texts_with_too_many_digits() {
    assert_eq!(
        parse_duration("18446744073709551615s 1000000000ns"),
        Err(TOO_MANY_DIGITS.to_string())
    );
    assert_eq!(parse_duration("100000000000ns"), Err(TOO_MANY_DIGITS.to_string()));
    assert_eq!(parse_duration("1 000000000000s"), Err(TOO_MANY_DIGITS.to_string()));
    // Eleven digits are still read by humantime.
    assert_eq!(parse_duration("10000000000ns"), Ok(Span::from_secs(10)));
    assert_eq!(parse_duration("12345678901s"), Ok(Span::from_secs(12_345_678_901)));
}

#[test]
fn parse_ignores_leading_zeros_when_counting_digits() {
    assert_eq!(parse_duration("0000000000001s"), Ok(Span::from_secs(1)));
    assert_eq!(parse_duration("00000000000000000000000090s"), Ok(Span::from_secs(90)));
    // Handed on to humantime, which reports its own precision error.
    let precise = parse_duration("1.000000000000001s").unwrap_err();
    assert!(precise.starts_with("number is too large or cannot be represented"), "{precise}");
    assert_ne!(precise, TOO_MANY_DIGITS);
    assert_eq!(parse_duration("1.000000001s"), Ok(Span::new(1, 1)));
    assert_eq!(
        parse_duration("0.5s 0000000000000000000000000000000000000000002m"),
        Ok(Span::from_millis(120_500))
    );
}
