use arma_stats::text::{decimal, parse_decimal, same_text};
use arma_stats::wire::split_command;

#[test]
fn decimal_renders_integers() {
    assert_eq!("0", decimal(0));
    assert_eq!("7", decimal(7));
    assert_eq!("1", decimal(1));
    assert_eq!("-42", decimal(-42));
    assert_eq!("1000", decimal(1000));
    assert_eq!("9223372036854775807", decimal(i64::MAX));
    assert_eq!("-9223372036854775808", decimal(i64::MIN));
}

#[test]
fn parse_decimal_reads_integers() {
    assert_eq!(Some(123), parse_decimal("123"));
    assert_eq!(Some(-5), parse_decimal("-5"));
    assert_eq!(Some(7), parse_decimal("+7"));
    assert_eq!(Some(7), parse_decimal("007"));
    assert_eq!(Some(i64::MAX), parse_decimal("9223372036854775807"));
    assert_eq!(Some(i64::MIN), parse_decimal("-9223372036854775808"));
    assert_eq!(None, parse_decimal("9223372036854775808"));
    assert_eq!(None, parse_decimal("-9223372036854775809"));
    assert_eq!(None, parse_decimal("123456789012345678901234567890"));
    assert_eq!(None, parse_decimal(""));
    assert_eq!(None, parse_decimal("-"));
    assert_eq!(None, parse_decimal("12a"));
    assert_eq!(None, parse_decimal(" 1"));
    assert_eq!(None, parse_decimal("1.0"));
}

#[test]
fn decimal_and_parse_agree() {
    for n in [0i64, 1, -1, 99, -100, 123456789, i64::MAX, i64::MIN] {
        assert_eq!(Some(n), parse_decimal(&decimal(n)));
    }
}

#[test]
fn same_text_compares_characters() {
    assert!(same_text("echo", "echo"));
    assert!(!same_text("echo", "echo "));
    assert!(!same_text("echo", "ecHo"));
    assert!(same_text("", ""));
}

#[test]
fn split_command_takes_two_fields() {
    assert_eq!(Some(("echo".to_string(), "foobar".to_string())), split_command("echo;foobar"));
    assert_eq!(Some(("panic".to_string(), "".to_string())), split_command("panic;"));
    assert_eq!(Some(("event".to_string(), "{\"a\":1}".to_string())), split_command("event;{\"a\":1};rest"));
    assert_eq!(Some(("".to_string(), "x".to_string())), split_command(";x"));
    assert_eq!(None, split_command("setup"));
    assert_eq!(None, split_command(""));
}
