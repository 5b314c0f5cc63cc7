use bright_rs::brightness::{
    brightness_argument, conclude, exit_status, plan_call, set_brightness_call, CALL_TIMEOUT_MS,
};
use bright_rs::errors::{describe_remote_failure, BusFailure, Error};
use bright_rs::parse::{parse_u32, ParseFailure};

fn args(items: &[&str]) -> Vec<String> {
    items.iter().map(|s| s.to_string()).collect()
}

fn failure(message: Option<&str>) -> BusFailure {
    BusFailure {
        name: Some("org.freedesktop.DBus.Error.AccessDenied".to_string()),
        message: message.map(|m| m.to_string()),
    }
}

#[test]
fn parse_accepts_decimal_digits() {
    assert_eq!(parse_u32("800"), Ok(800));
    assert_eq!(parse_u32("007"), Ok(7));
    assert_eq!(parse_u32("123456789"), Ok(123456789));
}

#[test]
fn parse_accepts_both_ends_of_the_range() {
    assert_eq!(parse_u32("0"), Ok(0));
    assert_eq!(parse_u32("4294967295"), Ok(4294967295));
}

#[test]
fn parse_refuses_empty_text() {
    assert_eq!(parse_u32(""), Err(ParseFailure::Empty));
}

#[test]
fn parse_refuses_non_digits() {
    assert_eq!(parse_u32("abc"), Err(ParseFailure::InvalidDigit));
    assert_eq!(parse_u32("-5"), Err(ParseFailure::InvalidDigit));
    assert_eq!(parse_u32("+5"), Err(ParseFailure::InvalidDigit));
    assert_eq!(parse_u32(" 5"), Err(ParseFailure::InvalidDigit));
    assert_eq!(parse_u32("5 "), Err(ParseFailure::InvalidDigit));
    assert_eq!(parse_u32("0x10"), Err(ParseFailure::InvalidDigit));
    assert_eq!(parse_u32("12a"), Err(ParseFailure::InvalidDigit));
    assert_eq!(parse_u32("99999999999a"), Err(ParseFailure::InvalidDigit));
}

#[test]
fn parse_refuses_values_above_u32() {
    assert_eq!(parse_u32("4294967296"), Err(ParseFailure::PosOverflow));
    assert_eq!(parse_u32("99999999999"), Err(ParseFailure::PosOverflow));
    assert_eq!(parse_u32("4294967300"), Err(ParseFailure::PosOverflow));
}

#[test]
fn missing_argument_plans_no_call() {
    assert!(matches!(plan_call(&args(&[])), Err(Error::MissingArg)));
    assert!(matches!(plan_call(&args(&["bright-rs"])), Err(Error::MissingArg)));
}

#[test]
fn invalid_argument_plans_no_call() {
    for bad in ["abc", "-5", "99999999999", ""] {
        let r = plan_call(&args(&["bright-rs", bad]));
        assert!(matches!(r, Err(Error::ParseBrightness(_))), "{bad}");
    }
    assert!(matches!(
        plan_call(&args(&["bright-rs", ""])),
        Err(Error::ParseBrightness(ParseFailure::Empty))
    ));
    assert!(matches!(
        plan_call(&args(&["bright-rs", "99999999999"])),
        Err(Error::ParseBrightness(ParseFailure::PosOverflow))
    ));
}

#[test]
fn valid_argument_plans_the_set_brightness_call() {
    let c = plan_call(&args(&["bright-rs", "800"])).unwrap();
    assert_eq!(c.destination, "org.freedesktop.login1");
    assert_eq!(c.path, "/org/freedesktop/login1/session/self");
    assert_eq!(c.timeout_ms, 5000);
    assert_eq!(CALL_TIMEOUT_MS, 5000);
    assert_eq!(c.interface, "org.freedesktop.login1.Session");
    assert_eq!(c.method, "SetBrightness");
    assert_eq!(c.subsystem, "backlight");
    assert_eq!(c.device, "intel_backlight");
    assert_eq!(c.brightness, 800);
}

#[test]
fn boundary_values_are_forwarded_unchanged() {
    let low = plan_call(&args(&["bright-rs", "0"])).unwrap();
    assert_eq!(low.brightness, 0);
    let high = plan_call(&args(&["bright-rs", "4294967295"])).unwrap();
    assert_eq!(high.brightness, 4294967295);
    assert_eq!(set_brightness_call(4294967295).brightness, u32::MAX);
}

#[test]
fn arguments_after_the_first_are_ignored() {
    assert_eq!(brightness_argument(&args(&["bright-rs", "12", "x"])).unwrap(), 12);
}

#[test]
fn remote_success_exits_with_zero() {
    let r = conclude(Ok(()));
    assert!(r.is_ok());
    assert_eq!(exit_status(&r), 0);
}

#[test]
fn remote_failure_exits_non_zero_with_its_cause() {
    let r = conclude(Err(failure(Some("Access denied"))));
    assert_ne!(exit_status(&r), 0);
    let e = r.unwrap_err();
    assert!(matches!(e, Error::Dbus(_)));
    let text = e.message();
    assert!(text.contains("Access denied"));
    assert_eq!(text, "Dbus error: Access denied");
}

#[test]
fn remote_failure_without_message() {
    let e = conclude(Err(failure(None))).unwrap_err();
    assert_eq!(e.message(), "Dbus error: ");
}

#[test]
fn argument_errors_exit_non_zero() {
    assert_eq!(exit_status(&Err(Error::MissingArg)), 1);
    assert_eq!(exit_status(&Err(Error::ParseBrightness(ParseFailure::Empty))), 1);
}

#[test]
fn error_messages() {
    assert_eq!(
        Error::MissingArg.message(),
        "Missing Brightness Argument. Usage: bright-rs <u32>"
    );
    assert_eq!(
        Error::ParseBrightness(ParseFailure::InvalidDigit).message(),
        "Invalid Brightness Value invalid digit found in string"
    );
    assert_eq!(
        Error::ParseBrightness(ParseFailure::Empty).message(),
        "Invalid Brightness Value cannot parse integer from empty string"
    );
    assert_eq!(
        Error::ParseBrightness(ParseFailure::PosOverflow).message(),
        "Invalid Brightness Value number too large to fit in target type"
    );
}

#[test]
fn failure_descriptions_match_std() {
    for (text, kind) in [
        ("", ParseFailure::Empty),
        ("x", ParseFailure::InvalidDigit),
        ("4294967296", ParseFailure::PosOverflow),
    ] {
        let std_err = text.parse::<u32>().unwrap_err();
        assert_eq!(kind.description(), std_err.to_string());
    }
}

#[test]
fn describe_remote_failure_keeps_the_cause() {
    assert_eq!(describe_remote_failure("timed out"), "Dbus error: timed out");
}
