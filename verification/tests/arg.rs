use surface_dtx::arg::DbusArg;
use surface_dtx::error::ErrorKind;
use surface_dtx::text::{compare, parse_decimal, push_decimal, same_text, strip_prefix, Order};
use surface_dtx::types::{
    BaseInfo, BaseState, CancelReason, DeviceMode, DeviceType, HardwareError, LatchStatus,
    RuntimeError,
};

fn decimal(n: u16) -> String {
    let mut text = String::new();
    push_decimal(&mut text, n);
    text
}

#[test]
fn decimal_is_written_without_leading_zeros() {
    assert_eq!(decimal(0), "0");
    assert_eq!(decimal(7), "7");
    assert_eq!(decimal(10), "10");
    assert_eq!(decimal(4097), "4097");
    assert_eq!(decimal(65535), "65535");
    let mut text = String::from("n=");
    push_decimal(&mut text, 120);
    assert_eq!(text, "n=120");
}

#[test]
fn decimal_is_read_like_an_unsigned_number() {
    assert_eq!(parse_decimal("0", 255), Some(0));
    assert_eq!(parse_decimal("255", 255), Some(255));
    assert_eq!(parse_decimal("256", 255), None);
    assert_eq!(parse_decimal("65535", 65535), Some(65535));
    assert_eq!(parse_decimal("65536", 65535), None);
    assert_eq!(parse_decimal("99999999999999999999", 65535), None);
    assert_eq!(parse_decimal("+12", 255), Some(12));
    assert_eq!(parse_decimal("007", 255), Some(7));
    assert_eq!(parse_decimal("", 255), None);
    assert_eq!(parse_decimal("+", 255), None);
    assert_eq!(parse_decimal("-1", 255), None);
    assert_eq!(parse_decimal("1a", 255), None);
    assert_eq!(parse_decimal(" 1", 255), None);
    assert_eq!(parse_decimal("1+", 255), None);
}

#[test]
fn decimal_round_trip_on_all_codes() {
    for n in 0..=u16::MAX {
        assert_eq!(parse_decimal(&decimal(n), u16::MAX), Some(n));
    }
}

#[test]
fn prefixes_are_taken_off() {
    assert_eq!(strip_prefix("unknown:12", "unknown:"), Some("12"));
    assert_eq!(strip_prefix("unknown:", "unknown:"), Some(""));
    assert_eq!(strip_prefix("unknown", "unknown:"), None);
    assert_eq!(strip_prefix("unknowm:12", "unknown:"), None);
    assert_eq!(strip_prefix("abc", ""), Some("abc"));
    assert!(same_text("abc", "abc"));
    assert!(!same_text("abc", "abcd"));
    assert!(!same_text("abcd", "abc"));
    assert!(!same_text("abc", "abd"));
    assert!(same_text("", ""));
}

#[test]
fn texts_compare_in_the_order_of_strings() {
    assert_eq!(compare("a", "b"), Order::Before);
    assert_eq!(compare("b", "a"), Order::After);
    assert_eq!(compare("a", "a"), Order::Same);
    assert_eq!(compare("", "a"), Order::Before);
    assert_eq!(compare("a", ""), Order::After);
    assert_eq!(compare("log", "log.level"), Order::Before);
    assert_eq!(compare("Z", "a"), Order::Before);
    assert_eq!(compare("handler.detach", "handler.attach"), Order::After);
}

#[test]
fn cancel_reasons_are_written() {
    assert_eq!(CancelReason::UserRequest.as_arg(), "request");
    assert_eq!(CancelReason::HandlerTimeout.as_arg(), "timeout:handler");
    assert_eq!(CancelReason::DisconnectTimeout.as_arg(), "timeout:disconnect");
    assert_eq!(
        CancelReason::Runtime(RuntimeError::NotAttached).as_arg(),
        "error:runtime:not-attached"
    );
    assert_eq!(
        CancelReason::Runtime(RuntimeError::NotFeasible).as_arg(),
        "error:runtime:not-feasible"
    );
    assert_eq!(CancelReason::Runtime(RuntimeError::Timeout).as_arg(), "error:runtime:timeout");
    assert_eq!(
        CancelReason::Runtime(RuntimeError::Unknown(17)).as_arg(),
        "error:runtime:unknown:17"
    );
    assert_eq!(
        CancelReason::Hardware(HardwareError::FailedToOpen).as_arg(),
        "error:hardware:failed-to-open"
    );
    assert_eq!(
        CancelReason::Hardware(HardwareError::FailedToRemainOpen).as_arg(),
        "error:hardware:failed-to-remain-open"
    );
    assert_eq!(
        CancelReason::Hardware(HardwareError::FailedToClose).as_arg(),
        "error:hardware:failed-to-close"
    );
    assert_eq!(
        CancelReason::Hardware(HardwareError::Unknown(8196)).as_arg(),
        "error:hardware:unknown:8196"
    );
    assert_eq!(CancelReason::Unknown(0).as_arg(), "unknown:0");
    assert_eq!(CancelReason::Unknown(65535).as_arg(), "unknown:65535");
}

#[test]
fn cancel_reasons_are_read() {
    assert_eq!(CancelReason::from_str("request").unwrap(), CancelReason::UserRequest);
    assert_eq!(
        CancelReason::from_str("error:runtime:timeout").unwrap(),
        CancelReason::Runtime(RuntimeError::Timeout)
    );
    assert_eq!(
        CancelReason::from_str("error:hardware:unknown:300").unwrap(),
        CancelReason::Hardware(HardwareError::Unknown(300))
    );
    assert_eq!(CancelReason::from_str("unknown:42").unwrap(), CancelReason::Unknown(42));
}

#[test]
fn unreadable_cancel_reasons_are_protocol_errors() {
    for text in [
        "",
        "Request",
        "request ",
        "timeout",
        "timeout:",
        "error:runtime",
        "error:runtime:",
        "error:runtime:not-attachedx",
        "error:runtime:unknown:",
        "error:runtime:unknown:256",
        "error:runtime:unknown:x",
        "error:hardware:failed-to-open:",
        "error:hardware:unknown:65536",
        "error:software:unknown:1",
        "unknown",
        "unknown:",
        "unknown:65536",
        "unknown:-1",
    ] {
        let error = CancelReason::from_str(text).unwrap_err();
        assert_eq!(error.kind(), ErrorKind::DBusService, "{:?}", text);
    }
}

#[test]
fn runtime_and_hardware_errors_are_read_from_their_own_form_only() {
    assert_eq!(
        RuntimeError::from_str("error:runtime:not-feasible").unwrap(),
        RuntimeError::NotFeasible
    );
    assert_eq!(RuntimeError::from_str("error:runtime:unknown:255").unwrap(), RuntimeError::Unknown(255));
    assert_eq!(
        RuntimeError::from_str("error:hardware:failed-to-open").unwrap_err().kind(),
        ErrorKind::DBusService
    );
    assert_eq!(
        HardwareError::from_str("error:hardware:failed-to-close").unwrap(),
        HardwareError::FailedToClose
    );
    assert_eq!(
        HardwareError::from_str("error:runtime:timeout").unwrap_err().kind(),
        ErrorKind::DBusService
    );
}

#[test]
fn cancel_reasons_round_trip() {
    let mut reasons = vec![
        CancelReason::UserRequest,
        CancelReason::HandlerTimeout,
        CancelReason::DisconnectTimeout,
        CancelReason::Runtime(RuntimeError::NotAttached),
        CancelReason::Runtime(RuntimeError::NotFeasible),
        CancelReason::Runtime(RuntimeError::Timeout),
        CancelReason::Hardware(HardwareError::FailedToOpen),
        CancelReason::Hardware(HardwareError::FailedToRemainOpen),
        CancelReason::Hardware(HardwareError::FailedToClose),
    ];
    for code in [0u16, 1, 9, 10, 255, 256, 4097, 8193, 65535] {
        reasons.push(CancelReason::Unknown(code));
        reasons.push(CancelReason::Hardware(HardwareError::Unknown(code)));
    }
    for code in [0u8, 1, 9, 10, 99, 100, 255] {
        reasons.push(CancelReason::Runtime(RuntimeError::Unknown(code)));
    }
    for reason in reasons {
        assert_eq!(CancelReason::from_str(&reason.as_arg()).unwrap(), reason);
    }
}

#[test]
fn properties_are_written() {
    assert_eq!(DeviceMode::Tablet.as_arg(), "tablet");
    assert_eq!(DeviceMode::Laptop.as_arg(), "laptop");
    assert_eq!(DeviceMode::Studio.as_arg(), "studio");
    assert_eq!(DeviceMode::Studio.as_str(), "studio");
    assert_eq!(LatchStatus::Closed.as_arg(), "closed");
    assert_eq!(LatchStatus::Opened.as_arg(), "opened");
    assert_eq!(
        LatchStatus::Error(HardwareError::FailedToOpen).as_arg(),
        "error:hardware:failed-to-open"
    );
    assert_eq!(
        LatchStatus::Error(HardwareError::FailedToRemainOpen).as_arg(),
        "error:hardware:failed-to-remain-open"
    );
    assert_eq!(
        LatchStatus::Error(HardwareError::FailedToClose).as_arg(),
        "error:hardware:failed-to-close"
    );
    assert_eq!(LatchStatus::Error(HardwareError::Unknown(5)).as_arg(), "error:hardware:unknown:5");
    assert_eq!(BaseState::Attached.as_arg(), "attached");
    assert_eq!(BaseState::Detached.as_arg(), "detached");
    assert_eq!(BaseState::NotFeasible.as_arg(), "not-feasible");
    assert_eq!(DeviceType::Hid.as_arg(), "hid");
    assert_eq!(DeviceType::Ssh.as_arg(), "ssh");
    assert_eq!(DeviceType::Unknown(200).as_arg(), "unknown:200");
    let info = BaseInfo { state: BaseState::NotFeasible, device_type: DeviceType::Hid, id: 3 };
    assert_eq!(info.as_arg(), ("not-feasible".to_string(), "hid".to_string(), 3));
}
