use ping_rs::classify::{
    classify_io_error, echo_outcome, parse_raw_reply_status, ping_reply_error,
    raw_reply_to_output, u32_to_decimal, ERROR_IO_PENDING, IP_STATUS_BASE,
};
use ping_rs::reply::PingRawReply;
use ping_rs::{ip_status, IpAddress, PingError};

#[test]
fn status_zero_is_success() {
    assert!(parse_raw_reply_status(0, None).is_ok());
}

#[test]
fn status_below_base_is_os_error() {
    let r = parse_raw_reply_status(5, Some("Access is denied.".to_string()));
    assert!(matches!(r, Err(PingError::OsError(5, m)) if m == "Access is denied."));
}

#[test]
fn status_at_or_above_base_is_ip_error() {
    let r = parse_raw_reply_status(ip_status::TimedOut, None);
    assert!(matches!(r, Err(PingError::IpError(c)) if c == 11010));

    let r = parse_raw_reply_status(IP_STATUS_BASE, None);
    assert!(matches!(r, Err(PingError::IpError(c)) if c == IP_STATUS_BASE));
}

#[test]
fn unresolvable_message_is_synthesized() {
    let e = ping_reply_error(123, None);
    assert!(matches!(e, PingError::OsError(123, m) if m == "Ping failed (123)"));

    // An empty resolved text counts as unresolvable too.
    let e = ping_reply_error(7, Some(String::new()));
    assert!(matches!(e, PingError::OsError(7, m) if m == "Ping failed (7)"));
}

#[test]
fn decimal_rendering_exact() {
    assert_eq!(u32_to_decimal(0), "0");
    assert_eq!(u32_to_decimal(9), "9");
    assert_eq!(u32_to_decimal(10), "10");
    assert_eq!(u32_to_decimal(1234), "1234");
    assert_eq!(u32_to_decimal(u32::MAX), "4294967295");
}

#[test]
fn raw_reply_success_carries_address_and_rtt() {
    let raw = PingRawReply { address: IpAddress::V4(0x08080808), status: 0, rtt: 23 };
    let r = raw_reply_to_output(&raw, None);
    let reply = r.unwrap();
    assert_eq!(reply.address, IpAddress::V4(0x08080808));
    assert_eq!(reply.rtt, 23);
}

#[test]
fn raw_reply_failure_is_classified() {
    let raw = PingRawReply { address: IpAddress::V4(0), status: ip_status::TtlExpired, rtt: 0 };
    let r = raw_reply_to_output(&raw, None);
    assert!(matches!(r, Err(PingError::IpError(c)) if c == 11013));
}

#[test]
fn echo_outcome_distinguishes_pending() {
    assert!(matches!(echo_outcome(0, ERROR_IO_PENDING, None), Err(PingError::IoPending)));
    assert!(echo_outcome(1, 0, None).is_ok());
    let r = echo_outcome(0, 5, Some("boom".to_string()));
    assert!(matches!(r, Err(PingError::OsError(5, m)) if m == "boom"));
    let r = echo_outcome(0, ip_status::GeneralFailure, None);
    assert!(matches!(r, Err(PingError::IpError(c)) if c == 11050));
}

#[test]
fn io_error_classification() {
    assert!(matches!(classify_io_error(true, 11, "spurious".to_string()), PingError::IoPending));
    let e = classify_io_error(false, 111, "Connection refused".to_string());
    assert!(matches!(e, PingError::OsError(111, m) if m == "Connection refused"));
}
