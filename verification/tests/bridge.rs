use backend_bridge::bridge::ProbeOutcome;
use backend_bridge::bridge::get_backend_url;
use backend_bridge::bridge::get_health_url;
use backend_bridge::bridge::interpret_probe_outcome;
use backend_bridge::decimal::u16_to_decimal;

#[test]
fn probe_success_on_200() {
    let r = interpret_probe_outcome(ProbeOutcome::Status(200));
    assert_eq!(r, Ok("Backend is healthy".to_string()));
}

#[test]
fn probe_success_on_204() {
    let r = interpret_probe_outcome(ProbeOutcome::Status(204));
    assert_eq!(r, Ok("Backend is healthy".to_string()));
}

#[test]
fn probe_success_on_299() {
    let r = interpret_probe_outcome(ProbeOutcome::Status(299));
    assert_eq!(r, Ok("Backend is healthy".to_string()));
}

#[test]
fn probe_failure_on_199() {
    let r = interpret_probe_outcome(ProbeOutcome::Status(199));
    assert_eq!(r, Err("Backend returned status: 199 <unknown status code>".to_string()));
}

#[test]
fn probe_failure_on_300() {
    let r = interpret_probe_outcome(ProbeOutcome::Status(300));
    assert_eq!(r, Err("Backend returned status: 300 Multiple Choices".to_string()));
}

#[test]
fn probe_failure_on_503_names_the_code() {
    let r = interpret_probe_outcome(ProbeOutcome::Status(503));
    let msg = r.expect_err("non-success status must fail");
    assert!(msg.contains("503"));
    assert_eq!(msg, "Backend returned status: 503 Service Unavailable");
}

#[test]
fn probe_failure_on_404() {
    let r = interpret_probe_outcome(ProbeOutcome::Status(404));
    assert_eq!(r, Err("Backend returned status: 404 Not Found".to_string()));
}

#[test]
fn probe_failure_on_code_below_any_status_line() {
    let r = interpret_probe_outcome(ProbeOutcome::Status(99));
    assert_eq!(r, Err("Backend returned status: 99".to_string()));
}

#[test]
fn probe_failure_on_code_above_any_status_line() {
    let r = interpret_probe_outcome(ProbeOutcome::Status(1000));
    assert_eq!(r, Err("Backend returned status: 1000".to_string()));
}

#[test]
fn probe_transport_failure_carries_description() {
    let detail = "connection refused (os error 111)".to_string();
    let r = interpret_probe_outcome(ProbeOutcome::TransportFailure(detail.clone()));
    let msg = r.expect_err("transport failure must fail");
    assert!(msg.contains(&detail));
    assert!(!msg.is_empty());
    assert_eq!(msg, "Backend connection failed: connection refused (os error 111)");
}

#[test]
fn probe_transport_failure_with_empty_description() {
    let r = interpret_probe_outcome(ProbeOutcome::TransportFailure(String::new()));
    assert_eq!(r, Err("Backend connection failed: ".to_string()));
}

#[test]
fn backend_url_is_fixed() {
    assert_eq!(get_backend_url(), "http://127.0.0.1:8420");
}

#[test]
fn backend_url_is_idempotent() {
    assert_eq!(get_backend_url(), get_backend_url());
}

#[test]
fn health_url_appends_health_path() {
    assert_eq!(get_health_url(), "http://127.0.0.1:8420/health");
}

#[test]
fn decimal_of_zero() {
    assert_eq!(u16_to_decimal(0), "0");
}

#[test]
fn decimal_of_single_digit() {
    assert_eq!(u16_to_decimal(7), "7");
}

#[test]
fn decimal_of_port_number() {
    assert_eq!(u16_to_decimal(8420), "8420");
}

#[test]
fn decimal_of_max_u16() {
    assert_eq!(u16_to_decimal(65535), "65535");
}

#[test]
fn decimal_has_no_leading_zeros() {
    assert_eq!(u16_to_decimal(100), "100");
    assert_eq!(u16_to_decimal(1000), "1000");
}
