use pulse_telemetry::{
    fatal_message, into_application_result, settle, ApplicationError, HookGate, Settlement,
};

#[test]
fn gate_grants_only_first_claim() {
    let mut gate = HookGate::new();
    assert!(gate.claim());
    assert!(!gate.claim());
    assert!(!gate.claim());
    assert!(gate.installed);
}

#[test]
fn fatal_message_uses_text_payload() {
    assert_eq!(fatal_message(Some("boom")), "boom");
}

#[test]
fn fatal_message_falls_back() {
    assert_eq!(fatal_message(None), "Unknown panic");
}

#[test]
fn settle_delivers_success_unchanged() {
    match settle::<u32, String, String>(Ok(Ok(7))) {
        Settlement::Deliver(v) => assert_eq!(v, 7),
        _ => panic!("expected delivery"),
    }
}

#[test]
fn settle_reports_failure_and_hands_it_back() {
    match settle::<(), String, String>(Ok(Err("Test error".to_string()))) {
        Settlement::ReportAndFail(e) => assert_eq!(e, "Test error"),
        _ => panic!("expected a reported failure"),
    }
}

#[test]
fn settle_reports_crash() {
    match settle::<(), String, String>(Err("task panicked".to_string())) {
        Settlement::ReportAndPanic(j) => assert_eq!(j, "task panicked"),
        _ => panic!("expected a reported crash"),
    }
}

#[test]
fn application_error_keeps_original() {
    let e = std::io::Error::new(std::io::ErrorKind::Other, "Test error");
    let a = ApplicationError::new(e);
    assert_eq!(a.original.to_string(), "Test error");
}

#[test]
fn application_result_passes_value() {
    let r: Result<u8, ApplicationError<String>> = into_application_result(Ok::<u8, String>(5));
    assert_eq!(r.ok(), Some(5));
}

#[test]
fn application_result_wraps_failure() {
    let r = into_application_result(Err::<u8, String>("bad".to_string()));
    match r {
        Err(a) => assert_eq!(a.original, "bad"),
        Ok(_) => panic!("expected a wrapped failure"),
    }
}
