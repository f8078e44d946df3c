use libfprint_rs::{
    from_libfprint, from_libfprint_static, FpDevice, GError, GErrorKind, GErrorSource,
    NativeStatus, RawError,
};

fn raw(domain: &str, code: i32, message: &str) -> RawError {
    RawError { domain: String::from(domain), code, message: String::from(message) }
}

fn failure(error: Option<RawError>) -> NativeStatus {
    NativeStatus { success: false, error }
}

#[test]
fn reported_error_is_carried_over() {
    let error: GError =
        from_libfprint(Some(raw("fp-device-error-quark", 3, "The device is already open")));
    assert_eq!(error.kind(), GErrorKind::Native);
    assert_eq!(error.code(), 3);
    assert_eq!(error.message(), "The device is already open");
    assert_eq!(error.to_string(), "The device is already open");
    assert_eq!(error.source().to_string(), "fp-device-error-quark");
    assert!(!error.is_cancelled());
}

#[test]
fn missing_error_becomes_unknown_failure() {
    let error = from_libfprint(None);
    assert_eq!(error.kind(), GErrorKind::Unknown);
    assert_eq!(error.code(), -1);
    assert_eq!(error.message(), "unknown failure");
    assert_eq!(error.source().to_string(), "");
}

#[test]
fn cancellation_needs_both_domain_and_code() {
    let cancelled = from_libfprint(Some(raw("g-io-error-quark", 19, "Operation was cancelled")));
    assert_eq!(cancelled.kind(), GErrorKind::Cancelled);
    assert!(cancelled.is_cancelled());
    assert_eq!(cancelled.code(), 19);

    let other_code = from_libfprint(Some(raw("g-io-error-quark", 35, "Invalid data")));
    assert_eq!(other_code.kind(), GErrorKind::Native);
    let other_domain = from_libfprint(Some(raw("fp-device-error-quark", 19, "nineteen")));
    assert_eq!(other_domain.kind(), GErrorKind::Native);
    assert!(!other_domain.is_cancelled());
}

#[test]
fn static_bridge_agrees_with_the_bridge() {
    let one = raw("fp-device-retry-quark", 1, "Swipe was too short");
    assert_eq!(from_libfprint_static(one.clone()), from_libfprint(Some(one)));
    let two = raw("g-io-error-quark", 19, "Operation was cancelled");
    assert_eq!(from_libfprint_static(two.clone()).kind(), GErrorKind::Cancelled);
}

#[test]
fn error_source_names_the_domain() {
    let source = GErrorSource::new("fp-device-retry-quark");
    assert_eq!(source.to_string(), "fp-device-retry-quark");
}

#[test]
fn status_operations_pass_success_on() {
    let ok = NativeStatus { success: true, error: None };
    assert_eq!(FpDevice::open_sync(ok.clone()), Ok(()));
    assert_eq!(FpDevice::close_sync(ok.clone()), Ok(()));
    assert_eq!(FpDevice::suspend_sync(ok.clone()), Ok(()));
    assert_eq!(FpDevice::resume_sync(ok.clone()), Ok(()));
    assert_eq!(FpDevice::delete_print_sync(ok.clone()), Ok(()));
    assert_eq!(FpDevice::clear_storage_sync(ok), Ok(()));
}

#[test]
fn status_operations_bridge_the_error() {
    let reported = raw("fp-device-error-quark", 2, "The device is not open");
    let expected = from_libfprint(Some(reported.clone()));
    assert_eq!(FpDevice::open_sync(failure(Some(reported.clone()))), Err(expected.clone()));
    assert_eq!(FpDevice::close_sync(failure(Some(reported.clone()))), Err(expected.clone()));
    assert_eq!(FpDevice::suspend_sync(failure(Some(reported.clone()))), Err(expected.clone()));
    assert_eq!(FpDevice::resume_sync(failure(Some(reported.clone()))), Err(expected.clone()));
    assert_eq!(
        FpDevice::delete_print_sync(failure(Some(reported.clone()))),
        Err(expected.clone())
    );
    assert_eq!(FpDevice::clear_storage_sync(failure(Some(reported))), Err(expected));
}

#[test]
fn failure_without_an_error_does_not_crash() {
    let error = FpDevice::open_sync(failure(None)).unwrap_err();
    assert_eq!(error.kind(), GErrorKind::Unknown);
    assert_eq!(error.message(), "unknown failure");
    let error = FpDevice::delete_print_sync(failure(None)).unwrap_err();
    assert_eq!(error.kind(), GErrorKind::Unknown);
}

#[test]
fn success_wins_over_a_stray_error() {
    let stray = NativeStatus { success: true, error: Some(raw("fp-device-error-quark", 2, "x")) };
    assert_eq!(FpDevice::open_sync(stray), Ok(()));
}

#[test]
fn each_reported_error_becomes_an_error_of_its_own() {
    let errors: Vec<GError> = (0..16)
        .map(|n| from_libfprint(Some(raw("fp-device-error-quark", n, &format!("failure {}", n)))))
        .collect();
    for (n, error) in errors.iter().enumerate() {
        assert_eq!(error.code(), n as i32);
        assert_eq!(error.message(), format!("failure {}", n));
    }
    let kept = errors[3].clone();
    drop(errors);
    assert_eq!(kept.message(), "failure 3");
}
