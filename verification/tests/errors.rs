use data_store::error::{classify, normalize, Error, ErrorKind, Fault, FaultOrigin};

fn fault(origin: FaultOrigin, code: Option<&str>, message: &str) -> Fault {
    Fault { origin, code: code.map(|c| c.to_string()), message: message.to_string() }
}

#[test]
fn missing_key_is_not_found() {
    let f = fault(FaultOrigin::Service, Some("NoSuchKey"), "The specified key does not exist.");
    assert_eq!(classify(&f), ErrorKind::NotFound);
}

#[test]
fn denied_codes_are_unauthorized() {
    for code in ["AccessDenied", "InvalidAccessKeyId", "SignatureDoesNotMatch"] {
        let f = fault(FaultOrigin::Service, Some(code), "denied");
        assert_eq!(classify(&f), ErrorKind::Unauthorized);
    }
}

#[test]
fn other_service_codes_are_unknown() {
    for code in ["NoSuchBucket", "SlowDown", "nosuchkey", "NoSuchKey ", "", "AccessDenied2"] {
        let f = fault(FaultOrigin::Service, Some(code), "m");
        assert_eq!(classify(&f), ErrorKind::Unknown);
    }
    assert_eq!(classify(&fault(FaultOrigin::Service, None, "m")), ErrorKind::Unknown);
}

#[test]
fn transport_faults_are_unreachable() {
    for origin in
        [FaultOrigin::Timeout, FaultOrigin::Dispatch, FaultOrigin::Response, FaultOrigin::Body]
    {
        assert_eq!(classify(&fault(origin, None, "m")), ErrorKind::Unreachable);
        // the code of a fault that is not the store's own is not looked at
        assert_eq!(classify(&fault(origin, Some("NoSuchKey"), "m")), ErrorKind::Unreachable);
    }
}

#[test]
fn faults_of_the_caller_are_unknown() {
    for origin in [FaultOrigin::Construction, FaultOrigin::Other] {
        assert_eq!(classify(&fault(origin, None, "m")), ErrorKind::Unknown);
        assert_eq!(classify(&fault(origin, Some("AccessDenied"), "m")), ErrorKind::Unknown);
    }
}

#[test]
fn normalize_puts_the_context_before_the_description() {
    let f = fault(FaultOrigin::Service, Some("NoSuchKey"), "service error");
    assert_eq!(
        normalize("Failed to get json file: ", &f),
        Error {
            kind: ErrorKind::NotFound,
            message: "Failed to get json file: service error".to_string()
        }
    );
}

#[test]
fn normalize_keeps_an_empty_description() {
    let f = fault(FaultOrigin::Dispatch, None, "");
    let e = normalize("ctx", &f);
    assert_eq!(e.kind, ErrorKind::Unreachable);
    assert_eq!(e.message, "ctx");
}
