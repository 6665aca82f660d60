use bunsenite_core::error::Error;

#[test]
fn test_error_creation() {
    let err = Error::parse_error("test.ncl", "syntax error");
    assert!(err.is_recoverable());
    assert!(err.suggestion().is_some());
}

#[test]
fn test_error_display() {
    let err = Error::parse_error("config.ncl", "unexpected token");
    let msg = err.display();
    assert!(msg.contains("config.ncl"));
    assert!(msg.contains("unexpected token"));
}

#[test]
fn test_recoverable_errors() {
    assert!(Error::parse_error("test", "msg").is_recoverable());
    assert!(Error::invalid_input("msg").is_recoverable());
    assert!(!Error::internal("msg").is_recoverable());
}

#[test]
fn display_is_exact_per_kind() {
    assert_eq!(
        Error::parse_error("a.ncl", "bad token").display(),
        "Failed to parse Nickel file 'a.ncl': bad token"
    );
    assert_eq!(
        Error::evaluation_error("b.ncl", "undefined variable").display(),
        "Failed to evaluate Nickel program 'b.ncl': undefined variable"
    );
    assert_eq!(
        Error::serialization_error("bad value").display(),
        "Failed to serialize result: bad value"
    );
    assert_eq!(
        Error::io_error("permission denied").display(),
        "File I/O error: permission denied"
    );
    assert_eq!(
        Error::invalid_input("empty path").display(),
        "Invalid input: empty path"
    );
    assert_eq!(
        Error::internal("unexpected state").display(),
        "Internal error: unexpected state"
    );
}

#[test]
fn recoverability_matches_table() {
    assert!(Error::parse_error("f", "m").is_recoverable());
    assert!(Error::evaluation_error("f", "m").is_recoverable());
    assert!(Error::invalid_input("m").is_recoverable());
    assert!(!Error::serialization_error("m").is_recoverable());
    assert!(!Error::io_error("m").is_recoverable());
    assert!(!Error::internal("m").is_recoverable());
}

#[test]
fn recoverability_is_payload_independent() {
    assert_eq!(
        Error::parse_error("one.ncl", "first message").is_recoverable(),
        Error::parse_error("another/two.ncl", "entirely different").is_recoverable()
    );
    assert_eq!(
        Error::io_error("short").is_recoverable(),
        Error::io_error("a much longer and different message").is_recoverable()
    );
}

#[test]
fn suggestion_is_payload_independent() {
    assert_eq!(
        Error::evaluation_error("one.ncl", "first").suggestion(),
        Error::evaluation_error("two.ncl", "second").suggestion()
    );
    assert_eq!(
        Error::internal("a").suggestion(),
        Error::internal("b").suggestion()
    );
}

#[test]
fn suggestion_is_fixed_per_kind() {
    assert_eq!(
        Error::parse_error("f", "m").suggestion(),
        Some("Check your Nickel syntax. Run 'nickel check' for detailed diagnostics.")
    );
    assert_eq!(
        Error::evaluation_error("f", "m").suggestion(),
        Some("Ensure all variables are defined and types match.")
    );
    assert_eq!(
        Error::serialization_error("m").suggestion(),
        Some("Ensure the Nickel program produces valid JSON-serializable values.")
    );
    assert_eq!(
        Error::io_error("m").suggestion(),
        Some("Check file permissions and path.")
    );
    assert_eq!(
        Error::invalid_input("m").suggestion(),
        Some("Check the input format and try again.")
    );
    let internal_hint = Error::internal("m").suggestion().unwrap();
    assert!(internal_hint.contains("This is a bug."));
}
