use conn_diag::attempt::{
    announcement, outcome_of_attempt, report, ConnectionOutcome, ConnectionTarget,
};
use conn_diag::class::ErrorClass;
use conn_diag::raw::{RawError, RawKind};
use conn_diag::report::{REFUSED_ADVICE, TIMED_OUT_ADVICE};

fn target(destination: &str, port: u16) -> ConnectionTarget {
    ConnectionTarget::new(destination.to_string(), port)
}

fn raw(kind: RawKind, os_code: Option<i32>, message: &str) -> RawError {
    RawError::new(kind, os_code, message.to_string())
}

#[test]
fn target_keeps_destination_and_port() {
    let made = target("example.org", 443);
    assert_eq!(made.destination, "example.org");
    assert_eq!(made.port, 443);
}

#[test]
fn announcement_names_destination_and_port() {
    let text = announcement(&target("example.org", 443));
    assert_eq!(text, "Target: example.org\nTarget Port: 443");
    assert!(text.contains("example.org"));
    assert!(text.contains("443"));
}

#[test]
fn announcement_of_lowest_and_highest_port() {
    assert_eq!(announcement(&target("127.0.0.1", 0)), "Target: 127.0.0.1\nTarget Port: 0");
    assert_eq!(announcement(&target("::1", 65535)), "Target: ::1\nTarget Port: 65535");
}

#[test]
fn accepted_attempt_is_connected() {
    let details = "TcpStream { addr: 127.0.0.1:50000, peer: 127.0.0.1:8080, fd: 3 }";
    let outcome = outcome_of_attempt(Ok(details.to_string()));
    assert_eq!(outcome, ConnectionOutcome::Connected(details.to_string()));
}

#[test]
fn failed_attempt_is_classified() {
    let refused = outcome_of_attempt(Err(raw(RawKind::ConnectionRefused, Some(111), "r")));
    assert_eq!(refused, ConnectionOutcome::Failed(ErrorClass::Refused));
    let timed_out = outcome_of_attempt(Err(raw(RawKind::TimedOut, Some(110), "t")));
    assert_eq!(timed_out, ConnectionOutcome::Failed(ErrorClass::TimedOut));
    let unresolved = outcome_of_attempt(Err(raw(RawKind::Unclassified, Some(11001), "h")));
    assert_eq!(unresolved, ConnectionOutcome::Failed(ErrorClass::HostUnresolved));
    let error = raw(RawKind::Other, Some(101), "n");
    let unknown = outcome_of_attempt(Err(error.clone()));
    assert_eq!(unknown, ConnectionOutcome::Failed(ErrorClass::Unknown(error)));
}

#[test]
fn report_of_connection_shows_the_socket() {
    let details = "TcpStream { addr: 127.0.0.1:50000, peer: 127.0.0.1:8080, fd: 3 }";
    let outcome = outcome_of_attempt(Ok(details.to_string()));
    let text = report(&target("localhost", 8080), &outcome);
    assert_eq!(
        text,
        format!("Successfully connected to server. Connection details {}", details)
    );
    assert!(text.contains("127.0.0.1:8080"));
}

#[test]
fn report_of_failure_is_the_diagnostic_of_its_class() {
    let at = target("db.internal", 5432);
    let refused = ConnectionOutcome::Failed(ErrorClass::Refused);
    assert_eq!(report(&at, &refused), REFUSED_ADVICE);
    let timed_out = ConnectionOutcome::Failed(ErrorClass::TimedOut);
    assert_eq!(report(&at, &timed_out), TIMED_OUT_ADVICE);
    let unresolved = ConnectionOutcome::Failed(ErrorClass::HostUnresolved);
    assert_eq!(report(&at, &unresolved), "Could not resolve db.internal. Exiting.");
    let unknown = ConnectionOutcome::Failed(ErrorClass::Unknown(raw(
        RawKind::Other,
        Some(113),
        "No route to host",
    )));
    assert_eq!(
        report(&at, &unknown),
        "Unknown error No route to host occurred when connecting to db.internal:5432. Exiting."
    );
}

#[test]
fn closed_local_port_is_refused_or_timed_out() {
    let at = target("127.0.0.1", 1);
    for kind in [RawKind::ConnectionRefused, RawKind::TimedOut] {
        let outcome = outcome_of_attempt(Err(raw(kind, None, "closed")));
        assert!(matches!(
            outcome,
            ConnectionOutcome::Failed(ErrorClass::Refused)
                | ConnectionOutcome::Failed(ErrorClass::TimedOut)
        ));
        let text = report(&at, &outcome);
        assert!(text == REFUSED_ADVICE || text == TIMED_OUT_ADVICE);
    }
}

#[test]
fn unknown_host_is_unresolved_and_named() {
    let at = target("doesnotexist.invalid", 80);
    let outcome =
        outcome_of_attempt(Err(raw(RawKind::Unclassified, Some(11001), "No such host is known.")));
    assert_eq!(outcome, ConnectionOutcome::Failed(ErrorClass::HostUnresolved));
    assert!(report(&at, &outcome).contains("doesnotexist.invalid"));
}

#[test]
fn outcomes_compare_by_variant_and_content() {
    let one = ConnectionOutcome::Connected("a".to_string());
    assert_eq!(one, ConnectionOutcome::Connected("a".to_string()));
    assert_ne!(one, ConnectionOutcome::Connected("b".to_string()));
    assert_ne!(one, ConnectionOutcome::Failed(ErrorClass::Refused));
    assert_ne!(
        ConnectionOutcome::Failed(ErrorClass::Refused),
        ConnectionOutcome::Failed(ErrorClass::TimedOut)
    );
}
