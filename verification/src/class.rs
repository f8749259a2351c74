//! Sorting a raw error into a diagnostic class.

use crate::raw::{RawError, RawErrorView, RawKind, HOST_NOT_FOUND};
use vstd::prelude::*;

verus! {

/// The diagnostic class of a failed connection attempt.
#[derive(Clone, Debug)]
pub enum ErrorClass {
    /// The server is reachable and actively rejected the port.
    Refused,
    /// No answer came within the platform's time limit.
    TimedOut,
    /// The destination could not be resolved to an address.
    HostUnresolved,
    /// Anything else; the raw error is kept for display.
    Unknown(RawError),
}

/// The mathematical value of an [`ErrorClass`].
pub enum ErrorClassView {
    Refused,
    TimedOut,
    HostUnresolved,
    Unknown(RawErrorView),
}

impl View for ErrorClass {
    type V = ErrorClassView;

    open spec fn view(&self) -> ErrorClassView {
        match self {
            ErrorClass::Refused => ErrorClassView::Refused,
            ErrorClass::TimedOut => ErrorClassView::TimedOut,
            ErrorClass::HostUnresolved => ErrorClassView::HostUnresolved,
            ErrorClass::Unknown(raw) => ErrorClassView::Unknown(raw@),
        }
    }
}

/// Two classes are equal when they are the same variant and, for the
/// catch-all, keep equal raw errors.
impl PartialEq for ErrorClass {
    fn eq(&self, other: &ErrorClass) -> (equal: bool) {
        match (self, other) {
            (ErrorClass::Refused, ErrorClass::Refused) => true,
            (ErrorClass::TimedOut, ErrorClass::TimedOut) => true,
            (ErrorClass::HostUnresolved, ErrorClass::HostUnresolved) => true,
            (ErrorClass::Unknown(mine), ErrorClass::Unknown(theirs)) => mine == theirs,
            _ => false,
        }
    }
}

impl vstd::std_specs::cmp::PartialEqSpecImpl for ErrorClass {
    open spec fn obeys_eq_spec() -> bool {
        true
    }

    open spec fn eq_spec(&self, other: &ErrorClass) -> bool {
        self@ == other@
    }
}

/// Whether a raw error is the platform's report of a host that was not found:
/// the platform gave it no kind, and its numeric code is [`HOST_NOT_FOUND`].
pub open spec fn reports_host_not_found(raw: RawErrorView) -> bool {
    raw.kind == RawKind::Unclassified && raw.os_code == Some(HOST_NOT_FOUND)
}

/// The class of a raw error. The rules are tried in this order and the first
/// that applies decides: a refused connection, a timeout, a host that was
/// not found, and last the catch-all, which keeps the raw error.
pub open spec fn classification(raw: RawErrorView) -> ErrorClassView {
    if raw.kind == RawKind::ConnectionRefused {
        ErrorClassView::Refused
    } else if raw.kind == RawKind::TimedOut {
        ErrorClassView::TimedOut
    } else if reports_host_not_found(raw) {
        ErrorClassView::HostUnresolved
    } else {
        ErrorClassView::Unknown(raw)
    }
}

/// Two classes are the same variant, whatever the catch-all keeps.
pub open spec fn same_variant(one: ErrorClassView, other: ErrorClassView) -> bool {
    match (one, other) {
        (ErrorClassView::Refused, ErrorClassView::Refused) => true,
        (ErrorClassView::TimedOut, ErrorClassView::TimedOut) => true,
        (ErrorClassView::HostUnresolved, ErrorClassView::HostUnresolved) => true,
        (ErrorClassView::Unknown(_), ErrorClassView::Unknown(_)) => true,
        _ => false,
    }
}

/// Sorts a raw error into its class.
pub fn classify(raw: RawError) -> (class: ErrorClass)
    ensures
        class@ == classification(raw@),
        raw.kind == RawKind::ConnectionRefused ==> class@ == ErrorClassView::Refused,
        raw.kind == RawKind::TimedOut ==> class@ == ErrorClassView::TimedOut,
        reports_host_not_found(raw@) ==> class@ == ErrorClassView::HostUnresolved,
        raw.kind != RawKind::ConnectionRefused && raw.kind != RawKind::TimedOut
            && !reports_host_not_found(raw@) ==> class@ == ErrorClassView::Unknown(raw@),
{
    match raw.kind {
        RawKind::ConnectionRefused => ErrorClass::Refused,
        RawKind::TimedOut => ErrorClass::TimedOut,
        RawKind::Unclassified => match raw.os_code {
            Some(code) if code == HOST_NOT_FOUND => ErrorClass::HostUnresolved,
            _ => ErrorClass::Unknown(raw),
        },
        RawKind::Other => ErrorClass::Unknown(raw),
    }
}

/// A connection that the peer actively rejects is classed as refused,
/// whatever code and message come with it.
pub proof fn law_rejected_is_refused(raw: RawErrorView)
    requires
        raw.kind == RawKind::ConnectionRefused,
    ensures
        classification(raw) == ErrorClassView::Refused,
{
}

/// An attempt that ran into the platform's time limit is classed as timed
/// out, whatever code and message come with it.
pub proof fn law_timeout_is_timed_out(raw: RawErrorView)
    requires
        raw.kind == RawKind::TimedOut,
    ensures
        classification(raw) == ErrorClassView::TimedOut,
{
}

/// A failed name resolution, reported by the platform's code for a host that
/// was not found, is classed as an unresolved host.
pub proof fn law_host_not_found_is_unresolved(raw: RawErrorView)
    requires
        reports_host_not_found(raw),
    ensures
        classification(raw) == ErrorClassView::HostUnresolved,
{
}

/// Every other raw error lands in the catch-all, which keeps it unchanged.
pub proof fn law_anything_else_is_unknown(raw: RawErrorView)
    requires
        raw.kind != RawKind::ConnectionRefused,
        raw.kind != RawKind::TimedOut,
        !reports_host_not_found(raw),
    ensures
        classification(raw) == ErrorClassView::Unknown(raw),
{
}

/// The class depends on the raw error alone: the same error gives the same
/// class every time. The variant depends on no more than kind and code, so a
/// different message never moves an error to another variant.
pub proof fn law_same_error_same_class(first: RawErrorView, second: RawErrorView)
    requires
        first.kind == second.kind,
        first.os_code == second.os_code,
    ensures
        same_variant(classification(first), classification(second)),
        first.message == second.message ==> classification(first) == classification(second),
{
}

} // verus!
