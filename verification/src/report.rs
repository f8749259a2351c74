//! The words for each diagnostic class.

use crate::class::{
    classification, classify, law_same_error_same_class, reports_host_not_found, ErrorClass,
    ErrorClassView,
};
use crate::raw::{RawError, RawErrorView, RawKind};
use crate::text::{decimal, decimal_text, lemma_occurs_between, occurs_in};
use vstd::prelude::*;

verus! {

/// What is said of a refused connection: the server is up and reachable but
/// rejected the port, and what to look at next.
pub const REFUSED_ADVICE: &'static str = "
                Connection was actively refused by the server.
                This means the server is up and reachable, but the port is not reachable.
                This could be due to a firewall, or the server not listening on that port.

                Next steps:
                1. Take packet captures on the server using Wireshark.
                2. Ensure the server is listening on the correct port.
                3. Ensure the server is not behind a firewall.";

/// What is said of a timeout: the causes that cannot be told apart from this
/// side, and what to look at next.
pub const TIMED_OUT_ADVICE: &'static str = "
                Connection timed out. This could be a lot of things:
                1. Server is down.
                1. Server is up, but silently refused the connection.
                2. Server is behind a firewall.

                Next steps:
                1. Take packet capture on the server using tcpdump.
                2. Validate DNS resolution is correct using nslookup.";

/// What is said of a destination that could not be resolved.
pub open spec fn unresolved_notice(dest: Seq<char>) -> Seq<char> {
    "Could not resolve "@ + dest + ". Exiting."@
}

/// What is said of an error that fits no class: its raw description, with
/// the destination and the port of the attempt.
pub open spec fn unknown_notice(message: Seq<char>, dest: Seq<char>, port: u16) -> Seq<char> {
    "Unknown error "@ + message + " occurred when connecting to "@ + dest + ":"@ + decimal(
        port as nat,
    ) + ". Exiting."@
}

/// The diagnostic block for a class, for an attempt on `dest` and `port`.
pub open spec fn diagnostic_text(class: ErrorClassView, dest: Seq<char>, port: u16) -> Seq<char> {
    match class {
        ErrorClassView::Refused => REFUSED_ADVICE@,
        ErrorClassView::TimedOut => TIMED_OUT_ADVICE@,
        ErrorClassView::HostUnresolved => unresolved_notice(dest),
        ErrorClassView::Unknown(raw) => unknown_notice(raw.message, dest, port),
    }
}

/// Composes the diagnostic block for a class.
pub fn diagnostic(class: &ErrorClass, dest: &str, port: u16) -> (text: String)
    ensures
        text@ == diagnostic_text(class@, dest@, port),
{
    match class {
        ErrorClass::Refused => String::from_str(REFUSED_ADVICE),
        ErrorClass::TimedOut => String::from_str(TIMED_OUT_ADVICE),
        ErrorClass::HostUnresolved => {
            let mut text = String::from_str("Could not resolve ");
            text.append(dest);
            text.append(". Exiting.");
            text
        },
        ErrorClass::Unknown(raw) => {
            let numeral = decimal_text(port);
            let mut text = String::from_str("Unknown error ");
            text.append(raw.message.as_str());
            text.append(" occurred when connecting to ");
            text.append(dest);
            text.append(":");
            text.append(numeral.as_str());
            text.append(". Exiting.");
            text
        },
    }
}

/// Classifies the raw error of a failed attempt on `dest` and `port` and
/// composes the diagnostic block for it.
pub fn debug_connection_error(dest: String, port: u16, err: RawError) -> (text: String)
    ensures
        text@ == diagnostic_text(classification(err@), dest@, port),
        err.kind == RawKind::ConnectionRefused ==> text@ == REFUSED_ADVICE@,
        err.kind == RawKind::TimedOut ==> text@ == TIMED_OUT_ADVICE@,
        reports_host_not_found(err@) ==> text@ == unresolved_notice(dest@),
        err.kind != RawKind::ConnectionRefused && err.kind != RawKind::TimedOut
            && !reports_host_not_found(err@) ==> text@ == unknown_notice(
            err.message@,
            dest@,
            port,
        ),
{
    let class = classify(err);
    diagnostic(&class, dest.as_str(), port)
}

/// The notice for a destination that could not be resolved shows the
/// destination exactly as it was given.
pub proof fn law_unresolved_names_destination(raw: RawErrorView, dest: Seq<char>, port: u16)
    requires
        reports_host_not_found(raw),
    ensures
        classification(raw) == ErrorClassView::HostUnresolved,
        diagnostic_text(classification(raw), dest, port) == unresolved_notice(dest),
        occurs_in(dest, diagnostic_text(classification(raw), dest, port)),
{
    lemma_occurs_between("Could not resolve "@, dest, ". Exiting."@);
}

/// The notice for an error that fits no class shows the raw error's
/// description, the destination and the port's decimal numeral.
pub proof fn law_unknown_shows_error_and_target(raw: RawErrorView, dest: Seq<char>, port: u16)
    requires
        raw.kind != RawKind::ConnectionRefused,
        raw.kind != RawKind::TimedOut,
        !reports_host_not_found(raw),
    ensures
        classification(raw) == ErrorClassView::Unknown(raw),
        diagnostic_text(classification(raw), dest, port) == unknown_notice(raw.message, dest, port),
        occurs_in(raw.message, diagnostic_text(classification(raw), dest, port)),
        occurs_in(dest, diagnostic_text(classification(raw), dest, port)),
        occurs_in(decimal(port as nat), diagnostic_text(classification(raw), dest, port)),
{
    let text = unknown_notice(raw.message, dest, port);
    let lead = "Unknown error "@;
    let link = " occurred when connecting to "@;
    let colon = ":"@;
    let numeral = decimal(port as nat);
    let tail = ". Exiting."@;
    assert(occurs_in(raw.message, text)) by {
        let after = link + dest + colon + numeral + tail;
        assert(text =~= lead + raw.message + after);
        lemma_occurs_between(lead, raw.message, after);
    }
    assert(occurs_in(dest, text)) by {
        let before = lead + raw.message + link;
        let after = colon + numeral + tail;
        assert(text =~= before + dest + after);
        lemma_occurs_between(before, dest, after);
    }
    assert(occurs_in(numeral, text)) by {
        let before = lead + raw.message + link + dest + colon;
        assert(text =~= before + numeral + tail);
        lemma_occurs_between(before, numeral, tail);
    }
}

/// The diagnostic block depends on the raw error, the destination and the
/// port alone: a second run on the same values words it the same way.
pub proof fn law_same_error_same_text(
    first: RawErrorView,
    second: RawErrorView,
    dest: Seq<char>,
    port: u16,
)
    requires
        first.kind == second.kind,
        first.os_code == second.os_code,
        first.message == second.message,
    ensures
        diagnostic_text(classification(first), dest, port) == diagnostic_text(
            classification(second),
            dest,
            port,
        ),
{
    law_same_error_same_class(first, second);
}

} // verus!
