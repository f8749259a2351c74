//! The raw error of a failed connection attempt, as plain values.

use vstd::prelude::*;

verus! {

/// The numeric code with which the Windows socket layer reports that a host
/// name could not be resolved (`WSAHOST_NOT_FOUND`).
pub const HOST_NOT_FOUND: i32 = 11001;

/// The abstract kind that the platform gives to an error.
#[derive(Clone, Copy, Debug, PartialEq, Eq, Structural)]
pub enum RawKind {
    /// The peer was reached and actively refused the connection.
    ConnectionRefused,
    /// The operation was abandoned after the platform's time limit.
    TimedOut,
    /// The platform put the error into no category at all.
    Unclassified,
    /// The platform put the error into some category other than the above.
    Other,
}

/// What the operating system reported when an attempt failed: the abstract
/// kind, the platform's numeric code where there is one, and the description
/// that is shown to the user when nothing better can be said.
#[derive(Clone, Debug)]
pub struct RawError {
    pub kind: RawKind,
    pub os_code: Option<i32>,
    pub message: String,
}

/// The mathematical value of a [`RawError`]: the same parts, with the
/// message as a sequence of characters.
pub struct RawErrorView {
    pub kind: RawKind,
    pub os_code: Option<i32>,
    pub message: Seq<char>,
}

impl View for RawError {
    type V = RawErrorView;

    open spec fn view(&self) -> RawErrorView {
        RawErrorView { kind: self.kind, os_code: self.os_code, message: self.message@ }
    }
}

impl RawError {
    /// Puts the three parts of a raw error together.
    pub fn new(kind: RawKind, os_code: Option<i32>, message: String) -> (raw: RawError)
        ensures
            raw@ == (RawErrorView { kind, os_code, message: message@ }),
    {
        RawError { kind, os_code, message }
    }
}

/// Two raw errors are equal when kind, code and message are.
impl PartialEq for RawError {
    fn eq(&self, other: &RawError) -> (equal: bool) {
        self.kind == other.kind && self.os_code == other.os_code && self.message == other.message
    }
}

impl vstd::std_specs::cmp::PartialEqSpecImpl for RawError {
    open spec fn obeys_eq_spec() -> bool {
        true
    }

    open spec fn eq_spec(&self, other: &RawError) -> bool {
        self@ == other@
    }
}

} // verus!
