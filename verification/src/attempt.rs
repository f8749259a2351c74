//! One connection attempt: its target, its outcome, and the lines shown
//! before and after it.

use crate::class::{classification, classify, ErrorClass, ErrorClassView};
use crate::raw::RawError;
use crate::report::{diagnostic, diagnostic_text};
use crate::text::{decimal, decimal_text, lemma_occurs_between, occurs_in};
use vstd::prelude::*;

verus! {

/// Where to connect: a host name or literal address, and a port.
#[derive(Clone, Debug)]
pub struct ConnectionTarget {
    pub destination: String,
    pub port: u16,
}

/// The mathematical value of a [`ConnectionTarget`].
pub struct ConnectionTargetView {
    pub destination: Seq<char>,
    pub port: u16,
}

impl View for ConnectionTarget {
    type V = ConnectionTargetView;

    open spec fn view(&self) -> ConnectionTargetView {
        ConnectionTargetView { destination: self.destination@, port: self.port }
    }
}

impl ConnectionTarget {
    /// The target made of a destination and a port.
    pub fn new(destination: String, port: u16) -> (target: ConnectionTarget)
        ensures
            target@ == (ConnectionTargetView { destination: destination@, port }),
    {
        ConnectionTarget { destination, port }
    }
}

/// How the single attempt ended.
#[derive(Clone, Debug)]
pub enum ConnectionOutcome {
    /// The connection stands; the text describes the socket, with the peer
    /// address and port that were reached.
    Connected(String),
    /// The attempt failed with an error of this class.
    Failed(ErrorClass),
}

/// The mathematical value of a [`ConnectionOutcome`].
pub enum ConnectionOutcomeView {
    Connected(Seq<char>),
    Failed(ErrorClassView),
}

impl View for ConnectionOutcome {
    type V = ConnectionOutcomeView;

    open spec fn view(&self) -> ConnectionOutcomeView {
        match self {
            ConnectionOutcome::Connected(details) => ConnectionOutcomeView::Connected(details@),
            ConnectionOutcome::Failed(class) => ConnectionOutcomeView::Failed(class@),
        }
    }
}

/// Two outcomes are equal when both are connections with the same
/// description, or both are failures of equal class.
impl PartialEq for ConnectionOutcome {
    fn eq(&self, other: &ConnectionOutcome) -> (equal: bool) {
        match (self, other) {
            (ConnectionOutcome::Connected(mine), ConnectionOutcome::Connected(theirs)) => *mine
                == *theirs,
            (ConnectionOutcome::Failed(mine), ConnectionOutcome::Failed(theirs)) => mine == theirs,
            _ => false,
        }
    }
}

impl vstd::std_specs::cmp::PartialEqSpecImpl for ConnectionOutcome {
    open spec fn obeys_eq_spec() -> bool {
        true
    }

    open spec fn eq_spec(&self, other: &ConnectionOutcome) -> bool {
        self@ == other@
    }
}

/// The two lines that name the target before the attempt is made.
pub open spec fn announcement_text(target: ConnectionTargetView) -> Seq<char> {
    "Target: "@ + target.destination + "\nTarget Port: "@ + decimal(target.port as nat)
}

/// The line that reports a connection, ending in the socket's description.
pub open spec fn connected_notice(details: Seq<char>) -> Seq<char> {
    "Successfully connected to server. Connection details "@ + details
}

/// What is shown once the attempt is over: the success line for a
/// connection, the diagnostic block of its class for a failure.
pub open spec fn report_text(target: ConnectionTargetView, outcome: ConnectionOutcomeView) -> Seq<
    char,
> {
    match outcome {
        ConnectionOutcomeView::Connected(details) => connected_notice(details),
        ConnectionOutcomeView::Failed(class) => diagnostic_text(
            class,
            target.destination,
            target.port,
        ),
    }
}

/// Composes the lines that name the target.
pub fn announcement(target: &ConnectionTarget) -> (text: String)
    ensures
        text@ == announcement_text(target@),
{
    let numeral = decimal_text(target.port);
    let mut text = String::from_str("Target: ");
    text.append(target.destination.as_str());
    text.append("\nTarget Port: ");
    text.append(numeral.as_str());
    text
}

/// Turns the result of the single attempt into its outcome: an accepted
/// connection is reported with the socket's description, and a failure is
/// classified, once and for good.
pub fn outcome_of_attempt(attempt: Result<String, RawError>) -> (outcome: ConnectionOutcome)
    ensures
        match attempt {
            Ok(details) => outcome@ == ConnectionOutcomeView::Connected(details@),
            Err(raw) => outcome@ == ConnectionOutcomeView::Failed(classification(raw@)),
        },
{
    match attempt {
        Ok(details) => ConnectionOutcome::Connected(details),
        Err(raw) => ConnectionOutcome::Failed(classify(raw)),
    }
}

/// Composes what is shown once the attempt is over.
pub fn report(target: &ConnectionTarget, outcome: &ConnectionOutcome) -> (text: String)
    ensures
        text@ == report_text(target@, outcome@),
{
    match outcome {
        ConnectionOutcome::Connected(details) => {
            let mut text = String::from_str(
                "Successfully connected to server. Connection details ",
            );
            text.append(details.as_str());
            text
        },
        ConnectionOutcome::Failed(class) => diagnostic(
            class,
            target.destination.as_str(),
            target.port,
        ),
    }
}

/// The lines that name the target show the destination exactly as it was
/// given and the port's decimal numeral.
pub proof fn law_announcement_names_target(target: ConnectionTargetView)
    ensures
        occurs_in(target.destination, announcement_text(target)),
        occurs_in(decimal(target.port as nat), announcement_text(target)),
{
    let text = announcement_text(target);
    let numeral = decimal(target.port as nat);
    assert(occurs_in(target.destination, text)) by {
        let after = "\nTarget Port: "@ + numeral;
        assert(text =~= "Target: "@ + target.destination + after);
        lemma_occurs_between("Target: "@, target.destination, after);
    }
    assert(occurs_in(numeral, text)) by {
        let before = "Target: "@ + target.destination + "\nTarget Port: "@;
        assert(text =~= before + numeral + Seq::<char>::empty());
        lemma_occurs_between(before, numeral, Seq::<char>::empty());
    }
}

/// The report of a connection ends in the socket's description, so it shows
/// the peer that was reached.
pub proof fn law_connected_shows_details(target: ConnectionTargetView, details: Seq<char>)
    ensures
        occurs_in(details, report_text(target, ConnectionOutcomeView::Connected(details))),
{
    let lead = "Successfully connected to server. Connection details "@;
    assert(connected_notice(details) =~= lead + details + Seq::<char>::empty());
    lemma_occurs_between(lead, details, Seq::<char>::empty());
}

} // verus!
