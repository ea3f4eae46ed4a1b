//! The decisions of a connection attempt: what to ask of the central
//! service, what to print on its answer, and what the attempt comes to.

use vstd::prelude::*;
use crate::error::{describe, description_text, outcome_view, Error, ErrorView};

verus! {

/// How a connect request ended.
#[derive(Clone, Debug, PartialEq, Eq)]
pub enum ConnectResponse {
    /// The request could not be delivered or answered. Holds the transport's
    /// words.
    Undelivered(String),
    /// The service answered with a failure, with or without a description.
    Refused { description: Option<String> },
    /// The service answered that the peripheral is connected.
    Connected,
}

/// How a connection attempt starts, given the two ends of a channel pair for
/// the GATT client: a client end of type `C` and a serving end of type `S`.
#[derive(Debug, PartialEq, Eq)]
pub enum ConnectStart<C, S> {
    /// Send a connect request for this identifier together with the serving
    /// end, and keep the client end for the GATT loop.
    SendRequest { id: String, client: C, server: S },
    /// Fail with this error before anything is sent.
    Fail(Error),
}

/// What a connection attempt does once its request has ended.
#[derive(Debug, PartialEq, Eq)]
pub enum ConnectDecision<C> {
    /// Run the GATT loop on this client end; its result is the attempt's.
    StartGattLoop { client: C },
    /// End the attempt with this result.
    Return(Result<(), Error>),
}

/// One decision of a connection attempt, with the line it prints first, if
/// any.
#[derive(Debug, PartialEq, Eq)]
pub struct ConnectStep<C> {
    /// The line for the output stream.
    pub line: Option<String>,
    /// What to do after printing.
    pub decision: ConnectDecision<C>,
}

/// The end of a connect request as plain values.
pub ghost enum ConnectResponseView {
    Undelivered(Seq<char>),
    Refused { description: Option<Seq<char>> },
    Connected,
}

/// The start of a connection attempt as plain values.
pub ghost enum ConnectStartView<C, S> {
    SendRequest { id: Seq<char>, client: C, server: S },
    Fail(ErrorView),
}

/// A decision of a connection attempt as plain values.
pub ghost enum ConnectDecisionView<C> {
    StartGattLoop { client: C },
    Return(Result<(), ErrorView>),
}

/// A step of a connection attempt as plain values.
pub ghost struct ConnectStepView<C> {
    pub line: Option<Seq<char>>,
    pub decision: ConnectDecisionView<C>,
}

impl View for ConnectResponse {
    type V = ConnectResponseView;

    open spec fn view(&self) -> ConnectResponseView {
        match self {
            ConnectResponse::Undelivered(t) => ConnectResponseView::Undelivered(t@),
            ConnectResponse::Refused { description } => ConnectResponseView::Refused {
                description: match description {
                    Some(t) => Some(t@),
                    None => None,
                },
            },
            ConnectResponse::Connected => ConnectResponseView::Connected,
        }
    }
}

impl<C, S> View for ConnectStart<C, S> {
    type V = ConnectStartView<C, S>;

    open spec fn view(&self) -> ConnectStartView<C, S> {
        match *self {
            ConnectStart::SendRequest { id, client, server } => ConnectStartView::SendRequest {
                id: id@,
                client,
                server,
            },
            ConnectStart::Fail(e) => ConnectStartView::Fail(e@),
        }
    }
}

impl<C> View for ConnectDecision<C> {
    type V = ConnectDecisionView<C>;

    open spec fn view(&self) -> ConnectDecisionView<C> {
        match *self {
            ConnectDecision::StartGattLoop { client } => ConnectDecisionView::StartGattLoop {
                client,
            },
            ConnectDecision::Return(r) => ConnectDecisionView::Return(outcome_view(r)),
        }
    }
}

impl<C> View for ConnectStep<C> {
    type V = ConnectStepView<C>;

    open spec fn view(&self) -> ConnectStepView<C> {
        ConnectStepView {
            line: match self.line {
                Some(l) => Some(l@),
                None => None,
            },
            decision: self.decision@,
        }
    }
}

/// The result of the GATT loop, as plain values.
pub open spec fn gatt_view(result: Result<(), String>) -> Result<(), Seq<char>> {
    match result {
        Ok(_) => Ok(()),
        Err(e) => Err(e@),
    }
}

/// The line that confirms a connection.
pub open spec fn connected_line(id: Seq<char>) -> Seq<char> {
    "  device connected: "@ + id
}

/// The line that reports a refused connection.
pub open spec fn connect_failed_line(description: Option<Seq<char>>) -> Seq<char> {
    "  failed to connect to peripheral: "@ + description_text(description)
}

/// How a connection attempt starts: where a channel pair could be made, with
/// a request that names the peripheral and carries the pair's serving end;
/// where none could, with a failure, before anything is sent.
pub open spec fn start_decision<C, S>(id: Seq<char>, endpoints: Option<(C, S)>) -> ConnectStartView<
    C,
    S,
> {
    match endpoints {
        Some((client, server)) => ConnectStartView::SendRequest { id, client, server },
        None => ConnectStartView::Fail(ErrorView::EndpointCreation),
    }
}

/// What a connection attempt does with the end of its request.
///
/// An undelivered request fails the attempt in silence. A refusal is reported
/// with the service's description, or as an unknown error where it gave none,
/// and fails the attempt. A connection is confirmed, and the GATT loop is
/// next, on the client end that was kept.
pub open spec fn response_step<C>(
    id: Seq<char>,
    response: ConnectResponseView,
    client: C,
) -> ConnectStepView<C> {
    match response {
        ConnectResponseView::Undelivered(t) => ConnectStepView {
            line: None,
            decision: ConnectDecisionView::Return(Err(ErrorView::ConnectRequest(t))),
        },
        ConnectResponseView::Refused { description } => ConnectStepView {
            line: Some(connect_failed_line(description)),
            decision: ConnectDecisionView::Return(Err(ErrorView::Peripheral(description))),
        },
        ConnectResponseView::Connected => ConnectStepView {
            line: Some(connected_line(id)),
            decision: ConnectDecisionView::StartGattLoop { client },
        },
    }
}

/// What a connection attempt comes to once the GATT loop has ended: the
/// loop's own result.
pub open spec fn gatt_outcome(result: Result<(), Seq<char>>) -> Result<(), ErrorView> {
    match result {
        Ok(_) => Ok(()),
        Err(t) => Err(ErrorView::GattLoop(t)),
    }
}

/// Starts a connection attempt to the peripheral `id`, given the channel
/// pair for the GATT client, or nothing where no pair could be made.
pub fn begin_connect<C, S>(id: &String, endpoints: Option<(C, S)>) -> (start: ConnectStart<C, S>)
    ensures
        start@ == start_decision(id@, endpoints),
{
    match endpoints {
        Some((client, server)) => ConnectStart::SendRequest { id: id.clone(), client, server },
        None => ConnectStart::Fail(Error::EndpointCreation),
    }
}

/// Decides on the end of the connect request for the peripheral `id`, with
/// the client end that was kept when the request went out.
pub fn on_connect_response<C>(id: &String, response: &ConnectResponse, client: C) -> (step:
    ConnectStep<C>)
    ensures
        step@ == response_step(id@, response@, client),
{
    match response {
        ConnectResponse::Undelivered(t) => ConnectStep {
            line: None,
            decision: ConnectDecision::Return(Err(Error::ConnectRequest(t.clone()))),
        },
        ConnectResponse::Refused { description } => {
            let mut line = String::from_str("  failed to connect to peripheral: ");
            let text = describe(description);
            line.append(text.as_str());
            let kept = match description {
                Some(t) => Some(t.clone()),
                None => None,
            };
            ConnectStep {
                line: Some(line),
                decision: ConnectDecision::Return(Err(Error::Peripheral(kept))),
            }
        },
        ConnectResponse::Connected => {
            let mut line = String::from_str("  device connected: ");
            line.append(id.as_str());
            ConnectStep { line: Some(line), decision: ConnectDecision::StartGattLoop { client } }
        },
    }
}

/// Turns the result of the GATT loop into the result of the attempt.
pub fn on_gatt_finished(result: &Result<(), String>) -> (outcome: Result<(), Error>)
    ensures
        outcome_view(outcome) == gatt_outcome(gatt_view(*result)),
{
    match result {
        Ok(_) => Ok(()),
        Err(t) => Err(Error::GattLoop(t.clone())),
    }
}

} // verus!
