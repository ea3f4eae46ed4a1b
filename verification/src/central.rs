//! The listener's decisions: for each thing that the central service
//! reports, the line to print and what to do next.

use vstd::prelude::*;
use crate::device::{describe_device, device_text, RemoteDevice, RemoteDeviceView};
use crate::error::{outcome_view, Error, ErrorView};

verus! {

/// The client's settings together with the handle through which it reaches
/// the central service.
pub struct CentralState<S> {
    /// Stop scanning and stop listening after the first scan result.
    pub scan_once: bool,
    /// Try to connect to the first connectable scan result.
    pub connect: bool,
    svc: S,
}

/// The client's state as plain values: the two settings, and the handle
/// that the state was made with.
pub ghost struct CentralStateView<S> {
    pub scan_once: bool,
    pub connect: bool,
    pub svc: S,
}

impl<S> View for CentralState<S> {
    type V = CentralStateView<S>;

    closed spec fn view(&self) -> CentralStateView<S> {
        CentralStateView { scan_once: self.scan_once, connect: self.connect, svc: self.svc }
    }
}

impl<S> CentralState<S> {
    /// A state around the given handle, with both settings off.
    pub fn new(proxy: S) -> (state: Self)
        ensures
            state@ == (CentralStateView { scan_once: false, connect: false, svc: proxy }),
    {
        CentralState { scan_once: false, connect: false, svc: proxy }
    }

    /// The handle through which requests go to the central service. It is
    /// the one that the state was made with.
    pub fn get_svc(&self) -> (svc: &S)
        ensures
            *svc == self@.svc,
    {
        &self.svc
    }

    /// Whether listening ends after the first scan result.
    pub fn scans_once(&self) -> (on: bool)
        ensures
            on == self@.scan_once,
    {
        self.scan_once
    }

    /// Whether the first connectable scan result is connected to.
    pub fn connects(&self) -> (on: bool)
        ensures
            on == self@.connect,
    {
        self.connect
    }

    /// Turns the first setting on or off; nothing else changes.
    pub fn set_scan_once(&mut self, on: bool)
        ensures
            final(self)@ == (CentralStateView { scan_once: on, ..old(self)@ }),
    {
        self.scan_once = on;
    }

    /// Turns the second setting on or off; nothing else changes.
    pub fn set_connect(&mut self, on: bool)
        ensures
            final(self)@ == (CentralStateView { connect: on, ..old(self)@ }),
    {
        self.connect = on;
    }
}

/// An event of the central service.
#[derive(Clone, Debug, PartialEq, Eq)]
pub enum CentralEvent {
    /// Scanning has started or stopped.
    OnScanStateChanged { scanning: bool },
    /// A scan found a peripheral.
    OnDeviceDiscovered { device: RemoteDevice },
    /// The connection to a peripheral is gone.
    OnPeripheralDisconnected { identifier: String },
}

/// What the event stream yields when asked for its next item.
#[derive(Clone, Debug, PartialEq, Eq)]
pub enum Incoming {
    /// An event.
    Event(CentralEvent),
    /// Something that could not be decoded, with the transport's words.
    Undecodable(String),
    /// Nothing: the stream is exhausted.
    End,
}

/// What the listener does after an item of the event stream.
#[derive(Debug, PartialEq, Eq)]
pub enum Decision<'a> {
    /// Wait for the next item of the event stream.
    NextEvent,
    /// Ask the service to stop scanning, and decide on its answer for this
    /// peripheral, the one just discovered.
    StopScan { device: &'a RemoteDevice },
    /// Terminate the process with the status [`EXIT_STATUS`].
    Exit,
    /// Stop listening and hand this result to the caller.
    Return(Result<(), Error>),
}

/// One decision of the listener on an item of the event stream, with the
/// line it prints first, if any.
#[derive(Debug, PartialEq, Eq)]
pub struct Step<'a> {
    /// The line for the error stream.
    pub line: Option<String>,
    /// What to do after printing.
    pub decision: Decision<'a>,
}

/// What the listener does after the answer to its request to stop scanning.
#[derive(Debug, PartialEq, Eq)]
pub enum StopDecision {
    /// Connect to the peripheral with this identifier, and decide on the
    /// outcome.
    Connect { id: String },
    /// Terminate the process with the status [`EXIT_STATUS`].
    Exit,
}

/// One decision of the listener on the answer to its request to stop
/// scanning, with the line it prints first, if any.
#[derive(Debug, PartialEq, Eq)]
pub struct StopStep {
    /// The line for the error stream.
    pub line: Option<String>,
    /// What to do after printing.
    pub decision: StopDecision,
}

/// What the listener does after a connection attempt.
#[derive(Debug, PartialEq, Eq)]
pub enum Resume {
    /// Wait for the next item of the event stream.
    NextEvent,
    /// Stop listening and hand this result to the caller.
    Return(Result<(), Error>),
}

/// The status with which the process ends where the listener ends it.
pub const EXIT_STATUS: i32 = 0;

/// An event of the central service as plain values.
pub ghost enum CentralEventView {
    OnScanStateChanged { scanning: bool },
    OnDeviceDiscovered { device: RemoteDeviceView },
    OnPeripheralDisconnected { identifier: Seq<char> },
}

/// An item of the event stream as plain values.
pub ghost enum IncomingView {
    Event(CentralEventView),
    Undecodable(Seq<char>),
    End,
}

/// A decision on an item of the event stream as plain values.
pub ghost enum DecisionView {
    NextEvent,
    StopScan { device: RemoteDeviceView },
    Exit,
    Return(Result<(), ErrorView>),
}

/// A decision on an item of the event stream, with its line, as plain
/// values.
pub ghost struct StepView {
    pub line: Option<Seq<char>>,
    pub decision: DecisionView,
}

/// A decision on the answer to a request to stop scanning as plain values.
pub ghost enum StopDecisionView {
    Connect { id: Seq<char> },
    Exit,
}

/// A decision on the answer to a request to stop scanning, with its line,
/// as plain values.
pub ghost struct StopStepView {
    pub line: Option<Seq<char>>,
    pub decision: StopDecisionView,
}

/// A decision on the outcome of a connection attempt as plain values.
pub ghost enum ResumeView {
    NextEvent,
    Return(Result<(), ErrorView>),
}

impl View for CentralEvent {
    type V = CentralEventView;

    open spec fn view(&self) -> CentralEventView {
        match self {
            CentralEvent::OnScanStateChanged { scanning } => CentralEventView::OnScanStateChanged {
                scanning: *scanning,
            },
            CentralEvent::OnDeviceDiscovered { device } => CentralEventView::OnDeviceDiscovered {
                device: device@,
            },
            CentralEvent::OnPeripheralDisconnected {
                identifier,
            } => CentralEventView::OnPeripheralDisconnected { identifier: identifier@ },
        }
    }
}

impl View for Incoming {
    type V = IncomingView;

    open spec fn view(&self) -> IncomingView {
        match self {
            Incoming::Event(e) => IncomingView::Event(e@),
            Incoming::Undecodable(t) => IncomingView::Undecodable(t@),
            Incoming::End => IncomingView::End,
        }
    }
}

impl<'a> View for Decision<'a> {
    type V = DecisionView;

    open spec fn view(&self) -> DecisionView {
        match self {
            Decision::NextEvent => DecisionView::NextEvent,
            Decision::StopScan { device } => DecisionView::StopScan { device: device@ },
            Decision::Exit => DecisionView::Exit,
            Decision::Return(r) => DecisionView::Return(outcome_view(*r)),
        }
    }
}

impl View for StopDecision {
    type V = StopDecisionView;

    open spec fn view(&self) -> StopDecisionView {
        match self {
            StopDecision::Connect { id } => StopDecisionView::Connect { id: id@ },
            StopDecision::Exit => StopDecisionView::Exit,
        }
    }
}

impl View for StopStep {
    type V = StopStepView;

    open spec fn view(&self) -> StopStepView {
        StopStepView {
            line: match self.line {
                Some(l) => Some(l@),
                None => None,
            },
            decision: self.decision@,
        }
    }
}

impl View for Resume {
    type V = ResumeView;

    open spec fn view(&self) -> ResumeView {
        match self {
            Resume::NextEvent => ResumeView::NextEvent,
            Resume::Return(r) => ResumeView::Return(outcome_view(*r)),
        }
    }
}

impl<'a> View for Step<'a> {
    type V = StepView;

    open spec fn view(&self) -> StepView {
        StepView {
            line: match self.line {
                Some(l) => Some(l@),
                None => None,
            },
            decision: self.decision@,
        }
    }
}

/// The answer to a request to stop scanning, as plain values.
pub open spec fn reply_view(reply: Result<(), String>) -> Result<(), Seq<char>> {
    match reply {
        Ok(_) => Ok(()),
        Err(e) => Err(e@),
    }
}

/// The line that reports a change of the scan state.
pub open spec fn scan_state_line(scanning: bool) -> Seq<char> {
    "  scan state changed: "@ + (if scanning {
        "true"@
    } else {
        "false"@
    })
}

/// The line that reports a lost connection.
pub open spec fn disconnect_line(identifier: Seq<char>) -> Seq<char> {
    "  peer disconnected: "@ + identifier
}

/// The line that reports that the service would not stop scanning.
pub open spec fn stop_scan_failed_line(reason: Seq<char>) -> Seq<char> {
    "request to stop scan failed: "@ + reason
}

/// What the listener does with an item of the event stream.
///
/// A change of the scan state is reported and listening goes on. A discovered
/// peripheral is reported; with both settings off the listener then returns,
/// otherwise it asks the service to stop scanning. A lost connection is
/// reported and ends the process. An undecodable item is handed to the caller
/// as a failure, and the end of the stream ends the listener in success.
pub open spec fn incoming_step(scan_once: bool, connect: bool, incoming: IncomingView) -> StepView {
    match incoming {
        IncomingView::Event(CentralEventView::OnScanStateChanged { scanning }) => StepView {
            line: Some(scan_state_line(scanning)),
            decision: DecisionView::NextEvent,
        },
        IncomingView::Event(CentralEventView::OnDeviceDiscovered { device }) => StepView {
            line: Some(device_text(device)),
            decision: if !scan_once && !connect {
                DecisionView::Return(Ok(()))
            } else {
                DecisionView::StopScan { device }
            },
        },
        IncomingView::Event(CentralEventView::OnPeripheralDisconnected { identifier }) => StepView {
            line: Some(disconnect_line(identifier)),
            decision: DecisionView::Exit,
        },
        IncomingView::Undecodable(t) => StepView {
            line: None,
            decision: DecisionView::Return(Err(ErrorView::EventDecoding(t))),
        },
        IncomingView::End => StepView { line: None, decision: DecisionView::Return(Ok(())) },
    }
}

/// What the listener does with the answer to its request to stop scanning,
/// made for the given peripheral.
///
/// A refusal is reported and ends the process. After a success the listener
/// connects to the peripheral if that is wanted and the peripheral is
/// connectable, and ends the process otherwise.
pub open spec fn scan_stopped_step(
    connect: bool,
    device: RemoteDeviceView,
    reply: Result<(), Seq<char>>,
) -> StopStepView {
    match reply {
        Err(reason) => StopStepView {
            line: Some(stop_scan_failed_line(reason)),
            decision: StopDecisionView::Exit,
        },
        Ok(_) => StopStepView {
            line: None,
            decision: if connect && device.connectable {
                StopDecisionView::Connect { id: device.identifier }
            } else {
                StopDecisionView::Exit
            },
        },
    }
}

/// What the listener does when a connection attempt has run its course: it
/// hands a failure to its caller; after a success it returns in success
/// where listening ends with the first scan result, and goes on listening
/// otherwise.
pub open spec fn connect_finished_decision(
    scan_once: bool,
    outcome: Result<(), ErrorView>,
) -> ResumeView {
    match outcome {
        Ok(_) => if scan_once {
            ResumeView::Return(Ok(()))
        } else {
            ResumeView::NextEvent
        },
        Err(e) => ResumeView::Return(Err(e)),
    }
}

/// Decides on an item of the event stream.
pub fn on_incoming<'a, S>(state: &CentralState<S>, incoming: &'a Incoming) -> (step: Step<'a>)
    ensures
        step@ == incoming_step(state@.scan_once, state@.connect, incoming@),
{
    match incoming {
        Incoming::Event(CentralEvent::OnScanStateChanged { scanning }) => {
            let mut line = String::from_str("  scan state changed: ");
            if *scanning {
                line.append("true");
            } else {
                line.append("false");
            }
            Step { line: Some(line), decision: Decision::NextEvent }
        },
        Incoming::Event(CentralEvent::OnDeviceDiscovered { device }) => {
            let line = describe_device(device);
            let decision = if !state.scan_once && !state.connect {
                Decision::Return(Ok(()))
            } else {
                Decision::StopScan { device }
            };
            Step { line: Some(line), decision }
        },
        Incoming::Event(CentralEvent::OnPeripheralDisconnected { identifier }) => {
            let mut line = String::from_str("  peer disconnected: ");
            line.append(identifier.as_str());
            Step { line: Some(line), decision: Decision::Exit }
        },
        Incoming::Undecodable(t) => Step {
            line: None,
            decision: Decision::Return(Err(Error::EventDecoding(t.clone()))),
        },
        Incoming::End => Step { line: None, decision: Decision::Return(Ok(())) },
    }
}

/// Decides on the answer to the request to stop scanning that followed the
/// discovery of `device`.
pub fn on_scan_stopped<S>(
    state: &CentralState<S>,
    device: &RemoteDevice,
    reply: &Result<(), String>,
) -> (step: StopStep)
    ensures
        step@ == scan_stopped_step(state@.connect, device@, reply_view(*reply)),
{
    match reply {
        Err(reason) => {
            let mut line = String::from_str("request to stop scan failed: ");
            line.append(reason.as_str());
            StopStep { line: Some(line), decision: StopDecision::Exit }
        },
        Ok(_) => {
            let decision = if state.connect && device.connectable {
                StopDecision::Connect { id: device.identifier.clone() }
            } else {
                StopDecision::Exit
            };
            StopStep { line: None, decision }
        },
    }
}

/// Decides on the outcome of a connection attempt.
pub fn on_connect_finished<S>(state: &CentralState<S>, outcome: Result<(), Error>) -> (resume:
    Resume)
    ensures
        resume@ == connect_finished_decision(state@.scan_once, outcome_view(outcome)),
{
    match outcome {
        Ok(_) => if state.scan_once {
            Resume::Return(Ok(()))
        } else {
            Resume::NextEvent
        },
        Err(e) => Resume::Return(Err(e)),
    }
}

} // verus!
