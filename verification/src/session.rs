//! Whole sessions against a scripted central service: everything the
//! listener prints and asks for, in order, and how it ends.

use vstd::prelude::*;
use crate::central::{
    disconnect_line, on_connect_finished, on_incoming, on_scan_stopped,
    reply_view, scan_state_line, stop_scan_failed_line, CentralEvent, CentralEventView,
    CentralState, Decision, Incoming, IncomingView, Resume, StopDecision,
};
use crate::connect::{
    begin_connect, connect_failed_line, connected_line, gatt_outcome, gatt_view,
    on_connect_response, on_gatt_finished, ConnectDecision, ConnectResponse, ConnectResponseView,
    ConnectStart,
};
use crate::device::device_text;
use crate::error::{outcome_view, Error, ErrorView};

verus! {

/// A central service that answers from a script: the items of its event
/// stream, and its answer to each kind of request.
#[derive(Debug, PartialEq, Eq)]
pub struct Script {
    /// The items of the event stream, in the order in which they arrive.
    pub events: Vec<Incoming>,
    /// The answer to a request to stop scanning: a refusal holds the
    /// transport's words.
    pub stop_scan: Result<(), String>,
    /// The channel pair that can be made for the GATT client, as the numbers
    /// of its client end and of its serving end; nothing where no pair can
    /// be made.
    pub endpoints: Option<(u32, u32)>,
    /// How a connect request ends.
    pub connect: ConnectResponse,
    /// How the GATT loop ends: a failure holds its words.
    pub gatt: Result<(), String>,
}

/// One thing that a session does for an observer to see.
#[derive(Clone, Debug, PartialEq, Eq)]
pub enum Effect {
    /// The description of a discovered peripheral, on the error stream.
    DeviceReport(String),
    /// Any other line on the error stream.
    Notice(String),
    /// A line on the output stream.
    Output(String),
    /// A request to stop scanning.
    StopScan,
    /// A request to connect to the peripheral with this identifier, sent
    /// with this serving end of a channel pair.
    ConnectPeripheral { id: String, server: u32 },
    /// The start of the GATT loop on this client end of a channel pair.
    StartGattLoop { client: u32 },
}

/// How a session ends.
#[derive(Debug, PartialEq, Eq)]
pub enum Outcome {
    /// The listener returns this result to its caller.
    Returned(Result<(), Error>),
    /// The process terminates with status 0.
    Exited,
}

/// What a session did, in order, and how it ended.
#[derive(Debug, PartialEq, Eq)]
pub struct Transcript {
    /// Everything the session did, in order.
    pub effects: Vec<Effect>,
    /// How the session ended.
    pub outcome: Outcome,
}

/// What a connection attempt did, in order, and what it came to.
#[derive(Debug, PartialEq, Eq)]
pub struct ConnectTranscript {
    /// Everything the attempt did, in order.
    pub effects: Vec<Effect>,
    /// What the attempt came to.
    pub result: Result<(), Error>,
}

/// A scripted service as plain values.
pub ghost struct ScriptView {
    pub events: Seq<IncomingView>,
    pub stop_scan: Result<(), Seq<char>>,
    pub endpoints: Option<(u32, u32)>,
    pub connect: ConnectResponseView,
    pub gatt: Result<(), Seq<char>>,
}

/// An effect as plain values.
pub ghost enum EffectView {
    DeviceReport(Seq<char>),
    Notice(Seq<char>),
    Output(Seq<char>),
    StopScan,
    ConnectPeripheral { id: Seq<char>, server: u32 },
    StartGattLoop { client: u32 },
}

/// The end of a session as plain values.
pub ghost enum OutcomeView {
    Returned(Result<(), ErrorView>),
    Exited,
}

/// What a session did and how it ended, as plain values.
pub ghost struct TranscriptView {
    pub effects: Seq<EffectView>,
    pub outcome: OutcomeView,
}

/// What a connection attempt did and what it came to, as plain values.
pub ghost struct ConnectTranscriptView {
    pub effects: Seq<EffectView>,
    pub result: Result<(), ErrorView>,
}

/// The items of an event stream as plain values.
pub open spec fn events_view(events: Seq<Incoming>) -> Seq<IncomingView> {
    events.map_values(|i: Incoming| i@)
}

/// A list of effects as plain values.
pub open spec fn effects_view(effects: Seq<Effect>) -> Seq<EffectView> {
    effects.map_values(|e: Effect| e@)
}

impl View for Script {
    type V = ScriptView;

    open spec fn view(&self) -> ScriptView {
        ScriptView {
            events: events_view(self.events@),
            stop_scan: reply_view(self.stop_scan),
            endpoints: self.endpoints,
            connect: self.connect@,
            gatt: gatt_view(self.gatt),
        }
    }
}

impl View for Effect {
    type V = EffectView;

    open spec fn view(&self) -> EffectView {
        match self {
            Effect::DeviceReport(l) => EffectView::DeviceReport(l@),
            Effect::Notice(l) => EffectView::Notice(l@),
            Effect::Output(l) => EffectView::Output(l@),
            Effect::StopScan => EffectView::StopScan,
            Effect::ConnectPeripheral { id, server } => EffectView::ConnectPeripheral {
                id: id@,
                server: *server,
            },
            Effect::StartGattLoop { client } => EffectView::StartGattLoop { client: *client },
        }
    }
}

impl View for Outcome {
    type V = OutcomeView;

    open spec fn view(&self) -> OutcomeView {
        match self {
            Outcome::Returned(r) => OutcomeView::Returned(outcome_view(*r)),
            Outcome::Exited => OutcomeView::Exited,
        }
    }
}

impl View for Transcript {
    type V = TranscriptView;

    open spec fn view(&self) -> TranscriptView {
        TranscriptView { effects: effects_view(self.effects@), outcome: self.outcome@ }
    }
}

impl View for ConnectTranscript {
    type V = ConnectTranscriptView;

    open spec fn view(&self) -> ConnectTranscriptView {
        ConnectTranscriptView {
            effects: effects_view(self.effects@),
            result: outcome_view(self.result),
        }
    }
}

/// How handling one item ends the session, if it does, as plain values.
pub open spec fn ending_view(ending: Option<Outcome>) -> Option<OutcomeView> {
    match ending {
        Some(o) => Some(o@),
        None => None,
    }
}

/// A connection attempt for the peripheral `id` against a scripted service.
///
/// Where no channel pair can be made the attempt fails before anything is
/// sent. Otherwise one connect request goes out, with the pair's serving end.
/// If it cannot be delivered the attempt fails; a refusal is printed and
/// fails the attempt; a connection is confirmed, the GATT loop starts on the
/// pair's client end, and its result is the attempt's.
pub open spec fn connect_run(id: Seq<char>, script: ScriptView) -> ConnectTranscriptView {
    match script.endpoints {
        None => ConnectTranscriptView { effects: seq![], result: Err(ErrorView::EndpointCreation) },
        Some((client, server)) => match script.connect {
            ConnectResponseView::Undelivered(t) => ConnectTranscriptView {
                effects: seq![EffectView::ConnectPeripheral { id, server }],
                result: Err(ErrorView::ConnectRequest(t)),
            },
            ConnectResponseView::Refused { description } => ConnectTranscriptView {
                effects: seq![
                    EffectView::ConnectPeripheral { id, server },
                    EffectView::Output(connect_failed_line(description)),
                ],
                result: Err(ErrorView::Peripheral(description)),
            },
            ConnectResponseView::Connected => ConnectTranscriptView {
                effects: seq![
                    EffectView::ConnectPeripheral { id, server },
                    EffectView::Output(connected_line(id)),
                    EffectView::StartGattLoop { client },
                ],
                result: gatt_outcome(script.gatt),
            },
        },
    }
}

/// What the listener does with one item of the event stream, against a
/// scripted service: the effects, and how the session ends, if it ends here.
pub open spec fn handle(
    scan_once: bool,
    connect: bool,
    script: ScriptView,
    incoming: IncomingView,
) -> (Seq<EffectView>, Option<OutcomeView>) {
    match incoming {
        IncomingView::Event(CentralEventView::OnScanStateChanged { scanning }) => (
            seq![EffectView::Notice(scan_state_line(scanning))],
            None,
        ),
        IncomingView::Event(CentralEventView::OnDeviceDiscovered { device }) => {
            let report = EffectView::DeviceReport(device_text(device));
            if !scan_once && !connect {
                (seq![report], Some(OutcomeView::Returned(Ok(()))))
            } else {
                match script.stop_scan {
                    Err(reason) => (
                        seq![
                            report,
                            EffectView::StopScan,
                            EffectView::Notice(stop_scan_failed_line(reason)),
                        ],
                        Some(OutcomeView::Exited),
                    ),
                    Ok(_) => if connect && device.connectable {
                        let attempt = connect_run(device.identifier, script);
                        (
                            seq![report, EffectView::StopScan] + attempt.effects,
                            match attempt.result {
                                Ok(_) => if scan_once {
                                    Some(OutcomeView::Returned(Ok(())))
                                } else {
                                    None
                                },
                                Err(e) => Some(OutcomeView::Returned(Err(e))),
                            },
                        )
                    } else {
                        (seq![report, EffectView::StopScan], Some(OutcomeView::Exited))
                    },
                }
            }
        },
        IncomingView::Event(CentralEventView::OnPeripheralDisconnected { identifier }) => (
            seq![EffectView::Notice(disconnect_line(identifier))],
            Some(OutcomeView::Exited),
        ),
        IncomingView::Undecodable(t) => (
            seq![],
            Some(OutcomeView::Returned(Err(ErrorView::EventDecoding(t)))),
        ),
        IncomingView::End => (seq![], Some(OutcomeView::Returned(Ok(())))),
    }
}

/// A session of the listener over the given items of the event stream: the
/// items are handled strictly in order until one ends the session; when they
/// run out the listener returns in success.
pub open spec fn listen_run(
    scan_once: bool,
    connect: bool,
    script: ScriptView,
    events: Seq<IncomingView>,
) -> TranscriptView
    decreases events.len(),
{
    if events.len() == 0 {
        TranscriptView { effects: seq![], outcome: OutcomeView::Returned(Ok(())) }
    } else {
        let (effects, ending) = handle(scan_once, connect, script, events[0]);
        match ending {
            Some(outcome) => TranscriptView { effects, outcome },
            None => {
                let rest = listen_run(scan_once, connect, script, events.drop_first());
                TranscriptView { effects: effects + rest.effects, outcome: rest.outcome }
            },
        }
    }
}

/// Runs a connection attempt against the script and appends what it does to
/// `effects`.
fn connect_into(script: &Script, id: &String, effects: &mut Vec<Effect>) -> (result: Result<
    (),
    Error,
>)
    ensures
        effects_view(final(effects)@) == effects_view(old(effects)@) + connect_run(
            id@,
            script@,
        ).effects,
        outcome_view(result) == connect_run(id@, script@).result,
{
    let ghost before = effects_view(effects@);
    let result = match begin_connect(id, script.endpoints) {
        ConnectStart::Fail(e) => Err(e),
        ConnectStart::SendRequest { id: target, client, server } => {
            effects.push(Effect::ConnectPeripheral { id: target, server });
            let step = on_connect_response(id, &script.connect, client);
            match step.line {
                Some(l) => {
                    effects.push(Effect::Output(l));
                },
                None => {},
            }
            match step.decision {
                ConnectDecision::Return(r) => r,
                ConnectDecision::StartGattLoop { client: kept } => {
                    effects.push(Effect::StartGattLoop { client: kept });
                    on_gatt_finished(&script.gatt)
                },
            }
        },
    };
    assert(effects_view(effects@) =~= before + connect_run(id@, script@).effects);
    result
}

/// Handles one item of the event stream against the script that `state`
/// holds and appends what that does to `effects`. Returns how the session
/// ends, if it ends with this item.
fn handle_into(state: &CentralState<Script>, incoming: &Incoming, effects: &mut Vec<Effect>) -> (ending:
    Option<Outcome>)
    ensures
        effects_view(final(effects)@) == effects_view(old(effects)@) + handle(
            state@.scan_once,
            state@.connect,
            state@.svc@,
            incoming@,
        ).0,
        ending_view(ending) == handle(state@.scan_once, state@.connect, state@.svc@, incoming@).1,
{
    let ghost before = effects_view(effects@);
    let ghost expected = handle(state@.scan_once, state@.connect, state@.svc@, incoming@);
    let script = state.get_svc();
    let step = on_incoming(state, incoming);
    match step.line {
        Some(l) => {
            match incoming {
                Incoming::Event(CentralEvent::OnDeviceDiscovered { .. }) => {
                    effects.push(Effect::DeviceReport(l));
                },
                _ => {
                    effects.push(Effect::Notice(l));
                },
            }
        },
        None => {},
    }
    let ending = match step.decision {
        Decision::NextEvent => None,
        Decision::Return(r) => Some(Outcome::Returned(r)),
        Decision::Exit => Some(Outcome::Exited),
        Decision::StopScan { device } => {
            effects.push(Effect::StopScan);
            let answer = on_scan_stopped(state, device, &script.stop_scan);
            match answer.line {
                Some(l) => {
                    effects.push(Effect::Notice(l));
                },
                None => {},
            }
            match answer.decision {
                StopDecision::Exit => Some(Outcome::Exited),
                StopDecision::Connect { id } => {
                    let result = connect_into(script, &id, effects);
                    match on_connect_finished(state, result) {
                        Resume::NextEvent => None,
                        Resume::Return(r) => Some(Outcome::Returned(r)),
                    }
                },
            }
        },
    };
    assert(effects_view(effects@) =~= before + expected.0);
    ending
}

/// Runs a connection attempt for the peripheral `id` against the scripted
/// service that `state` holds.
pub fn connect_peripheral(state: &CentralState<Script>, id: String) -> (transcript:
    ConnectTranscript)
    ensures
        transcript@ == connect_run(id@, state@.svc@),
{
    let mut effects: Vec<Effect> = Vec::new();
    let result = connect_into(state.get_svc(), &id, &mut effects);
    assert(effects_view(effects@) =~= connect_run(id@, state@.svc@).effects);
    ConnectTranscript { effects, result }
}

/// Runs the listener against the scripted service that `state` holds, over
/// the whole of its event stream.
pub fn listen_central_events(state: &CentralState<Script>) -> (transcript: Transcript)
    ensures
        transcript@ == listen_run(state@.scan_once, state@.connect, state@.svc@, state@.svc@.events),
{
    let script = state.get_svc();
    let ghost all = script@.events;
    let ghost whole = listen_run(state@.scan_once, state@.connect, script@, all);
    let mut effects: Vec<Effect> = Vec::new();
    let mut i: usize = 0;
    assert(all.skip(0) =~= all);
    assert(effects_view(effects@) + whole.effects =~= whole.effects);
    while i < script.events.len()
        invariant
            i <= script.events.len(),
            *script == state@.svc,
            all == script@.events,
            whole == listen_run(state@.scan_once, state@.connect, script@, all),
            whole.effects == effects_view(effects@) + listen_run(
                state@.scan_once,
                state@.connect,
                script@,
                all.skip(i as int),
            ).effects,
            whole.outcome == listen_run(
                state@.scan_once,
                state@.connect,
                script@,
                all.skip(i as int),
            ).outcome,
        decreases script.events.len() - i,
    {
        let ghost here = all.skip(i as int);
        let ghost before = effects_view(effects@);
        assert(here.len() > 0);
        assert(here[0] == script.events[i as int]@);
        assert(here.drop_first() =~= all.skip(i + 1));
        let ending = handle_into(state, &script.events[i], &mut effects);
        match ending {
            Some(outcome) => {
                return Transcript { effects, outcome };
            },
            None => {},
        }
        proof {
            let step = handle(state@.scan_once, state@.connect, script@, here[0]);
            let rest = listen_run(state@.scan_once, state@.connect, script@, all.skip(i + 1));
            assert(before + (step.0 + rest.effects) =~= (before + step.0) + rest.effects);
        }
        i += 1;
    }
    assert(effects_view(effects@) + Seq::<EffectView>::empty() =~= effects_view(effects@));
    Transcript { effects, outcome: Outcome::Returned(Ok(())) }
}

} // verus!
