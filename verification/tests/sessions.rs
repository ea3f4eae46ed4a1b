use bt_le_central::central::{CentralEvent, CentralState, Incoming};
use bt_le_central::connect::ConnectResponse;
use bt_le_central::device::RemoteDevice;
use bt_le_central::error::Error;
use bt_le_central::session::{
    connect_peripheral, listen_central_events, ConnectTranscript, Effect, Outcome, Script,
    Transcript,
};

fn peripheral(id: &str, connectable: bool) -> RemoteDevice {
    RemoteDevice { identifier: String::from(id), connectable, rssi: None, name: None }
}

fn found(id: &str, connectable: bool) -> Incoming {
    Incoming::Event(CentralEvent::OnDeviceDiscovered { device: peripheral(id, connectable) })
}

fn scanning(on: bool) -> Incoming {
    Incoming::Event(CentralEvent::OnScanStateChanged { scanning: on })
}

fn script(events: Vec<Incoming>) -> Script {
    Script {
        events,
        stop_scan: Ok(()),
        endpoints: Some((31, 32)),
        connect: ConnectResponse::Connected,
        gatt: Ok(()),
    }
}

fn run(scan_once: bool, connect: bool, script: Script) -> Transcript {
    let mut state = CentralState::new(script);
    state.set_scan_once(scan_once);
    state.set_connect(connect);
    listen_central_events(&state)
}

fn report(id: &str, connectable: bool) -> Effect {
    let tag = if connectable { "conn" } else { "non-conn" };
    Effect::DeviceReport(format!(" [device({}), id: {}]", tag, id))
}

fn connect_requests(t: &Transcript) -> usize {
    t.effects.iter().filter(|e| matches!(e, Effect::ConnectPeripheral { .. })).count()
}

fn stop_requests(t: &Transcript) -> usize {
    t.effects.iter().filter(|e| matches!(e, Effect::StopScan)).count()
}

#[test]
fn empty_stream_returns_success() {
    for flags in [(false, false), (true, false), (false, true), (true, true)] {
        let t = run(flags.0, flags.1, script(vec![]));
        assert_eq!(t, Transcript { effects: vec![], outcome: Outcome::Returned(Ok(())) });
    }
}

#[test]
fn plain_scan_returns_after_first_discovery() {
    let t = run(
        false,
        false,
        script(vec![scanning(true), found("a", true), found("b", true), scanning(false)]),
    );
    assert_eq!(
        t,
        Transcript {
            effects: vec![
                Effect::Notice(String::from("  scan state changed: true")),
                report("a", true),
            ],
            outcome: Outcome::Returned(Ok(())),
        }
    );
    assert_eq!(stop_requests(&t), 0);
    assert_eq!(connect_requests(&t), 0);
}

#[test]
fn scan_once_stops_the_scan_and_exits() {
    let t = run(true, false, script(vec![found("a", true), found("b", true)]));
    assert_eq!(
        t,
        Transcript {
            effects: vec![report("a", true), Effect::StopScan],
            outcome: Outcome::Exited,
        }
    );
}

#[test]
fn refused_stop_scan_exits_without_connecting() {
    let mut s = script(vec![found("a", true), found("b", true)]);
    s.stop_scan = Err(String::from("channel closed"));
    let t = run(true, true, s);
    assert_eq!(
        t,
        Transcript {
            effects: vec![
                report("a", true),
                Effect::StopScan,
                Effect::Notice(String::from("request to stop scan failed: channel closed")),
            ],
            outcome: Outcome::Exited,
        }
    );
    assert_eq!(connect_requests(&t), 0);
}

#[test]
fn auto_connect_to_connectable_peripheral() {
    let t = run(false, true, script(vec![found("a", true)]));
    assert_eq!(
        t,
        Transcript {
            effects: vec![
                report("a", true),
                Effect::StopScan,
                Effect::ConnectPeripheral { id: String::from("a"), server: 32 },
                Effect::Output(String::from("  device connected: a")),
                Effect::StartGattLoop { client: 31 },
            ],
            outcome: Outcome::Returned(Ok(())),
        }
    );
    assert_eq!(stop_requests(&t), 1);
    assert_eq!(connect_requests(&t), 1);
}

#[test]
fn auto_connect_skips_peripheral_that_is_not_connectable() {
    let t = run(false, true, script(vec![found("a", false), found("b", true)]));
    assert_eq!(
        t,
        Transcript {
            effects: vec![report("a", false), Effect::StopScan],
            outcome: Outcome::Exited,
        }
    );
    assert_eq!(connect_requests(&t), 0);
}

#[test]
fn listening_goes_on_after_the_gatt_loop() {
    let t = run(
        false,
        true,
        script(vec![
            found("a", true),
            scanning(false),
            Incoming::Event(CentralEvent::OnPeripheralDisconnected {
                identifier: String::from("a"),
            }),
            found("b", true),
        ]),
    );
    assert_eq!(
        t,
        Transcript {
            effects: vec![
                report("a", true),
                Effect::StopScan,
                Effect::ConnectPeripheral { id: String::from("a"), server: 32 },
                Effect::Output(String::from("  device connected: a")),
                Effect::StartGattLoop { client: 31 },
                Effect::Notice(String::from("  scan state changed: false")),
                Effect::Notice(String::from("  peer disconnected: a")),
            ],
            outcome: Outcome::Exited,
        }
    );
}

#[test]
fn each_discovery_is_reported_in_order() {
    let t = run(
        false,
        true,
        script(vec![found("a", true), scanning(true), found("b", true), found("c", false)]),
    );
    let reports: Vec<&Effect> =
        t.effects.iter().filter(|e| matches!(e, Effect::DeviceReport(_))).collect();
    assert_eq!(reports, vec![&report("a", true), &report("b", true), &report("c", false)]);
    assert_eq!(stop_requests(&t), 3);
    assert_eq!(connect_requests(&t), 2);
    assert_eq!(t.outcome, Outcome::Exited);
}

#[test]
fn failed_connect_is_the_listeners_failure() {
    let mut s = script(vec![found("a", true), found("b", true)]);
    s.connect = ConnectResponse::Refused { description: Some(String::from("timeout")) };
    let t = run(false, true, s);
    assert_eq!(
        t,
        Transcript {
            effects: vec![
                report("a", true),
                Effect::StopScan,
                Effect::ConnectPeripheral { id: String::from("a"), server: 32 },
                Effect::Output(String::from("  failed to connect to peripheral: timeout")),
            ],
            outcome: Outcome::Returned(Err(Error::Peripheral(Some(String::from("timeout"))))),
        }
    );
}

#[test]
fn failed_gatt_loop_is_the_listeners_failure() {
    let mut s = script(vec![found("a", true), found("b", true)]);
    s.gatt = Err(String::from("read failed"));
    let t = run(true, true, s);
    assert_eq!(t.outcome, Outcome::Returned(Err(Error::GattLoop(String::from("read failed")))));
    assert_eq!(t.effects.len(), 5);
    assert_eq!(t.effects[4], Effect::StartGattLoop { client: 31 });
}

#[test]
fn undecodable_item_ends_the_session_in_failure() {
    let t = run(
        true,
        true,
        script(vec![scanning(true), Incoming::Undecodable(String::from("bad header")), found("a", true)]),
    );
    assert_eq!(
        t,
        Transcript {
            effects: vec![Effect::Notice(String::from("  scan state changed: true"))],
            outcome: Outcome::Returned(Err(Error::EventDecoding(String::from("bad header")))),
        }
    );
}

#[test]
fn end_marker_ends_the_session_in_success() {
    let t = run(true, true, script(vec![Incoming::End, found("a", true)]));
    assert_eq!(t, Transcript { effects: vec![], outcome: Outcome::Returned(Ok(())) });
}

#[test]
fn disconnect_ends_the_process() {
    let t = run(
        false,
        false,
        script(vec![
            Incoming::Event(CentralEvent::OnPeripheralDisconnected {
                identifier: String::from("xyz"),
            }),
            found("a", true),
        ]),
    );
    assert_eq!(
        t,
        Transcript {
            effects: vec![Effect::Notice(String::from("  peer disconnected: xyz"))],
            outcome: Outcome::Exited,
        }
    );
}

#[test]
fn connect_refused_with_description() {
    let mut s = script(vec![]);
    s.connect = ConnectResponse::Refused { description: Some(String::from("timeout")) };
    let t = connect_peripheral(&CentralState::new(s), String::from("abc"));
    assert_eq!(
        t,
        ConnectTranscript {
            effects: vec![
                Effect::ConnectPeripheral { id: String::from("abc"), server: 32 },
                Effect::Output(String::from("  failed to connect to peripheral: timeout")),
            ],
            result: Err(Error::Peripheral(Some(String::from("timeout")))),
        }
    );
}

#[test]
fn connect_refused_without_description() {
    let mut s = script(vec![]);
    s.connect = ConnectResponse::Refused { description: None };
    let t = connect_peripheral(&CentralState::new(s), String::from("abc"));
    assert_eq!(
        t,
        ConnectTranscript {
            effects: vec![
                Effect::ConnectPeripheral { id: String::from("abc"), server: 32 },
                Effect::Output(String::from("  failed to connect to peripheral: unknown error")),
            ],
            result: Err(Error::Peripheral(None)),
        }
    );
}

#[test]
fn connect_success_starts_the_gatt_loop_once() {
    let t = connect_peripheral(&CentralState::new(script(vec![])), String::from("abc"));
    assert_eq!(
        t,
        ConnectTranscript {
            effects: vec![
                Effect::ConnectPeripheral { id: String::from("abc"), server: 32 },
                Effect::Output(String::from("  device connected: abc")),
                Effect::StartGattLoop { client: 31 },
            ],
            result: Ok(()),
        }
    );
    let starts = t.effects.iter().filter(|e| matches!(e, Effect::StartGattLoop { .. })).count();
    assert_eq!(starts, 1);
}

#[test]
fn connect_undelivered_request() {
    let mut s = script(vec![]);
    s.connect = ConnectResponse::Undelivered(String::from("peer closed"));
    let t = connect_peripheral(&CentralState::new(s), String::from("abc"));
    assert_eq!(
        t,
        ConnectTranscript {
            effects: vec![Effect::ConnectPeripheral { id: String::from("abc"), server: 32 }],
            result: Err(Error::ConnectRequest(String::from("peer closed"))),
        }
    );
}

#[test]
fn connect_without_endpoints_sends_nothing() {
    let mut s = script(vec![]);
    s.endpoints = None;
    let t = connect_peripheral(&CentralState::new(s), String::from("abc"));
    assert_eq!(t, ConnectTranscript { effects: vec![], result: Err(Error::EndpointCreation) });
}

#[test]
fn listener_fails_when_endpoints_cannot_be_made() {
    let mut s = script(vec![found("a", true), found("b", true)]);
    s.endpoints = None;
    let t = run(false, true, s);
    assert_eq!(
        t,
        Transcript {
            effects: vec![report("a", true), Effect::StopScan],
            outcome: Outcome::Returned(Err(Error::EndpointCreation)),
        }
    );
}

#[test]
fn scan_once_ends_the_listener_after_a_connection() {
    let t = run(true, true, script(vec![found("a", true), scanning(false), found("b", true)]));
    assert_eq!(
        t,
        Transcript {
            effects: vec![
                report("a", true),
                Effect::StopScan,
                Effect::ConnectPeripheral { id: String::from("a"), server: 32 },
                Effect::Output(String::from("  device connected: a")),
                Effect::StartGattLoop { client: 31 },
            ],
            outcome: Outcome::Returned(Ok(())),
        }
    );
    assert_eq!(stop_requests(&t), 1);
    assert_eq!(connect_requests(&t), 1);
}

#[test]
fn scan_once_stops_the_scan_at_most_once() {
    for connect in [false, true] {
        for connectable in [false, true] {
            let t = run(
                true,
                connect,
                script(vec![
                    scanning(true),
                    found("a", connectable),
                    found("b", true),
                    found("c", true),
                ]),
            );
            assert_eq!(stop_requests(&t), 1);
            let reports =
                t.effects.iter().filter(|e| matches!(e, Effect::DeviceReport(_))).count();
            assert_eq!(reports, 1);
        }
    }
}
