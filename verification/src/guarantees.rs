//! What holds of every session of the listener, whatever the service says.

use vstd::prelude::*;
use crate::central::{CentralEventView, IncomingView};
use crate::connect::ConnectResponseView;
use crate::device::{device_text, RemoteDeviceView};
use crate::error::ErrorView;
use crate::session::{connect_run, handle, listen_run, EffectView, OutcomeView, ScriptView};

verus! {

/// Those of the given effects of which `keep` holds, in order.
pub open spec fn kept(effects: Seq<EffectView>, keep: spec_fn(EffectView) -> bool) -> Seq<
    EffectView,
>
    decreases effects.len(),
{
    if effects.len() == 0 {
        seq![]
    } else {
        let front = kept(effects.drop_last(), keep);
        if keep(effects.last()) {
            front.push(effects.last())
        } else {
            front
        }
    }
}

/// Holds of the descriptions of discovered peripherals.
pub open spec fn report_kind() -> spec_fn(EffectView) -> bool {
    |e: EffectView| e is DeviceReport
}

/// Holds of the requests to stop scanning.
pub open spec fn stop_kind() -> spec_fn(EffectView) -> bool {
    |e: EffectView| e is StopScan
}

/// The device descriptions among the given effects, in order.
pub open spec fn device_reports(effects: Seq<EffectView>) -> Seq<EffectView> {
    kept(effects, report_kind())
}

/// How many of the given effects are requests to stop scanning.
pub open spec fn stop_requests(effects: Seq<EffectView>) -> nat {
    kept(effects, stop_kind()).len()
}

/// The description that an item of the event stream calls for: one for a
/// discovered peripheral, nothing for any other item.
pub open spec fn report_of(incoming: IncomingView) -> Seq<EffectView> {
    match incoming {
        IncomingView::Event(CentralEventView::OnDeviceDiscovered { device }) => seq![
            EffectView::DeviceReport(device_text(device)),
        ],
        _ => seq![],
    }
}

/// The descriptions that the given items call for, in order.
pub open spec fn reports_of(events: Seq<IncomingView>) -> Seq<EffectView>
    decreases events.len(),
{
    if events.len() == 0 {
        seq![]
    } else {
        report_of(events[0]) + reports_of(events.drop_first())
    }
}

/// What the handling of an item opens with: for a discovery the description
/// of the peripheral and, unless both settings are off, a request to stop
/// scanning; nothing for any other item.
pub open spec fn opening(scan_once: bool, connect: bool, incoming: IncomingView) -> Seq<
    EffectView,
> {
    if !(incoming is Event && incoming->Event_0 is OnDeviceDiscovered) {
        seq![]
    } else if !scan_once && !connect {
        report_of(incoming)
    } else {
        report_of(incoming).push(EffectView::StopScan)
    }
}

/// How many items of the event stream a session takes before it ends.
pub open spec fn handled(
    scan_once: bool,
    connect: bool,
    script: ScriptView,
    events: Seq<IncomingView>,
) -> nat
    decreases events.len(),
{
    if events.len() == 0 {
        0
    } else if handle(scan_once, connect, script, events[0]).1 is Some {
        1
    } else {
        1 + handled(scan_once, connect, script, events.drop_first())
    }
}

/// Whether an effect is a request to the service to stop scanning or to
/// connect.
pub open spec fn is_request(effect: EffectView) -> bool {
    effect is StopScan || effect is ConnectPeripheral
}

/// Whether the requests among the given effects come in their order: a
/// request to stop scanning directly after the description of a peripheral,
/// and a request to connect directly after a request to stop scanning.
pub open spec fn requests_in_order(effects: Seq<EffectView>) -> bool {
    forall|i: int|
        0 <= i < effects.len() && is_request(#[trigger] effects[i]) ==> i >= 1 && if effects[i]
            is StopScan {
            effects[i - 1] is DeviceReport
        } else {
            effects[i - 1] is StopScan
        }
}

proof fn kept_push(effects: Seq<EffectView>, effect: EffectView, keep: spec_fn(EffectView) -> bool)
    ensures
        kept(effects.push(effect), keep) == if keep(effect) {
            kept(effects, keep).push(effect)
        } else {
            kept(effects, keep)
        },
{
    assert(effects.push(effect).drop_last() =~= effects);
}

proof fn kept_concat(a: Seq<EffectView>, b: Seq<EffectView>, keep: spec_fn(EffectView) -> bool)
    ensures
        kept(a + b, keep) == kept(a, keep) + kept(b, keep),
    decreases b.len(),
{
    if b.len() == 0 {
        assert(a + b =~= a);
        assert(kept(a, keep) + kept(b, keep) =~= kept(a, keep));
    } else {
        kept_concat(a, b.drop_last(), keep);
        assert((a + b).drop_last() =~= a + b.drop_last());
        assert((a + b).last() == b.last());
        if keep(b.last()) {
            assert((kept(a, keep) + kept(b.drop_last(), keep)).push(b.last()) =~= kept(a, keep)
                + kept(b.drop_last(), keep).push(b.last()));
        }
    }
}

proof fn kept_none(effects: Seq<EffectView>, keep: spec_fn(EffectView) -> bool)
    requires
        forall|i: int| 0 <= i < effects.len() ==> !keep(#[trigger] effects[i]),
    ensures
        kept(effects, keep) == Seq::<EffectView>::empty(),
    decreases effects.len(),
{
    if effects.len() > 0 {
        kept_none(effects.drop_last(), keep);
    }
}

/// Of descriptions and requests to stop scanning, the handling of an item
/// holds those it opens with and no others.
proof fn handle_keeps_opening(
    scan_once: bool,
    connect: bool,
    script: ScriptView,
    incoming: IncomingView,
    keep: spec_fn(EffectView) -> bool,
)
    requires
        forall|e: EffectView| #[trigger] keep(e) ==> e is DeviceReport || e is StopScan,
    ensures
        kept(handle(scan_once, connect, script, incoming).0, keep) == kept(
            opening(scan_once, connect, incoming),
            keep,
        ),
{
    let all = handle(scan_once, connect, script, incoming).0;
    let head = opening(scan_once, connect, incoming);
    let tail = all.skip(head.len() as int);
    assert(all =~= head + tail);
    assert forall|i: int| 0 <= i < tail.len() implies !keep(#[trigger] tail[i]) by {
        assert(tail[i] == all[i + head.len()]);
    }
    kept_none(tail, keep);
    kept_concat(head, tail, keep);
    assert(kept(head, keep) + Seq::<EffectView>::empty() =~= kept(head, keep));
}

proof fn opening_counts(scan_once: bool, connect: bool, incoming: IncomingView)
    ensures
        kept(opening(scan_once, connect, incoming), report_kind()) == report_of(incoming),
        scan_once || connect ==> kept(opening(scan_once, connect, incoming), stop_kind()).len()
            == report_of(incoming).len(),
{
    let empty = Seq::<EffectView>::empty();
    let reports = report_of(incoming);
    if reports.len() > 0 {
        assert(reports =~= empty.push(reports[0]));
        kept_push(empty, reports[0], report_kind());
        kept_push(empty, reports[0], stop_kind());
        kept_push(reports, EffectView::StopScan, report_kind());
        kept_push(reports, EffectView::StopScan, stop_kind());
    }
}

/// Handling one item prints the description of the peripheral exactly once
/// where the item is a discovery, and no description otherwise.
pub proof fn one_report_per_discovery(
    scan_once: bool,
    connect: bool,
    script: ScriptView,
    incoming: IncomingView,
)
    ensures
        device_reports(handle(scan_once, connect, script, incoming).0) == report_of(incoming),
{
    handle_keeps_opening(scan_once, connect, script, incoming, report_kind());
    opening_counts(scan_once, connect, incoming);
}

/// With either setting on, handling one item asks the service to stop
/// scanning exactly once where the item is a discovery, and never otherwise.
pub proof fn one_stop_per_discovery(
    scan_once: bool,
    connect: bool,
    script: ScriptView,
    incoming: IncomingView,
)
    requires
        scan_once || connect,
    ensures
        stop_requests(handle(scan_once, connect, script, incoming).0) == report_of(
            incoming,
        ).len(),
{
    handle_keeps_opening(scan_once, connect, script, incoming, stop_kind());
    opening_counts(scan_once, connect, incoming);
}

/// Over a whole session the listener prints one description for each
/// discovery that it takes from the event stream, in the order of their
/// arrival, and no other description.
pub proof fn reports_follow_discoveries(
    scan_once: bool,
    connect: bool,
    script: ScriptView,
    events: Seq<IncomingView>,
)
    ensures
        handled(scan_once, connect, script, events) <= events.len(),
        device_reports(listen_run(scan_once, connect, script, events).effects) == reports_of(
            events.take(handled(scan_once, connect, script, events) as int),
        ),
    decreases events.len(),
{
    if events.len() == 0 {
        assert(events.take(0) =~= events);
    } else {
        let step = handle(scan_once, connect, script, events[0]);
        let rest = events.drop_first();
        one_report_per_discovery(scan_once, connect, script, events[0]);
        if step.1 is Some {
            let taken = events.take(1);
            assert(taken.drop_first() =~= Seq::<IncomingView>::empty());
            assert(reports_of(taken) =~= report_of(events[0])) by {
                assert(reports_of(taken.drop_first()) =~= Seq::<EffectView>::empty());
            }
        } else {
            reports_follow_discoveries(scan_once, connect, script, rest);
            let k = handled(scan_once, connect, script, rest);
            let taken = events.take(1 + k as int);
            assert(taken.drop_first() =~= rest.take(k as int));
            assert(taken[0] == events[0]);
            kept_concat(
                step.0,
                listen_run(scan_once, connect, script, rest).effects,
                report_kind(),
            );
        }
    }
}

/// With both settings off, a discovery is described and the listener returns
/// in success: nothing is asked of the service.
pub proof fn plain_scan_returns_at_discovery(script: ScriptView, device: RemoteDeviceView)
    ensures
        handle(
            false,
            false,
            script,
            IncomingView::Event(CentralEventView::OnDeviceDiscovered { device }),
        ) == (
            seq![EffectView::DeviceReport(device_text(device))],
            Some(OutcomeView::Returned(Ok(()))),
        ),
{
}

/// With both settings off, a session never asks the service to stop scanning
/// nor to connect, whatever arrives.
pub proof fn plain_scan_asks_nothing(script: ScriptView, events: Seq<IncomingView>)
    ensures
        forall|i: int|
            0 <= i < listen_run(false, false, script, events).effects.len() ==> !is_request(
                #[trigger] listen_run(false, false, script, events).effects[i],
            ),
    decreases events.len(),
{
    if events.len() > 0 {
        plain_scan_asks_nothing(script, events.drop_first());
    }
}

/// Where both settings are off, or listening is to end with the first scan
/// result, a session describes at most one peripheral. Where it describes
/// one and both settings are off, that is the last thing it does, and it
/// ends with the listener returning in success.
pub proof fn session_ends_at_first_discovery(
    scan_once: bool,
    connect: bool,
    script: ScriptView,
    events: Seq<IncomingView>,
)
    requires
        scan_once || !connect,
    ensures
        ({
            let run = listen_run(scan_once, connect, script, events);
            &&& device_reports(run.effects).len() <= 1
            &&& !scan_once && device_reports(run.effects).len() == 1 ==> {
                &&& run.effects.len() > 0
                &&& run.effects.last() is DeviceReport
                &&& run.outcome == OutcomeView::Returned(Ok(()))
            }
        }),
    decreases events.len(),
{
    if events.len() > 0 {
        let step = handle(scan_once, connect, script, events[0]);
        one_report_per_discovery(scan_once, connect, script, events[0]);
        if step.1 is None {
            let rest = listen_run(scan_once, connect, script, events.drop_first());
            session_ends_at_first_discovery(scan_once, connect, script, events.drop_first());
            kept_concat(step.0, rest.effects, report_kind());
            assert(device_reports(step.0) + device_reports(rest.effects) =~= device_reports(
                rest.effects,
            ));
            if rest.effects.len() > 0 {
                assert((step.0 + rest.effects).last() == rest.effects.last());
            }
        }
    }
}

/// With either setting on, a discovery is followed by exactly one request to
/// stop scanning, and every request to connect comes after it.
pub proof fn stop_scan_once_before_connect(
    scan_once: bool,
    connect: bool,
    script: ScriptView,
    device: RemoteDeviceView,
)
    requires
        scan_once || connect,
    ensures
        ({
            let effects = handle(
                scan_once,
                connect,
                script,
                IncomingView::Event(CentralEventView::OnDeviceDiscovered { device }),
            ).0;
            &&& effects.len() >= 2
            &&& effects[1] == EffectView::StopScan
            &&& forall|i: int|
                0 <= i < effects.len() && #[trigger] effects[i] == EffectView::StopScan ==> i == 1
            &&& forall|i: int|
                0 <= i < effects.len() && #[trigger] effects[i] is ConnectPeripheral ==> i > 1
        }),
{
}

/// With either setting on, a session asks the service to stop scanning
/// exactly once for each discovery that it takes from the event stream.
pub proof fn one_stop_request_per_discovery(
    scan_once: bool,
    connect: bool,
    script: ScriptView,
    events: Seq<IncomingView>,
)
    requires
        scan_once || connect,
    ensures
        stop_requests(listen_run(scan_once, connect, script, events).effects) == device_reports(
            listen_run(scan_once, connect, script, events).effects,
        ).len(),
    decreases events.len(),
{
    if events.len() > 0 {
        let step = handle(scan_once, connect, script, events[0]);
        one_stop_per_discovery(scan_once, connect, script, events[0]);
        one_report_per_discovery(scan_once, connect, script, events[0]);
        if step.1 is None {
            let rest = listen_run(scan_once, connect, script, events.drop_first());
            one_stop_request_per_discovery(scan_once, connect, script, events.drop_first());
            kept_concat(step.0, rest.effects, stop_kind());
            kept_concat(step.0, rest.effects, report_kind());
        }
    }
}

/// Where listening is to end with the first scan result, a whole session
/// asks the service to stop scanning at most once: exactly once where it
/// takes a discovery from the event stream, and never where it takes none.
pub proof fn scan_once_stops_scan_once(
    connect: bool,
    script: ScriptView,
    events: Seq<IncomingView>,
)
    ensures
        ({
            let effects = listen_run(true, connect, script, events).effects;
            &&& stop_requests(effects) == device_reports(effects).len()
            &&& stop_requests(effects) <= 1
        }),
{
    one_stop_request_per_discovery(true, connect, script, events);
    session_ends_at_first_discovery(true, connect, script, events);
}

/// In every session the requests come in their order: the service is asked
/// to stop scanning only directly after a peripheral was described, and to
/// connect only directly after it was asked to stop scanning.
pub proof fn session_requests_in_order(
    scan_once: bool,
    connect: bool,
    script: ScriptView,
    events: Seq<IncomingView>,
)
    ensures
        requests_in_order(listen_run(scan_once, connect, script, events).effects),
    decreases events.len(),
{
    if events.len() > 0 {
        let step = handle(scan_once, connect, script, events[0]);
        assert(requests_in_order(step.0));
        if step.1 is None {
            let rest = listen_run(scan_once, connect, script, events.drop_first());
            session_requests_in_order(scan_once, connect, script, events.drop_first());
            let whole = step.0 + rest.effects;
            assert forall|i: int| 0 <= i < whole.len() && is_request(#[trigger] whole[i]) implies i
                >= 1 && if whole[i] is StopScan {
                whole[i - 1] is DeviceReport
            } else {
                whole[i - 1] is StopScan
            } by {
                if i >= step.0.len() {
                    let j = i - step.0.len();
                    assert(whole[i] == rest.effects[j]);
                    assert(j >= 1);
                    assert(whole[i - 1] == rest.effects[j - 1]);
                } else {
                    assert(whole[i] == step.0[i]);
                    assert(i >= 1);
                    assert(whole[i - 1] == step.0[i - 1]);
                }
            }
        }
    }
}

/// Where the service refuses to stop scanning, the refusal is reported, no
/// request to connect is made and the process ends.
pub proof fn failed_stop_scan_ends_process(
    scan_once: bool,
    connect: bool,
    script: ScriptView,
    device: RemoteDeviceView,
)
    requires
        scan_once || connect,
        script.stop_scan is Err,
    ensures
        ({
            let (effects, ending) = handle(
                scan_once,
                connect,
                script,
                IncomingView::Event(CentralEventView::OnDeviceDiscovered { device }),
            );
            &&& ending == Some(OutcomeView::Exited)
            &&& forall|i: int|
                0 <= i < effects.len() ==> !(#[trigger] effects[i] is ConnectPeripheral)
        }),
{
}

/// Where the service refuses to stop scanning, a session never asks it to
/// connect, whatever arrives.
pub proof fn refused_stop_scan_never_connects(
    scan_once: bool,
    connect: bool,
    script: ScriptView,
    events: Seq<IncomingView>,
)
    requires
        script.stop_scan is Err,
    ensures
        forall|i: int|
            0 <= i < listen_run(scan_once, connect, script, events).effects.len() ==> !(
            #[trigger] listen_run(scan_once, connect, script, events).effects[i]
                is ConnectPeripheral),
    decreases events.len(),
{
    if events.len() > 0 {
        refused_stop_scan_never_connects(scan_once, connect, script, events.drop_first());
    }
}

/// Where connecting is wanted, the discovered peripheral is connectable, the
/// service stops scanning and a channel pair can be made, exactly one request
/// to connect is made, and it names the discovered peripheral.
pub proof fn connects_once_to_discovered(
    scan_once: bool,
    script: ScriptView,
    device: RemoteDeviceView,
)
    requires
        device.connectable,
        script.stop_scan is Ok,
        script.endpoints is Some,
    ensures
        ({
            let effects = handle(
                scan_once,
                true,
                script,
                IncomingView::Event(CentralEventView::OnDeviceDiscovered { device }),
            ).0;
            &&& effects.len() >= 3
            &&& effects[2] == (EffectView::ConnectPeripheral {
                id: device.identifier,
                server: script.endpoints.unwrap().1,
            })
            &&& forall|i: int|
                0 <= i < effects.len() && #[trigger] effects[i] is ConnectPeripheral ==> i == 2
        }),
{
}

/// Where the service stops scanning and no connection is to be attempted,
/// because connecting is not wanted or the peripheral is not connectable, no
/// request to connect is made and the process ends right after the request
/// to stop scanning.
pub proof fn no_connect_ends_process(
    scan_once: bool,
    connect: bool,
    script: ScriptView,
    device: RemoteDeviceView,
)
    requires
        scan_once || connect,
        script.stop_scan is Ok,
        !connect || !device.connectable,
    ensures
        handle(
            scan_once,
            connect,
            script,
            IncomingView::Event(CentralEventView::OnDeviceDiscovered { device }),
        ) == (
            seq![EffectView::DeviceReport(device_text(device)), EffectView::StopScan],
            Some(OutcomeView::Exited),
        ),
{
}

/// A connection attempt starts the GATT loop exactly once where the service
/// reports the peripheral connected, as the last thing it does and on the
/// client end of the channel pair that was made for it, and never otherwise.
pub proof fn gatt_loop_starts_once_on_success(id: Seq<char>, script: ScriptView)
    ensures
        ({
            let effects = connect_run(id, script).effects;
            let connected = script.endpoints is Some && script.connect
                == ConnectResponseView::Connected;
            &&& connected ==> effects.len() == 3 && effects[2] == (EffectView::StartGattLoop {
                client: script.endpoints.unwrap().0,
            })
            &&& forall|i: int|
                0 <= i < effects.len() && #[trigger] effects[i] is StartGattLoop ==> connected
                    && i == 2
        }),
{
}

/// Where no channel pair can be made, a connection attempt fails before
/// anything is sent or printed.
pub proof fn no_endpoints_no_request(id: Seq<char>, script: ScriptView)
    requires
        script.endpoints is None,
    ensures
        connect_run(id, script).effects.len() == 0,
        connect_run(id, script).result == Err::<(), ErrorView>(ErrorView::EndpointCreation),
{
}

} // verus!
