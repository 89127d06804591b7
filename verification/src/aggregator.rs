//! Event aggregator: the single consumer of the aggregation stream.
//!
//! Events arrive in delivery order (FIFO across all producers) and are
//! rendered strictly in that order — no reordering, no batching, no
//! coalescing — until either the stream is exhausted or a
//! `ShutdownRequested` event is rendered, the only normal termination
//! condition of the whole orchestration. Rendering builds a [`Report`], the
//! already-decided record a console reporter prints; the wording and layout
//! of the printed line are the reporter's business, not this library's.

use vstd::prelude::*;
use vstd::string::StringExecFns;

use crate::event::{Event, EventView, PeerAddr, PeerAddrView};

verus! {

/// Which status line a non-data event renders to.
#[derive(Debug, Clone, Copy, PartialEq, Eq)]
pub enum StatusKind {
    Established,
    Closed,
    Shutdown,
}

/// One rendered event, ready for a console reporter: the elapsed seconds
/// since the event was constructed, and either a status label or the data
/// fields (payload byte count is the payload's own length).
#[derive(Debug, Clone, PartialEq)]
pub enum Report {
    Status { elapsed_secs: u64, kind: StatusKind },
    Data { elapsed_secs: u64, port: u16, peer: PeerAddr, payload: Vec<u8> },
}

/// Mathematical model of a [`Report`].
pub enum ReportView {
    Status { elapsed_secs: u64, kind: StatusKind },
    Data { elapsed_secs: u64, port: u16, peer: PeerAddrView, payload: Seq<u8> },
}

impl View for Report {
    type V = ReportView;

    open spec fn view(&self) -> ReportView {
        match self {
            Report::Status { elapsed_secs, kind } => ReportView::Status {
                elapsed_secs: *elapsed_secs,
                kind: *kind,
            },
            Report::Data { elapsed_secs, port, peer, payload } => ReportView::Data {
                elapsed_secs: *elapsed_secs,
                port: *port,
                peer: peer@,
                payload: payload@,
            },
        }
    }
}

/// Whole seconds elapsed between an event's construction tick and `now`;
/// a tick later than `now` counts as zero elapsed.
pub open spec fn spec_elapsed(at: u64, now: u64) -> u64 {
    if at <= now {
        (now - at) as u64
    } else {
        0
    }
}

/// Compute the elapsed seconds shown on a rendered line.
pub fn elapsed_secs(at: u64, now: u64) -> (elapsed: u64)
    ensures
        elapsed == spec_elapsed(at, now),
{
    if at <= now {
        now - at
    } else {
        0
    }
}

/// How one event renders: status events keep only their elapsed time and
/// label; a data event keeps elapsed time, port, peer and the payload itself.
pub open spec fn spec_render(e: EventView, now: u64) -> ReportView {
    match e {
        EventView::ConnectionEstablished { at, .. } => ReportView::Status {
            elapsed_secs: spec_elapsed(at, now),
            kind: StatusKind::Established,
        },
        EventView::DataReceived { port, peer, payload, at } => ReportView::Data {
            elapsed_secs: spec_elapsed(at, now),
            port,
            peer,
            payload,
        },
        EventView::ConnectionClosed { at, .. } => ReportView::Status {
            elapsed_secs: spec_elapsed(at, now),
            kind: StatusKind::Closed,
        },
        EventView::ShutdownRequested { at } => ReportView::Status {
            elapsed_secs: spec_elapsed(at, now),
            kind: StatusKind::Shutdown,
        },
    }
}

/// Render one event and say whether it ends the drain loop: a rendered
/// `ShutdownRequested` — and nothing else — stops the aggregator.
pub fn aggregate_step(e: Event, now: u64) -> (r: (Report, bool))
    ensures
        r.0@ == spec_render(e@, now),
        r.1 == (e@ is ShutdownRequested),
{
    match e {
        Event::ConnectionEstablished { at, .. } => (
            Report::Status { elapsed_secs: elapsed_secs(at, now), kind: StatusKind::Established },
            false,
        ),
        Event::DataReceived { port, peer, payload, at } => (
            Report::Data { elapsed_secs: elapsed_secs(at, now), port, peer, payload },
            false,
        ),
        Event::ConnectionClosed { at, .. } => (
            Report::Status { elapsed_secs: elapsed_secs(at, now), kind: StatusKind::Closed },
            false,
        ),
        Event::ShutdownRequested { at } => (
            Report::Status { elapsed_secs: elapsed_secs(at, now), kind: StatusKind::Shutdown },
            true,
        ),
    }
}

/// The human-readable description a status line carries.
pub fn status_label(kind: StatusKind) -> (label: String)
    ensures
        kind is Established ==> label@ == "Connection established"@,
        kind is Closed ==> label@ == "Connection closed"@,
        kind is Shutdown ==> label@ == "Shutdown"@,
{
    match kind {
        StatusKind::Established => String::from_str("Connection established"),
        StatusKind::Closed => String::from_str("Connection closed"),
        StatusKind::Shutdown => String::from_str("Shutdown"),
    }
}

/// Whether a shutdown request occurs anywhere in the delivered events.
pub open spec fn contains_shutdown(evs: Seq<EventView>) -> bool {
    exists|i: int| 0 <= i < evs.len() && evs[i] is ShutdownRequested
}

/// The events the aggregator renders out of a delivered sequence: everything
/// up to and including the first `ShutdownRequested`, or everything if the
/// stream closes without one.
pub open spec fn drained_events(evs: Seq<EventView>) -> Seq<EventView>
    decreases evs.len(),
{
    if evs.len() == 0 {
        Seq::empty()
    } else if evs[0] is ShutdownRequested {
        seq![evs[0]]
    } else {
        seq![evs[0]] + drained_events(evs.skip(1))
    }
}

/// The delivered events of a queue, as their models.
pub open spec fn delivered(events: Seq<Event>) -> Seq<EventView> {
    events.map_values(|e: Event| e@)
}

/// Drain a delivered queue in order: render each event, stop after the first
/// `ShutdownRequested` (later events stay unrendered), and report whether a
/// shutdown was the reason the loop ended.
pub fn drain(events: Vec<Event>, now: u64) -> (r: (Vec<Report>, bool))
    ensures
        r.0@.map_values(|rep: Report| rep@) == drained_events(delivered(events@)).map_values(
            |ev: EventView| spec_render(ev, now),
        ),
        r.1 == contains_shutdown(delivered(events@)),
    decreases events@.len(),
{
    let ghost evs = delivered(events@);
    let mut events = events;
    if events.len() == 0 {
        proof {
            assert(drained_events(evs).map_values(|ev: EventView| spec_render(ev, now)) =~= Seq::<
                ReportView,
            >::empty());
        }
        (Vec::new(), false)
    } else {
        let e = events.remove(0);
        proof {
            assert(delivered(events@) =~= evs.skip(1));
            assert(evs[0] == e@);
        }
        let (report, stop) = aggregate_step(e, now);
        if stop {
            let mut out: Vec<Report> = Vec::new();
            out.push(report);
            proof {
                assert(out@.map_values(|rep: Report| rep@) =~= drained_events(evs).map_values(
                    |ev: EventView| spec_render(ev, now),
                ));
            }
            (out, true)
        } else {
            let (mut rest, shutdown_seen) = drain(events, now);
            let ghost tail = rest@;
            rest.insert(0, report);
            proof {
                let lhs = rest@.map_values(|rep: Report| rep@);
                let rhs = drained_events(evs).map_values(|ev: EventView| spec_render(ev, now));
                let d = drained_events(evs);
                let dt = drained_events(evs.skip(1));
                assert(rest@ =~= seq![report] + tail);
                assert(d == seq![evs[0]] + dt);
                assert(tail.map_values(|rep: Report| rep@) == dt.map_values(
                    |ev: EventView| spec_render(ev, now),
                ));
                assert(tail.map_values(|rep: Report| rep@).len() == tail.len());
                assert(dt.map_values(|ev: EventView| spec_render(ev, now)).len() == dt.len());
                assert(tail.len() == dt.len());
                assert forall|i: int| 0 <= i < lhs.len() implies lhs[i] == rhs[i] by {
                    if i == 0 {
                        assert(rest@[0] == (seq![report] + tail)[0]);
                        assert(d[0] == (seq![evs[0]] + dt)[0]);
                    } else {
                        assert(rest@[i] == (seq![report] + tail)[i]);
                        assert((seq![report] + tail)[i] == tail[i - 1]);
                        assert(tail.map_values(|rep: Report| rep@)[i - 1] == tail[i - 1]@);
                        assert(d[i] == (seq![evs[0]] + dt)[i]);
                        assert((seq![evs[0]] + dt)[i] == dt[i - 1]);
                        assert(dt.map_values(|ev: EventView| spec_render(ev, now))[i - 1]
                            == spec_render(dt[i - 1], now));
                    }
                }
                assert(lhs =~= rhs);
                if shutdown_seen {
                    let i = choose|i: int|
                        0 <= i < evs.skip(1).len() && evs.skip(1)[i] is ShutdownRequested;
                    assert(evs[i + 1] is ShutdownRequested);
                }
                if contains_shutdown(evs) {
                    let i = choose|i: int| 0 <= i < evs.len() && evs[i] is ShutdownRequested;
                    assert(evs.skip(1)[i - 1] is ShutdownRequested);
                }
            }
            (rest, shutdown_seen)
        }
    }
}

/// Delivery order is rendering order and nothing is dropped while the stream
/// stays open: what the aggregator renders is a prefix of the delivered
/// sequence, element for element, and if no shutdown is delivered the whole
/// sequence is rendered.
pub proof fn lemma_drain_is_fifo_prefix(evs: Seq<EventView>)
    ensures
        drained_events(evs).len() <= evs.len(),
        forall|i: int| 0 <= i < drained_events(evs).len() ==> drained_events(evs)[i] == evs[i],
        !contains_shutdown(evs) ==> drained_events(evs) == evs,
    decreases evs.len(),
{
    if evs.len() == 0 {
        assert(drained_events(evs) =~= evs);
    } else if evs[0] is ShutdownRequested {
        assert(contains_shutdown(evs));
        assert(drained_events(evs)[0] == evs[0]);
    } else {
        lemma_drain_is_fifo_prefix(evs.skip(1));
        let d = drained_events(evs);
        let dt = drained_events(evs.skip(1));
        assert(d == seq![evs[0]] + dt);
        assert forall|i: int| 0 <= i < d.len() implies d[i] == evs[i] by {
            if i > 0 {
                assert(d[i] == dt[i - 1]);
                assert(dt[i - 1] == evs.skip(1)[i - 1]);
            }
        }
        if !contains_shutdown(evs) {
            assert(!contains_shutdown(evs.skip(1))) by {
                if contains_shutdown(evs.skip(1)) {
                    let i = choose|i: int|
                        0 <= i < evs.skip(1).len() && evs.skip(1)[i] is ShutdownRequested;
                    assert(evs[i + 1] is ShutdownRequested);
                }
            }
            assert(drained_events(evs) =~= evs);
        }
    }
}

/// A delivered `ShutdownRequested` always terminates the drain loop, however
/// many events are queued around it: rendering stops exactly at the first
/// shutdown request, with everything before it rendered and nothing after it.
pub proof fn lemma_shutdown_stops_drain(evs: Seq<EventView>, k: int)
    requires
        0 <= k < evs.len(),
        evs[k] is ShutdownRequested,
        forall|j: int| 0 <= j < k ==> !(#[trigger] evs[j] is ShutdownRequested),
    ensures
        drained_events(evs).len() == k + 1,
        drained_events(evs)[k] == evs[k],
        forall|i: int| 0 <= i < k ==> drained_events(evs)[i] == evs[i],
    decreases evs.len(),
{
    lemma_drain_is_fifo_prefix(evs);
    if k == 0 {
    } else {
        assert(evs.skip(1)[k - 1] is ShutdownRequested);
        assert(forall|j: int|
            0 <= j < k - 1 ==> !(#[trigger] evs.skip(1)[j] is ShutdownRequested)) by {
            assert(forall|j: int| 0 <= j < k - 1 ==> evs.skip(1)[j] == evs[j + 1]);
        }
        lemma_shutdown_stops_drain(evs.skip(1), k - 1);
    }
}

} // verus!
