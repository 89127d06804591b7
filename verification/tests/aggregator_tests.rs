use echo_ports::aggregator::{
    aggregate_step, drain, elapsed_secs, status_label, Report, StatusKind,
};
use echo_ports::event::{Event, PeerAddr};

fn peer() -> PeerAddr {
    PeerAddr { ip: "127.0.0.1".to_string(), port: 54321 }
}

fn established(port: u16, at: u64) -> Event {
    Event::ConnectionEstablished { port, peer: peer(), at }
}

fn closed(port: u16, at: u64) -> Event {
    Event::ConnectionClosed { port, peer: peer(), at }
}

fn data(port: u16, bytes: &[u8], at: u64) -> Event {
    Event::DataReceived { port, peer: peer(), payload: bytes.to_vec(), at }
}

#[test]
fn elapsed_is_now_minus_at() {
    assert_eq!(elapsed_secs(3, 10), 7);
    assert_eq!(elapsed_secs(10, 10), 0);
}

#[test]
fn elapsed_saturates_at_zero() {
    assert_eq!(elapsed_secs(11, 10), 0);
}

#[test]
fn status_labels_are_the_reported_descriptions() {
    assert_eq!(status_label(StatusKind::Established), "Connection established");
    assert_eq!(status_label(StatusKind::Closed), "Connection closed");
    assert_eq!(status_label(StatusKind::Shutdown), "Shutdown");
}

#[test]
fn only_shutdown_stops_the_step() {
    assert!(!aggregate_step(established(3000, 0), 1).1);
    assert!(!aggregate_step(closed(3000, 0), 1).1);
    assert!(!aggregate_step(data(3000, b"x", 0), 1).1);
    assert!(aggregate_step(Event::ShutdownRequested { at: 0 }, 1).1);
}

#[test]
fn data_event_renders_count_peer_port_and_payload() {
    // The scenario on port 3000: "hi" was read, so the rendered record shows
    // 2 bytes from the client's address on port 3000 and the raw bytes.
    let (report, stop) = aggregate_step(data(3000, b"hi", 4), 10);
    assert!(!stop);
    match report {
        Report::Data { elapsed_secs, port, peer: p, payload } => {
            assert_eq!(elapsed_secs, 6);
            assert_eq!(port, 3000);
            assert_eq!(p, peer());
            assert_eq!(payload.len(), 2);
            assert_eq!(payload, b"hi".to_vec());
        }
        other => panic!("expected a data report, got {:?}", other),
    }
}

#[test]
fn silent_connection_renders_established_then_closed_only() {
    // A client on port 3001 connects and closes without sending anything:
    // exactly ConnectionEstablished then ConnectionClosed, no data record.
    let events = vec![established(3001, 1), closed(3001, 2)];
    let (reports, shutdown_seen) = drain(events, 5);
    assert!(!shutdown_seen);
    assert_eq!(
        reports,
        vec![
            Report::Status { elapsed_secs: 4, kind: StatusKind::Established },
            Report::Status { elapsed_secs: 3, kind: StatusKind::Closed },
        ]
    );
}

#[test]
fn drain_keeps_delivery_order_and_drops_nothing() {
    let events = vec![
        established(3000, 0),
        data(3000, b"hi", 1),
        established(3001, 2),
        closed(3000, 3),
    ];
    let (reports, shutdown_seen) = drain(events, 3);
    assert!(!shutdown_seen);
    assert_eq!(
        reports,
        vec![
            Report::Status { elapsed_secs: 3, kind: StatusKind::Established },
            Report::Data { elapsed_secs: 2, port: 3000, peer: peer(), payload: b"hi".to_vec() },
            Report::Status { elapsed_secs: 1, kind: StatusKind::Established },
            Report::Status { elapsed_secs: 0, kind: StatusKind::Closed },
        ]
    );
}

#[test]
fn shutdown_stops_the_drain_wherever_it_is_queued() {
    // Events queued behind the shutdown request stay unrendered.
    let events = vec![
        established(3000, 0),
        Event::ShutdownRequested { at: 1 },
        data(3000, b"late", 2),
        closed(3000, 3),
    ];
    let (reports, shutdown_seen) = drain(events, 1);
    assert!(shutdown_seen);
    assert_eq!(
        reports,
        vec![
            Report::Status { elapsed_secs: 1, kind: StatusKind::Established },
            Report::Status { elapsed_secs: 0, kind: StatusKind::Shutdown },
        ]
    );
}

#[test]
fn shutdown_first_renders_one_line() {
    let events = vec![Event::ShutdownRequested { at: 0 }, established(3000, 0)];
    let (reports, shutdown_seen) = drain(events, 0);
    assert!(shutdown_seen);
    assert_eq!(reports, vec![Report::Status { elapsed_secs: 0, kind: StatusKind::Shutdown }]);
}

#[test]
fn empty_stream_drains_to_nothing() {
    let (reports, shutdown_seen) = drain(Vec::new(), 9);
    assert!(!shutdown_seen);
    assert!(reports.is_empty());
}
