use echo_ports::event::{Event, PeerAddr};
use echo_ports::handler::{chunk_payload, handler_step, HandlerAction, ReadOutcome, READ_BUFFER_LEN};

fn peer() -> PeerAddr {
    PeerAddr { ip: "127.0.0.1".to_string(), port: 54321 }
}

fn fixed_buffer(data: &[u8]) -> Vec<u8> {
    let mut buf = vec![0u8; READ_BUFFER_LEN];
    buf[..data.len()].copy_from_slice(data);
    buf
}

#[test]
fn echo_carries_exactly_the_bytes_read() {
    // A client on port 3000 sends "hi" (2 bytes): the action echoes those two
    // bytes and reports them from the client's address on port 3000.
    let buf = fixed_buffer(b"hi");
    let action = handler_step(3000, peer(), &buf, ReadOutcome::Bytes { count: 2 }, 7);
    match action {
        HandlerAction::EchoThenEmit { event } => match event {
            Event::DataReceived { port, peer: p, payload, at } => {
                assert_eq!(port, 3000);
                assert_eq!(p, peer());
                assert_eq!(payload, b"hi".to_vec());
                assert_eq!(payload.len(), 2);
                assert_eq!(at, 7);
            }
            other => panic!("expected DataReceived, got {:?}", other),
        },
        other => panic!("expected EchoThenEmit, got {:?}", other),
    }
}

#[test]
fn payload_is_never_the_full_fixed_buffer() {
    // Junk beyond the read count must not leak into the payload.
    let mut buf = fixed_buffer(b"abc");
    buf[3] = 0xee;
    buf[1023] = 0xff;
    let action = handler_step(3000, peer(), &buf, ReadOutcome::Bytes { count: 3 }, 0);
    match action {
        HandlerAction::EchoThenEmit { event } => match event {
            Event::DataReceived { payload, .. } => assert_eq!(payload, b"abc".to_vec()),
            other => panic!("expected DataReceived, got {:?}", other),
        },
        other => panic!("expected EchoThenEmit, got {:?}", other),
    }
}

#[test]
fn zero_byte_read_closes_the_connection() {
    let buf = fixed_buffer(b"");
    let action = handler_step(3001, peer(), &buf, ReadOutcome::Bytes { count: 0 }, 3);
    match action {
        HandlerAction::EmitCloseAndStop { event } => match event {
            Event::ConnectionClosed { port, peer: p, at } => {
                assert_eq!(port, 3001);
                assert_eq!(p, peer());
                assert_eq!(at, 3);
            }
            other => panic!("expected ConnectionClosed, got {:?}", other),
        },
        other => panic!("expected EmitCloseAndStop, got {:?}", other),
    }
}

#[test]
fn peer_reset_is_a_clean_close() {
    let buf = fixed_buffer(b"");
    let action = handler_step(3002, peer(), &buf, ReadOutcome::Reset, 9);
    assert!(matches!(
        action,
        HandlerAction::EmitCloseAndStop { event: Event::ConnectionClosed { port: 3002, .. } }
    ));
}

#[test]
fn other_read_errors_emit_no_closing_event() {
    let buf = fixed_buffer(b"");
    let action = handler_step(3000, peer(), &buf, ReadOutcome::Failed, 4);
    assert_eq!(action, HandlerAction::StopWithFailure);
}

#[test]
fn chunk_payload_takes_a_prefix() {
    let buf = vec![10u8, 20, 30, 40];
    assert_eq!(chunk_payload(&buf, 0), Vec::<u8>::new());
    assert_eq!(chunk_payload(&buf, 2), vec![10u8, 20]);
    assert_eq!(chunk_payload(&buf, 4), vec![10u8, 20, 30, 40]);
}

#[test]
fn echo_order_matches_read_order() {
    // Chunks are echoed one read at a time, each in full, in read order.
    let chunks: Vec<&[u8]> = vec![b"first", b"second", b"third"];
    let mut echoed: Vec<Vec<u8>> = Vec::new();
    for chunk in &chunks {
        let buf = fixed_buffer(chunk);
        let action = handler_step(3000, peer(), &buf, ReadOutcome::Bytes { count: chunk.len() }, 0);
        match action {
            HandlerAction::EchoThenEmit { event } => match event {
                Event::DataReceived { payload, .. } => echoed.push(payload),
                other => panic!("expected DataReceived, got {:?}", other),
            },
            other => panic!("expected EchoThenEmit, got {:?}", other),
        }
    }
    let expected: Vec<Vec<u8>> = chunks.iter().map(|c| c.to_vec()).collect();
    assert_eq!(echoed, expected);
}
