//! Connection handler logic: drive one accepted socket to completion.
//!
//! The handler owns its socket exclusively. It repeatedly reads up to
//! [`READ_BUFFER_LEN`] bytes; each read's outcome is classified here into the
//! action the owning thread must perform. Echoing happens strictly before the
//! corresponding `DataReceived` event is emitted: the echoed bytes are the
//! event's own payload, and the caller writes them back on the socket before
//! handing the event to the aggregation stream.

use vstd::prelude::*;

use crate::event::{Event, EventView, PeerAddr, PeerAddrView};

verus! {

/// Fixed size of the read buffer used for each socket read.
pub const READ_BUFFER_LEN: usize = 1024;

/// The outcome of one blocking read on the handler's socket, as plain values:
/// how many bytes arrived, or which class of failure ended the read.
#[derive(Debug, Clone, Copy, PartialEq, Eq)]
pub enum ReadOutcome {
    /// The read returned `count` bytes (zero means the peer closed cleanly).
    Bytes { count: usize },
    /// The read failed because the peer reset the connection.
    Reset,
    /// The read failed for any other reason: fatal for this handler.
    Failed,
}

/// What the handler's thread must do after one read.
#[derive(Debug, Clone, PartialEq)]
pub enum HandlerAction {
    /// Write the event's payload back on the socket (the echo), and only
    /// then emit the event; keep reading afterwards.
    EchoThenEmit { event: Event },
    /// Emit the closing event for this peer/port pair, then stop reading.
    EmitCloseAndStop { event: Event },
    /// Stop without emitting anything: a handler-fatal read error.
    StopWithFailure,
}

/// Mathematical model of a [`HandlerAction`].
pub enum HandlerActionView {
    EchoThenEmit { event: EventView },
    EmitCloseAndStop { event: EventView },
    StopWithFailure,
}

impl View for HandlerAction {
    type V = HandlerActionView;

    open spec fn view(&self) -> HandlerActionView {
        match self {
            HandlerAction::EchoThenEmit { event } => HandlerActionView::EchoThenEmit {
                event: event@,
            },
            HandlerAction::EmitCloseAndStop { event } => HandlerActionView::EmitCloseAndStop {
                event: event@,
            },
            HandlerAction::StopWithFailure => HandlerActionView::StopWithFailure,
        }
    }
}

/// The action owed after one read: a positive count echoes exactly the bytes
/// read (never the rest of the buffer) and reports them; a zero count or a
/// peer reset closes the connection normally; anything else is handler-fatal
/// and emits no closing event.
pub open spec fn spec_handler_step(
    port: u16,
    peer: PeerAddrView,
    buf: Seq<u8>,
    outcome: ReadOutcome,
    at: u64,
) -> HandlerActionView {
    match outcome {
        ReadOutcome::Bytes { count } => if count == 0 {
            HandlerActionView::EmitCloseAndStop {
                event: EventView::ConnectionClosed { port, peer, at },
            }
        } else {
            HandlerActionView::EchoThenEmit {
                event: EventView::DataReceived {
                    port,
                    peer,
                    payload: buf.take(count as int),
                    at,
                },
            }
        },
        ReadOutcome::Reset => HandlerActionView::EmitCloseAndStop {
            event: EventView::ConnectionClosed { port, peer, at },
        },
        ReadOutcome::Failed => HandlerActionView::StopWithFailure,
    }
}

/// Classify one read's outcome into the handler's next action.
///
/// `buf` is the fixed read buffer and `count` (inside `outcome`) how much of
/// it this read filled; the payload captured for a `DataReceived` event is
/// exactly those `count` bytes, in order.
pub fn handler_step(
    port: u16,
    peer: PeerAddr,
    buf: &Vec<u8>,
    outcome: ReadOutcome,
    at: u64,
) -> (action: HandlerAction)
    requires
        outcome matches ReadOutcome::Bytes { count } ==> count <= buf.len(),
    ensures
        action@ == spec_handler_step(port, peer@, buf@, outcome, at),
{
    match outcome {
        ReadOutcome::Bytes { count } => {
            if count == 0 {
                HandlerAction::EmitCloseAndStop {
                    event: Event::ConnectionClosed { port, peer, at },
                }
            } else {
                let payload = chunk_payload(buf, count);
                HandlerAction::EchoThenEmit {
                    event: Event::DataReceived { port, peer, payload, at },
                }
            }
        },
        ReadOutcome::Reset => HandlerAction::EmitCloseAndStop {
            event: Event::ConnectionClosed { port, peer, at },
        },
        ReadOutcome::Failed => HandlerAction::StopWithFailure,
    }
}

/// Copy the first `count` bytes of the read buffer: the literal bytes of one
/// read, not the full fixed buffer.
pub fn chunk_payload(buf: &Vec<u8>, count: usize) -> (payload: Vec<u8>)
    requires
        count <= buf.len(),
    ensures
        payload@ == buf@.take(count as int),
{
    let mut payload: Vec<u8> = Vec::new();
    let mut i: usize = 0;
    while i < count
        invariant
            i <= count,
            count <= buf.len(),
            payload@ == buf@.take(i as int),
        decreases count - i,
    {
        payload.push(buf[i]);
        assert(payload@ =~= buf@.take(i + 1 as int));
        i = i + 1;
    }
    payload
}

/// The actions of a handler's data phase: one read per entry of `reads`,
/// where each entry is the buffer contents and the byte count of that read.
pub open spec fn handler_data_actions(
    port: u16,
    peer: PeerAddrView,
    reads: Seq<(Seq<u8>, usize)>,
    at: u64,
) -> Seq<HandlerActionView> {
    reads.map_values(
        |r: (Seq<u8>, usize)| spec_handler_step(
            port,
            peer,
            r.0,
            ReadOutcome::Bytes { count: r.1 },
            at,
        ),
    )
}

/// Every byte sequence a client writes is echoed back unchanged and in read
/// order: the action for the `i`-th read carries exactly the first `count`
/// bytes of that read as its payload, and those bytes are written back on the
/// socket before the matching `DataReceived` event is emitted (the echo is
/// the event's own payload).
pub proof fn lemma_echo_preserves_bytes(
    port: u16,
    peer: PeerAddrView,
    reads: Seq<(Seq<u8>, usize)>,
    at: u64,
)
    requires
        forall|i: int| 0 <= i < reads.len() ==> 0 < #[trigger] reads[i].1 <= reads[i].0.len(),
    ensures
        handler_data_actions(port, peer, reads, at).len() == reads.len(),
        forall|i: int|
            0 <= i < reads.len() ==> (#[trigger] handler_data_actions(port, peer, reads, at)[i]
                matches HandlerActionView::EchoThenEmit { event }
                && event == (EventView::DataReceived {
                    port,
                    peer,
                    payload: reads[i].0.take(reads[i].1 as int),
                    at,
                })),
{
}

} // verus!
