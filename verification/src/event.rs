//! The sole domain entity: an immutable record of one lifecycle or data
//! occurrence, created by exactly one producer at the moment of the
//! triggering I/O action and delivered once to the aggregator.

use vstd::prelude::*;

verus! {

/// A peer's socket address, held as the plain values the logic reads:
/// the printable host part and the peer's port number.
#[derive(Debug, Clone, PartialEq)]
pub struct PeerAddr {
    pub ip: String,
    pub port: u16,
}

/// Mathematical model of a [`PeerAddr`].
pub struct PeerAddrView {
    pub ip: Seq<char>,
    pub port: u16,
}

impl View for PeerAddr {
    type V = PeerAddrView;

    open spec fn view(&self) -> PeerAddrView {
        PeerAddrView { ip: self.ip@, port: self.port }
    }
}

/// One lifecycle or data occurrence. `port` and `peer` are present on every
/// variant except `ShutdownRequested`; `at` is a monotonic tick captured when
/// the event was constructed, used only for elapsed-time reporting, never for
/// ordering. A `DataReceived` payload is the literal bytes of one socket
/// read, immutable once captured.
#[derive(Debug, Clone, PartialEq)]
pub enum Event {
    ConnectionEstablished { port: u16, peer: PeerAddr, at: u64 },
    DataReceived { port: u16, peer: PeerAddr, payload: Vec<u8>, at: u64 },
    ConnectionClosed { port: u16, peer: PeerAddr, at: u64 },
    ShutdownRequested { at: u64 },
}

/// Mathematical model of an [`Event`].
pub enum EventView {
    ConnectionEstablished { port: u16, peer: PeerAddrView, at: u64 },
    DataReceived { port: u16, peer: PeerAddrView, payload: Seq<u8>, at: u64 },
    ConnectionClosed { port: u16, peer: PeerAddrView, at: u64 },
    ShutdownRequested { at: u64 },
}

impl View for Event {
    type V = EventView;

    open spec fn view(&self) -> EventView {
        match self {
            Event::ConnectionEstablished { port, peer, at } => EventView::ConnectionEstablished {
                port: *port,
                peer: peer@,
                at: *at,
            },
            Event::DataReceived { port, peer, payload, at } => EventView::DataReceived {
                port: *port,
                peer: peer@,
                payload: payload@,
                at: *at,
            },
            Event::ConnectionClosed { port, peer, at } => EventView::ConnectionClosed {
                port: *port,
                peer: peer@,
                at: *at,
            },
            Event::ShutdownRequested { at } => EventView::ShutdownRequested { at: *at },
        }
    }
}

} // verus!
