//! Port listener logic: bind one port, accept exactly one connection.
//!
//! A listener's thread blocks on accept; each accept attempt's outcome is
//! classified here. Failing to resolve the peer's address is the only
//! recoverable condition (skip and keep listening); a resolved peer is
//! dispatched to a fresh connection handler, a `ConnectionEstablished` event
//! is emitted, and the listener stops accepting on that port for good.

use vstd::prelude::*;

use crate::event::{Event, EventView, PeerAddr, PeerAddrView};

verus! {

/// The outcome of one accept attempt, as plain values.
#[derive(Debug, Clone, PartialEq)]
pub enum AcceptOutcome {
    /// A connection arrived and its peer address resolved.
    Connected { peer: PeerAddr },
    /// A connection arrived but its peer address could not be resolved.
    NoPeerAddr,
}

/// Mathematical model of an [`AcceptOutcome`].
pub enum AcceptOutcomeView {
    Connected { peer: PeerAddrView },
    NoPeerAddr,
}

impl View for AcceptOutcome {
    type V = AcceptOutcomeView;

    open spec fn view(&self) -> AcceptOutcomeView {
        match self {
            AcceptOutcome::Connected { peer } => AcceptOutcomeView::Connected { peer: peer@ },
            AcceptOutcome::NoPeerAddr => AcceptOutcomeView::NoPeerAddr,
        }
    }
}

/// What the listener's thread must do after one accept attempt.
#[derive(Debug, Clone, PartialEq)]
pub enum ListenerAction {
    /// Hand the accepted socket to a connection handler, emit this
    /// `ConnectionEstablished` event, and stop listening on this port.
    Dispatch { event: Event },
    /// Skip this attempt and block on the next accept.
    KeepListening,
}

/// Mathematical model of a [`ListenerAction`].
pub enum ListenerActionView {
    Dispatch { event: EventView },
    KeepListening,
}

impl View for ListenerAction {
    type V = ListenerActionView;

    open spec fn view(&self) -> ListenerActionView {
        match self {
            ListenerAction::Dispatch { event } => ListenerActionView::Dispatch { event: event@ },
            ListenerAction::KeepListening => ListenerActionView::KeepListening,
        }
    }
}

/// The action owed after one accept attempt: dispatch on a resolved peer,
/// keep listening otherwise.
pub open spec fn spec_listener_step(
    port: u16,
    outcome: AcceptOutcomeView,
    at: u64,
) -> ListenerActionView {
    match outcome {
        AcceptOutcomeView::Connected { peer } => ListenerActionView::Dispatch {
            event: EventView::ConnectionEstablished { port, peer, at },
        },
        AcceptOutcomeView::NoPeerAddr => ListenerActionView::KeepListening,
    }
}

/// Classify one accept attempt on `port` into the listener's next action.
pub fn listener_step(port: u16, outcome: AcceptOutcome, at: u64) -> (action: ListenerAction)
    ensures
        action@ == spec_listener_step(port, outcome@, at),
{
    match outcome {
        AcceptOutcome::Connected { peer } => ListenerAction::Dispatch {
            event: Event::ConnectionEstablished { port, peer, at },
        },
        AcceptOutcome::NoPeerAddr => ListenerAction::KeepListening,
    }
}

/// The events a listener dispatches over a whole run: accept attempts are
/// taken in order, unresolved peers are skipped, and the first resolved peer
/// ends the run.
pub open spec fn listener_dispatches(
    port: u16,
    outcomes: Seq<AcceptOutcomeView>,
    at: u64,
) -> Seq<EventView>
    decreases outcomes.len(),
{
    if outcomes.len() == 0 {
        Seq::empty()
    } else {
        match spec_listener_step(port, outcomes[0], at) {
            ListenerActionView::Dispatch { event } => seq![event],
            ListenerActionView::KeepListening => listener_dispatches(port, outcomes.skip(1), at),
        }
    }
}

/// Whether some accept attempt in the run resolved a peer.
pub open spec fn contains_connection(outcomes: Seq<AcceptOutcomeView>) -> bool {
    exists|i: int| 0 <= i < outcomes.len() && outcomes[i] is Connected
}

/// A port accepts exactly one connection: over any run of accept attempts the
/// listener dispatches at most one connection, exactly one as soon as any
/// attempt resolves a peer, and the one dispatched is the first attempt that
/// resolved — after it the listener no longer accepts on that port.
pub proof fn lemma_one_connection_per_port(
    port: u16,
    outcomes: Seq<AcceptOutcomeView>,
    at: u64,
)
    ensures
        listener_dispatches(port, outcomes, at).len() <= 1,
        listener_dispatches(port, outcomes, at).len() == 1 <==> contains_connection(outcomes),
        forall|k: int|
            0 <= k < outcomes.len() && outcomes[k] is Connected && (forall|j: int|
                0 <= j < k ==> !(outcomes[j] is Connected)) ==> listener_dispatches(
                port,
                outcomes,
                at,
            ) =~= seq![
                EventView::ConnectionEstablished { port, peer: outcomes[k]->Connected_peer, at },
            ],
    decreases outcomes.len(),
{
    if outcomes.len() == 0 {
    } else {
        match outcomes[0] {
            AcceptOutcomeView::Connected { peer } => {
                assert(contains_connection(outcomes));
            },
            AcceptOutcomeView::NoPeerAddr => {
                lemma_one_connection_per_port(port, outcomes.skip(1), at);
                assert(contains_connection(outcomes.skip(1)) <==> contains_connection(outcomes))
                    by {
                    if contains_connection(outcomes.skip(1)) {
                        let i = choose|i: int|
                            0 <= i < outcomes.skip(1).len() && outcomes.skip(1)[i] is Connected;
                        assert(outcomes[i + 1] is Connected);
                    }
                    if contains_connection(outcomes) {
                        let i = choose|i: int|
                            0 <= i < outcomes.len() && outcomes[i] is Connected;
                        assert(outcomes.skip(1)[i - 1] is Connected);
                    }
                }
                assert forall|k: int|
                    0 <= k < outcomes.len() && outcomes[k] is Connected && (forall|j: int|
                        0 <= j < k ==> !(outcomes[j] is Connected)) implies listener_dispatches(
                    port,
                    outcomes,
                    at,
                ) =~= seq![
                    EventView::ConnectionEstablished {
                        port,
                        peer: outcomes[k]->Connected_peer,
                        at,
                    },
                ] by {
                    assert(k >= 1);
                    assert(outcomes.skip(1)[k - 1] is Connected);
                    assert(forall|j: int| 0 <= j < k - 1 ==> !(outcomes.skip(1)[j] is Connected));
                }
            },
        }
    }
}

} // verus!
