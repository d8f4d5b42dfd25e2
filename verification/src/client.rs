//! The life of one client: from the opening handshake to the end of its
//! two loops.

use vstd::prelude::*;

verus! {

/// Where a client stands.
///
/// A connection has one outbound half, which the sender loop owns, and one
/// inbound half, which the receiver loop owns. A client whose handshake
/// completed is finished only when both loops have ended.
#[derive(Clone, Copy, Debug, PartialEq, Eq, Structural)]
pub enum ClientPhase {
    /// The handshake has not been answered yet.
    Connecting,
    /// Connected; both loops run.
    Running,
    /// Connected; the receiver loop has ended, the sender loop runs on.
    SendingOnly,
    /// Connected; the sender loop has ended, the receiver loop runs on.
    ReceivingOnly,
    /// Both loops have ended.
    Finished,
    /// The handshake failed and the client was abandoned.
    Failed,
}

/// What happens to a client.
#[derive(Clone, Copy, Debug, PartialEq, Eq, Structural)]
pub enum ClientEvent {
    /// The opening handshake completed.
    HandshakeCompleted,
    /// The opening handshake failed.
    HandshakeFailed,
    /// The sender loop ended.
    SenderStopped,
    /// The receiver loop ended.
    ReceiverStopped,
}

/// Whether the sender loop runs in `phase`.
pub open spec fn sender_runs(phase: ClientPhase) -> bool {
    phase is Running || phase is SendingOnly
}

/// Whether the receiver loop runs in `phase`.
pub open spec fn receiver_runs(phase: ClientPhase) -> bool {
    phase is Running || phase is ReceivingOnly
}

/// Whether a client in `phase` has nothing left to do: its handshake failed,
/// or both its loops have ended.
pub open spec fn is_complete(phase: ClientPhase) -> bool {
    phase is Finished || phase is Failed
}

/// The phase that follows `phase` on `event`. An event that has no meaning
/// in a phase leaves the phase as it is.
pub open spec fn next_phase(phase: ClientPhase, event: ClientEvent) -> ClientPhase {
    match (phase, event) {
        (ClientPhase::Connecting, ClientEvent::HandshakeCompleted) => ClientPhase::Running,
        (ClientPhase::Connecting, ClientEvent::HandshakeFailed) => ClientPhase::Failed,
        (ClientPhase::Running, ClientEvent::SenderStopped) => ClientPhase::ReceivingOnly,
        (ClientPhase::Running, ClientEvent::ReceiverStopped) => ClientPhase::SendingOnly,
        (ClientPhase::SendingOnly, ClientEvent::SenderStopped) => ClientPhase::Finished,
        (ClientPhase::ReceivingOnly, ClientEvent::ReceiverStopped) => ClientPhase::Finished,
        _ => phase,
    }
}

impl ClientPhase {
    /// The phase that follows this one on `event`.
    pub fn advance(self, event: ClientEvent) -> (next: ClientPhase)
        ensures
            next == next_phase(self, event),
    {
        match (self, event) {
            (ClientPhase::Connecting, ClientEvent::HandshakeCompleted) => ClientPhase::Running,
            (ClientPhase::Connecting, ClientEvent::HandshakeFailed) => ClientPhase::Failed,
            (ClientPhase::Running, ClientEvent::SenderStopped) => ClientPhase::ReceivingOnly,
            (ClientPhase::Running, ClientEvent::ReceiverStopped) => ClientPhase::SendingOnly,
            (ClientPhase::SendingOnly, ClientEvent::SenderStopped) => ClientPhase::Finished,
            (ClientPhase::ReceivingOnly, ClientEvent::ReceiverStopped) => ClientPhase::Finished,
            _ => self,
        }
    }

    /// Whether the client has nothing left to do.
    pub fn is_complete(self) -> (complete: bool)
        ensures
            complete == is_complete(self),
    {
        match self {
            ClientPhase::Finished => true,
            ClientPhase::Failed => true,
            _ => false,
        }
    }

    /// Whether the sender loop runs.
    pub fn sender_runs(self) -> (runs: bool)
        ensures
            runs == sender_runs(self),
    {
        match self {
            ClientPhase::Running => true,
            ClientPhase::SendingOnly => true,
            _ => false,
        }
    }

    /// Whether the receiver loop runs.
    pub fn receiver_runs(self) -> (runs: bool)
        ensures
            runs == receiver_runs(self),
    {
        match self {
            ClientPhase::Running => true,
            ClientPhase::ReceivingOnly => true,
            _ => false,
        }
    }
}

/// A client that is complete stays as it is, whatever happens.
pub proof fn lemma_complete_is_final(phase: ClientPhase, event: ClientEvent)
    requires
        is_complete(phase),
    ensures
        next_phase(phase, event) == phase,
{
}

/// The two loops of a client end independently: the end of the receiver loop
/// leaves the sender loop as it was, and the end of the sender loop leaves
/// the receiver loop as it was.
pub proof fn lemma_loops_are_independent(phase: ClientPhase)
    ensures
        sender_runs(next_phase(phase, ClientEvent::ReceiverStopped)) == sender_runs(phase),
        receiver_runs(next_phase(phase, ClientEvent::SenderStopped)) == receiver_runs(phase),
{
}

/// A complete client has no loop running, and a client whose handshake was
/// answered and that has no loop running is complete.
pub proof fn lemma_complete_means_no_loop_runs(phase: ClientPhase)
    ensures
        is_complete(phase) ==> !sender_runs(phase) && !receiver_runs(phase),
        !(phase is Connecting) && !sender_runs(phase) && !receiver_runs(phase) ==> is_complete(
            phase,
        ),
{
}

} // verus!
