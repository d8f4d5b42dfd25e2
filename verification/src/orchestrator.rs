//! The orchestrator: it starts every client at once and is done when each of
//! them is.

use crate::client::{is_complete, next_phase, ClientEvent, ClientPhase};
use vstd::prelude::*;

verus! {

/// The phases after `event` has happened to client `who`: that client moves
/// on, every other client stays where it is. An identity that the
/// orchestrator does not have changes nothing.
pub open spec fn recorded(phases: Seq<ClientPhase>, who: int, event: ClientEvent) -> Seq<
    ClientPhase,
> {
    if 0 <= who < phases.len() {
        phases.update(who, next_phase(phases[who], event))
    } else {
        phases
    }
}

/// Whether every client is complete.
pub open spec fn all_complete(phases: Seq<ClientPhase>) -> bool {
    forall|who: int| 0 <= who < phases.len() ==> is_complete(#[trigger] phases[who])
}

/// The clients of one run, by identity: client `who` is the entry at index
/// `who`.
#[derive(Debug)]
pub struct Orchestrator {
    phases: Vec<ClientPhase>,
}

impl View for Orchestrator {
    type V = Seq<ClientPhase>;

    closed spec fn view(&self) -> Seq<ClientPhase> {
        self.phases@
    }
}

impl Orchestrator {
    /// Starts `clients` clients, with the identities from zero up. Each waits
    /// for the answer to its handshake.
    pub fn new(clients: usize) -> (orchestrator: Orchestrator)
        ensures
            orchestrator@ == Seq::new(clients as nat, |who: int| ClientPhase::Connecting),
    {
        let mut phases: Vec<ClientPhase> = Vec::new();
        let mut who: usize = 0;
        while who < clients
            invariant
                who <= clients,
                phases@ == Seq::new(who as nat, |i: int| ClientPhase::Connecting),
            decreases clients - who,
        {
            phases.push(ClientPhase::Connecting);
            who = who + 1;
        }
        Orchestrator { phases }
    }

    /// The number of clients.
    pub fn len(&self) -> (clients: usize)
        ensures
            clients == self@.len(),
    {
        self.phases.len()
    }

    /// The phase of client `who`, if there is such a client.
    pub fn phase(&self, who: usize) -> (phase: Option<ClientPhase>)
        ensures
            who < self@.len() ==> phase == Some(self@[who as int]),
            who >= self@.len() ==> phase is None,
    {
        if who < self.phases.len() {
            Some(self.phases[who])
        } else {
            None
        }
    }

    /// Takes note that `event` happened to client `who`.
    pub fn record(&mut self, who: usize, event: ClientEvent)
        ensures
            final(self)@ == recorded(old(self)@, who as int, event),
            final(self)@.len() == old(self)@.len(),
            forall|other: int|
                0 <= other < old(self)@.len() && other != who ==> final(self)@[other] == old(
                    self,
                )@[other],
    {
        if who < self.phases.len() {
            let next = self.phases[who].advance(event);
            self.phases.set(who, next);
        }
    }

    /// Whether the run is over: every client is complete, whether it
    /// finished or failed to connect.
    pub fn is_done(&self) -> (done: bool)
        ensures
            done == all_complete(self@),
    {
        let mut who: usize = 0;
        while who < self.phases.len()
            invariant
                who <= self.phases.len(),
                forall|i: int| 0 <= i < who ==> is_complete(#[trigger] self.phases@[i]),
            decreases self.phases.len() - who,
        {
            if !self.phases[who].is_complete() {
                return false;
            }
            who = who + 1;
        }
        true
    }
}

/// What happens to one client never touches another: events of two different
/// clients can be recorded in either order, with the same outcome.
pub proof fn lemma_clients_are_isolated(
    phases: Seq<ClientPhase>,
    a: int,
    first: ClientEvent,
    b: int,
    second: ClientEvent,
)
    requires
        a != b,
    ensures
        recorded(recorded(phases, a, first), b, second) == recorded(
            recorded(phases, b, second),
            a,
            first,
        ),
{
}

/// A failed handshake of one client holds no other client back: after it,
/// every other client is where it was, and goes where it would have gone.
pub proof fn lemma_failed_handshake_is_local(
    phases: Seq<ClientPhase>,
    failed: int,
    other: int,
    event: ClientEvent,
)
    requires
        0 <= other < phases.len(),
        other != failed,
    ensures
        recorded(phases, failed, ClientEvent::HandshakeFailed)[other] == phases[other],
        recorded(recorded(phases, failed, ClientEvent::HandshakeFailed), other, event)[other]
            == next_phase(phases[other], event),
{
}

/// A run that is over stays over: nothing that is recorded afterwards brings
/// a client back.
pub proof fn lemma_done_is_final(phases: Seq<ClientPhase>, who: int, event: ClientEvent)
    requires
        all_complete(phases),
    ensures
        recorded(phases, who, event) == phases,
{
}

/// A run is not over while one of its clients is still connecting or has a
/// loop that still runs.
pub proof fn lemma_done_needs_every_client(phases: Seq<ClientPhase>, who: int)
    requires
        0 <= who < phases.len(),
        !is_complete(phases[who]),
    ensures
        !all_complete(phases),
{
}

} // verus!
