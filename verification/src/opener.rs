//! The connection opener: what the client reports and does once the opening
//! handshake has been answered.

use crate::client::ClientEvent;
use crate::render::{decimal, push_decimal};
use vstd::prelude::*;
use vstd::string::StringExecFns;

verus! {

/// The answer to the opening handshake.
#[derive(Clone, Debug, PartialEq, Eq)]
pub enum Handshake {
    /// The connection is open.
    Completed,
    /// The handshake failed; the text describes the error.
    Failed(String),
}

/// A [`Handshake`] as a mathematical value.
pub enum HandshakeView {
    Completed,
    Failed(Seq<char>),
}

impl View for Handshake {
    type V = HandshakeView;

    open spec fn view(&self) -> HandshakeView {
        match self {
            Handshake::Completed => HandshakeView::Completed,
            Handshake::Failed(error) => HandshakeView::Failed(error@),
        }
    }
}

/// What follows from the answer to the handshake.
#[derive(Clone, Debug, PartialEq, Eq)]
pub struct Opening {
    /// The console line that reports the answer.
    pub line: String,
    /// What the answer means for the client.
    pub event: ClientEvent,
}

/// The console line that reports the answer to client `who`'s handshake.
pub open spec fn handshake_report(who: nat, answer: HandshakeView) -> Seq<char> {
    match answer {
        HandshakeView::Completed => "Handshake for client "@ + decimal(who)
            + " has been completed"@,
        HandshakeView::Failed(error) => "WebSocket handshake for client "@ + decimal(who)
            + " failed with "@ + error + "!"@,
    }
}

/// What the answer to the handshake means for the client: it goes on after a
/// completed handshake and is abandoned, without another attempt, after a
/// failed one.
pub open spec fn handshake_event(answer: HandshakeView) -> ClientEvent {
    match answer {
        HandshakeView::Completed => ClientEvent::HandshakeCompleted,
        HandshakeView::Failed(_) => ClientEvent::HandshakeFailed,
    }
}

/// Concludes client `who`'s handshake: builds the console line that reports
/// the answer and says what the answer means for the client.
pub fn conclude_handshake(who: usize, answer: &Handshake) -> (opening: Opening)
    ensures
        opening.line@ == handshake_report(who as nat, answer@),
        opening.event == handshake_event(answer@),
{
    match answer {
        Handshake::Completed => {
            let mut line = String::new();
            line.append("Handshake for client ");
            push_decimal(&mut line, who as u64);
            line.append(" has been completed");
            Opening { line, event: ClientEvent::HandshakeCompleted }
        },
        Handshake::Failed(error) => {
            let mut line = String::new();
            line.append("WebSocket handshake for client ");
            push_decimal(&mut line, who as u64);
            line.append(" failed with ");
            line.append(error.as_str());
            line.append("!");
            Opening { line, event: ClientEvent::HandshakeFailed }
        },
    }
}

} // verus!
