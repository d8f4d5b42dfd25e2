//! The frame handler: what the client reports for an inbound frame, and
//! whether it goes on receiving.

use crate::frame::{Frame, FrameView};
use crate::render::{byte_list, debug_quoted, decimal, push_byte_list, push_decimal, quote};
use vstd::pervasive::unreached;
use vstd::prelude::*;
use vstd::string::StringExecFns;

verus! {

/// Whether a loop goes on after a step.
#[derive(Clone, Copy, Debug, PartialEq, Eq, Structural)]
pub enum Flow {
    /// The loop takes its next step.
    Continue,
    /// The loop ends here.
    Stop,
}

impl Flow {
    /// Whether the loop ends here.
    pub fn is_stop(&self) -> (stop: bool)
        ensures
            stop == (*self is Stop),
    {
        match self {
            Flow::Stop => true,
            Flow::Continue => false,
        }
    }

    /// Whether the loop takes its next step.
    pub fn is_continue(&self) -> (goes_on: bool)
        ensures
            goes_on == (*self is Continue),
    {
        match self {
            Flow::Continue => true,
            Flow::Stop => false,
        }
    }
}

/// The handler's answer to one frame.
#[derive(Clone, Debug, PartialEq, Eq)]
pub struct Handled {
    /// The console line that reports the frame.
    pub line: String,
    /// Whether the receive loop goes on.
    pub flow: Flow,
}

/// How every report begins: the marker and the client's identity.
pub open spec fn label(who: nat) -> Seq<char> {
    ">>> "@ + decimal(who)
}

/// The report of a text frame whose content, quoted, is `quoted`.
pub open spec fn text_report(who: nat, quoted: Seq<char>) -> Seq<char> {
    label(who) + " got str: "@ + quoted
}

/// The console line that reports `frame` to the user of client `who`.
pub open spec fn report(who: nat, frame: FrameView) -> Seq<char> {
    match frame {
        FrameView::Text(t) => text_report(who, debug_quoted(t)),
        FrameView::Binary(d) => label(who) + " got "@ + decimal(d.len()) + " bytes: "@ + byte_list(
            d,
        ),
        FrameView::Close(Some(c)) => label(who) + " got close with code "@ + decimal(c.code)
            + " and reason `"@ + c.reason + "`"@,
        FrameView::Close(None) => label(who) + " somehow got close message without CloseFrame"@,
        FrameView::Pong(v) => label(who) + " got pong with "@ + byte_list(v),
        FrameView::Ping(v) => label(who) + " got ping with "@ + byte_list(v),
        FrameView::Raw => Seq::empty(),
    }
}

/// Whether receiving goes on after `frame`: it stops at a close frame and at
/// no other.
pub open spec fn flow_after(frame: FrameView) -> Flow {
    if frame is Close {
        Flow::Stop
    } else {
        Flow::Continue
    }
}

/// Every report begins with the label of the client that it is for.
pub proof fn lemma_report_is_labelled(who: nat, frame: FrameView)
    requires
        frame.is_supported(),
    ensures
        label(who).is_prefix_of(report(who, frame)),
{
}

fn begin_report(who: usize) -> (line: String)
    ensures
        line@ == label(who as nat),
{
    let mut line = String::new();
    line.append(">>> ");
    push_decimal(&mut line, who as u64);
    line
}

/// Builds the report of a text frame from its quoted content.
pub fn render_text_report(who: usize, quoted: &str) -> (line: String)
    ensures
        line@ == text_report(who as nat, quoted@),
{
    let mut line = begin_report(who);
    line.append(" got str: ");
    line.append(quoted);
    line
}

/// Handles one inbound frame for client `who`.
///
/// Every supported frame yields exactly one console line. A close frame, with
/// or without code and reason, stops the receive loop; every other frame lets
/// it continue. No reply is produced for a ping. A raw frame is outside the
/// handler's domain.
pub fn process_message(msg: &Frame, who: usize) -> (handled: Handled)
    requires
        msg@.is_supported(),
    ensures
        handled.line@ == report(who as nat, msg@),
        handled.flow == flow_after(msg@),
        msg@ is Close ==> handled.flow is Stop,
        !(msg@ is Close) ==> handled.flow is Continue,
{
    match msg {
        Frame::Text(t) => {
            let quoted = quote(t.as_str());
            Handled { line: render_text_report(who, quoted.as_str()), flow: Flow::Continue }
        },
        Frame::Binary(d) => {
            let mut line = begin_report(who);
            line.append(" got ");
            push_decimal(&mut line, d.len() as u64);
            line.append(" bytes: ");
            push_byte_list(&mut line, d);
            Handled { line, flow: Flow::Continue }
        },
        Frame::Close(Some(c)) => {
            let mut line = begin_report(who);
            line.append(" got close with code ");
            push_decimal(&mut line, c.code as u64);
            line.append(" and reason `");
            line.append(c.reason.as_str());
            line.append("`");
            Handled { line, flow: Flow::Stop }
        },
        Frame::Close(None) => {
            let mut line = begin_report(who);
            line.append(" somehow got close message without CloseFrame");
            Handled { line, flow: Flow::Stop }
        },
        Frame::Pong(v) => {
            let mut line = begin_report(who);
            line.append(" got pong with ");
            push_byte_list(&mut line, v);
            Handled { line, flow: Flow::Continue }
        },
        Frame::Ping(v) => {
            let mut line = begin_report(who);
            line.append(" got ping with ");
            push_byte_list(&mut line, v);
            Handled { line, flow: Flow::Continue }
        },
        Frame::Raw => unreached(),
    }
}

} // verus!
