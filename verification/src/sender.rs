//! The sender loop: console lines in, text frames out, until the user types
//! the exit command or a frame cannot be sent.

use crate::frame::{Frame, FrameView};
use crate::input::{is_exit, is_exit_command, trim, trimmed};
use vstd::prelude::*;
use vstd::string::StringExecFns;

verus! {

/// What the sender loop meets while it runs.
#[derive(Clone, Debug, PartialEq, Eq)]
pub enum SenderEvent {
    /// The console delivered a line.
    Line(String),
    /// The frame handed out last could not be sent.
    SendFailed,
}

/// A [`SenderEvent`] as a mathematical value.
pub enum SenderEventView {
    Line(Seq<char>),
    SendFailed,
}

impl View for SenderEvent {
    type V = SenderEventView;

    open spec fn view(&self) -> SenderEventView {
        match self {
            SenderEvent::Line(line) => SenderEventView::Line(line@),
            SenderEvent::SendFailed => SenderEventView::SendFailed,
        }
    }
}

impl DeepView for SenderEvent {
    type V = SenderEventView;

    open spec fn deep_view(&self) -> SenderEventView {
        self@
    }
}

/// What the sender loop does next.
#[derive(Clone, Debug, PartialEq, Eq)]
pub enum SenderAction {
    /// Send this frame, then read the next line.
    Send(Frame),
    /// End the loop.
    Stop,
}

/// A [`SenderAction`] as a mathematical value.
pub enum SenderActionView {
    Send(FrameView),
    Stop,
}

impl View for SenderAction {
    type V = SenderActionView;

    open spec fn view(&self) -> SenderActionView {
        match self {
            SenderAction::Send(frame) => SenderActionView::Send(frame@),
            SenderAction::Stop => SenderActionView::Stop,
        }
    }
}

/// The sender's rule. A line that is the exit command ends the loop; any
/// other line is sent, trimmed, as a text frame, an empty one included. A
/// failed send ends the loop.
pub open spec fn sender_action(event: SenderEventView) -> SenderActionView {
    match event {
        SenderEventView::Line(line) => if is_exit(line) {
            SenderActionView::Stop
        } else {
            SenderActionView::Send(FrameView::Text(trimmed(line)))
        },
        SenderEventView::SendFailed => SenderActionView::Stop,
    }
}

/// Decides what the sender loop does after `event`.
///
/// On a console line the loop ends if and only if the line is the exit
/// command.
pub fn sender_step(event: &SenderEvent) -> (action: SenderAction)
    ensures
        action@ == sender_action(event@),
        event@ matches SenderEventView::Line(line) ==> (action is Stop <==> is_exit(line)),
        event@ is SendFailed ==> action is Stop,
{
    match event {
        SenderEvent::Line(line) => {
            let text = trim(line.as_str());
            if is_exit_command(text) {
                SenderAction::Stop
            } else {
                SenderAction::Send(Frame::Text(String::from_str(text)))
            }
        },
        SenderEvent::SendFailed => SenderAction::Stop,
    }
}

/// The frames that a sender loop hands out, in order, when it meets
/// `events`: one for each event before the first that ends the loop.
pub open spec fn frames_sent(events: Seq<SenderEventView>) -> Seq<FrameView>
    decreases events.len(),
{
    if events.len() == 0 {
        Seq::empty()
    } else {
        match sender_action(events.first()) {
            SenderActionView::Stop => Seq::empty(),
            SenderActionView::Send(frame) => seq![frame] + frames_sent(events.drop_first()),
        }
    }
}

/// The exit command ends the sender: nothing is sent for it, and nothing of
/// what follows it.
pub proof fn lemma_exit_ends_the_sender(line: Seq<char>, rest: Seq<SenderEventView>)
    requires
        is_exit(line),
    ensures
        frames_sent(seq![SenderEventView::Line(line)] + rest) == Seq::<FrameView>::empty(),
{
    let events = seq![SenderEventView::Line(line)] + rest;
    assert(events.first() == SenderEventView::Line(line));
}

/// Any other line is sent, trimmed, and the sender goes on with what
/// follows.
pub proof fn lemma_other_lines_keep_the_sender(line: Seq<char>, rest: Seq<SenderEventView>)
    requires
        !is_exit(line),
    ensures
        frames_sent(seq![SenderEventView::Line(line)] + rest) == seq![
            FrameView::Text(trimmed(line)),
        ] + frames_sent(rest),
{
    let events = seq![SenderEventView::Line(line)] + rest;
    assert(events.first() == SenderEventView::Line(line));
    assert(events.drop_first() == rest);
}

/// Runs a sender loop over a script of events and returns the frames it
/// hands out. Events after the one that ends the loop are not looked at.
pub fn run_sender(events: &Vec<SenderEvent>) -> (frames: Vec<Frame>)
    ensures
        frames.deep_view() == frames_sent(events.deep_view()),
{
    let ghost script = events.deep_view();
    let mut frames: Vec<Frame> = Vec::new();
    let mut i: usize = 0;
    let mut running = true;
    assert(script.skip(0) == script);
    assert(frames.deep_view() == Seq::<FrameView>::empty());
    while running && i < events.len()
        invariant
            i <= events.len(),
            script == events.deep_view(),
            running ==> frames_sent(script) == frames.deep_view() + frames_sent(
                script.skip(i as int),
            ),
            !running ==> frames_sent(script) == frames.deep_view(),
        decreases events.len() - i, running as int,
    {
        let ghost rest = script.skip(i as int);
        let ghost before = frames.deep_view();
        assert(rest.first() == events[i as int]@);
        assert(rest.drop_first() == script.skip(i + 1));
        match sender_step(&events[i]) {
            SenderAction::Stop => {
                running = false;
            },
            SenderAction::Send(frame) => {
                frames.push(frame);
                assert(frames.deep_view() == before + seq![frame@]);
                i = i + 1;
            },
        }
    }
    frames
}

} // verus!
