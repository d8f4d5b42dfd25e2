//! The receiver loop: inbound frames in, console lines out, until the peer
//! closes or the stream ends.

use crate::frame::{Frame, FrameView};
use crate::handler::{flow_after, process_message, report, Flow};
use vstd::prelude::*;

verus! {

/// What the inbound half of a connection yields when the loop asks for the
/// next frame.
#[derive(Clone, Debug, PartialEq, Eq)]
pub enum Inbound {
    /// A frame arrived.
    Frame(Frame),
    /// The transport reported an error in place of a frame.
    Errored,
    /// The stream has ended: no more frames will come.
    End,
}

/// An [`Inbound`] as a mathematical value.
pub enum InboundView {
    Frame(FrameView),
    Errored,
    End,
}

impl View for Inbound {
    type V = InboundView;

    open spec fn view(&self) -> InboundView {
        match self {
            Inbound::Frame(frame) => InboundView::Frame(frame@),
            Inbound::Errored => InboundView::Errored,
            Inbound::End => InboundView::End,
        }
    }
}

impl DeepView for Inbound {
    type V = InboundView;

    open spec fn deep_view(&self) -> InboundView {
        self@
    }
}

impl InboundView {
    /// An item that the receiver can take: anything but a raw frame.
    pub open spec fn is_supported(self) -> bool {
        self matches InboundView::Frame(frame) ==> frame.is_supported()
    }
}

impl Inbound {
    /// Whether the receiver can take this item.
    pub fn is_supported(&self) -> (supported: bool)
        ensures
            supported == self@.is_supported(),
    {
        match self {
            Inbound::Frame(frame) => frame.is_supported(),
            _ => true,
        }
    }
}

/// One step of the receiver loop: the line to print, if any, and whether the
/// loop goes on.
#[derive(Clone, Debug, PartialEq, Eq)]
pub struct Received {
    pub line: Option<String>,
    pub flow: Flow,
}

/// The line, if any, that the receiver prints for `item`: the handler's
/// report of a frame, and nothing for an error or the end of the stream.
pub open spec fn line_for(who: nat, item: InboundView) -> Option<Seq<char>> {
    match item {
        InboundView::Frame(frame) => Some(report(who, frame)),
        InboundView::Errored => None,
        InboundView::End => None,
    }
}

/// Whether the receiver goes on after `item`: it stops when the handler says
/// so and at the end of the stream; an errored item is dropped and the loop
/// goes on.
pub open spec fn flow_for(item: InboundView) -> Flow {
    match item {
        InboundView::Frame(frame) => flow_after(frame),
        InboundView::Errored => Flow::Continue,
        InboundView::End => Flow::Stop,
    }
}

/// Takes one item from the inbound half of client `who`'s connection.
pub fn receiver_step(who: usize, item: &Inbound) -> (step: Received)
    requires
        item@.is_supported(),
    ensures
        step.line.deep_view() == line_for(who as nat, item@),
        step.flow == flow_for(item@),
        step.flow is Stop <==> (item@ is End || (item@ matches InboundView::Frame(frame)
            && frame is Close)),
{
    match item {
        Inbound::Frame(frame) => {
            let handled = process_message(frame, who);
            Received { line: Some(handled.line), flow: handled.flow }
        },
        Inbound::Errored => Received { line: None, flow: Flow::Continue },
        Inbound::End => Received { line: None, flow: Flow::Stop },
    }
}

/// Whether a receiver loop can take `items`: it meets no raw frame before
/// it stops. What comes after the item that ends the loop does not matter.
pub open spec fn receivable(items: Seq<InboundView>) -> bool
    decreases items.len(),
{
    items.len() > 0 ==> {
        &&& items.first().is_supported()
        &&& flow_for(items.first()) is Continue ==> receivable(items.drop_first())
    }
}

/// A script without raw frames can be taken.
pub proof fn lemma_supported_items_are_receivable(items: Seq<InboundView>)
    requires
        forall|i: int| 0 <= i < items.len() ==> (#[trigger] items[i]).is_supported(),
    ensures
        receivable(items),
    decreases items.len(),
{
    if items.len() > 0 {
        let rest = items.drop_first();
        assert forall|i: int| 0 <= i < rest.len() implies (#[trigger] rest[i]).is_supported() by {
            assert(rest[i] == items[i + 1]);
        }
        lemma_supported_items_are_receivable(rest);
    }
}

/// Whether a receiver loop can take the script `items`.
pub fn can_receive(items: &Vec<Inbound>) -> (ok: bool)
    ensures
        ok == receivable(items.deep_view()),
{
    let ghost script = items.deep_view();
    let mut i: usize = 0;
    assert(script.skip(0) == script);
    while i < items.len()
        invariant
            i <= items.len(),
            script == items.deep_view(),
            receivable(script) == receivable(script.skip(i as int)),
        decreases items.len() - i,
    {
        let ghost rest = script.skip(i as int);
        assert(rest.first() == items[i as int]@);
        assert(rest.drop_first() == script.skip(i + 1));
        match &items[i] {
            Inbound::Frame(frame) => {
                if !frame.is_supported() {
                    return false;
                }
                if frame.is_close() {
                    return true;
                }
            },
            Inbound::Errored => {},
            Inbound::End => {
                return true;
            },
        }
        i = i + 1;
    }
    true
}

/// The lines that a receiver loop prints, in order, when the inbound half
/// yields `items`: the reports of the frames up to and including the first
/// close frame, or up to the end of the stream. A stream that runs out of
/// items has ended.
pub open spec fn lines_printed(who: nat, items: Seq<InboundView>) -> Seq<Seq<char>>
    decreases items.len(),
{
    if items.len() == 0 {
        Seq::empty()
    } else {
        let head = match line_for(who, items.first()) {
            Some(line) => seq![line],
            None => Seq::empty(),
        };
        if flow_for(items.first()) is Stop {
            head
        } else {
            head + lines_printed(who, items.drop_first())
        }
    }
}

/// A close frame ends the receiver: its report is printed, one line, and
/// nothing of what follows it.
pub proof fn lemma_close_ends_the_receiver(who: nat, frame: FrameView, rest: Seq<InboundView>)
    requires
        frame is Close,
    ensures
        lines_printed(who, seq![InboundView::Frame(frame)] + rest) == seq![report(who, frame)],
{
    let items = seq![InboundView::Frame(frame)] + rest;
    assert(items.first() == InboundView::Frame(frame));
}

/// A frame of any other kind is reported, one line, and the receiver goes on
/// with what follows.
pub proof fn lemma_other_frames_keep_the_receiver(
    who: nat,
    frame: FrameView,
    rest: Seq<InboundView>,
)
    requires
        !(frame is Close),
    ensures
        lines_printed(who, seq![InboundView::Frame(frame)] + rest) == seq![report(who, frame)]
            + lines_printed(who, rest),
{
    let items = seq![InboundView::Frame(frame)] + rest;
    assert(items.first() == InboundView::Frame(frame));
    assert(items.drop_first() == rest);
}

/// An errored item leaves no trace: the receiver prints what it would have
/// printed without it.
pub proof fn lemma_errored_items_are_dropped(who: nat, rest: Seq<InboundView>)
    ensures
        lines_printed(who, seq![InboundView::Errored] + rest) == lines_printed(who, rest),
{
    let items = seq![InboundView::Errored] + rest;
    assert(items.first() == InboundView::Errored);
    assert(items.drop_first() == rest);
}

/// Runs a receiver loop for client `who` over a script of inbound items and
/// returns the lines it prints. Items after the one that ends the loop are
/// not looked at.
pub fn run_receiver(who: usize, items: &Vec<Inbound>) -> (lines: Vec<String>)
    requires
        receivable(items.deep_view()),
    ensures
        lines.deep_view() == lines_printed(who as nat, items.deep_view()),
{
    let ghost script = items.deep_view();
    let mut lines: Vec<String> = Vec::new();
    let mut i: usize = 0;
    let mut running = true;
    assert(script.skip(0) == script);
    assert(lines.deep_view() == Seq::<Seq<char>>::empty());
    while running && i < items.len()
        invariant
            i <= items.len(),
            script == items.deep_view(),
            running ==> receivable(script.skip(i as int)),
            running ==> lines_printed(who as nat, script) == lines.deep_view() + lines_printed(
                who as nat,
                script.skip(i as int),
            ),
            !running ==> lines_printed(who as nat, script) == lines.deep_view(),
        decreases items.len() - i, running as int,
    {
        let ghost rest = script.skip(i as int);
        let ghost before = lines.deep_view();
        assert(rest.first() == items[i as int]@);
        assert(rest.drop_first() == script.skip(i + 1));
        let step = receiver_step(who, &items[i]);
        match step.line {
            Some(line) => {
                lines.push(line);
                assert(lines.deep_view() == before + seq![line@]);
            },
            None => {
                assert(lines.deep_view() == before + Seq::<Seq<char>>::empty());
            },
        }
        if step.flow.is_stop() {
            running = false;
        } else {
            i = i + 1;
        }
    }
    lines
}

} // verus!
