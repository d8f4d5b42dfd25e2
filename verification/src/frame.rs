//! The frames that travel over a WebSocket connection.

use vstd::prelude::*;

verus! {

/// The status code and the reason that a peer gives when it closes the
/// connection.
#[derive(Clone, Debug, PartialEq, Eq)]
pub struct CloseInfo {
    pub code: u16,
    pub reason: String,
}

/// A [`CloseInfo`] as a mathematical value.
pub struct CloseInfoView {
    pub code: nat,
    pub reason: Seq<char>,
}

impl View for CloseInfo {
    type V = CloseInfoView;

    open spec fn view(&self) -> CloseInfoView {
        CloseInfoView { code: self.code as nat, reason: self.reason@ }
    }
}

/// One frame, by kind.
#[derive(Clone, Debug, PartialEq, Eq)]
pub enum Frame {
    /// A text message.
    Text(String),
    /// A binary message.
    Binary(Vec<u8>),
    /// A ping with its payload.
    Ping(Vec<u8>),
    /// A pong with its payload.
    Pong(Vec<u8>),
    /// The peer closes the connection, with or without code and reason.
    Close(Option<CloseInfo>),
    /// A raw frame from below the message layer. A transport that keeps its
    /// contract never hands one to the application.
    Raw,
}

/// A [`Frame`] as a mathematical value.
pub enum FrameView {
    Text(Seq<char>),
    Binary(Seq<u8>),
    Ping(Seq<u8>),
    Pong(Seq<u8>),
    Close(Option<CloseInfoView>),
    Raw,
}

impl View for Frame {
    type V = FrameView;

    open spec fn view(&self) -> FrameView {
        match self {
            Frame::Text(t) => FrameView::Text(t@),
            Frame::Binary(d) => FrameView::Binary(d@),
            Frame::Ping(v) => FrameView::Ping(v@),
            Frame::Pong(v) => FrameView::Pong(v@),
            Frame::Close(Some(c)) => FrameView::Close(Some(c@)),
            Frame::Close(None) => FrameView::Close(None),
            Frame::Raw => FrameView::Raw,
        }
    }
}

impl DeepView for Frame {
    type V = FrameView;

    open spec fn deep_view(&self) -> FrameView {
        self@
    }
}

impl FrameView {
    /// A frame kind that the application is meant to see: every kind but the
    /// raw one.
    pub open spec fn is_supported(self) -> bool {
        !(self is Raw)
    }
}

impl Frame {
    /// Whether the frame is of a kind that the application is meant to see.
    pub fn is_supported(&self) -> (supported: bool)
        ensures
            supported == self@.is_supported(),
    {
        match self {
            Frame::Raw => false,
            _ => true,
        }
    }

    /// Whether the frame closes the connection.
    pub fn is_close(&self) -> (close: bool)
        ensures
            close == (self@ is Close),
    {
        match self {
            Frame::Close(_) => true,
            _ => false,
        }
    }
}

} // verus!
