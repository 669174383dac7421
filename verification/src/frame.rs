//! The frames a session queues for the transport.

use vstd::prelude::*;

verus! {

/// Why a session is being closed: a status code and an optional description.
#[derive(Debug, Clone, PartialEq, Eq)]
pub struct CloseReason {
    pub code: u16,
    pub description: Option<String>,
}

/// A [`CloseReason`] as a mathematical value.
pub struct CloseReasonView {
    pub code: u16,
    pub description: Option<Seq<char>>,
}

impl View for CloseReason {
    type V = CloseReasonView;

    open spec fn view(&self) -> CloseReasonView {
        CloseReasonView {
            code: self.code,
            description: match self.description {
                Some(text) => Some(text@),
                None => None,
            },
        }
    }
}

/// One outbound frame, as the transport will receive it.
#[derive(Debug, Clone, PartialEq, Eq)]
pub enum Frame {
    Text(String),
    Binary(Vec<u8>),
    Ping(Vec<u8>),
    Pong(Vec<u8>),
    Close(Option<CloseReason>),
}

/// A [`Frame`] as a mathematical value.
pub enum FrameView {
    Text(Seq<char>),
    Binary(Seq<u8>),
    Ping(Seq<u8>),
    Pong(Seq<u8>),
    Close(Option<CloseReasonView>),
}

impl View for Frame {
    type V = FrameView;

    open spec fn view(&self) -> FrameView {
        match *self {
            Frame::Text(text) => FrameView::Text(text@),
            Frame::Binary(data) => FrameView::Binary(data@),
            Frame::Ping(data) => FrameView::Ping(data@),
            Frame::Pong(data) => FrameView::Pong(data@),
            Frame::Close(reason) => FrameView::Close(reason_view(reason)),
        }
    }
}

/// The view of an optional close reason.
pub open spec fn reason_view(reason: Option<CloseReason>) -> Option<CloseReasonView> {
    match reason {
        Some(reason) => Some(reason@),
        None => None,
    }
}

} // verus!
