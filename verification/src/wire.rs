//! From a frame to the message that the channel carries.
//!
//! The channel's items are `actix_http::ws::Message` values. Each kind of
//! frame has its constructor there; what a constructor gives is a function of
//! what it is given, and is taken on trust under a name of its own.

use actix_http::ws::CloseCode;
use actix_http::ws::CloseReason as WireReason;
use actix_http::ws::Message;
use bytes::Bytes;
use vstd::prelude::*;

use crate::frame::reason_view;
use crate::frame::CloseReason;
use crate::frame::CloseReasonView;
use crate::frame::Frame;
use crate::frame::FrameView;

verus! {

/// `Message::Text` of the text.
pub uninterp spec fn text_message(text: Seq<char>) -> Message;

/// `Message::Binary` of the bytes.
pub uninterp spec fn binary_message(data: Seq<u8>) -> Message;

/// `Message::Ping` of the bytes.
pub uninterp spec fn ping_message(data: Seq<u8>) -> Message;

/// `Message::Pong` of the bytes.
pub uninterp spec fn pong_message(data: Seq<u8>) -> Message;

/// `Message::Close` of the reason, its code as `CloseCode::from` reads it.
pub uninterp spec fn close_message(reason: Option<CloseReasonView>) -> Message;

/// The message that stands for `frame` on the channel.
pub open spec fn message_of(frame: FrameView) -> Message {
    match frame {
        FrameView::Text(text) => text_message(text),
        FrameView::Binary(data) => binary_message(data),
        FrameView::Ping(data) => ping_message(data),
        FrameView::Pong(data) => pong_message(data),
        FrameView::Close(reason) => close_message(reason),
    }
}

/// `Message::Text` around the text as a `ByteString`: the message depends on
/// the text alone.
#[verifier::external_body]
fn make_text(text: String) -> (message: Message)
    ensures
        message == text_message(text@),
{
    Message::Text(text.into())
}

/// `Message::Binary` around the bytes as `Bytes`: the message depends on the
/// bytes alone.
#[verifier::external_body]
fn make_binary(data: Vec<u8>) -> (message: Message)
    ensures
        message == binary_message(data@),
{
    Message::Binary(Bytes::from(data))
}

/// `Message::Ping` around the bytes as `Bytes`: the message depends on the
/// bytes alone.
#[verifier::external_body]
fn make_ping(data: Vec<u8>) -> (message: Message)
    ensures
        message == ping_message(data@),
{
    Message::Ping(Bytes::from(data))
}

/// `Message::Pong` around the bytes as `Bytes`: the message depends on the
/// bytes alone.
#[verifier::external_body]
fn make_pong(data: Vec<u8>) -> (message: Message)
    ensures
        message == pong_message(data@),
{
    Message::Pong(Bytes::from(data))
}

/// `Message::Close` around the reason, if there is one, with its code turned
/// into a `CloseCode` by `CloseCode::from`: the message depends on the code
/// and the description alone.
#[verifier::external_body]
fn make_close(reason: Option<CloseReason>) -> (message: Message)
    ensures
        message == close_message(reason_view(reason)),
{
    Message::Close(
        reason.map(
            |reason|
                WireReason { code: CloseCode::from(reason.code), description: reason.description },
        ),
    )
}

impl Frame {
    /// The message that stands for this frame on the channel.
    pub fn into_message(self) -> (message: Message)
        ensures
            message == message_of(self@),
    {
        match self {
            Frame::Text(text) => make_text(text),
            Frame::Binary(data) => make_binary(data),
            Frame::Ping(data) => make_ping(data),
            Frame::Pong(data) => make_pong(data),
            Frame::Close(reason) => make_close(reason),
        }
    }
}

} // verus!
