//! A clonable handle onto one open websocket session.
//!
//! Many producers hold clones of a [`Session`] and queue outbound frames for a
//! single connection; one of them closes it, and from then on every clone
//! answers [`Closed`].
//!
//! The crate decides and the caller pushes: an operation runs the handle's
//! pre-check and, if the handle may still send, hands back a [`Push`] that
//! names the frame and the endpoint it is due on. The caller turns the frame
//! into the channel's message with [`Frame::into_message`], awaits the push
//! on the channel and gives the channel's answer to [`settle`].
//!
//! What the flag reads at a pre-check is up to the other handles, so the
//! contract of an operation says what holds either way;
//! [`Session::observe`], [`Session::forward`] and [`Session::finish`] are the
//! steps it is made of, each with the flag's reading in hand. What follows
//! for a whole family of clones is proved in [`family`].

pub mod channel;
pub mod family;
pub mod frame;
pub mod session;
pub mod wire;

pub use crate::frame::CloseReason;
pub use crate::frame::Frame;
pub use crate::session::settle;
pub use crate::session::Closed;
pub use crate::session::Push;
pub use crate::session::Session;
