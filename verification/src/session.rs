//! The session handle: its pre-check, its five operations and their parts.

use std::sync::atomic::AtomicBool;
use std::sync::atomic::Ordering;
use std::sync::Arc;

use actix_http::ws::Message;
use tokio::sync::mpsc::error::SendError;
use tokio::sync::mpsc::Sender;
use vstd::prelude::*;
use vstd::slice::slice_to_vec;

use crate::channel::share;
use crate::frame::reason_view;
use crate::frame::CloseReason;
use crate::frame::Frame;
use crate::frame::FrameView;

verus! {

/// The error of a session that can send no more.
#[derive(Debug, Clone, Copy, PartialEq, Eq)]
pub struct Closed;

impl Closed {
    /// The text that describes the error.
    pub fn message(&self) -> (text: String)
        ensures
            text@ == "Session is closed"@,
    {
        "Session is closed".to_owned()
    }
}

/// A push that is due: `frame` is to go onto `endpoint`.
///
/// A sending operation lends the handle's endpoint, `close` gives it away.
#[derive(Debug)]
pub struct Push<E> {
    pub endpoint: E,
    pub frame: Frame,
}

/// A handle into a websocket session.
///
/// Clones share one flag. The endpoint slot starts filled; a pre-check that
/// finds the flag raised empties it, and nothing fills it again.
pub struct Session {
    inner: Option<Sender<Message>>,
    closed: Arc<AtomicBool>,
}

/// What a handle is made of: the endpoint in its slot, and the flag it shares.
pub struct SessionView {
    pub endpoint: Option<Sender<Message>>,
    pub flag: Arc<AtomicBool>,
}

impl SessionView {
    /// Whether the slot still holds the endpoint.
    pub open spec fn is_open(self) -> bool {
        self.endpoint is Some
    }

    /// The handle after a pre-check that read `closed` from the flag.
    pub open spec fn checked(self, closed: bool) -> SessionView {
        if closed {
            SessionView { endpoint: None, flag: self.flag }
        } else {
            self
        }
    }

    /// Whether `self` is what a pre-check, whatever it read, makes of
    /// `earlier`.
    pub open spec fn is_check_of(self, earlier: SessionView) -> bool {
        self == earlier.checked(false) || self == earlier.checked(true)
    }
}

impl View for Session {
    type V = SessionView;

    closed spec fn view(&self) -> SessionView {
        SessionView { endpoint: self.inner, flag: self.closed }
    }
}

impl Session {
    /// A handle around `inner`, with a flag of its own that no other handle
    /// shares yet.
    pub fn new(inner: Sender<Message>) -> (session: Session)
        ensures
            session@.endpoint == Some(inner),
    {
        Session { inner: Some(inner), closed: Arc::new(AtomicBool::new(false)) }
    }

    /// Takes note of what the flag read: if it was raised, the endpoint is
    /// let go.
    pub fn observe(&mut self, closed: bool)
        ensures
            final(self)@ == old(self)@.checked(closed),
    {
        if closed {
            self.inner.take();
        }
    }

    /// Reads the flag and takes note of it. What the flag reads is up to the
    /// other handles, so the handle afterwards is one of the two that
    /// [`Session::observe`] can leave.
    fn pre_check(&mut self)
        ensures
            final(self)@.is_check_of(old(self)@),
    {
        let closed = self.closed.load(Ordering::Relaxed);
        self.observe(closed);
    }

    /// The push of `frame` on this handle's endpoint, or `Closed` if the slot
    /// is empty.
    pub fn forward(&self, frame: Frame) -> (r: Result<Push<&Sender<Message>>, Closed>)
        ensures
            match r {
                Ok(push) => self@.endpoint == Some(*push.endpoint) && push.frame == frame,
                Err(_) => !self@.is_open(),
            },
    {
        match &self.inner {
            Some(endpoint) => Ok(Push { endpoint, frame }),
            None => Err(Closed),
        }
    }

    /// Send text into the websocket.
    ///
    /// Runs the pre-check, then forwards a text frame that holds `msg`. The
    /// answer is `Ok` exactly if the handle holds its endpoint afterwards.
    pub fn text(&mut self, msg: String) -> (r: Result<Push<&Sender<Message>>, Closed>)
        ensures
            final(self)@.is_check_of(old(self)@),
            match r {
                Ok(push) => final(self)@.endpoint == Some(*push.endpoint) && push.frame@
                    == FrameView::Text(msg@),
                Err(_) => !final(self)@.is_open(),
            },
    {
        self.pre_check();
        self.forward(Frame::Text(msg))
    }

    /// Send raw bytes into the websocket.
    ///
    /// Runs the pre-check, then forwards a binary frame that holds `msg`. The
    /// answer is `Ok` exactly if the handle holds its endpoint afterwards.
    pub fn binary(&mut self, msg: Vec<u8>) -> (r: Result<Push<&Sender<Message>>, Closed>)
        ensures
            final(self)@.is_check_of(old(self)@),
            match r {
                Ok(push) => final(self)@.endpoint == Some(*push.endpoint) && push.frame@
                    == FrameView::Binary(msg@),
                Err(_) => !final(self)@.is_open(),
            },
    {
        self.pre_check();
        self.forward(Frame::Binary(msg))
    }

    /// Ping the client.
    ///
    /// Runs the pre-check, then forwards a ping frame that holds a copy of
    /// `msg`. The answer is `Ok` exactly if the handle holds its endpoint
    /// afterwards.
    pub fn ping(&mut self, msg: &[u8]) -> (r: Result<Push<&Sender<Message>>, Closed>)
        ensures
            final(self)@.is_check_of(old(self)@),
            match r {
                Ok(push) => final(self)@.endpoint == Some(*push.endpoint) && push.frame@
                    == FrameView::Ping(msg@),
                Err(_) => !final(self)@.is_open(),
            },
    {
        self.pre_check();
        self.forward(Frame::Ping(slice_to_vec(msg)))
    }

    /// Pong the client.
    ///
    /// Runs the pre-check, then forwards a pong frame that holds a copy of
    /// `msg`. The answer is `Ok` exactly if the handle holds its endpoint
    /// afterwards.
    pub fn pong(&mut self, msg: &[u8]) -> (r: Result<Push<&Sender<Message>>, Closed>)
        ensures
            final(self)@.is_check_of(old(self)@),
            match r {
                Ok(push) => final(self)@.endpoint == Some(*push.endpoint) && push.frame@
                    == FrameView::Pong(msg@),
                Err(_) => !final(self)@.is_open(),
            },
    {
        self.pre_check();
        self.forward(Frame::Pong(slice_to_vec(msg)))
    }

    /// The end of a handle whose slot may be filled: takes the endpoint out,
    /// raises the flag and gives the endpoint away with the close frame that
    /// is due on it. A handle with an empty slot answers `Closed` and leaves
    /// the flag alone.
    pub fn finish(self, reason: Option<CloseReason>) -> (r: Result<Push<Sender<Message>>, Closed>)
        ensures
            match r {
                Ok(push) => self@.endpoint == Some(push.endpoint) && push.frame@
                    == FrameView::Close(reason_view(reason)),
                Err(_) => !self@.is_open(),
            },
    {
        let mut session = self;
        match session.inner.take() {
            Some(endpoint) => {
                session.closed.store(true, Ordering::Relaxed);
                Ok(Push { endpoint, frame: Frame::Close(reason) })
            },
            None => Err(Closed),
        }
    }

    /// Send a close frame, and consume the session.
    ///
    /// Runs the pre-check, then finishes the handle. A handle whose slot was
    /// empty answers `Closed`, and so does one that finds the flag raised;
    /// otherwise the flag is raised and the answer is the push of the close
    /// frame on the endpoint the handle held.
    pub fn close(self, reason: Option<CloseReason>) -> (r: Result<Push<Sender<Message>>, Closed>)
        ensures
            !self@.is_open() ==> r is Err,
            r matches Ok(push) ==> self@.endpoint == Some(push.endpoint) && push.frame@
                == FrameView::Close(reason_view(reason)),
    {
        let mut session = self;
        session.pre_check();
        session.finish(reason)
    }
}

impl Clone for Session {
    /// One more handle: it shares the flag, and its slot is filled exactly if
    /// this one's is.
    fn clone(&self) -> (twin: Session)
        ensures
            twin@.flag == self@.flag,
            twin@.is_open() == self@.is_open(),
    {
        let inner = match &self.inner {
            Some(endpoint) => Some(endpoint.clone()),
            None => None,
        };
        Session { inner, closed: share(&self.closed) }
    }
}

/// What an operation answers once its push was made: `Ok` if the channel took
/// the frame, `Closed` if the receive endpoint was gone.
pub fn settle(pushed: Result<(), SendError<Message>>) -> (r: Result<(), Closed>)
    ensures
        r == (match pushed {
            Ok(_) => Ok::<(), Closed>(()),
            Err(_) => Err::<(), Closed>(Closed),
        }),
{
    match pushed {
        Ok(()) => Ok(()),
        Err(_) => Err(Closed),
    }
}

} // verus!
