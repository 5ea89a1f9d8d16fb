//! The session: what one connection does with what it receives.
//!
//! A session decides; it neither reads the socket nor talks to the hub. Its
//! owner hands it each event, with the reading of a monotonic clock in
//! milliseconds where time matters, and carries out the reaction.

use crate::envelope::{
    auth_good_frame, message_in, unknown_command, unknown_command_text, ClientMessage,
};
use crate::events::{Auth, Disconnect};
use crate::json::{as_text, json_str};
use vstd::prelude::*;

verus! {

/// The time between two liveness probes, in milliseconds.
pub const HEARTBEAT_INTERVAL: u64 = 5000;

/// How long a client may stay silent before its session gives up, in
/// milliseconds.
pub const CLIENT_TIMEOUT: u64 = 10000;

/// One frame from the client, or the failure to read one.
#[derive(Debug)]
pub enum Frame {
    Ping(Vec<u8>),
    Pong,
    Text(String),
    Binary,
    Close,
    Continuation,
    Nop,
    Error,
}

/// A frame, as the contracts see it.
pub enum FrameView {
    Ping(Seq<u8>),
    Pong,
    Text(Seq<char>),
    Binary,
    Close,
    Continuation,
    Nop,
    Error,
}

impl View for Frame {
    type V = FrameView;

    open spec fn view(&self) -> FrameView {
        match self {
            Frame::Ping(payload) => FrameView::Ping(payload@),
            Frame::Pong => FrameView::Pong,
            Frame::Text(text) => FrameView::Text(text@),
            Frame::Binary => FrameView::Binary,
            Frame::Close => FrameView::Close,
            Frame::Continuation => FrameView::Continuation,
            Frame::Nop => FrameView::Nop,
            Frame::Error => FrameView::Error,
        }
    }
}

/// What the owner of the connection is to do.
#[derive(Debug)]
pub enum Reaction {
    /// Nothing.
    Idle,
    /// Probe the client.
    Ping,
    /// Answer the client's probe with its own payload.
    Pong(Vec<u8>),
    /// Send the client a text frame.
    Text(String),
    /// Ask the hub to authenticate the session.
    Authenticate(Auth),
    /// End the connection. `notice` goes to the hub, if there is one;
    /// `close` says whether the client's close frame is answered first.
    Stop { notice: Option<Disconnect>, close: bool },
}

/// A reaction, as the contracts see it.
pub enum ReactionView {
    Idle,
    Ping,
    Pong(Seq<u8>),
    Text(Seq<char>),
    Authenticate { access_token: Seq<char>, id: usize },
    Stop { notice: Option<Disconnect>, close: bool },
}

impl View for Reaction {
    type V = ReactionView;

    open spec fn view(&self) -> ReactionView {
        match self {
            Reaction::Idle => ReactionView::Idle,
            Reaction::Ping => ReactionView::Ping,
            Reaction::Pong(payload) => ReactionView::Pong(payload@),
            Reaction::Text(text) => ReactionView::Text(text@),
            Reaction::Authenticate(auth) => ReactionView::Authenticate {
                access_token: auth.access_token@,
                id: auth.id,
            },
            Reaction::Stop { notice, close } => ReactionView::Stop {
                notice: *notice,
                close: *close,
            },
        }
    }
}

/// One connection: its identifier at the hub, when it was last seen alive,
/// and the user it is bound to.
#[derive(Clone, Copy, Debug)]
pub struct SocketSession {
    /// The identifier that the hub gave; meaningful once `registered`.
    pub id: usize,
    /// The clock at the client's last sign of life.
    pub hb: u64,
    /// The user that the session is bound to, once authenticated.
    pub user_id: Option<u128>,
    /// Whether the hub has answered the connect request.
    pub registered: bool,
    /// Whether the session is over. The hub is told when this turns true,
    /// and never again.
    pub closed: bool,
}

/// The time that passed between two readings of the clock; none where the
/// clock seems to have gone back.
pub open spec fn elapsed(now: u64, since: u64) -> int {
    if now >= since {
        now - since
    } else {
        0
    }
}

/// What a text frame asks for.
pub enum Request {
    /// The frame is no message, or its payload does not fit its operation.
    Malformed,
    /// The client presents a token.
    Auth(Seq<char>),
    /// The operation is not known.
    Unknown(Seq<char>),
}

/// Reads a text frame: `auth` takes a string, every other operation is
/// unknown.
pub open spec fn request_in(text: Seq<char>) -> Request {
    match message_in(text) {
        Err(_) => Request::Malformed,
        Ok((op, d)) => if op == "auth"@ {
            match d {
                Some(value) => match json_str(value) {
                    Some(token) => Request::Auth(token),
                    None => Request::Malformed,
                },
                None => Request::Malformed,
            }
        } else {
            Request::Unknown(op)
        },
    }
}

impl SocketSession {
    /// Whether the session still takes input: the hub knows it and it is not
    /// over.
    pub open spec fn live(self) -> bool {
        self.registered && !self.closed
    }

    /// The session once it is over.
    pub open spec fn ended(self) -> SocketSession {
        SocketSession { closed: true, ..self }
    }

    /// The notice that the hub gets when the session ends: none where the
    /// session is over already, or where the hub never knew it.
    pub open spec fn last_notice(self) -> Option<Disconnect> {
        if self.live() {
            Some(Disconnect { id: self.id, user_id: self.user_id })
        } else {
            None
        }
    }

    /// Whether the client has been silent for too long at `now`.
    pub open spec fn timed_out(self, now: u64) -> bool {
        elapsed(now, self.hb) > CLIENT_TIMEOUT
    }

    /// The session and the reaction after a check of the heartbeat.
    pub open spec fn after_tick(self, now: u64) -> (SocketSession, ReactionView) {
        if self.closed {
            (self, ReactionView::Idle)
        } else if self.timed_out(now) {
            (self.ended(), ReactionView::Stop { notice: self.last_notice(), close: false })
        } else {
            (self, ReactionView::Ping)
        }
    }

    /// The session and the reaction after a frame from the client.
    pub open spec fn after_frame(self, frame: FrameView, now: u64) -> (
        SocketSession,
        ReactionView,
    ) {
        if !self.live() {
            (self, ReactionView::Idle)
        } else {
            match frame {
                FrameView::Ping(payload) => (
                    SocketSession { hb: now, ..self },
                    ReactionView::Pong(payload),
                ),
                FrameView::Pong => (SocketSession { hb: now, ..self }, ReactionView::Idle),
                FrameView::Text(text) => match request_in(text) {
                    Request::Malformed => (
                        self.ended(),
                        ReactionView::Stop { notice: self.last_notice(), close: false },
                    ),
                    Request::Auth(token) => (
                        self,
                        ReactionView::Authenticate { access_token: token, id: self.id },
                    ),
                    Request::Unknown(op) => (self, ReactionView::Text(unknown_command_text(op))),
                },
                FrameView::Binary => (self, ReactionView::Idle),
                FrameView::Nop => (self, ReactionView::Idle),
                FrameView::Close => (
                    self.ended(),
                    ReactionView::Stop { notice: self.last_notice(), close: true },
                ),
                FrameView::Continuation => (
                    self.ended(),
                    ReactionView::Stop { notice: self.last_notice(), close: false },
                ),
                FrameView::Error => (
                    self.ended(),
                    ReactionView::Stop { notice: self.last_notice(), close: false },
                ),
            }
        }
    }

    /// The session and the reaction after the hub's answer to the connect
    /// request: the identifier, or nothing where the hub could not be
    /// reached.
    pub open spec fn after_registration(self, reply: Option<usize>) -> (
        SocketSession,
        ReactionView,
    ) {
        if self.closed || self.registered {
            (self, ReactionView::Idle)
        } else {
            match reply {
                Some(id) => (SocketSession { id, registered: true, ..self }, ReactionView::Idle),
                None => (self.ended(), ReactionView::Stop { notice: None, close: false }),
            }
        }
    }

    /// The session and the reaction after the hub's answer to an
    /// authentication request. A user replaces the binding; a refusal leaves
    /// it as it was. The client is told either way.
    pub open spec fn after_auth_reply(self, reply: Option<u128>) -> (SocketSession, ReactionView) {
        if !self.live() {
            (self, ReactionView::Idle)
        } else {
            (
                match reply {
                    Some(user) => SocketSession { user_id: Some(user), ..self },
                    None => self,
                },
                ReactionView::Text(auth_good_frame(reply)),
            )
        }
    }

    /// A session for a connection that has just opened at `now`.
    pub fn new(now: u64) -> (session: SocketSession)
        ensures
            session == (SocketSession {
                id: 0,
                hb: now,
                user_id: None,
                registered: false,
                closed: false,
            }),
    {
        SocketSession { id: 0, hb: now, user_id: None, registered: false, closed: false }
    }

    /// Ends the session and says what the hub is to be told: the notice the
    /// first time, if the hub knows the session, and nothing ever after.
    pub fn stopping(&mut self) -> (notice: Option<Disconnect>)
        ensures
            *final(self) == old(self).ended(),
            notice == old(self).last_notice(),
    {
        let notice = if self.registered && !self.closed {
            Some(Disconnect { id: self.id, user_id: self.user_id })
        } else {
            None
        };
        self.closed = true;
        notice
    }

    /// Takes the hub's answer to the connect request.
    pub fn started(&mut self, reply: Option<usize>) -> (reaction: Reaction)
        ensures
            (*final(self), reaction@) == old(self).after_registration(reply),
    {
        if self.closed || self.registered {
            return Reaction::Idle;
        }
        match reply {
            Some(id) => {
                self.id = id;
                self.registered = true;
                Reaction::Idle
            },
            None => {
                let notice = self.stopping();
                Reaction::Stop { notice, close: false }
            },
        }
    }

    /// Checks the heartbeat at `now`: a session whose client has been silent
    /// for longer than the timeout ends; any other open session probes its
    /// client.
    pub fn hb(&mut self, now: u64) -> (reaction: Reaction)
        ensures
            (*final(self), reaction@) == old(self).after_tick(now),
    {
        if self.closed {
            return Reaction::Idle;
        }
        let silent = if now >= self.hb {
            now - self.hb
        } else {
            0
        };
        if silent > CLIENT_TIMEOUT {
            let notice = self.stopping();
            Reaction::Stop { notice, close: false }
        } else {
            Reaction::Ping
        }
    }

    /// Handles one frame from the client, read at `now`.
    pub fn handle(&mut self, frame: Frame, now: u64) -> (reaction: Reaction)
        ensures
            (*final(self), reaction@) == old(self).after_frame(frame@, now),
    {
        if !self.registered || self.closed {
            return Reaction::Idle;
        }
        match frame {
            Frame::Ping(payload) => {
                self.hb = now;
                Reaction::Pong(payload)
            },
            Frame::Pong => {
                self.hb = now;
                Reaction::Idle
            },
            Frame::Text(text) => self.handle_text(text.as_str()),
            Frame::Binary => Reaction::Idle,
            Frame::Nop => Reaction::Idle,
            Frame::Close => {
                let notice = self.stopping();
                Reaction::Stop { notice, close: true }
            },
            Frame::Continuation => {
                let notice = self.stopping();
                Reaction::Stop { notice, close: false }
            },
            Frame::Error => {
                let notice = self.stopping();
                Reaction::Stop { notice, close: false }
            },
        }
    }

    /// Handles the text of one frame.
    fn handle_text(&mut self, text: &str) -> (reaction: Reaction)
        requires
            old(self).live(),
        ensures
            (*final(self), reaction@) == old(self).after_frame(FrameView::Text(text@), old(self).hb),
    {
        let message = match ClientMessage::parse(text) {
            Ok(message) => message,
            Err(_) => {
                let notice = self.stopping();
                return Reaction::Stop { notice, close: false };
            },
        };
        if message.op == "auth".to_owned() {
            let token = match &message.d {
                Some(value) => as_text(value),
                None => None,
            };
            match token {
                Some(access_token) => Reaction::Authenticate(Auth { access_token, id: self.id }),
                None => {
                    let notice = self.stopping();
                    Reaction::Stop { notice, close: false }
                },
            }
        } else {
            Reaction::Text(unknown_command(message.op.as_str()))
        }
    }

    /// Takes the hub's answer to an authentication request and tells the
    /// client.
    pub fn authenticated(&mut self, reply: Option<u128>) -> (reaction: Reaction)
        ensures
            (*final(self), reaction@) == old(self).after_auth_reply(reply),
    {
        if !self.registered || self.closed {
            return Reaction::Idle;
        }
        match reply {
            Some(user) => {
                self.user_id = Some(user);
            },
            None => {},
        }
        Reaction::Text(ClientMessage::auth_good(reply).to_frame())
    }
}

} // verus!
