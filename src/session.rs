//! The feed session: the decisions of the connect, authenticate, subscribe and
//! stream protocol, as a state machine from events to actions. The transport
//! is driven by the caller, which performs each action and reports what happened.

use vstd::prelude::*;
use crate::event::{decode_batch, decodes_to, delivered, rejected, Feed, FeedEvent};
use crate::json::{members_of, text_eq, text_field, text_field_of, Json};

verus! {

/// Why a session failed.
#[derive(Clone, Copy, Debug, PartialEq, Eq, Structural)]
pub enum SessionError {
    /// The transport could not be opened, or broke during the handshake.
    Connection,
    /// The server's welcome or authentication reply was malformed or a refusal.
    Protocol,
}

#[derive(Clone, Copy, Debug, PartialEq, Eq, Structural)]
pub enum SessionState {
    Disconnected,
    Connecting,
    AwaitingWelcome,
    Authenticating,
    Subscribing,
    Streaming,
    Closed,
    Failed(SessionError),
}

/// What the transport reports to the session.
#[derive(Debug)]
pub enum SessionEvent {
    /// The caller asks the session to begin.
    Start,
    /// The transport is open.
    Opened,
    /// The transport could not be opened.
    OpenFailed,
    /// A text message, parsed as JSON.
    Message(Json),
    /// A message that is not JSON text.
    Unreadable,
    /// Reading failed at the transport level.
    ReadFailed,
    /// The server closed the connection.
    Ended,
    /// The last send completed.
    Sent,
    /// The last send failed.
    SendFailed,
    /// The consumer has gone: a decoded event could not be handed over.
    ForwardFailed,
}

/// What the caller is to do next.
#[derive(Debug)]
pub enum SessionAction {
    /// Open the transport to the feed.
    Open,
    /// Read the next message.
    Read,
    /// Send the text, then read the reply.
    SendThenRead(String),
    /// Send the text.
    Send(String),
    /// Hand each event over in order (waiting while the consumer is full), then
    /// read the next message; the count is of envelopes that failed to decode.
    Forward(Vec<FeedEvent>, usize),
    /// The session is over.
    Stop,
}

/// The `status` member of the first element of a JSON array.
pub open spec fn first_status(j: Json) -> Option<Seq<char>> {
    match j {
        Json::Array(items) => if items@.len() > 0 {
            text_field(members_of(items@[0]), "status"@)
        } else {
            None
        },
        _ => None,
    }
}

pub open spec fn is_welcome(j: Json) -> bool {
    first_status(j) == Some("connected"@)
}

pub open spec fn is_auth_success(j: Json) -> bool {
    first_status(j) == Some("auth_success"@)
}

/// The authentication request carrying `credential`.
pub open spec fn auth_request(credential: Seq<char>) -> Seq<char> {
    "{\"action\":\"auth\",\"params\":\""@ + credential + "\"}"@
}

/// The subscription request for a comma-separated channel list.
pub open spec fn subscribe_request(channels: Seq<char>) -> Seq<char> {
    "{\"action\":\"subscribe\",\"params\":\""@ + channels + "\"}"@
}

pub open spec fn is_terminal(s: SessionState) -> bool {
    s is Closed || s is Failed
}

/// The state after event `e` in state `s`.
pub open spec fn next_state(s: SessionState, e: SessionEvent) -> SessionState {
    match s {
        SessionState::Disconnected => match e {
            SessionEvent::Start => SessionState::Connecting,
            _ => SessionState::Failed(SessionError::Protocol),
        },
        SessionState::Connecting => match e {
            SessionEvent::Opened => SessionState::AwaitingWelcome,
            _ => SessionState::Failed(SessionError::Connection),
        },
        SessionState::AwaitingWelcome => match e {
            SessionEvent::Message(j) => if is_welcome(j) {
                SessionState::Authenticating
            } else {
                SessionState::Failed(SessionError::Protocol)
            },
            SessionEvent::Unreadable => SessionState::Failed(SessionError::Protocol),
            _ => SessionState::Failed(SessionError::Connection),
        },
        SessionState::Authenticating => match e {
            SessionEvent::Message(j) => if is_auth_success(j) {
                SessionState::Subscribing
            } else {
                SessionState::Failed(SessionError::Protocol)
            },
            SessionEvent::Unreadable => SessionState::Failed(SessionError::Protocol),
            _ => SessionState::Failed(SessionError::Connection),
        },
        SessionState::Subscribing => match e {
            SessionEvent::Sent => SessionState::Streaming,
            _ => SessionState::Failed(SessionError::Connection),
        },
        SessionState::Streaming => match e {
            SessionEvent::ReadFailed => SessionState::Closed,
            SessionEvent::Ended => SessionState::Closed,
            SessionEvent::ForwardFailed => SessionState::Closed,
            SessionEvent::SendFailed => SessionState::Closed,
            SessionEvent::OpenFailed => SessionState::Closed,
            _ => SessionState::Streaming,
        },
        SessionState::Closed => SessionState::Closed,
        SessionState::Failed(x) => SessionState::Failed(x),
    }
}

/// The state after each event of `evs` in turn, from `s`.
pub open spec fn run(s: SessionState, evs: Seq<SessionEvent>) -> SessionState
    decreases evs.len(),
{
    if evs.len() == 0 {
        s
    } else {
        next_state(run(s, evs.drop_last()), evs.last())
    }
}

/// Whether `e` is the event that the handshake expects at position `i`:
/// start, opened, a welcome, an authentication success, the subscription sent.
pub open spec fn expected_at(i: int, e: SessionEvent) -> bool {
    if i == 0 {
        e is Start
    } else if i == 1 {
        e is Opened
    } else if i == 2 {
        e is Message && is_welcome(e->Message_0)
    } else if i == 3 {
        e is Message && is_auth_success(e->Message_0)
    } else if i == 4 {
        e is Sent
    } else {
        true
    }
}

/// Whether the events so far follow the handshake.
pub open spec fn follows_handshake(evs: Seq<SessionEvent>) -> bool {
    forall|i: int| 0 <= i < evs.len() ==> expected_at(i, #[trigger] evs[i])
}

/// The state that a handshake followed for `n` events reaches.
pub open spec fn handshake_phase(n: int) -> SessionState {
    if n <= 0 {
        SessionState::Disconnected
    } else if n == 1 {
        SessionState::Connecting
    } else if n == 2 {
        SessionState::AwaitingWelcome
    } else if n == 3 {
        SessionState::Authenticating
    } else if n == 4 {
        SessionState::Subscribing
    } else {
        SessionState::Streaming
    }
}

/// From a new session, the events decide the state: while they follow the
/// handshake the session is in the matching phase (streaming, or closed once
/// streaming ends); at the first event that deviates it fails, and stays failed.
pub proof fn run_follows_handshake(evs: Seq<SessionEvent>)
    ensures
        follows_handshake(evs) && evs.len() < 5 ==> run(SessionState::Disconnected, evs)
            == handshake_phase(evs.len() as int),
        follows_handshake(evs) && evs.len() >= 5 ==> (run(SessionState::Disconnected, evs) is Streaming
            || run(SessionState::Disconnected, evs) is Closed),
        !follows_handshake(evs) ==> run(SessionState::Disconnected, evs) is Failed,
    decreases evs.len(),
{
    if evs.len() > 0 {
        let p = evs.drop_last();
        run_follows_handshake(p);
        if follows_handshake(p) {
            if !follows_handshake(evs) {
                let i = choose|i: int| 0 <= i < evs.len() && !expected_at(i, #[trigger] evs[i]);
                if i < p.len() {
                    assert(evs[i] == p[i]);
                }
            } else {
                assert(expected_at(p.len() as int, evs[p.len() as int]));
            }
        } else {
            let i = choose|i: int| 0 <= i < p.len() && !expected_at(i, #[trigger] p[i]);
            assert(evs[i] == p[i]);
        }
    }
}

/// A handshake with a welcome and an authentication success reaches streaming;
/// any sequence that reaches streaming began with such a handshake, so a wrong
/// status, a payload that is not an array or a transport error at any step of
/// it never lets the session stream.
pub proof fn streaming_only_after_handshake(evs: Seq<SessionEvent>)
    ensures
        evs.len() == 5 && follows_handshake(evs) ==> run(SessionState::Disconnected, evs) is Streaming,
        run(SessionState::Disconnected, evs) is Streaming ==> evs.len() >= 5 && follows_handshake(evs),
        evs.len() > 0 && !follows_handshake(evs) ==> is_terminal(run(SessionState::Disconnected, evs)),
{
    run_follows_handshake(evs);
    if evs.len() == 5 && follows_handshake(evs) {
        let p = evs.drop_last();
        run_follows_handshake(p);
        assert(expected_at(4, evs[4]));
        assert forall|i: int| 0 <= i < p.len() implies expected_at(i, #[trigger] p[i]) by {
            assert(p[i] == evs[i]);
        }
    }
}

/// Whether `a` is the action owed in `s` when `e` arrives.
pub open spec fn action_fits(
    feed: Feed,
    credential: Seq<char>,
    channels: Seq<char>,
    s: SessionState,
    e: SessionEvent,
    a: SessionAction,
) -> bool {
    match next_state(s, e) {
        SessionState::Disconnected => a is Stop,
        SessionState::Connecting => a is Open,
        SessionState::AwaitingWelcome => a is Read,
        SessionState::Authenticating => match a {
            SessionAction::SendThenRead(t) => t@ == auth_request(credential),
            _ => false,
        },
        SessionState::Subscribing => match a {
            SessionAction::Send(t) => t@ == subscribe_request(channels),
            _ => false,
        },
        SessionState::Streaming => if s is Subscribing {
            a is Read
        } else {
            match e {
                SessionEvent::Message(Json::Array(items)) => match a {
                    SessionAction::Forward(evs, bad) => {
                        &&& evs@.len() == delivered(feed, items@).len()
                        &&& forall|k: int|
                            0 <= k < evs@.len() ==> decodes_to(
                                feed,
                                #[trigger] delivered(feed, items@)[k],
                                evs@[k],
                            )
                        &&& bad == rejected(feed, items@)
                    },
                    _ => false,
                },
                _ => a is Read,
            }
        },
        SessionState::Closed => a is Stop,
        SessionState::Failed(_) => a is Stop,
    }
}

/// One feed session: its family, credential, channel list and protocol state.
pub struct FeedSession {
    feed: Feed,
    credential: String,
    channels: String,
    state: SessionState,
}

/// Whether the message's first element has `status` equal to `expected`.
fn status_is(j: &Json, expected: &str) -> (r: bool)
    ensures
        r == (first_status(*j) == Some(expected@)),
{
    match j {
        Json::Array(items) => {
            if items.len() == 0 {
                return false;
            }
            match &items[0] {
                Json::Object(m) => match text_field_of(m, "status") {
                    Some(s) => text_eq(s.as_str(), expected),
                    None => false,
                },
                _ => {
                    assert(members_of(items@[0]) == Seq::<(String, Json)>::empty());
                    assert(crate::json::lookup(Seq::<(String, Json)>::empty(), "status"@) is None);
                    false
                },
            }
        },
        _ => false,
    }
}

/// Builds `prefix`, then `middle`, then `suffix`.
fn framed(prefix: &str, middle: &str, suffix: &str) -> (r: String)
    ensures
        r@ == prefix@ + middle@ + suffix@,
{
    let mut s = String::from_str(prefix);
    s.append(middle);
    s.append(suffix);
    s
}

impl FeedSession {
    pub closed spec fn feed_spec(&self) -> Feed {
        self.feed
    }

    pub closed spec fn credential_spec(&self) -> Seq<char> {
        self.credential@
    }

    pub closed spec fn channels_spec(&self) -> Seq<char> {
        self.channels@
    }

    pub closed spec fn state_spec(&self) -> SessionState {
        self.state
    }

    /// A session not yet started, for `feed`, authenticating with `credential`
    /// and subscribing to the comma-separated `channels`.
    pub fn new(feed: Feed, credential: String, channels: String) -> (r: FeedSession)
        ensures
            r.feed_spec() == feed,
            r.credential_spec() == credential@,
            r.channels_spec() == channels@,
            r.state_spec() == SessionState::Disconnected,
    {
        FeedSession { feed, credential, channels, state: SessionState::Disconnected }
    }

    pub fn state(&self) -> (r: SessionState)
        ensures
            r == self.state_spec(),
    {
        self.state
    }

    /// The authentication request of this session.
    pub fn auth_message(&self) -> (r: String)
        ensures
            r@ == auth_request(self.credential_spec()),
    {
        framed("{\"action\":\"auth\",\"params\":\"", self.credential.as_str(), "\"}")
    }

    /// The subscription request of this session.
    pub fn subscribe_message(&self) -> (r: String)
        ensures
            r@ == subscribe_request(self.channels_spec()),
    {
        framed("{\"action\":\"subscribe\",\"params\":\"", self.channels.as_str(), "\"}")
    }

    /// Takes in what the transport reported and says what to do next.
    pub fn step(&mut self, e: SessionEvent) -> (r: SessionAction)
        ensures
            final(self).feed_spec() == old(self).feed_spec(),
            final(self).credential_spec() == old(self).credential_spec(),
            final(self).channels_spec() == old(self).channels_spec(),
            final(self).state_spec() == next_state(old(self).state_spec(), e),
            action_fits(
                old(self).feed_spec(),
                old(self).credential_spec(),
                old(self).channels_spec(),
                old(self).state_spec(),
                e,
                r,
            ),
    {
        match self.state {
            SessionState::Disconnected => match e {
                SessionEvent::Start => {
                    self.state = SessionState::Connecting;
                    SessionAction::Open
                },
                _ => {
                    self.state = SessionState::Failed(SessionError::Protocol);
                    SessionAction::Stop
                },
            },
            SessionState::Connecting => match e {
                SessionEvent::Opened => {
                    self.state = SessionState::AwaitingWelcome;
                    SessionAction::Read
                },
                _ => {
                    self.state = SessionState::Failed(SessionError::Connection);
                    SessionAction::Stop
                },
            },
            SessionState::AwaitingWelcome => match e {
                SessionEvent::Message(j) => {
                    if status_is(&j, "connected") {
                        self.state = SessionState::Authenticating;
                        SessionAction::SendThenRead(self.auth_message())
                    } else {
                        self.state = SessionState::Failed(SessionError::Protocol);
                        SessionAction::Stop
                    }
                },
                SessionEvent::Unreadable => {
                    self.state = SessionState::Failed(SessionError::Protocol);
                    SessionAction::Stop
                },
                _ => {
                    self.state = SessionState::Failed(SessionError::Connection);
                    SessionAction::Stop
                },
            },
            SessionState::Authenticating => match e {
                SessionEvent::Message(j) => {
                    if status_is(&j, "auth_success") {
                        self.state = SessionState::Subscribing;
                        SessionAction::Send(self.subscribe_message())
                    } else {
                        self.state = SessionState::Failed(SessionError::Protocol);
                        SessionAction::Stop
                    }
                },
                SessionEvent::Unreadable => {
                    self.state = SessionState::Failed(SessionError::Protocol);
                    SessionAction::Stop
                },
                _ => {
                    self.state = SessionState::Failed(SessionError::Connection);
                    SessionAction::Stop
                },
            },
            SessionState::Subscribing => match e {
                SessionEvent::Sent => {
                    self.state = SessionState::Streaming;
                    SessionAction::Read
                },
                _ => {
                    self.state = SessionState::Failed(SessionError::Connection);
                    SessionAction::Stop
                },
            },
            SessionState::Streaming => match e {
                SessionEvent::Message(Json::Array(items)) => {
                    let (events, bad) = decode_batch(self.feed, &items);
                    SessionAction::Forward(events, bad)
                },
                SessionEvent::ReadFailed | SessionEvent::Ended | SessionEvent::ForwardFailed
                | SessionEvent::SendFailed | SessionEvent::OpenFailed => {
                    self.state = SessionState::Closed;
                    SessionAction::Stop
                },
                _ => SessionAction::Read,
            },
            SessionState::Closed => SessionAction::Stop,
            SessionState::Failed(_) => SessionAction::Stop,
        }
    }
}

} // verus!
