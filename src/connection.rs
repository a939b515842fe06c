//! The decisions of the connection supervisor.
//!
//! The supervisor owns one socket at a time. Whoever drives it performs the
//! [`Action`] that each step returns (open a socket, send a frame, hand an
//! event to the consumer, wait) and feeds back what happened as an [`Input`].
//! After the first connection, a lost socket is reopened for as long as the
//! supervisor is not cancelled, with a delay that grows with each failed
//! attempt. Events decoded after a reconnect go to the same consumer, with no
//! marker of the gap.
use vstd::prelude::*;

use crate::events::{decode, decoded_as, Event};
use crate::json::json_document;

verus! {

/// Interval between keepalive pings, in milliseconds.
pub const KEEPALIVE_INTERVAL_MS: u64 = 5000;

/// Delay per failed reconnect attempt, in milliseconds.
pub const BACKOFF_BASE_MS: u64 = 500;

/// Longest delay between reconnect attempts, in milliseconds.
pub const BACKOFF_MAX_MS: u64 = 90000;

/// Length of the random payload of a keepalive ping.
pub const PING_PAYLOAD_LEN: usize = 32;

/// Capacity of the queue between the supervisor and the consumer. A full
/// queue makes the supervisor wait, which delays the socket too.
pub const EVENT_QUEUE_CAPACITY: usize = 100;

/// The delay after failed attempt `attempt`: the base times the attempt
/// number, at most the maximum.
pub open spec fn backoff_spec(attempt: u64) -> int {
    if BACKOFF_BASE_MS * attempt > BACKOFF_MAX_MS {
        BACKOFF_MAX_MS as int
    } else {
        BACKOFF_BASE_MS * attempt
    }
}

/// The delay, in milliseconds, before the next reconnect attempt after
/// failed attempt `attempt`.
pub fn backoff_delay_ms(attempt: u64) -> (r: u64)
    ensures
        r == backoff_spec(attempt),
{
    if attempt > BACKOFF_MAX_MS / BACKOFF_BASE_MS {
        BACKOFF_MAX_MS
    } else {
        BACKOFF_BASE_MS * attempt
    }
}

/// Relies on `rand::random::<[u8; 32]>`: random bytes, 32 of them.
#[verifier::external_body]
fn random_payload() -> (r: Vec<u8>)
    ensures
        r.len() == PING_PAYLOAD_LEN,
{
    rand::random::<[u8; 32]>().to_vec()
}

/// The payload of a keepalive ping: fresh random bytes.
pub fn ping_payload() -> (r: Vec<u8>)
    ensures
        r.len() == PING_PAYLOAD_LEN,
{
    random_payload()
}

/// The state of the supervisor.
#[derive(Clone, Copy, Debug, PartialEq, Eq, Structural)]
pub enum ConnectionState {
    /// Not started.
    Disconnected,
    /// Opening a socket; `attempt` is 0 for the first connection, and counts
    /// reconnect attempts after it.
    Connecting { attempt: u64 },
    /// A socket is open.
    Connected,
    /// Waiting out the delay after failed reconnect attempt `attempt`.
    Reconnecting { attempt: u64 },
    /// Stopped for good.
    Closed,
}

/// A frame read from the socket.
#[derive(Debug, PartialEq)]
pub enum Frame {
    Text(String),
    Binary(Vec<u8>),
    Ping(Vec<u8>),
    Pong(Vec<u8>),
    Close,
}

/// What happened, as the driver reports it.
#[derive(Debug, PartialEq)]
pub enum Input {
    /// The caller asked for the feed.
    Start,
    /// The socket opened.
    Opened,
    /// The socket could not be opened.
    OpenFailed,
    /// A frame arrived.
    Frame(Frame),
    /// Reading the socket failed.
    ReadError,
    /// The socket's stream ended.
    StreamEnded,
    /// The consumer's end of the event queue is gone.
    ConsumerGone,
    /// The keepalive interval elapsed.
    KeepaliveTick,
    /// The reconnect delay elapsed.
    BackoffElapsed,
    /// Cancellation was signalled.
    Cancel,
}

/// What the driver is to do next.
#[derive(Debug, PartialEq)]
pub enum Action {
    /// Nothing; wait for the next input.
    Nothing,
    /// Drop the current socket, if any (sending a close frame where it can),
    /// and open a new one at the same address.
    Connect,
    /// The first connection failed: report the failure to the caller.
    Fail,
    /// Send a pong frame with this payload.
    SendPong(Vec<u8>),
    /// Send a ping frame with this payload.
    SendPing(Vec<u8>),
    /// Put this event on the consumer's queue, waiting while it is full.
    Deliver(Event),
    /// The text frame was not JSON: drop it.
    Discard,
    /// Wait this many milliseconds, unless cancelled, then report
    /// `BackoffElapsed`.
    Wait(u64),
    /// Close the socket gracefully and stop.
    CloseAndStop,
    /// Stop.
    Stop,
}

/// The next reconnect attempt number; it stays at the largest value.
pub open spec fn next_attempt(attempt: u64) -> u64 {
    if attempt < u64::MAX {
        (attempt + 1) as u64
    } else {
        attempt
    }
}

/// `(s2, a)` is the supervisor's step from state `s` on input `i`.
pub open spec fn step_spec(s: ConnectionState, i: Input, s2: ConnectionState, a: Action) -> bool {
    match (s, i) {
        (ConnectionState::Closed, _) => s2 == ConnectionState::Closed && a == Action::Nothing,
        (ConnectionState::Connected, Input::Cancel) => s2 == ConnectionState::Closed && a
            == Action::CloseAndStop,
        (_, Input::Cancel) => s2 == ConnectionState::Closed && a == Action::Stop,
        (ConnectionState::Disconnected, Input::Start) => s2 == ConnectionState::Connecting {
            attempt: 0,
        } && a == Action::Connect,
        (ConnectionState::Connecting { attempt }, Input::Opened) => s2 == ConnectionState::Connected
            && a == Action::Nothing,
        (ConnectionState::Connecting { attempt }, Input::OpenFailed) => if attempt == 0 {
            s2 == ConnectionState::Closed && a == Action::Fail
        } else {
            s2 == ConnectionState::Reconnecting { attempt } && a == Action::Wait(
                backoff_spec(attempt) as u64,
            )
        },
        (ConnectionState::Reconnecting { attempt }, Input::BackoffElapsed) => s2
            == ConnectionState::Connecting { attempt: next_attempt(attempt) } && a
            == Action::Connect,
        (ConnectionState::Connected, Input::Frame(Frame::Ping(d))) => {
            &&& s2 == ConnectionState::Connected
            &&& a matches Action::SendPong(p) && p@ == d@
        },
        (ConnectionState::Connected, Input::Frame(Frame::Text(t))) => {
            &&& s2 == ConnectionState::Connected
            &&& match json_document(t@) {
                Some(j) => a matches Action::Deliver(e) && decoded_as(j, e),
                None => a == Action::Discard,
            }
        },
        (ConnectionState::Connected, Input::Frame(Frame::Close))
        | (ConnectionState::Connected, Input::ReadError)
        | (ConnectionState::Connected, Input::StreamEnded)
        | (ConnectionState::Connected, Input::ConsumerGone) => s2 == ConnectionState::Connecting {
            attempt: 1,
        } && a == Action::Connect,
        (ConnectionState::Connected, Input::KeepaliveTick) => {
            &&& s2 == ConnectionState::Connected
            &&& a matches Action::SendPing(p) && p.len() == PING_PAYLOAD_LEN
        },
        _ => s2 == s && a == Action::Nothing,
    }
}

/// One step of the supervisor.
///
/// Cancellation stops it from any state at once, closing an open socket
/// first. The first connection either opens or fails back to the caller.
/// Once connected, a ping is answered with a pong that carries its payload,
/// a pong or a binary frame is ignored, a text frame is decoded and handed
/// on (or dropped, where it is not JSON), and the keepalive timer sends a
/// ping. A close frame, a read error, the end of the stream or the loss of
/// the consumer start a reconnect at once; each failed attempt is followed
/// by [`backoff_delay_ms`] of waiting and another attempt, with no limit on
/// their number.
pub fn step(s: ConnectionState, i: Input) -> (r: (ConnectionState, Action))
    ensures
        step_spec(s, i, r.0, r.1),
{
    match (s, i) {
        (ConnectionState::Closed, _) => (ConnectionState::Closed, Action::Nothing),
        (ConnectionState::Connected, Input::Cancel) => (
            ConnectionState::Closed,
            Action::CloseAndStop,
        ),
        (_, Input::Cancel) => (ConnectionState::Closed, Action::Stop),
        (ConnectionState::Disconnected, Input::Start) => (
            ConnectionState::Connecting { attempt: 0 },
            Action::Connect,
        ),
        (ConnectionState::Connecting { attempt }, Input::Opened) => (
            ConnectionState::Connected,
            Action::Nothing,
        ),
        (ConnectionState::Connecting { attempt }, Input::OpenFailed) => {
            if attempt == 0 {
                (ConnectionState::Closed, Action::Fail)
            } else {
                (ConnectionState::Reconnecting { attempt }, Action::Wait(backoff_delay_ms(attempt)))
            }
        },
        (ConnectionState::Reconnecting { attempt }, Input::BackoffElapsed) => {
            let next = if attempt < u64::MAX {
                attempt + 1
            } else {
                attempt
            };
            (ConnectionState::Connecting { attempt: next }, Action::Connect)
        },
        (ConnectionState::Connected, Input::Frame(Frame::Ping(d))) => (
            ConnectionState::Connected,
            Action::SendPong(d),
        ),
        (ConnectionState::Connected, Input::Frame(Frame::Text(t))) => {
            match decode(t.as_str()) {
                Some(e) => (ConnectionState::Connected, Action::Deliver(e)),
                None => (ConnectionState::Connected, Action::Discard),
            }
        },
        (ConnectionState::Connected, Input::Frame(Frame::Close))
        | (ConnectionState::Connected, Input::ReadError)
        | (ConnectionState::Connected, Input::StreamEnded)
        | (ConnectionState::Connected, Input::ConsumerGone) => (
            ConnectionState::Connecting { attempt: 1 },
            Action::Connect,
        ),
        (ConnectionState::Connected, Input::KeepaliveTick) => (
            ConnectionState::Connected,
            Action::SendPing(ping_payload()),
        ),
        (s, _) => (s, Action::Nothing),
    }
}

/// A socket that closes mid-stream is reopened at once, and the text frames
/// that arrive on the new socket are delivered as before, with nothing in
/// between that the consumer would see.
pub proof fn lemma_reconnect_resumes_delivery(
    t: String,
    s1: ConnectionState,
    a1: Action,
    s2: ConnectionState,
    a2: Action,
    s3: ConnectionState,
    a3: Action,
)
    requires
        step_spec(ConnectionState::Connected, Input::Frame(Frame::Close), s1, a1),
        step_spec(s1, Input::Opened, s2, a2),
        step_spec(s2, Input::Frame(Frame::Text(t)), s3, a3),
        json_document(t@) is Some,
    ensures
        s1 == (ConnectionState::Connecting { attempt: 1 }),
        a1 == Action::Connect,
        a2 == Action::Nothing,
        s3 == ConnectionState::Connected,
        a3 matches Action::Deliver(e) && decoded_as(json_document(t@)->0, e),
{
}

/// A text frame that is not JSON, between two that are, is dropped; the
/// connection stays up and the two others are delivered, in order.
pub proof fn lemma_malformed_frame_skipped(
    t1: String,
    bad: String,
    t2: String,
    s1: ConnectionState,
    a1: Action,
    s2: ConnectionState,
    a2: Action,
    s3: ConnectionState,
    a3: Action,
)
    requires
        step_spec(ConnectionState::Connected, Input::Frame(Frame::Text(t1)), s1, a1),
        step_spec(s1, Input::Frame(Frame::Text(bad)), s2, a2),
        step_spec(s2, Input::Frame(Frame::Text(t2)), s3, a3),
        json_document(t1@) is Some,
        json_document(bad@) is None,
        json_document(t2@) is Some,
    ensures
        s1 == ConnectionState::Connected,
        s2 == ConnectionState::Connected,
        s3 == ConnectionState::Connected,
        a1 matches Action::Deliver(e) && decoded_as(json_document(t1@)->0, e),
        a2 == Action::Discard,
        a3 matches Action::Deliver(e) && decoded_as(json_document(t2@)->0, e),
{
}

/// Cancellation during the wait between reconnect attempts stops the
/// supervisor at once, and nothing it is fed afterwards opens a socket again.
pub proof fn lemma_cancel_during_backoff_stops(
    attempt: u64,
    s1: ConnectionState,
    a1: Action,
    i: Input,
    s2: ConnectionState,
    a2: Action,
)
    requires
        step_spec(ConnectionState::Reconnecting { attempt }, Input::Cancel, s1, a1),
        step_spec(s1, i, s2, a2),
    ensures
        s1 == ConnectionState::Closed,
        a1 == Action::Stop,
        s2 == ConnectionState::Closed,
        a2 == Action::Nothing,
{
}

} // verus!
