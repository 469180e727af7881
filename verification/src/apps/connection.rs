//! What an HTTP service does with an accepted connection: whether it is
//! served as HTTP/1.1 or HTTP/2, and how an HTTP/2 connection hands out its
//! streams until it closes or the server shuts down.
//!
//! The awaiting is done by the caller; here stand the decisions, as a
//! driver that takes what the last step gave and says what to do next.
use vstd::prelude::*;
use crate::apps::http_app::{h2_preface, is_h2_preface, HttpServerOptions};

verus! {

/// What peeking at the first bytes of a connection gave. The buffer is
/// `H2_PREFACE_LEN` bytes long, zeros where nothing was read.
#[derive(Debug, PartialEq, Eq)]
pub enum PeekOutcome {
    /// Reading failed; the connection is dropped.
    Failed,
    /// The stream does not support peeking.
    Unsupported,
    /// The bytes peeked.
    Peeked(Vec<u8>),
}

/// What one round of waiting on an HTTP/2 connection gave.
#[derive(Clone, Copy, PartialEq, Eq, Structural, Debug)]
pub enum StreamEvent {
    /// The server is shutting down.
    Shutdown,
    /// Accepting the next stream failed.
    AcceptFailed,
    /// The client closed the connection: there is no further stream.
    Closed,
    /// A new stream arrived.
    NewStream,
}

/// What the caller reports after carrying out the last action.
#[derive(Debug, PartialEq, Eq)]
pub enum ConnEvent {
    /// The result of `ConnAction::PeekPreface`.
    Peeked(PeekOutcome),
    /// The result of `ConnAction::Handshake`: whether the HTTP/2 handshake succeeded.
    Handshake(bool),
    /// The result of waiting for the next HTTP/2 stream.
    Stream(StreamEvent),
}

/// What the caller does next.
#[derive(Clone, Copy, PartialEq, Eq, Structural, Debug)]
pub enum ConnAction {
    /// Peek `H2_PREFACE_LEN` bytes of the connection.
    PeekPreface,
    /// Build the shared connection digest, ask the application for its
    /// HTTP/2 options, and perform the HTTP/2 handshake with them.
    Handshake,
    /// Serve the connection as HTTP/1.1 and return what that gives back:
    /// the connection, if it can be reused. This ends the driver.
    ServeHttp1,
    /// Wait for the next HTTP/2 stream or for the server to shut down.
    AwaitStream,
    /// Spawn a task that serves the new stream as HTTP/2, then wait for the
    /// next stream or for the server to shut down.
    SpawnStream,
    /// Start a graceful shutdown of the HTTP/2 connection, wait until it is
    /// closed, then drop it.
    GracefulShutdown,
    /// Drop the connection.
    Drop,
}

/// Where the driver stands.
#[derive(Clone, Copy, PartialEq, Eq, Structural, Debug)]
pub enum ConnPhase {
    /// Waiting for the result of peeking.
    Peeking,
    /// Waiting for the result of the HTTP/2 handshake.
    Handshaking,
    /// Serving HTTP/2 streams.
    Serving,
    /// Done: the connection was handed to HTTP/1.1 or dropped.
    Done,
}

/// Whether h2c is configured: options are given and ask for it.
pub open spec fn h2c_configured(options: Option<HttpServerOptions>) -> bool {
    options matches Some(o) && o.h2c
}

/// The first step: peek for the preface when h2c is configured; otherwise
/// HTTP/2 if ALPN selected it, else HTTP/1.1.
pub open spec fn conn_start(h2c: bool, alpn_h2: bool) -> (ConnPhase, ConnAction) {
    if h2c {
        (ConnPhase::Peeking, ConnAction::PeekPreface)
    } else if alpn_h2 {
        (ConnPhase::Handshaking, ConnAction::Handshake)
    } else {
        (ConnPhase::Done, ConnAction::ServeHttp1)
    }
}

/// Whether the driver in `phase` takes `event`.
pub open spec fn conn_expects(phase: ConnPhase, event: ConnEvent) -> bool {
    match (phase, event) {
        (ConnPhase::Peeking, ConnEvent::Peeked(_)) => true,
        (ConnPhase::Handshaking, ConnEvent::Handshake(_)) => true,
        (ConnPhase::Serving, ConnEvent::Stream(_)) => true,
        _ => false,
    }
}

/// The next phase and action. After a peek, HTTP/2 is chosen when the
/// preface was seen, when the stream cannot be peeked (h2c stays on), or
/// when ALPN selected HTTP/2.
pub open spec fn conn_next(phase: ConnPhase, alpn_h2: bool, event: ConnEvent) -> (ConnPhase, ConnAction)
    recommends
        conn_expects(phase, event),
{
    match event {
        ConnEvent::Peeked(PeekOutcome::Failed) => (ConnPhase::Done, ConnAction::Drop),
        ConnEvent::Peeked(PeekOutcome::Unsupported) => (ConnPhase::Handshaking, ConnAction::Handshake),
        ConnEvent::Peeked(PeekOutcome::Peeked(buf)) => if buf@ == h2_preface() || alpn_h2 {
            (ConnPhase::Handshaking, ConnAction::Handshake)
        } else {
            (ConnPhase::Done, ConnAction::ServeHttp1)
        },
        ConnEvent::Handshake(ok) => if ok {
            (ConnPhase::Serving, ConnAction::AwaitStream)
        } else {
            (ConnPhase::Done, ConnAction::Drop)
        },
        ConnEvent::Stream(StreamEvent::NewStream) => (ConnPhase::Serving, ConnAction::SpawnStream),
        ConnEvent::Stream(StreamEvent::Shutdown) => (ConnPhase::Done, ConnAction::GracefulShutdown),
        ConnEvent::Stream(_) => (ConnPhase::Done, ConnAction::Drop),
    }
}

/// The decisions of an HTTP service about one accepted connection.
pub struct ConnectionDriver {
    phase: ConnPhase,
    alpn_h2: bool,
}

impl ConnectionDriver {
    /// Where the driver stands.
    pub closed spec fn phase(self) -> ConnPhase {
        self.phase
    }

    /// Whether ALPN selected HTTP/2 for the connection.
    pub closed spec fn alpn_h2(self) -> bool {
        self.alpn_h2
    }

    /// Start on a connection, given the options of the application and
    /// whether ALPN selected HTTP/2. Returns the driver and the first action.
    pub fn new(options: Option<&HttpServerOptions>, alpn_h2: bool) -> (res: (Self, ConnAction))
        ensures
            (res.0.phase(), res.1) == conn_start(
                h2c_configured(match options { Some(o) => Some(*o), None => None }),
                alpn_h2,
            ),
            res.0.alpn_h2() == alpn_h2,
    {
        let h2c = match options {
            Some(o) => o.h2c,
            None => false,
        };
        let (phase, action) = if h2c {
            (ConnPhase::Peeking, ConnAction::PeekPreface)
        } else if alpn_h2 {
            (ConnPhase::Handshaking, ConnAction::Handshake)
        } else {
            (ConnPhase::Done, ConnAction::ServeHttp1)
        };
        (ConnectionDriver { phase, alpn_h2 }, action)
    }

    /// Where the driver stands.
    pub fn current_phase(&self) -> (p: ConnPhase)
        ensures
            p == self.phase(),
    {
        self.phase
    }

    /// Whether the driver takes `event` now.
    pub fn expects(&self, event: &ConnEvent) -> (ok: bool)
        ensures
            ok == conn_expects(self.phase(), *event),
    {
        match (self.phase, event) {
            (ConnPhase::Peeking, ConnEvent::Peeked(_)) => true,
            (ConnPhase::Handshaking, ConnEvent::Handshake(_)) => true,
            (ConnPhase::Serving, ConnEvent::Stream(_)) => true,
            _ => false,
        }
    }

    /// Take what the last action gave and say what to do next.
    pub fn step(&mut self, event: ConnEvent) -> (action: ConnAction)
        requires
            conn_expects(old(self).phase(), event),
        ensures
            (final(self).phase(), action) == conn_next(old(self).phase(), old(self).alpn_h2(), event),
            final(self).alpn_h2() == old(self).alpn_h2(),
    {
        let (phase, action) = match event {
            ConnEvent::Peeked(PeekOutcome::Failed) => (ConnPhase::Done, ConnAction::Drop),
            ConnEvent::Peeked(PeekOutcome::Unsupported) => (
                ConnPhase::Handshaking,
                ConnAction::Handshake,
            ),
            ConnEvent::Peeked(PeekOutcome::Peeked(buf)) => {
                if is_h2_preface(buf.as_slice()) || self.alpn_h2 {
                    (ConnPhase::Handshaking, ConnAction::Handshake)
                } else {
                    (ConnPhase::Done, ConnAction::ServeHttp1)
                }
            },
            ConnEvent::Handshake(ok) => {
                if ok {
                    (ConnPhase::Serving, ConnAction::AwaitStream)
                } else {
                    (ConnPhase::Done, ConnAction::Drop)
                }
            },
            ConnEvent::Stream(StreamEvent::NewStream) => (ConnPhase::Serving, ConnAction::SpawnStream),
            ConnEvent::Stream(StreamEvent::Shutdown) => (
                ConnPhase::Done,
                ConnAction::GracefulShutdown,
            ),
            ConnEvent::Stream(_) => (ConnPhase::Done, ConnAction::Drop),
        };
        self.phase = phase;
        action
    }
}

/// The first bytes of a connection are peeked for the HTTP/2 preface only
/// when h2c is configured.
pub proof fn law_peek_only_with_h2c(h2c: bool, alpn_h2: bool)
    ensures
        (conn_start(h2c, alpn_h2).1 == ConnAction::PeekPreface) <==> h2c,
{
}

/// The action taken once the protocol is known: after the first step, and
/// after the peek when the first step peeks.
pub open spec fn protocol_action(h2c: bool, alpn_h2: bool, peek: PeekOutcome) -> ConnAction {
    let (phase, action) = conn_start(h2c, alpn_h2);
    if action == ConnAction::PeekPreface {
        conn_next(phase, alpn_h2, ConnEvent::Peeked(peek)).1
    } else {
        action
    }
}

/// A connection is dropped before any HTTP is served exactly when h2c is
/// configured and peeking fails. Otherwise it is served as HTTP/2 when ALPN
/// selected HTTP/2, or when h2c is configured and either the HTTP/2 preface
/// was seen or the stream cannot be peeked; in every other case it is served
/// as HTTP/1.1.
pub proof fn law_protocol_selection(h2c: bool, alpn_h2: bool, peek: PeekOutcome)
    ensures
        (protocol_action(h2c, alpn_h2, peek) == ConnAction::Drop) <==> (h2c
            && peek is Failed),
        (protocol_action(h2c, alpn_h2, peek) == ConnAction::Handshake) <==> (!(h2c
            && peek is Failed) && (alpn_h2 || (h2c && (peek is Unsupported || (
        peek matches PeekOutcome::Peeked(buf) && buf@ == h2_preface()))))),
        (protocol_action(h2c, alpn_h2, peek) == ConnAction::ServeHttp1) <==> (!(h2c
            && peek is Failed) && !alpn_h2 && !(h2c && (peek is Unsupported || (
        peek matches PeekOutcome::Peeked(buf) && buf@ == h2_preface())))),
{
}

/// Once HTTP/2 is chosen the connection is never served as HTTP/1.1: every
/// step from the handshake on keeps serving HTTP/2 or ends the connection,
/// so an HTTP/2 connection is never handed back for reuse. Nor is the
/// handshake asked for again: the application's HTTP/2 options are asked
/// for once per HTTP/2 connection.
pub proof fn law_http2_never_http1(phase: ConnPhase, alpn_h2: bool, event: ConnEvent)
    requires
        phase == ConnPhase::Handshaking || phase == ConnPhase::Serving,
        conn_expects(phase, event),
    ensures
        conn_next(phase, alpn_h2, event).1 != ConnAction::ServeHttp1,
        conn_next(phase, alpn_h2, event).1 != ConnAction::Handshake,
        conn_next(phase, alpn_h2, event).0 == ConnPhase::Serving || conn_next(
            phase,
            alpn_h2,
            event,
        ).0 == ConnPhase::Done,
{
}

/// An HTTP/2 connection keeps serving exactly while new streams arrive, and
/// each new stream is handed to a task of its own; a shutdown of the server
/// closes it gracefully, and a failure or the client's close drops it.
pub proof fn law_serving_loop(alpn_h2: bool, event: StreamEvent)
    ensures
        (conn_next(ConnPhase::Serving, alpn_h2, ConnEvent::Stream(event)).0 == ConnPhase::Serving)
            <==> (event == StreamEvent::NewStream),
        (conn_next(ConnPhase::Serving, alpn_h2, ConnEvent::Stream(event)).1
            == ConnAction::SpawnStream) <==> (event == StreamEvent::NewStream),
        (conn_next(ConnPhase::Serving, alpn_h2, ConnEvent::Stream(event)).1
            == ConnAction::GracefulShutdown) <==> (event == StreamEvent::Shutdown),
{
}

/// A successful HTTP/2 handshake always leads to serving streams, whether
/// the HTTP/2 choice came from ALPN or from the h2c preface; a failed one
/// drops the connection.
pub proof fn law_handshake_outcome(alpn_h2: bool)
    ensures
        conn_next(ConnPhase::Handshaking, alpn_h2, ConnEvent::Handshake(true)) == (
            ConnPhase::Serving,
            ConnAction::AwaitStream,
        ),
        conn_next(ConnPhase::Handshaking, alpn_h2, ConnEvent::Handshake(false)) == (
            ConnPhase::Done,
            ConnAction::Drop,
        ),
{
}

/// After every step the driver waits for exactly the result of the action
/// it asked for: a peek's result after `PeekPreface`, the handshake's result
/// after `Handshake`, the next stream after `AwaitStream` or `SpawnStream`,
/// and nothing after an action that ends the connection.
pub proof fn law_phase_follows_action(h2c: bool, phase: ConnPhase, alpn_h2: bool, event: ConnEvent)
    ensures
        ({
            let (p, a) = conn_start(h2c, alpn_h2);
            &&& a == ConnAction::PeekPreface ==> p == ConnPhase::Peeking
            &&& a == ConnAction::Handshake ==> p == ConnPhase::Handshaking
            &&& a == ConnAction::ServeHttp1 ==> p == ConnPhase::Done
        }),
        ({
            let (p, a) = conn_next(phase, alpn_h2, event);
            &&& a != ConnAction::PeekPreface
            &&& a == ConnAction::Handshake ==> p == ConnPhase::Handshaking
            &&& (a == ConnAction::AwaitStream || a == ConnAction::SpawnStream) ==> p
                == ConnPhase::Serving
            &&& (a == ConnAction::ServeHttp1 || a == ConnAction::GracefulShutdown || a
                == ConnAction::Drop) ==> p == ConnPhase::Done
        }),
{
}

/// A finished driver takes no further event.
pub proof fn law_done_is_final(event: ConnEvent)
    ensures
        !conn_expects(ConnPhase::Done, event),
{
}

} // verus!
