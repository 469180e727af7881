//! How an HTTP service serves one request of a session: reading the
//! request, asking the application for the response, writing it, and
//! finishing the session so that the connection can be reused.
//!
//! The awaiting is done by the caller; here stand the decisions, as drivers
//! that take what the last step gave and say what to do next.
use vstd::prelude::*;
use bytes::Bytes;
use crate::protocols::{bytes_content, bytes_from_vec};

verus! {

/// How long, in seconds, an idle connection is kept open for the next
/// request while the server is not shutting down.
pub const KEEPALIVE_SECS: u64 = 60;

/// The keepalive timeout set on a session: none while the server is
/// shutting down, so that the connection is not reused, else 60 seconds.
pub open spec fn keepalive_for(shutting_down: bool) -> Option<u64> {
    if shutting_down {
        None
    } else {
        Some(KEEPALIVE_SECS)
    }
}

/// The keepalive timeout to set on a session.
pub fn keepalive_timeout(shutting_down: bool) -> (k: Option<u64>)
    ensures
        k == keepalive_for(shutting_down),
{
    if shutting_down {
        None
    } else {
        Some(KEEPALIVE_SECS)
    }
}

/// What reading the request header gave.
#[derive(Clone, Copy, PartialEq, Eq, Structural, Debug)]
pub enum ReadOutcome {
    /// Reading from the client failed.
    Failed,
    /// No request header could be read.
    NoRequest,
    /// A request header was read.
    Ready,
}

/// What finishing the session gave.
#[derive(Clone, Copy, PartialEq, Eq, Structural, Debug)]
pub enum FinishOutcome {
    /// The session finished and its connection can be reused.
    Reusable,
    /// The session finished and its connection cannot be reused.
    NotReusable,
    /// Finishing the session failed.
    Failed,
}

/// Where a session served by an application that maps requests to responses stands.
#[derive(Clone, Copy, PartialEq, Eq, Structural, Debug)]
pub enum ServePhase {
    ReadRequest,
    Respond,
    WriteHeader,
    WriteBody,
    Finish,
    Done,
}

/// What the caller reports after carrying out the last action.
#[derive(Debug, PartialEq, Eq)]
pub enum ServeEvent {
    /// The result of reading the request header, and whether the server is
    /// shutting down at that moment.
    RequestRead { outcome: ReadOutcome, shutting_down: bool },
    /// The application's response; its header was handed to the caller, its body is here.
    ResponseReady { body: Vec<u8> },
    /// Whether writing the response header succeeded.
    HeaderWritten { ok: bool },
    /// Whether writing the response body succeeded.
    BodyWritten { ok: bool },
    /// The result of finishing the session.
    Finished(FinishOutcome),
}

/// What the caller does next.
#[derive(Debug, PartialEq, Eq)]
pub enum ServeAction {
    /// Read the request header.
    ReadRequest,
    /// Set the keepalive timeout, then ask the application for the response.
    Respond { keepalive: Option<u64> },
    /// Write the response header.
    WriteHeader,
    /// Write the response body, ending the response.
    WriteBody { body: Bytes },
    /// Finish the session.
    Finish,
    /// The session is over: hand the connection back for reuse or drop it.
    Done { reuse: bool },
}

/// A `ServeAction`, with the body it carries seen as its bytes.
pub enum ServeStep {
    ReadRequest,
    Respond { keepalive: Option<u64> },
    WriteHeader,
    WriteBody { body: Seq<u8> },
    Finish,
    Done { reuse: bool },
}

impl View for ServeAction {
    type V = ServeStep;

    open spec fn view(&self) -> ServeStep {
        match self {
            ServeAction::ReadRequest => ServeStep::ReadRequest,
            ServeAction::Respond { keepalive } => ServeStep::Respond { keepalive: *keepalive },
            ServeAction::WriteHeader => ServeStep::WriteHeader,
            ServeAction::WriteBody { body } => ServeStep::WriteBody { body: bytes_content(*body) },
            ServeAction::Finish => ServeStep::Finish,
            ServeAction::Done { reuse } => ServeStep::Done { reuse: *reuse },
        }
    }
}

/// Whether a session in `phase` takes `event`.
pub open spec fn serve_expects(phase: ServePhase, event: ServeEvent) -> bool {
    match (phase, event) {
        (ServePhase::ReadRequest, ServeEvent::RequestRead { .. }) => true,
        (ServePhase::Respond, ServeEvent::ResponseReady { .. }) => true,
        (ServePhase::WriteHeader, ServeEvent::HeaderWritten { .. }) => true,
        (ServePhase::WriteBody, ServeEvent::BodyWritten { .. }) => true,
        (ServePhase::Finish, ServeEvent::Finished(_)) => true,
        _ => false,
    }
}

/// The state of a session: its phase, the response body kept for writing,
/// and whether writing the response failed.
pub struct ServeState {
    pub phase: ServePhase,
    pub body: Seq<u8>,
    pub write_failed: bool,
}

/// The next state and step. A session whose request cannot be read ends
/// without reuse; after a failed write the session is still finished, but
/// its connection is not in a reusable state and is not reused; an empty
/// body is not written; otherwise the connection is reused exactly when
/// finishing says it can be.
pub open spec fn serve_next(s: ServeState, event: ServeEvent) -> (ServeState, ServeStep)
    recommends
        serve_expects(s.phase, event),
{
    match event {
        ServeEvent::RequestRead { outcome, shutting_down } => if outcome == ReadOutcome::Ready {
            (
                ServeState { phase: ServePhase::Respond, ..s },
                ServeStep::Respond { keepalive: keepalive_for(shutting_down) },
            )
        } else {
            (ServeState { phase: ServePhase::Done, ..s }, ServeStep::Done { reuse: false })
        },
        ServeEvent::ResponseReady { body } => (
            ServeState { phase: ServePhase::WriteHeader, body: body@, ..s },
            ServeStep::WriteHeader,
        ),
        ServeEvent::HeaderWritten { ok } => if s.body.len() == 0 {
            (
                ServeState { phase: ServePhase::Finish, write_failed: s.write_failed || !ok, ..s },
                ServeStep::Finish,
            )
        } else {
            (
                ServeState {
                    phase: ServePhase::WriteBody,
                    body: Seq::empty(),
                    write_failed: s.write_failed || !ok,
                },
                ServeStep::WriteBody { body: s.body },
            )
        },
        ServeEvent::BodyWritten { ok } => (
            ServeState { phase: ServePhase::Finish, write_failed: s.write_failed || !ok, ..s },
            ServeStep::Finish,
        ),
        ServeEvent::Finished(outcome) => (
            ServeState { phase: ServePhase::Done, ..s },
            ServeStep::Done { reuse: outcome == FinishOutcome::Reusable && !s.write_failed },
        ),
    }
}

/// The decisions of an application that maps each request to a response,
/// for one request of a session.
pub struct ServeHttpDriver {
    phase: ServePhase,
    body: Vec<u8>,
    write_failed: bool,
}

impl ServeHttpDriver {
    /// The state of the session.
    pub closed spec fn state(self) -> ServeState {
        ServeState { phase: self.phase, body: self.body@, write_failed: self.write_failed }
    }

    /// Start serving a session: the first action is to read the request.
    pub fn new() -> (res: (Self, ServeAction))
        ensures
            res.0.state() == (ServeState {
                phase: ServePhase::ReadRequest,
                body: Seq::<u8>::empty(),
                write_failed: false,
            }),
            res.1@ == ServeStep::ReadRequest,
    {
        (
            ServeHttpDriver { phase: ServePhase::ReadRequest, body: Vec::new(), write_failed: false },
            ServeAction::ReadRequest,
        )
    }

    /// Where the session stands.
    pub fn current_phase(&self) -> (p: ServePhase)
        ensures
            p == self.state().phase,
    {
        self.phase
    }

    /// Whether a write of the response has failed.
    pub fn write_failed(&self) -> (failed: bool)
        ensures
            failed == self.state().write_failed,
    {
        self.write_failed
    }

    /// Whether the driver takes `event` now.
    pub fn expects(&self, event: &ServeEvent) -> (ok: bool)
        ensures
            ok == serve_expects(self.state().phase, *event),
    {
        match (self.phase, event) {
            (ServePhase::ReadRequest, ServeEvent::RequestRead { .. }) => true,
            (ServePhase::Respond, ServeEvent::ResponseReady { .. }) => true,
            (ServePhase::WriteHeader, ServeEvent::HeaderWritten { .. }) => true,
            (ServePhase::WriteBody, ServeEvent::BodyWritten { .. }) => true,
            (ServePhase::Finish, ServeEvent::Finished(_)) => true,
            _ => false,
        }
    }

    /// Take what the last action gave and say what to do next.
    pub fn step(&mut self, event: ServeEvent) -> (action: ServeAction)
        requires
            serve_expects(old(self).state().phase, event),
        ensures
            (final(self).state(), action@) == serve_next(old(self).state(), event),
    {
        match event {
            ServeEvent::RequestRead { outcome, shutting_down } => {
                if outcome == ReadOutcome::Ready {
                    self.phase = ServePhase::Respond;
                    ServeAction::Respond { keepalive: keepalive_timeout(shutting_down) }
                } else {
                    self.phase = ServePhase::Done;
                    ServeAction::Done { reuse: false }
                }
            },
            ServeEvent::ResponseReady { body } => {
                self.phase = ServePhase::WriteHeader;
                self.body = body;
                ServeAction::WriteHeader
            },
            ServeEvent::HeaderWritten { ok } => {
                self.write_failed = self.write_failed || !ok;
                if self.body.len() == 0 {
                    self.phase = ServePhase::Finish;
                    ServeAction::Finish
                } else {
                    let mut body: Vec<u8> = Vec::new();
                    std::mem::swap(&mut body, &mut self.body);
                    self.phase = ServePhase::WriteBody;
                    ServeAction::WriteBody { body: bytes_from_vec(body) }
                }
            },
            ServeEvent::BodyWritten { ok } => {
                self.write_failed = self.write_failed || !ok;
                self.phase = ServePhase::Finish;
                ServeAction::Finish
            },
            ServeEvent::Finished(outcome) => {
                self.phase = ServePhase::Done;
                ServeAction::Done { reuse: outcome == FinishOutcome::Reusable && !self.write_failed }
            },
        }
    }
}

/// A request that cannot be read ends the session at once: the application
/// is not asked and the connection is not reused.
pub proof fn law_unread_request_ends_session(s: ServeState, outcome: ReadOutcome, shutting_down: bool)
    requires
        s.phase == ServePhase::ReadRequest,
        outcome != ReadOutcome::Ready,
    ensures
        serve_next(s, ServeEvent::RequestRead { outcome, shutting_down }).0.phase == ServePhase::Done,
        serve_next(s, ServeEvent::RequestRead { outcome, shutting_down }).1 == (ServeStep::Done {
            reuse: false,
        }),
{
}

/// A read request is answered: the keepalive timeout is set, none while the
/// server shuts down and 60 seconds otherwise, and the application is asked.
pub proof fn law_read_request_is_answered(s: ServeState, shutting_down: bool)
    requires
        s.phase == ServePhase::ReadRequest,
    ensures
        serve_next(s, ServeEvent::RequestRead { outcome: ReadOutcome::Ready, shutting_down }).1
            == (ServeStep::Respond { keepalive: if shutting_down { None } else { Some(60u64) } }),
{
}

/// After a failed write of the response header or body, the connection is
/// not in a reusable state: the session is still finished, but it ends
/// without reuse whatever finishing says.
pub proof fn law_write_failure_not_reused(s: ServeState, outcome: FinishOutcome)
    ensures
        serve_next(ServeState { phase: ServePhase::WriteHeader, ..s }, ServeEvent::HeaderWritten {
            ok: false,
        }).0.write_failed,
        serve_next(ServeState { phase: ServePhase::WriteBody, ..s }, ServeEvent::BodyWritten {
            ok: false,
        }).0.write_failed,
        serve_next(ServeState { phase: ServePhase::WriteBody, ..s }, ServeEvent::BodyWritten {
            ok: false,
        }).1 == ServeStep::Finish,
        s.write_failed ==> serve_next(
            ServeState { phase: ServePhase::Finish, ..s },
            ServeEvent::Finished(outcome),
        ).1 == (ServeStep::Done { reuse: false }),
{
}

/// After the header, the application's body is written whole, in one write
/// that ends the response; an empty body is not written at all.
pub proof fn law_response_body_written(s: ServeState, body: Vec<u8>, ok: bool)
    requires
        s.phase == ServePhase::Respond,
    ensures
        ({
            let (t, _) = serve_next(s, ServeEvent::ResponseReady { body });
            let (_, step) = serve_next(t, ServeEvent::HeaderWritten { ok });
            &&& t.phase == ServePhase::WriteHeader
            &&& body@.len() == 0 ==> step == ServeStep::Finish
            &&& body@.len() > 0 ==> step == (ServeStep::WriteBody { body: body@ })
        }),
{
}

/// The connection is handed back for reuse exactly when finishing the
/// session says it can be and no write of the response failed.
pub proof fn law_reuse_only_when_finished(s: ServeState, event: ServeEvent)
    requires
        serve_expects(s.phase, event),
    ensures
        (serve_next(s, event).1 == (ServeStep::Done { reuse: true })) <==> (!s.write_failed && (
        event matches ServeEvent::Finished(o) && o == FinishOutcome::Reusable)),
{
}

/// A successful write never marks the response as failed, empty body or
/// not; so a session whose writes all succeeded is handed back for reuse
/// when finishing says it can be.
pub proof fn law_successful_writes_keep_reuse(s: ServeState)
    ensures
        serve_next(ServeState { phase: ServePhase::WriteHeader, ..s }, ServeEvent::HeaderWritten {
            ok: true,
        }).0.write_failed == s.write_failed,
        serve_next(ServeState { phase: ServePhase::WriteBody, ..s }, ServeEvent::BodyWritten {
            ok: true,
        }).0.write_failed == s.write_failed,
        serve_next(ServeState { phase: ServePhase::WriteBody, ..s }, ServeEvent::BodyWritten {
            ok: true,
        }).1 == ServeStep::Finish,
        !s.write_failed ==> serve_next(
            ServeState { phase: ServePhase::Finish, ..s },
            ServeEvent::Finished(FinishOutcome::Reusable),
        ).1 == (ServeStep::Done { reuse: true }),
{
}

/// A session whose request was read, whose header and (possibly empty) body
/// were written without failure, and whose finish says reusable, is handed
/// back for reuse.
pub proof fn law_clean_session_is_reused(s: ServeState, shutting_down: bool, body: Vec<u8>)
    requires
        s.phase == ServePhase::ReadRequest,
        !s.write_failed,
    ensures
        ({
            let (s1, _) = serve_next(s, ServeEvent::RequestRead { outcome: ReadOutcome::Ready, shutting_down });
            let (s2, _) = serve_next(s1, ServeEvent::ResponseReady { body });
            let (s3, a3) = serve_next(s2, ServeEvent::HeaderWritten { ok: true });
            let s4 = if a3 == ServeStep::Finish {
                s3
            } else {
                serve_next(s3, ServeEvent::BodyWritten { ok: true }).0
            };
            &&& s4.phase == ServePhase::Finish
            &&& serve_next(s4, ServeEvent::Finished(FinishOutcome::Reusable)).1 == (ServeStep::Done {
                reuse: true,
            })
        }),
{
}

/// After every step the session waits for exactly the result of the action
/// it asked for, and is over after `Done`.
pub proof fn law_phase_follows_action(s: ServeState, event: ServeEvent)
    requires
        serve_expects(s.phase, event),
    ensures
        ({
            let (t, a) = serve_next(s, event);
            &&& a !is ReadRequest
            &&& a is Respond ==> t.phase == ServePhase::Respond
            &&& a is WriteHeader ==> t.phase == ServePhase::WriteHeader
            &&& a is WriteBody ==> t.phase == ServePhase::WriteBody
            &&& a is Finish ==> t.phase == ServePhase::Finish
            &&& a is Done ==> t.phase == ServePhase::Done
        }),
{
}

} // verus!
