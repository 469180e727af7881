//! How an HTTP server with modules serves one request of a session: the
//! request header filters of the modules run in order before the
//! application is asked for the response, and the response header and body
//! filters run in order before each is written. A failing filter ends the
//! session, and a failed write leaves the connection unusable: in either
//! case the connection is not reused.
//!
//! The awaiting is done by the caller; here stand the decisions.
use vstd::prelude::*;
use bytes::Bytes;
use crate::apps::session::{keepalive_for, keepalive_timeout, FinishOutcome, ReadOutcome};
use crate::modules::http::{module_types, sorted_by_order, HttpModuleCtx, ModuleBuilder};
use crate::protocols::{bytes_from_vec, opt_bytes_content};

verus! {

/// Where a session of an HTTP server with modules stands.
#[derive(Clone, Copy, PartialEq, Eq, Structural, Debug)]
pub enum ServerPhase {
    ReadRequest,
    /// Keepalive is being set and the module contexts built.
    Prepare,
    /// The request header filter of the module at this position is running.
    RequestFilter(usize),
    Respond,
    /// The response header filter of the module at this position is running.
    ResponseFilter(usize),
    WriteHeader,
    /// The response body filter of the module at this position is running.
    BodyFilter(usize),
    WriteBody,
    Finish,
    Done,
}

/// What the caller reports after carrying out the last action.
#[derive(Debug, PartialEq, Eq)]
#[allow(inconsistent_fields)]
pub enum ServerEvent {
    /// The result of reading the request header, and whether the server is
    /// shutting down at that moment.
    RequestRead { outcome: ReadOutcome, shutting_down: bool },
    /// The module contexts built for this request, in the order in which
    /// their filters run.
    Prepared { ctx: HttpModuleCtx },
    /// Whether the request header filter succeeded.
    RequestFiltered { ok: bool },
    /// The application's response; its header was handed to the caller, its body is here.
    ResponseReady { body: Vec<u8> },
    /// Whether the response header filter succeeded.
    ResponseFiltered { ok: bool },
    /// Whether writing the response header succeeded.
    HeaderWritten { ok: bool },
    /// Whether the response body filter succeeded, and the body it left.
    BodyFiltered { ok: bool, body: Option<Bytes> },
    /// Whether writing the response body succeeded.
    BodyWritten { ok: bool },
    /// The result of finishing the session.
    Finished(FinishOutcome),
}

/// What the caller does next.
#[derive(Debug, PartialEq, Eq)]
pub enum ServerAction {
    /// Read the request header.
    ReadRequest,
    /// Set the keepalive timeout and build the module contexts.
    Prepare { keepalive: Option<u64> },
    /// Run the request header filter of the module at this position, of this type.
    RequestFilter { module: usize, module_type: u64 },
    /// Ask the application for the response.
    Respond,
    /// Run the response header filter of the module at this position, of this type.
    ResponseFilter { module: usize, module_type: u64, end_of_stream: bool },
    /// Write the response header.
    WriteHeader { end_of_stream: bool },
    /// Run the response body filter of the module at this position, of this
    /// type, on this body.
    BodyFilter { module: usize, module_type: u64, body: Option<Bytes>, end_of_stream: bool },
    /// Write the response body.
    WriteBody { body: Option<Bytes>, end_of_stream: bool },
    /// Finish the session.
    Finish,
    /// The session is over: hand the connection back for reuse or drop it.
    Done { reuse: bool },
}

/// A `ServerAction`, with the bodies it carries seen as their bytes.
pub enum ServerStep {
    ReadRequest,
    Prepare { keepalive: Option<u64> },
    RequestFilter { module: usize, module_type: u64 },
    Respond,
    ResponseFilter { module: usize, module_type: u64, end_of_stream: bool },
    WriteHeader { end_of_stream: bool },
    BodyFilter { module: usize, module_type: u64, body: Option<Seq<u8>>, end_of_stream: bool },
    WriteBody { body: Option<Seq<u8>>, end_of_stream: bool },
    Finish,
    Done { reuse: bool },
}

impl View for ServerAction {
    type V = ServerStep;

    open spec fn view(&self) -> ServerStep {
        match self {
            ServerAction::ReadRequest => ServerStep::ReadRequest,
            ServerAction::Prepare { keepalive } => ServerStep::Prepare { keepalive: *keepalive },
            ServerAction::RequestFilter { module, module_type } => ServerStep::RequestFilter {
                module: *module,
                module_type: *module_type,
            },
            ServerAction::Respond => ServerStep::Respond,
            ServerAction::ResponseFilter { module, module_type, end_of_stream } =>
                ServerStep::ResponseFilter {
                    module: *module,
                    module_type: *module_type,
                    end_of_stream: *end_of_stream,
                },
            ServerAction::WriteHeader { end_of_stream } => ServerStep::WriteHeader {
                end_of_stream: *end_of_stream,
            },
            ServerAction::BodyFilter { module, module_type, body, end_of_stream } =>
                ServerStep::BodyFilter {
                    module: *module,
                    module_type: *module_type,
                    body: opt_bytes_content(*body),
                    end_of_stream: *end_of_stream,
                },
            ServerAction::WriteBody { body, end_of_stream } => ServerStep::WriteBody {
                body: opt_bytes_content(*body),
                end_of_stream: *end_of_stream,
            },
            ServerAction::Finish => ServerStep::Finish,
            ServerAction::Done { reuse } => ServerStep::Done { reuse: *reuse },
        }
    }
}

/// The state of a session: its phase, the types of the modules in the order
/// in which their filters run, whether the response body is empty, the
/// response body kept between steps, and whether writing the response
/// failed.
pub struct ServerState {
    pub phase: ServerPhase,
    pub module_types: Seq<u64>,
    pub end_of_stream: bool,
    pub body: Option<Seq<u8>>,
    pub write_failed: bool,
}

/// The filter positions in a phase are those of modules.
pub open spec fn server_state_wf(s: ServerState) -> bool {
    &&& s.module_types.len() <= usize::MAX
    &&& match s.phase {
        ServerPhase::RequestFilter(i) => i < s.module_types.len(),
        ServerPhase::ResponseFilter(i) => i < s.module_types.len(),
        ServerPhase::BodyFilter(i) => i < s.module_types.len(),
        _ => true,
    }
}

/// Whether a session in `phase` takes `event`.
pub open spec fn server_expects(phase: ServerPhase, event: ServerEvent) -> bool {
    match (phase, event) {
        (ServerPhase::ReadRequest, ServerEvent::RequestRead { .. }) => true,
        (ServerPhase::Prepare, ServerEvent::Prepared { .. }) => true,
        (ServerPhase::RequestFilter(_), ServerEvent::RequestFiltered { .. }) => true,
        (ServerPhase::Respond, ServerEvent::ResponseReady { .. }) => true,
        (ServerPhase::ResponseFilter(_), ServerEvent::ResponseFiltered { .. }) => true,
        (ServerPhase::WriteHeader, ServerEvent::HeaderWritten { .. }) => true,
        (ServerPhase::BodyFilter(_), ServerEvent::BodyFiltered { .. }) => true,
        (ServerPhase::WriteBody, ServerEvent::BodyWritten { .. }) => true,
        (ServerPhase::Finish, ServerEvent::Finished(_)) => true,
        _ => false,
    }
}

/// The session is over without reuse.
pub open spec fn server_abort(s: ServerState) -> (ServerState, ServerStep) {
    (ServerState { phase: ServerPhase::Done, ..s }, ServerStep::Done { reuse: false })
}

/// Run the request header filter of the module at `i`.
pub open spec fn server_request_filter(s: ServerState, i: int) -> (ServerState, ServerStep) {
    (
        ServerState { phase: ServerPhase::RequestFilter(i as usize), ..s },
        ServerStep::RequestFilter { module: i as usize, module_type: s.module_types[i] },
    )
}

/// After the request header filters: ask the application.
pub open spec fn server_respond(s: ServerState) -> (ServerState, ServerStep) {
    (ServerState { phase: ServerPhase::Respond, ..s }, ServerStep::Respond)
}

/// Run the response header filter of the module at `i`.
pub open spec fn server_response_filter(s: ServerState, i: int) -> (ServerState, ServerStep) {
    (
        ServerState { phase: ServerPhase::ResponseFilter(i as usize), ..s },
        ServerStep::ResponseFilter {
            module: i as usize,
            module_type: s.module_types[i],
            end_of_stream: s.end_of_stream,
        },
    )
}

/// After the response header filters: write the header.
pub open spec fn server_write_header(s: ServerState) -> (ServerState, ServerStep) {
    (
        ServerState { phase: ServerPhase::WriteHeader, ..s },
        ServerStep::WriteHeader { end_of_stream: s.end_of_stream },
    )
}

/// Run the body filter of the module at `i` on `body`.
pub open spec fn server_body_filter(s: ServerState, i: int, body: Option<Seq<u8>>) -> (
    ServerState,
    ServerStep,
) {
    (
        ServerState { phase: ServerPhase::BodyFilter(i as usize), body: None, ..s },
        ServerStep::BodyFilter {
            module: i as usize,
            module_type: s.module_types[i],
            body,
            end_of_stream: true,
        },
    )
}

/// After the body filters: write the body, ending the response.
pub open spec fn server_write_body(s: ServerState, body: Option<Seq<u8>>) -> (ServerState, ServerStep) {
    (
        ServerState { phase: ServerPhase::WriteBody, body: None, ..s },
        ServerStep::WriteBody { body, end_of_stream: true },
    )
}

/// The next state and step of a session.
pub open spec fn server_next(s: ServerState, event: ServerEvent) -> (ServerState, ServerStep)
    recommends
        server_expects(s.phase, event),
{
    match event {
        ServerEvent::RequestRead { outcome, shutting_down } => if outcome == ReadOutcome::Ready {
            (
                ServerState { phase: ServerPhase::Prepare, ..s },
                ServerStep::Prepare { keepalive: keepalive_for(shutting_down) },
            )
        } else {
            server_abort(s)
        },
        ServerEvent::Prepared { ctx } => {
            let s2 = ServerState { module_types: ctx.module_types(), ..s };
            if s2.module_types.len() > 0 {
                server_request_filter(s2, 0)
            } else {
                server_respond(s2)
            }
        },
        ServerEvent::RequestFiltered { ok } => if !ok {
            server_abort(s)
        } else {
            match s.phase {
                ServerPhase::RequestFilter(i) => if i + 1 < s.module_types.len() {
                    server_request_filter(s, i + 1)
                } else {
                    server_respond(s)
                },
                _ => server_respond(s),
            }
        },
        ServerEvent::ResponseReady { body } => {
            let s2 = ServerState { end_of_stream: body@.len() == 0, body: Some(body@), ..s };
            if s.module_types.len() > 0 {
                server_response_filter(s2, 0)
            } else {
                server_write_header(s2)
            }
        },
        ServerEvent::ResponseFiltered { ok } => if !ok {
            server_abort(s)
        } else {
            match s.phase {
                ServerPhase::ResponseFilter(i) => if i + 1 < s.module_types.len() {
                    server_response_filter(s, i + 1)
                } else {
                    server_write_header(s)
                },
                _ => server_write_header(s),
            }
        },
        ServerEvent::HeaderWritten { ok } => {
            let s2 = ServerState { write_failed: s.write_failed || !ok, ..s };
            if s.module_types.len() > 0 {
                server_body_filter(s2, 0, s.body)
            } else {
                server_write_body(s2, s.body)
            }
        },
        ServerEvent::BodyFiltered { ok, body } => if !ok {
            server_abort(s)
        } else {
            match s.phase {
                ServerPhase::BodyFilter(i) => if i + 1 < s.module_types.len() {
                    server_body_filter(s, i + 1, opt_bytes_content(body))
                } else {
                    server_write_body(s, opt_bytes_content(body))
                },
                _ => server_write_body(s, opt_bytes_content(body)),
            }
        },
        ServerEvent::BodyWritten { ok } => (
            ServerState { phase: ServerPhase::Finish, write_failed: s.write_failed || !ok, ..s },
            ServerStep::Finish,
        ),
        ServerEvent::Finished(outcome) => (
            ServerState { phase: ServerPhase::Done, ..s },
            ServerStep::Done { reuse: outcome == FinishOutcome::Reusable && !s.write_failed },
        ),
    }
}

/// The decisions of an HTTP server with modules, for one request of a session.
pub struct HttpServerDriver {
    phase: ServerPhase,
    module_types: Vec<u64>,
    end_of_stream: bool,
    body: Option<Bytes>,
    write_failed: bool,
}

impl HttpServerDriver {
    /// The state of the session.
    pub closed spec fn state(self) -> ServerState {
        ServerState {
            phase: self.phase,
            module_types: self.module_types@,
            end_of_stream: self.end_of_stream,
            body: opt_bytes_content(self.body),
            write_failed: self.write_failed,
        }
    }

    /// Start serving a session: the first action is to read the request.
    pub fn new() -> (res: (Self, ServerAction))
        ensures
            res.0.state() == (ServerState {
                phase: ServerPhase::ReadRequest,
                module_types: Seq::<u64>::empty(),
                end_of_stream: false,
                body: None,
                write_failed: false,
            }),
            server_state_wf(res.0.state()),
            res.1@ == ServerStep::ReadRequest,
    {
        (
            HttpServerDriver {
                phase: ServerPhase::ReadRequest,
                module_types: Vec::new(),
                end_of_stream: false,
                body: None,
                write_failed: false,
            },
            ServerAction::ReadRequest,
        )
    }

    /// Where the session stands.
    pub fn current_phase(&self) -> (p: ServerPhase)
        ensures
            p == self.state().phase,
    {
        self.phase
    }

    /// Whether a write of the response has failed.
    pub fn write_failed(&self) -> (failed: bool)
        ensures
            failed == self.state().write_failed,
    {
        self.write_failed
    }

    /// Whether the driver takes `event` now.
    pub fn expects(&self, event: &ServerEvent) -> (ok: bool)
        ensures
            ok == server_expects(self.state().phase, *event),
    {
        match (self.phase, event) {
            (ServerPhase::ReadRequest, ServerEvent::RequestRead { .. }) => true,
            (ServerPhase::Prepare, ServerEvent::Prepared { .. }) => true,
            (ServerPhase::RequestFilter(_), ServerEvent::RequestFiltered { .. }) => true,
            (ServerPhase::Respond, ServerEvent::ResponseReady { .. }) => true,
            (ServerPhase::ResponseFilter(_), ServerEvent::ResponseFiltered { .. }) => true,
            (ServerPhase::WriteHeader, ServerEvent::HeaderWritten { .. }) => true,
            (ServerPhase::BodyFilter(_), ServerEvent::BodyFiltered { .. }) => true,
            (ServerPhase::WriteBody, ServerEvent::BodyWritten { .. }) => true,
            (ServerPhase::Finish, ServerEvent::Finished(_)) => true,
            _ => false,
        }
    }

    /// Take what the last action gave and say what to do next.
    pub fn step(&mut self, event: ServerEvent) -> (action: ServerAction)
        requires
            server_state_wf(old(self).state()),
            server_expects(old(self).state().phase, event),
        ensures
            (final(self).state(), action@) == server_next(old(self).state(), event),
            server_state_wf(final(self).state()),
    {
        match event {
            ServerEvent::RequestRead { outcome, shutting_down } => {
                if outcome == ReadOutcome::Ready {
                    self.phase = ServerPhase::Prepare;
                    ServerAction::Prepare { keepalive: keepalive_timeout(shutting_down) }
                } else {
                    self.phase = ServerPhase::Done;
                    ServerAction::Done { reuse: false }
                }
            },
            ServerEvent::Prepared { ctx } => {
                self.module_types = ctx.into_module_types();
                if self.module_types.len() > 0 {
                    self.phase = ServerPhase::RequestFilter(0);
                    ServerAction::RequestFilter { module: 0, module_type: self.module_types[0] }
                } else {
                    self.phase = ServerPhase::Respond;
                    ServerAction::Respond
                }
            },
            ServerEvent::RequestFiltered { ok } => {
                if !ok {
                    self.phase = ServerPhase::Done;
                    return ServerAction::Done { reuse: false };
                }
                match self.phase {
                    ServerPhase::RequestFilter(i) => {
                        if i + 1 < self.module_types.len() {
                            self.phase = ServerPhase::RequestFilter(i + 1);
                            ServerAction::RequestFilter {
                                module: i + 1,
                                module_type: self.module_types[i + 1],
                            }
                        } else {
                            self.phase = ServerPhase::Respond;
                            ServerAction::Respond
                        }
                    },
                    _ => {
                        self.phase = ServerPhase::Respond;
                        ServerAction::Respond
                    },
                }
            },
            ServerEvent::ResponseReady { body } => {
                self.end_of_stream = body.len() == 0;
                self.body = Some(bytes_from_vec(body));
                if self.module_types.len() > 0 {
                    self.phase = ServerPhase::ResponseFilter(0);
                    ServerAction::ResponseFilter {
                        module: 0,
                        module_type: self.module_types[0],
                        end_of_stream: self.end_of_stream,
                    }
                } else {
                    self.phase = ServerPhase::WriteHeader;
                    ServerAction::WriteHeader { end_of_stream: self.end_of_stream }
                }
            },
            ServerEvent::ResponseFiltered { ok } => {
                if !ok {
                    self.phase = ServerPhase::Done;
                    return ServerAction::Done { reuse: false };
                }
                match self.phase {
                    ServerPhase::ResponseFilter(i) => {
                        if i + 1 < self.module_types.len() {
                            self.phase = ServerPhase::ResponseFilter(i + 1);
                            ServerAction::ResponseFilter {
                                module: i + 1,
                                module_type: self.module_types[i + 1],
                                end_of_stream: self.end_of_stream,
                            }
                        } else {
                            self.phase = ServerPhase::WriteHeader;
                            ServerAction::WriteHeader { end_of_stream: self.end_of_stream }
                        }
                    },
                    _ => {
                        self.phase = ServerPhase::WriteHeader;
                        ServerAction::WriteHeader { end_of_stream: self.end_of_stream }
                    },
                }
            },
            ServerEvent::HeaderWritten { ok } => {
                self.write_failed = self.write_failed || !ok;
                let body = self.body.take();
                if self.module_types.len() > 0 {
                    self.phase = ServerPhase::BodyFilter(0);
                    ServerAction::BodyFilter {
                        module: 0,
                        module_type: self.module_types[0],
                        body,
                        end_of_stream: true,
                    }
                } else {
                    self.phase = ServerPhase::WriteBody;
                    ServerAction::WriteBody { body, end_of_stream: true }
                }
            },
            ServerEvent::BodyFiltered { ok, body } => {
                if !ok {
                    self.phase = ServerPhase::Done;
                    return ServerAction::Done { reuse: false };
                }
                self.body = None;
                match self.phase {
                    ServerPhase::BodyFilter(i) => {
                        if i + 1 < self.module_types.len() {
                            self.phase = ServerPhase::BodyFilter(i + 1);
                            ServerAction::BodyFilter {
                                module: i + 1,
                                module_type: self.module_types[i + 1],
                                body,
                                end_of_stream: true,
                            }
                        } else {
                            self.phase = ServerPhase::WriteBody;
                            ServerAction::WriteBody { body, end_of_stream: true }
                        }
                    },
                    _ => {
                        self.phase = ServerPhase::WriteBody;
                        ServerAction::WriteBody { body, end_of_stream: true }
                    },
                }
            },
            ServerEvent::BodyWritten { ok } => {
                self.write_failed = self.write_failed || !ok;
                self.phase = ServerPhase::Finish;
                ServerAction::Finish
            },
            ServerEvent::Finished(outcome) => {
                self.phase = ServerPhase::Done;
                ServerAction::Done { reuse: outcome == FinishOutcome::Reusable && !self.write_failed }
            },
        }
    }
}

/// A request that cannot be read ends the session at once: no filter runs,
/// the application is not asked, and the connection is not reused.
pub proof fn law_unread_request_ends_session(s: ServerState, outcome: ReadOutcome, shutting_down: bool)
    requires
        s.phase == ServerPhase::ReadRequest,
        outcome != ReadOutcome::Ready,
    ensures
        server_next(s, ServerEvent::RequestRead { outcome, shutting_down }).1 == (ServerStep::Done {
            reuse: false,
        }),
{
}

/// A failing filter of any module, on the request header, the response
/// header or the response body, ends the session without reuse.
pub proof fn law_filter_failure_ends_session(s: ServerState, event: ServerEvent)
    requires
        server_expects(s.phase, event),
        (event matches ServerEvent::RequestFiltered { ok } && !ok) || (event matches ServerEvent::ResponseFiltered {
            ok,
        } && !ok) || (event matches ServerEvent::BodyFiltered { ok, .. } && !ok),
    ensures
        server_next(s, event).0.phase == ServerPhase::Done,
        server_next(s, event).1 == (ServerStep::Done { reuse: false }),
{
}

/// The filters run on the module contexts built for the request, in the
/// order of the server's modules: when the contexts are those of a list of
/// module builders kept largest order first, the filter at each position is
/// that of the builder at that position, and no later filter belongs to a
/// module of larger order.
pub proof fn law_filters_follow_module_order(s: ServerState, modules: Seq<ModuleBuilder>, i: int)
    requires
        s.module_types == module_types(modules),
        sorted_by_order(modules),
        0 <= i < modules.len(),
    ensures
        server_request_filter(s, i).1 == (ServerStep::RequestFilter {
            module: i as usize,
            module_type: modules[i].module_type,
        }),
        server_response_filter(s, i).1 == (ServerStep::ResponseFilter {
            module: i as usize,
            module_type: modules[i].module_type,
            end_of_stream: s.end_of_stream,
        }),
        forall|j: int| i < j < modules.len() ==> modules[j].order <= modules[i].order,
{
}

/// Once the module contexts are built, the first request filter is that of
/// the first module, or the application is asked when there is none.
pub proof fn law_prepared_starts_filters(s: ServerState, ctx: HttpModuleCtx)
    requires
        s.phase == ServerPhase::Prepare,
    ensures
        server_next(s, ServerEvent::Prepared { ctx }).0.module_types == ctx.module_types(),
        ctx.module_types().len() > 0 ==> server_next(s, ServerEvent::Prepared { ctx }).1
            == (ServerStep::RequestFilter { module: 0, module_type: ctx.module_types()[0] }),
        ctx.module_types().len() == 0 ==> server_next(s, ServerEvent::Prepared { ctx }).1
            == ServerStep::Respond,
{
}

/// The request header filters run one module after another in order, and
/// after the last one the application is asked for the response.
pub proof fn law_request_filters_in_order(s: ServerState, i: usize)
    requires
        s.phase == ServerPhase::RequestFilter(i),
        server_state_wf(s),
    ensures
        i + 1 < s.module_types.len() ==> server_next(s, ServerEvent::RequestFiltered { ok: true }).1
            == (ServerStep::RequestFilter {
            module: (i + 1) as usize,
            module_type: s.module_types[i + 1],
        }),
        i + 1 == s.module_types.len() ==> server_next(s, ServerEvent::RequestFiltered { ok: true }).1
            == ServerStep::Respond,
{
}

/// The application is asked for the response only once every request header
/// filter has passed: right after contexts of no module were built, or
/// right after the last module's filter passed.
pub proof fn law_respond_after_all_request_filters(s: ServerState, event: ServerEvent)
    requires
        server_state_wf(s),
        server_expects(s.phase, event),
        server_next(s, event).1 == ServerStep::Respond,
    ensures
        (event matches ServerEvent::Prepared { ctx } && ctx.module_types().len() == 0) || (s.phase
            == ServerPhase::RequestFilter((s.module_types.len() - 1) as usize) && (event matches ServerEvent::RequestFiltered {
            ok,
        } && ok)),
{
}

/// The response header filters and the header write are told that the
/// stream ends with the header exactly when the response body is empty, and
/// the response body is kept until the header is written.
pub proof fn law_response_header_end_of_stream(s: ServerState, body: Vec<u8>)
    requires
        s.phase == ServerPhase::Respond,
    ensures
        ({
            let (t, step) = server_next(s, ServerEvent::ResponseReady { body });
            &&& t.end_of_stream == (body@.len() == 0)
            &&& t.body == Some(body@)
            &&& s.module_types.len() > 0 ==> step == (ServerStep::ResponseFilter {
                module: 0,
                module_type: s.module_types[0],
                end_of_stream: body@.len() == 0,
            })
            &&& s.module_types.len() == 0 ==> step == (ServerStep::WriteHeader {
                end_of_stream: body@.len() == 0,
            })
        }),
{
}

/// Passing response header filters run in order and keep the body and the
/// end-of-stream flag.
pub proof fn law_response_filters_in_order(s: ServerState, i: usize)
    requires
        s.phase == ServerPhase::ResponseFilter(i),
        server_state_wf(s),
    ensures
        server_next(s, ServerEvent::ResponseFiltered { ok: true }).0.body == s.body,
        server_next(s, ServerEvent::ResponseFiltered { ok: true }).0.end_of_stream
            == s.end_of_stream,
        i + 1 < s.module_types.len() ==> server_next(s, ServerEvent::ResponseFiltered { ok: true }).1
            == (ServerStep::ResponseFilter {
            module: (i + 1) as usize,
            module_type: s.module_types[i + 1],
            end_of_stream: s.end_of_stream,
        }),
        i + 1 == s.module_types.len() ==> server_next(s, ServerEvent::ResponseFiltered { ok: true }).1
            == (ServerStep::WriteHeader { end_of_stream: s.end_of_stream }),
{
}

/// Once the header write is done, the kept body goes to the first module's
/// body filter, or is written at once when there is no module; the body is
/// always written, empty or not, and the write ends the response.
pub proof fn law_body_after_header(s: ServerState, ok: bool)
    requires
        s.phase == ServerPhase::WriteHeader,
    ensures
        s.module_types.len() > 0 ==> server_next(s, ServerEvent::HeaderWritten { ok }).1
            == (ServerStep::BodyFilter {
            module: 0,
            module_type: s.module_types[0],
            body: s.body,
            end_of_stream: true,
        }),
        s.module_types.len() == 0 ==> server_next(s, ServerEvent::HeaderWritten { ok }).1
            == (ServerStep::WriteBody { body: s.body, end_of_stream: true }),
{
}

/// Each passing body filter hands the body it left to the next module, and
/// the last one's body is written, ending the response.
pub proof fn law_body_filters_in_order(s: ServerState, i: usize, body: Option<Bytes>)
    requires
        s.phase == ServerPhase::BodyFilter(i),
        server_state_wf(s),
    ensures
        i + 1 < s.module_types.len() ==> server_next(s, ServerEvent::BodyFiltered { ok: true, body }).1
            == (ServerStep::BodyFilter {
            module: (i + 1) as usize,
            module_type: s.module_types[i + 1],
            body: opt_bytes_content(body),
            end_of_stream: true,
        }),
        i + 1 == s.module_types.len() ==> server_next(s, ServerEvent::BodyFiltered { ok: true, body }).1
            == (ServerStep::WriteBody { body: opt_bytes_content(body), end_of_stream: true }),
{
}

/// After a failed write of the response header or body, the connection is
/// not in a reusable state: the session is still finished, but it ends
/// without reuse whatever finishing says.
pub proof fn law_write_failure_not_reused(s: ServerState, outcome: FinishOutcome)
    ensures
        server_next(ServerState { phase: ServerPhase::WriteHeader, ..s }, ServerEvent::HeaderWritten {
            ok: false,
        }).0.write_failed,
        server_next(ServerState { phase: ServerPhase::WriteBody, ..s }, ServerEvent::BodyWritten {
            ok: false,
        }).0.write_failed,
        server_next(ServerState { phase: ServerPhase::WriteBody, ..s }, ServerEvent::BodyWritten {
            ok: false,
        }).1 == ServerStep::Finish,
        s.write_failed ==> server_next(
            ServerState { phase: ServerPhase::Finish, ..s },
            ServerEvent::Finished(outcome),
        ).1 == (ServerStep::Done { reuse: false }),
{
}

/// The connection is handed back for reuse exactly when finishing the
/// session says it can be and no write of the response failed.
pub proof fn law_reuse_only_when_finished(s: ServerState, event: ServerEvent)
    requires
        server_expects(s.phase, event),
    ensures
        (server_next(s, event).1 == (ServerStep::Done { reuse: true })) <==> (!s.write_failed && (
        event matches ServerEvent::Finished(o) && o == FinishOutcome::Reusable)),
{
}

/// After every step the session waits for exactly the result of the action
/// it asked for: the phase names the module whose filter the step asked to
/// run, and the session is over after `Done`.
pub proof fn law_phase_follows_action(s: ServerState, event: ServerEvent)
    requires
        server_state_wf(s),
        server_expects(s.phase, event),
    ensures
        ({
            let (t, a) = server_next(s, event);
            &&& a !is ReadRequest
            &&& a is Prepare ==> t.phase == ServerPhase::Prepare
            &&& (a matches ServerStep::RequestFilter { module, .. } ==> t.phase
                == ServerPhase::RequestFilter(module))
            &&& a is Respond ==> t.phase == ServerPhase::Respond
            &&& (a matches ServerStep::ResponseFilter { module, .. } ==> t.phase
                == ServerPhase::ResponseFilter(module))
            &&& a is WriteHeader ==> t.phase == ServerPhase::WriteHeader
            &&& (a matches ServerStep::BodyFilter { module, .. } ==> t.phase
                == ServerPhase::BodyFilter(module))
            &&& a is WriteBody ==> t.phase == ServerPhase::WriteBody
            &&& a is Finish ==> t.phase == ServerPhase::Finish
            &&& a is Done ==> t.phase == ServerPhase::Done
        }),
{
}

/// Every module's request header filter runs: after module i's filter
/// passes, the next module's filter runs while there is one, and the
/// application is asked only after the last.
pub proof fn law_every_request_filter_runs(s: ServerState, i: usize)
    requires
        s.phase == ServerPhase::RequestFilter(i),
        i + 1 < s.module_types.len(),
    ensures
        server_next(s, ServerEvent::RequestFiltered { ok: true }).0.phase == ServerPhase::RequestFilter(
            (i + 1) as usize,
        ),
        server_next(s, ServerEvent::RequestFiltered { ok: true }).0.module_types == s.module_types,
{
}

/// Every module's response header filter runs, empty body or not: once the
/// response is ready the first module's filter runs, and after module i's
/// filter passes the next module's filter runs while there is one.
pub proof fn law_every_response_filter_runs(s: ServerState, body: Vec<u8>, i: usize)
    requires
        s.module_types.len() > 0,
    ensures
        s.phase == ServerPhase::Respond ==> server_next(s, ServerEvent::ResponseReady { body }).0.phase
            == ServerPhase::ResponseFilter(0),
        (s.phase == ServerPhase::ResponseFilter(i) && i + 1 < s.module_types.len()) ==> server_next(
            s,
            ServerEvent::ResponseFiltered { ok: true },
        ).0.phase == ServerPhase::ResponseFilter((i + 1) as usize),
{
}

/// A successful write never marks the response as failed; so a session
/// whose writes all succeeded is handed back for reuse when finishing says
/// it can be.
pub proof fn law_successful_writes_keep_reuse(s: ServerState)
    ensures
        server_next(ServerState { phase: ServerPhase::WriteHeader, ..s }, ServerEvent::HeaderWritten {
            ok: true,
        }).0.write_failed == s.write_failed,
        server_next(ServerState { phase: ServerPhase::WriteBody, ..s }, ServerEvent::BodyWritten {
            ok: true,
        }).0.write_failed == s.write_failed,
        server_next(ServerState { phase: ServerPhase::WriteBody, ..s }, ServerEvent::BodyWritten {
            ok: true,
        }).1 == ServerStep::Finish,
        !s.write_failed ==> server_next(
            ServerState { phase: ServerPhase::Finish, ..s },
            ServerEvent::Finished(FinishOutcome::Reusable),
        ).1 == (ServerStep::Done { reuse: true }),
{
}

/// A read request is answered: the keepalive timeout is set, none while the
/// server shuts down and 60 seconds otherwise, and the module contexts are
/// built.
pub proof fn law_read_request_is_answered(s: ServerState, shutting_down: bool)
    requires
        s.phase == ServerPhase::ReadRequest,
    ensures
        server_next(s, ServerEvent::RequestRead { outcome: ReadOutcome::Ready, shutting_down }).1
            == (ServerStep::Prepare { keepalive: if shutting_down { None } else { Some(60u64) } }),
{
}

} // verus!
