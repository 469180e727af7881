use bytes::Bytes;
use pingora_mqtt::apps::server_session::{HttpServerDriver, ServerAction, ServerEvent, ServerPhase};
use pingora_mqtt::apps::session::{FinishOutcome, ReadOutcome};
use pingora_mqtt::modules::http::{HttpModuleCtx, HttpModules, ModuleBuilder};

fn ready(driver: &mut HttpServerDriver, shutting_down: bool) -> ServerAction {
    driver.step(ServerEvent::RequestRead { outcome: ReadOutcome::Ready, shutting_down })
}

/// The contexts of modules built from (type, order) pairs.
fn ctx_of(builders: &[(u64, i16)]) -> HttpModuleCtx {
    let mut modules = HttpModules::new();
    for &(module_type, order) in builders {
        modules.add_module(ModuleBuilder::with_order(module_type, order));
    }
    modules.build_ctx()
}

/// Drive a session with one module through to the header write.
fn to_header_write(driver: &mut HttpServerDriver, body: Vec<u8>) {
    ready(driver, false);
    driver.step(ServerEvent::Prepared { ctx: ctx_of(&[(5, 0)]) });
    driver.step(ServerEvent::RequestFiltered { ok: true });
    driver.step(ServerEvent::ResponseReady { body });
    driver.step(ServerEvent::ResponseFiltered { ok: true });
}

#[test]
fn server_starts_by_reading() {
    let (driver, action) = HttpServerDriver::new();
    assert_eq!(action, ServerAction::ReadRequest);
    assert_eq!(driver.current_phase(), ServerPhase::ReadRequest);
    assert!(!driver.write_failed());
}

#[test]
fn server_read_error_ends_without_reuse() {
    let (mut driver, _) = HttpServerDriver::new();
    let action = driver.step(ServerEvent::RequestRead { outcome: ReadOutcome::Failed, shutting_down: false });
    assert_eq!(action, ServerAction::Done { reuse: false });
}

#[test]
fn server_without_modules_writes_header_and_body() {
    let (mut driver, _) = HttpServerDriver::new();
    assert_eq!(ready(&mut driver, false), ServerAction::Prepare { keepalive: Some(60) });
    assert_eq!(driver.step(ServerEvent::Prepared { ctx: ctx_of(&[]) }), ServerAction::Respond);
    assert_eq!(
        driver.step(ServerEvent::ResponseReady { body: b"ok".to_vec() }),
        ServerAction::WriteHeader { end_of_stream: false }
    );
    assert_eq!(
        driver.step(ServerEvent::HeaderWritten { ok: true }),
        ServerAction::WriteBody { body: Some(Bytes::from_static(b"ok")), end_of_stream: true }
    );
    assert_eq!(driver.step(ServerEvent::BodyWritten { ok: true }), ServerAction::Finish);
    assert_eq!(driver.step(ServerEvent::Finished(FinishOutcome::Reusable)), ServerAction::Done { reuse: true });
}

#[test]
fn server_empty_body_is_still_written_and_ends_the_header() {
    let (mut driver, _) = HttpServerDriver::new();
    ready(&mut driver, true);
    driver.step(ServerEvent::Prepared { ctx: ctx_of(&[]) });
    assert_eq!(
        driver.step(ServerEvent::ResponseReady { body: Vec::new() }),
        ServerAction::WriteHeader { end_of_stream: true }
    );
    assert_eq!(
        driver.step(ServerEvent::HeaderWritten { ok: true }),
        ServerAction::WriteBody { body: Some(Bytes::new()), end_of_stream: true }
    );
}

#[test]
fn server_shutting_down_sets_no_keepalive() {
    let (mut driver, _) = HttpServerDriver::new();
    assert_eq!(ready(&mut driver, true), ServerAction::Prepare { keepalive: None });
}

#[test]
fn server_filters_run_in_module_order() {
    let (mut driver, _) = HttpServerDriver::new();
    ready(&mut driver, false);
    // module 8 has the larger order, so its filters run first
    assert_eq!(
        driver.step(ServerEvent::Prepared { ctx: ctx_of(&[(7, 1), (8, 3)]) }),
        ServerAction::RequestFilter { module: 0, module_type: 8 }
    );
    assert_eq!(
        driver.step(ServerEvent::RequestFiltered { ok: true }),
        ServerAction::RequestFilter { module: 1, module_type: 7 }
    );
    assert_eq!(driver.step(ServerEvent::RequestFiltered { ok: true }), ServerAction::Respond);
    assert_eq!(
        driver.step(ServerEvent::ResponseReady { body: b"abc".to_vec() }),
        ServerAction::ResponseFilter { module: 0, module_type: 8, end_of_stream: false }
    );
    assert_eq!(
        driver.step(ServerEvent::ResponseFiltered { ok: true }),
        ServerAction::ResponseFilter { module: 1, module_type: 7, end_of_stream: false }
    );
    assert_eq!(
        driver.step(ServerEvent::ResponseFiltered { ok: true }),
        ServerAction::WriteHeader { end_of_stream: false }
    );
    assert_eq!(
        driver.step(ServerEvent::HeaderWritten { ok: true }),
        ServerAction::BodyFilter {
            module: 0,
            module_type: 8,
            body: Some(Bytes::from_static(b"abc")),
            end_of_stream: true,
        }
    );
    let filtered = Some(Bytes::from_static(b"ABC"));
    assert_eq!(
        driver.step(ServerEvent::BodyFiltered { ok: true, body: filtered.clone() }),
        ServerAction::BodyFilter { module: 1, module_type: 7, body: filtered, end_of_stream: true }
    );
    assert_eq!(
        driver.step(ServerEvent::BodyFiltered { ok: true, body: None }),
        ServerAction::WriteBody { body: None, end_of_stream: true }
    );
    assert_eq!(driver.step(ServerEvent::BodyWritten { ok: true }), ServerAction::Finish);
    assert_eq!(driver.step(ServerEvent::Finished(FinishOutcome::Reusable)), ServerAction::Done { reuse: true });
}

#[test]
fn server_header_write_failure_is_not_reused() {
    let (mut driver, _) = HttpServerDriver::new();
    to_header_write(&mut driver, b"x".to_vec());
    assert_eq!(
        driver.step(ServerEvent::HeaderWritten { ok: false }),
        ServerAction::BodyFilter { module: 0, module_type: 5, body: Some(Bytes::from_static(b"x")), end_of_stream: true }
    );
    assert!(driver.write_failed());
    driver.step(ServerEvent::BodyFiltered { ok: true, body: None });
    assert_eq!(driver.step(ServerEvent::BodyWritten { ok: true }), ServerAction::Finish);
    assert_eq!(driver.step(ServerEvent::Finished(FinishOutcome::Reusable)), ServerAction::Done { reuse: false });
}

#[test]
fn server_body_write_failure_is_not_reused() {
    let (mut driver, _) = HttpServerDriver::new();
    to_header_write(&mut driver, b"x".to_vec());
    driver.step(ServerEvent::HeaderWritten { ok: true });
    driver.step(ServerEvent::BodyFiltered { ok: true, body: None });
    assert_eq!(driver.step(ServerEvent::BodyWritten { ok: false }), ServerAction::Finish);
    assert_eq!(driver.step(ServerEvent::Finished(FinishOutcome::Reusable)), ServerAction::Done { reuse: false });
}

#[test]
fn server_request_filter_failure_ends_session() {
    let (mut driver, _) = HttpServerDriver::new();
    ready(&mut driver, false);
    driver.step(ServerEvent::Prepared { ctx: ctx_of(&[(1, 0), (2, 0), (3, 0)]) });
    driver.step(ServerEvent::RequestFiltered { ok: true });
    assert_eq!(driver.step(ServerEvent::RequestFiltered { ok: false }), ServerAction::Done { reuse: false });
    assert_eq!(driver.current_phase(), ServerPhase::Done);
}

#[test]
fn server_response_filter_failure_ends_session() {
    let (mut driver, _) = HttpServerDriver::new();
    ready(&mut driver, false);
    driver.step(ServerEvent::Prepared { ctx: ctx_of(&[(1, 0)]) });
    driver.step(ServerEvent::RequestFiltered { ok: true });
    driver.step(ServerEvent::ResponseReady { body: Vec::new() });
    assert_eq!(driver.step(ServerEvent::ResponseFiltered { ok: false }), ServerAction::Done { reuse: false });
}

#[test]
fn server_body_filter_failure_ends_session() {
    let (mut driver, _) = HttpServerDriver::new();
    to_header_write(&mut driver, vec![9]);
    driver.step(ServerEvent::HeaderWritten { ok: true });
    assert_eq!(
        driver.step(ServerEvent::BodyFiltered { ok: false, body: None }),
        ServerAction::Done { reuse: false }
    );
}

#[test]
fn server_expects_only_the_next_event() {
    let (mut driver, _) = HttpServerDriver::new();
    ready(&mut driver, false);
    assert!(driver.expects(&ServerEvent::Prepared { ctx: ctx_of(&[(1, 0)]) }));
    assert!(!driver.expects(&ServerEvent::RequestFiltered { ok: true }));
    assert!(!driver.expects(&ServerEvent::Finished(FinishOutcome::Reusable)));
}
