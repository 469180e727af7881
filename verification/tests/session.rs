use bytes::Bytes;
use pingora_mqtt::apps::session::{
    keepalive_timeout, FinishOutcome, ReadOutcome, ServeAction, ServeEvent, ServeHttpDriver, ServePhase,
    KEEPALIVE_SECS,
};

fn read(driver: &mut ServeHttpDriver, shutting_down: bool) -> ServeAction {
    driver.step(ServeEvent::RequestRead { outcome: ReadOutcome::Ready, shutting_down })
}

#[test]
fn keepalive_is_sixty_seconds_unless_shutting_down() {
    assert_eq!(KEEPALIVE_SECS, 60);
    assert_eq!(keepalive_timeout(false), Some(60));
    assert_eq!(keepalive_timeout(true), None);
}

#[test]
fn serve_starts_by_reading() {
    let (driver, action) = ServeHttpDriver::new();
    assert_eq!(action, ServeAction::ReadRequest);
    assert_eq!(driver.current_phase(), ServePhase::ReadRequest);
}

#[test]
fn serve_read_error_ends_without_reuse() {
    let (mut driver, _) = ServeHttpDriver::new();
    let action = driver.step(ServeEvent::RequestRead { outcome: ReadOutcome::Failed, shutting_down: false });
    assert_eq!(action, ServeAction::Done { reuse: false });
    assert_eq!(driver.current_phase(), ServePhase::Done);
}

#[test]
fn serve_no_request_ends_without_reuse() {
    let (mut driver, _) = ServeHttpDriver::new();
    let action = driver.step(ServeEvent::RequestRead { outcome: ReadOutcome::NoRequest, shutting_down: true });
    assert_eq!(action, ServeAction::Done { reuse: false });
}

#[test]
fn serve_full_session_with_body() {
    let (mut driver, _) = ServeHttpDriver::new();
    assert_eq!(read(&mut driver, false), ServeAction::Respond { keepalive: Some(60) });
    assert_eq!(driver.step(ServeEvent::ResponseReady { body: b"hello".to_vec() }), ServeAction::WriteHeader);
    let action = driver.step(ServeEvent::HeaderWritten { ok: true });
    assert_eq!(action, ServeAction::WriteBody { body: Bytes::from_static(b"hello") });
    assert_eq!(driver.step(ServeEvent::BodyWritten { ok: true }), ServeAction::Finish);
    assert_eq!(driver.step(ServeEvent::Finished(FinishOutcome::Reusable)), ServeAction::Done { reuse: true });
}

#[test]
fn serve_empty_body_is_not_written() {
    let (mut driver, _) = ServeHttpDriver::new();
    read(&mut driver, false);
    driver.step(ServeEvent::ResponseReady { body: Vec::new() });
    assert_eq!(driver.step(ServeEvent::HeaderWritten { ok: true }), ServeAction::Finish);
    assert_eq!(driver.current_phase(), ServePhase::Finish);
}

#[test]
fn serve_shutting_down_sets_no_keepalive() {
    let (mut driver, _) = ServeHttpDriver::new();
    assert_eq!(read(&mut driver, true), ServeAction::Respond { keepalive: None });
}

#[test]
fn serve_header_write_failure_finishes_without_reuse() {
    let (mut driver, _) = ServeHttpDriver::new();
    read(&mut driver, false);
    driver.step(ServeEvent::ResponseReady { body: vec![1, 2, 3] });
    assert_eq!(
        driver.step(ServeEvent::HeaderWritten { ok: false }),
        ServeAction::WriteBody { body: Bytes::from(vec![1u8, 2, 3]) }
    );
    assert!(driver.write_failed());
    assert_eq!(driver.step(ServeEvent::BodyWritten { ok: true }), ServeAction::Finish);
    assert_eq!(driver.step(ServeEvent::Finished(FinishOutcome::Reusable)), ServeAction::Done { reuse: false });
}

#[test]
fn serve_body_write_failure_finishes_without_reuse() {
    let (mut driver, _) = ServeHttpDriver::new();
    read(&mut driver, false);
    driver.step(ServeEvent::ResponseReady { body: vec![4] });
    driver.step(ServeEvent::HeaderWritten { ok: true });
    assert!(!driver.write_failed());
    assert_eq!(driver.step(ServeEvent::BodyWritten { ok: false }), ServeAction::Finish);
    assert_eq!(driver.step(ServeEvent::Finished(FinishOutcome::Reusable)), ServeAction::Done { reuse: false });
}

#[test]
fn serve_header_write_failure_with_empty_body_is_not_reused() {
    let (mut driver, _) = ServeHttpDriver::new();
    read(&mut driver, false);
    driver.step(ServeEvent::ResponseReady { body: Vec::new() });
    assert_eq!(driver.step(ServeEvent::HeaderWritten { ok: false }), ServeAction::Finish);
    assert_eq!(driver.step(ServeEvent::Finished(FinishOutcome::Reusable)), ServeAction::Done { reuse: false });
}

#[test]
fn serve_finish_failure_is_not_reused() {
    let (mut driver, _) = ServeHttpDriver::new();
    read(&mut driver, false);
    driver.step(ServeEvent::ResponseReady { body: Vec::new() });
    driver.step(ServeEvent::HeaderWritten { ok: true });
    assert_eq!(driver.step(ServeEvent::Finished(FinishOutcome::Failed)), ServeAction::Done { reuse: false });
}

#[test]
fn serve_expects_only_the_next_event() {
    let (driver, _) = ServeHttpDriver::new();
    assert!(!driver.expects(&ServeEvent::HeaderWritten { ok: true }));
    assert!(!driver.expects(&ServeEvent::Finished(FinishOutcome::Reusable)));
    assert!(driver.expects(&ServeEvent::RequestRead { outcome: ReadOutcome::Ready, shutting_down: false }));
}
