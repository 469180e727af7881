use pingora_mqtt::apps::connection::{
    ConnAction, ConnEvent, ConnPhase, ConnectionDriver, PeekOutcome, StreamEvent,
};
use pingora_mqtt::apps::http_app::{h2_preface_bytes, is_h2_preface, HttpServerOptions, H2_PREFACE_LEN};

fn h2c_options() -> HttpServerOptions {
    let mut options = HttpServerOptions::default();
    options.h2c = true;
    options
}

#[test]
fn preface_is_the_rfc_9113_string() {
    let preface = h2_preface_bytes();
    assert_eq!(preface.as_slice(), b"PRI * HTTP/2.0\r\n\r\nSM\r\n\r\n");
    assert_eq!(preface.len(), H2_PREFACE_LEN);
}

#[test]
fn preface_detection() {
    assert!(is_h2_preface(b"PRI * HTTP/2.0\r\n\r\nSM\r\n\r\n"));
    assert!(!is_h2_preface(b"GET / HTTP/1.1\r\nHost: a\r\n\r\n"));
    assert!(!is_h2_preface(b"PRI * HTTP/2.0\r\n\r\nSM\r\n\r"));
    assert!(!is_h2_preface(b""));
    assert!(!is_h2_preface(&[0u8; 24]));
}

#[test]
fn default_options_disable_h2c() {
    assert!(!HttpServerOptions::default().h2c);
}

#[test]
fn no_options_no_alpn_is_http1() {
    let (driver, action) = ConnectionDriver::new(None, false);
    assert_eq!(action, ConnAction::ServeHttp1);
    assert_eq!(driver.current_phase(), ConnPhase::Done);
}

#[test]
fn h2c_disabled_with_alpn_h2_is_http2_without_peeking() {
    let options = HttpServerOptions::default();
    let (driver, action) = ConnectionDriver::new(Some(&options), true);
    assert_eq!(action, ConnAction::Handshake);
    assert_eq!(driver.current_phase(), ConnPhase::Handshaking);
}

#[test]
fn h2c_peeks_first() {
    let options = h2c_options();
    let (driver, action) = ConnectionDriver::new(Some(&options), false);
    assert_eq!(action, ConnAction::PeekPreface);
    assert_eq!(driver.current_phase(), ConnPhase::Peeking);
}

#[test]
fn h2c_preface_seen_is_http2() {
    let options = h2c_options();
    let (mut driver, _) = ConnectionDriver::new(Some(&options), false);
    let event = ConnEvent::Peeked(PeekOutcome::Peeked(h2_preface_bytes()));
    assert!(driver.expects(&event));
    assert_eq!(driver.step(event), ConnAction::Handshake);
}

#[test]
fn h2c_without_preface_falls_back_to_http1() {
    let options = h2c_options();
    let (mut driver, _) = ConnectionDriver::new(Some(&options), false);
    let mut buf = b"GET / HTTP/1.1\r\n".to_vec();
    buf.resize(24, 0);
    assert_eq!(driver.step(ConnEvent::Peeked(PeekOutcome::Peeked(buf))), ConnAction::ServeHttp1);
    assert_eq!(driver.current_phase(), ConnPhase::Done);
}

#[test]
fn h2c_without_preface_but_alpn_h2_is_http2() {
    let options = h2c_options();
    let (mut driver, _) = ConnectionDriver::new(Some(&options), true);
    let buf = vec![0u8; 24];
    assert_eq!(driver.step(ConnEvent::Peeked(PeekOutcome::Peeked(buf))), ConnAction::Handshake);
}

#[test]
fn h2c_unpeekable_stream_stays_http2() {
    let options = h2c_options();
    let (mut driver, _) = ConnectionDriver::new(Some(&options), false);
    assert_eq!(driver.step(ConnEvent::Peeked(PeekOutcome::Unsupported)), ConnAction::Handshake);
}

#[test]
fn h2c_peek_failure_drops_even_with_alpn_h2() {
    let options = h2c_options();
    let (mut driver, _) = ConnectionDriver::new(Some(&options), true);
    assert_eq!(driver.step(ConnEvent::Peeked(PeekOutcome::Failed)), ConnAction::Drop);
    assert_eq!(driver.current_phase(), ConnPhase::Done);
}

#[test]
fn handshake_failure_drops() {
    let (mut driver, _) = ConnectionDriver::new(None, true);
    assert_eq!(driver.step(ConnEvent::Handshake(false)), ConnAction::Drop);
    assert!(!driver.expects(&ConnEvent::Stream(StreamEvent::NewStream)));
}

#[test]
fn http2_streams_are_spawned_until_the_client_closes() {
    let (mut driver, _) = ConnectionDriver::new(None, true);
    assert_eq!(driver.step(ConnEvent::Handshake(true)), ConnAction::AwaitStream);
    for _ in 0..3 {
        assert_eq!(driver.step(ConnEvent::Stream(StreamEvent::NewStream)), ConnAction::SpawnStream);
        assert_eq!(driver.current_phase(), ConnPhase::Serving);
    }
    assert_eq!(driver.step(ConnEvent::Stream(StreamEvent::Closed)), ConnAction::Drop);
    assert_eq!(driver.current_phase(), ConnPhase::Done);
}

#[test]
fn http2_shutdown_is_graceful() {
    let (mut driver, _) = ConnectionDriver::new(None, true);
    driver.step(ConnEvent::Handshake(true));
    assert_eq!(driver.step(ConnEvent::Stream(StreamEvent::Shutdown)), ConnAction::GracefulShutdown);
    assert!(!driver.expects(&ConnEvent::Handshake(true)));
}

#[test]
fn http2_accept_failure_drops() {
    let (mut driver, _) = ConnectionDriver::new(None, true);
    driver.step(ConnEvent::Handshake(true));
    assert_eq!(driver.step(ConnEvent::Stream(StreamEvent::AcceptFailed)), ConnAction::Drop);
}

#[test]
fn driver_rejects_out_of_order_events() {
    let options = h2c_options();
    let (driver, _) = ConnectionDriver::new(Some(&options), false);
    assert!(!driver.expects(&ConnEvent::Handshake(true)));
    assert!(!driver.expects(&ConnEvent::Stream(StreamEvent::NewStream)));
    assert!(driver.expects(&ConnEvent::Peeked(PeekOutcome::Failed)));
}
