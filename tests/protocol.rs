use h3_hello::dispatch::{after_write, next_write, Stage, Write};
use h3_hello::server::{
    generate_identity, generate_self_signed_cert, on_endpoint_event, EndpointEvent, ServerAction,
    TransportLimits,
};
use h3_hello::session::{on_accept, AcceptOutcome, ErrorLevel, SessionAction};

fn run_writes(has_body: bool, results: &[bool]) -> Vec<Write> {
    let mut stage = Stage::Start;
    let mut out = Vec::new();
    let mut i = 0;
    while let Some(w) = next_write(stage, has_body) {
        if i >= results.len() {
            break;
        }
        out.push(w);
        stage = after_write(stage, has_body, results[i]);
        i += 1;
    }
    out
}

#[test]
fn frames_in_order_with_body() {
    assert_eq!(run_writes(true, &[true, true, true, true]), vec![Write::Head, Write::Data, Write::Finish]);
}

#[test]
fn frames_in_order_without_body() {
    assert_eq!(run_writes(false, &[true, true, true]), vec![Write::Head, Write::Finish]);
}

#[test]
fn nothing_written_after_failure() {
    assert_eq!(run_writes(true, &[true, false, true]), vec![Write::Head, Write::Data]);
    assert_eq!(after_write(Stage::HeadSent, true, false), Stage::Failed);
    assert_eq!(next_write(Stage::Failed, true), None);
    assert_eq!(next_write(Stage::Finished, false), None);
}

#[test]
fn stream_error_keeps_session() {
    assert_eq!(on_accept(AcceptOutcome::Request), SessionAction::Dispatch);
    assert_eq!(on_accept(AcceptOutcome::Failed(ErrorLevel::StreamError)), SessionAction::Warn);
    assert_eq!(on_accept(AcceptOutcome::Closed), SessionAction::End);
    assert_eq!(on_accept(AcceptOutcome::Failed(ErrorLevel::ConnectionError)), SessionAction::Fail);
}

#[test]
fn interleaved_streams_after_a_reset() {
    let events = [
        AcceptOutcome::Request,
        AcceptOutcome::Failed(ErrorLevel::StreamError),
        AcceptOutcome::Request,
    ];
    let acts: Vec<SessionAction> = events.iter().map(|e| on_accept(*e)).collect();
    assert_eq!(acts, vec![SessionAction::Dispatch, SessionAction::Warn, SessionAction::Dispatch]);
    // the surviving stream is written through to its finish
    assert_eq!(run_writes(true, &[true, true, true]), vec![Write::Head, Write::Data, Write::Finish]);
}

#[test]
fn accept_loop_decisions() {
    assert_eq!(on_endpoint_event(EndpointEvent::Connected), ServerAction::Spawn);
    assert_eq!(on_endpoint_event(EndpointEvent::HandshakeFailed), ServerAction::Skip);
    assert_eq!(on_endpoint_event(EndpointEvent::Closed), ServerAction::Stop);
}

#[test]
fn standard_limits() {
    let l = TransportLimits::standard();
    assert_eq!(l.max_concurrent_bidi_streams, 100);
    assert_eq!(l.max_concurrent_uni_streams, 100);
    assert_eq!(l.max_idle_timeout_secs, 30);
    assert_eq!(l.keep_alive_interval_secs, 10);
}

#[test]
fn identity_offers_h3() {
    let id = generate_self_signed_cert().expect("identity");
    assert_eq!(id.alpn_tokens, vec![b"h3".to_vec()]);
    assert!(!id.certificate.is_empty());
    assert!(!id.private_key.is_empty());
    assert_ne!(id.certificate, id.private_key);
}

#[test]
fn identity_for_other_hosts() {
    let id = generate_identity(vec!["example.test".to_string(), "localhost".to_string()]).expect("identity");
    assert_eq!(id.alpn_tokens, vec![b"h3".to_vec()]);
    assert_eq!(id.certificate[0], 0x30);
}

#[test]
fn identity_refuses_non_ascii_names() {
    let r = generate_identity(vec!["localhost".to_string(), "ü".to_string()]);
    assert!(matches!(r, Err(h3_hello::server::IdentityError::CertificateGeneration)));
}
