use bench_agent::config::{Config, ConfigError, Environment};
use bench_agent::envelope::{build_response, decode_request, encode_envelope, string_eq, CommandRequest, DecodeError};
use bench_agent::executor::{render_output, CommandResult};
use bench_agent::liveness::{LivenessState, PING_INTERVAL_MS, PONG_TIMEOUT_MS};
use bench_agent::queue::{EnqueueError, OutboundMessage, OutboundQueue, QUEUE_CAPACITY};
use bench_agent::router::{
    after_dispatch, on_activity, on_frame, respond, ActivityEvent, FrameOutcome, InboundFrame, Termination,
};
use bench_agent::session::{
    connection_url, is_unauthorized, metadata_json, metadata_param, SessionAction, SessionEvent,
    SessionManager, SessionState, RETRY_DELAY_MS,
};
use bench_agent::text::{contains_text, push_decimal};
use bench_agent::token::{has_prefix, TokenError, TokenManager, TOKEN_CHARSET, TOKEN_LEN};

fn local_manager() -> SessionManager {
    let config = Config::new(&Environment::Local).unwrap();
    SessionManager::new(config, "tok123".to_string(), None)
}

fn text_frame(s: &str) -> InboundFrame {
    InboundFrame::Text(s.to_string())
}

#[test]
fn heartbeat_refresh_clears_staleness() {
    let mut l = LivenessState::new(0);
    assert_eq!(l.ping_interval_ms, PING_INTERVAL_MS);
    assert_eq!(l.pong_timeout_ms, PONG_TIMEOUT_MS);
    assert!(l.is_stale(200_000));
    let out = on_frame(&mut l, &InboundFrame::Pong, 200_000);
    assert!(matches!(out, FrameOutcome::Continue));
    assert_eq!(l.last_pong_at_ms, 200_000);
    assert!(!l.is_stale(200_000));
}

#[test]
fn last_pong_never_moves_back() {
    let mut l = LivenessState::new(5_000);
    l.record_pong(1_000);
    assert_eq!(l.last_pong_at_ms, 5_000);
    l.record_pong(9_000);
    assert_eq!(l.last_pong_at_ms, 9_000);
}

#[test]
fn staleness_tears_down_and_schedules_reconnect() {
    let mut l = LivenessState::new(0);
    assert!(!l.is_stale(89_999));
    assert!(l.is_stale(90_000));
    let out = on_frame(&mut l, &text_frame("{}"), 90_000);
    assert!(matches!(out, FrameOutcome::Terminate(Termination::Stale)));
    let out = on_frame(&mut l, &InboundFrame::Ping, 95_000);
    assert!(matches!(out, FrameOutcome::Terminate(Termination::Stale)));
    assert_eq!(after_dispatch(&l, 90_000), Some(Termination::Stale));
    assert_eq!(after_dispatch(&l, 10), None);

    let mut m = local_manager();
    m.state = SessionState::Connected;
    match m.step(SessionEvent::Ended(Termination::Stale)) {
        SessionAction::Wait { delay_ms, reauth_url } => {
            assert_eq!(delay_ms, 5000);
            assert!(reauth_url.is_none());
        }
        _ => panic!("expected a wait"),
    }
    assert_eq!(m.state, SessionState::Terminated);
    assert!(matches!(m.step(SessionEvent::DelayElapsed), SessionAction::Resolve));
    assert_eq!(m.state, SessionState::Resolving);
}

#[test]
fn close_and_error_frames_end_the_session() {
    let mut l = LivenessState::new(0);
    assert!(matches!(on_frame(&mut l, &InboundFrame::Close, 1), FrameOutcome::Terminate(Termination::Closed)));
    assert!(matches!(
        on_frame(&mut l, &InboundFrame::Error, 1),
        FrameOutcome::Terminate(Termination::TransportError)
    ));
    assert!(matches!(on_frame(&mut l, &InboundFrame::Binary, 1), FrameOutcome::Continue));
}

#[test]
fn malformed_frame_is_not_fatal() {
    let mut l = LivenessState::new(0);
    let frames = vec![
        text_frame("{not json"),
        text_frame(r#"{"action":"message","channelId":"T","clientType":"web","message":{"type":"command","id":"m1","data":{"command":"echo hi"}}}"#),
    ];
    let mut executed = Vec::new();
    let mut ids = Vec::new();
    let mut malformed = 0;
    for f in &frames {
        match on_frame(&mut l, f, 1_000) {
            FrameOutcome::Execute(req) => {
                ids.push(req.request_id);
                executed.push(req.command)
            }
            FrameOutcome::Malformed => malformed += 1,
            FrameOutcome::Terminate(_) => panic!("session ended"),
            FrameOutcome::Continue => {}
        }
    }
    assert_eq!(malformed, 1);
    assert_eq!(executed, vec!["echo hi".to_string()]);
    assert_eq!(ids, vec!["m1".to_string()]);
}

#[test]
fn decode_tolerates_missing_fields() {
    assert!(matches!(decode_request("{not json"), Err(DecodeError::Malformed)));
    assert!(decode_request("{}").unwrap().is_none());
    assert!(decode_request(r#"{"message":{"data":{}}}"#).unwrap().is_none());
    assert!(decode_request("[1,2]").unwrap().is_none());
    let req = decode_request(r#"{"message":{"data":{"command":42}}}"#).unwrap().unwrap();
    assert_eq!(req.command, "");
    assert_eq!(req.request_id, "");
}

#[test]
fn correlation_round_trip() {
    let req = decode_request(r#"{"action":"message","message":{"type":"command","id":"abc123","data":{"command":"ls"}}}"#)
        .unwrap()
        .unwrap();
    assert_eq!(req.request_id, "abc123");
    assert_eq!(req.command, "ls");
    let result = CommandResult::from_streams("a.txt", "", Some(0));
    let env = respond("tok123", &req, &result);
    assert_eq!(env.message.correlation_id.as_deref(), Some("abc123"));
    assert_ne!(env.message.id, "abc123");
    assert_eq!(env.message.id.len(), 36);
    assert_eq!(env.action, "message");
    assert_eq!(env.channel_id, "tok123");
    assert_eq!(env.client_type, "server");
    assert_eq!(env.message.msg_type, "response");

    let text = encode_envelope(&env);
    let v: serde_json::Value = serde_json::from_str(&text).unwrap();
    assert_eq!(v["message"]["correlationId"], "abc123");
    assert_eq!(v["message"]["data"]["output"], "STDOUT:\na.txt\nCommand exited with status code: 0");
    assert!(v["message"]["data"]["error"].is_null());
    assert_eq!(v["channelId"], "tok123");
    assert_eq!(v["clientType"], "server");
    assert_eq!(v["action"], "message");
    assert_eq!(v["message"]["type"], "response");
}

#[test]
fn response_id_differs_even_when_fresh_id_collides() {
    let req = CommandRequest { command: "ls".to_string(), request_id: "same".to_string() };
    let env = build_response("t", &req, "same", &CommandResult::failed("boom"));
    assert_eq!(env.message.id, "same-");
    assert_eq!(env.message.data.output, "boom");
    assert_eq!(env.message.data.error.as_deref(), Some("boom"));
    let env = build_response("t", &req, "other", &CommandResult::failed("boom"));
    assert_eq!(env.message.id, "other");
    let v: serde_json::Value = serde_json::from_str(&encode_envelope(&env)).unwrap();
    assert_eq!(v["message"]["data"]["error"], "boom");
}

#[test]
fn nonzero_exit_is_data_not_error() {
    let r = CommandResult::completed(b"", b"oops", Some(2));
    assert_eq!(r.exit_status, 2);
    assert!(r.error.is_none());
    assert_eq!(r.output, "STDERR:\noops\nCommand exited with status code: 2");
}

#[test]
fn render_output_both_streams_and_missing_code() {
    assert_eq!(
        render_output("out", "err", None),
        "STDOUT:\nout\nSTDERR:\nerr\nCommand exited with status code: -1"
    );
    let r = CommandResult::completed(b"", b"", None);
    assert_eq!(r.exit_status, -1);
    assert_eq!(r.output, "Command exited with status code: -1");
}

#[test]
fn invalid_utf8_output_is_replaced() {
    let r = CommandResult::completed(&[0x66, 0xff], b"", Some(0));
    assert_eq!(r.output, "STDOUT:\nf\u{fffd}\nCommand exited with status code: 0");
}

#[test]
fn decimal_rendering() {
    let mut s = String::from("x");
    push_decimal(&mut s, -2147483648);
    assert_eq!(s, "x-2147483648");
    let mut s = String::new();
    push_decimal(&mut s, 1090);
    assert_eq!(s, "1090");
}

#[test]
fn unbounded_retry_after_resolution_failures() {
    let mut m = local_manager();
    assert!(matches!(m.step(SessionEvent::Start), SessionAction::Resolve));
    for _ in 0..3 {
        match m.step(SessionEvent::ResolveFailed("error sending request: connection refused".to_string())) {
            SessionAction::Wait { delay_ms, reauth_url } => {
                assert_eq!(delay_ms, RETRY_DELAY_MS);
                assert_eq!(delay_ms, 5000);
                assert!(reauth_url.is_none());
            }
            _ => panic!("expected a wait"),
        }
        assert_eq!(m.state, SessionState::Terminated);
        assert!(matches!(m.step(SessionEvent::DelayElapsed), SessionAction::Resolve));
        assert_eq!(m.state, SessionState::Resolving);
    }
}

#[test]
fn unauthorized_resolution_prompts_reauth() {
    let mut m = local_manager();
    m.step(SessionEvent::Start);
    match m.step(SessionEvent::ResolveFailed("HTTP status client error (401 Unauthorized)".to_string())) {
        SessionAction::Wait { delay_ms, reauth_url } => {
            assert_eq!(delay_ms, 5000);
            assert_eq!(reauth_url.as_deref(), Some("http://localhost:3001/auth/tok123"));
        }
        _ => panic!("expected a wait"),
    }
}

#[test]
fn resolve_connect_serve_end() {
    let config = Config::new(&Environment::Local).unwrap();
    let mut m = SessionManager::new(config, "tok".to_string(), Some("meta".to_string()));
    m.step(SessionEvent::Start);
    match m.step(SessionEvent::Resolved("wss://x/ws".to_string())) {
        SessionAction::Connect(u) => {
            assert_eq!(u, "wss://x/ws?clientType=server&channelId=tok&metadata=meta")
        }
        _ => panic!("expected connect"),
    }
    assert!(matches!(m.step(SessionEvent::Connected), SessionAction::Serve));
    assert_eq!(m.state, SessionState::Connected);
    assert!(matches!(m.step(SessionEvent::DelayElapsed), SessionAction::Nothing));
    assert!(matches!(m.step(SessionEvent::Ended(Termination::Closed)), SessionAction::Wait { .. }));
    m.step(SessionEvent::DelayElapsed);
    assert!(matches!(m.step(SessionEvent::ConnectFailed), SessionAction::Wait { .. }));
    assert_eq!(m.state, SessionState::Terminated);
}

#[test]
fn outbound_order_is_enqueue_order() {
    let mut q = OutboundQueue::new();
    q.push(OutboundMessage::Ping).unwrap();
    q.push(OutboundMessage::Text("R1".to_string())).unwrap();
    q.push(OutboundMessage::Text("R2".to_string())).unwrap();
    assert_eq!(q.len(), 3);
    assert_eq!(q.pop(), Some(OutboundMessage::Ping));
    assert_eq!(q.pop(), Some(OutboundMessage::Text("R1".to_string())));
    assert_eq!(q.pop(), Some(OutboundMessage::Text("R2".to_string())));
    assert_eq!(q.pop(), None);
}

#[test]
fn queue_full_and_closed() {
    let mut q = OutboundQueue::new();
    for i in 0..QUEUE_CAPACITY {
        q.push(OutboundMessage::Text(i.to_string())).unwrap();
    }
    assert_eq!(q.push(OutboundMessage::Ping), Err(EnqueueError::Full));
    assert_eq!(q.len(), 32);
    q.close();
    assert!(q.is_closed());
    assert_eq!(q.pop(), Some(OutboundMessage::Text("0".to_string())));
    assert_eq!(q.push(OutboundMessage::Ping), Err(EnqueueError::Closed));
}

#[test]
fn config_addresses() {
    let c = Config::new(&Environment::Local).unwrap();
    assert_eq!(c.base_url, "http://localhost:3001/");
    assert_eq!(c.ws_url_endpoint(), "http://localhost:3001/api/terminal/ws-url");
    assert_eq!(c.auth_url("abc"), "http://localhost:3001/auth/abc");
    let p = Config::new(&Environment::Production).unwrap();
    assert_eq!(p.base_url, "https://bench.chat/");
    let c = Config::new(&Environment::Custom("https://example.com/base/".to_string())).unwrap();
    assert_eq!(c.ws_url_endpoint(), "https://example.com/base/api/terminal/ws-url");
    assert!(matches!(
        Config::new(&Environment::Custom("not a url".to_string())),
        Err(ConfigError::InvalidUrl)
    ));
}

#[test]
fn environment_names() {
    assert_eq!(Environment::Local.name(), "local");
    assert_eq!(Environment::Production.name(), "production");
    assert_eq!(Environment::Custom("x".to_string()).name(), "custom");
}

#[test]
fn token_file_round_trip() {
    let content = TokenManager::token_file_content("abc");
    assert_eq!(content, "BENCH_TOKEN=abc\n");
    assert_eq!(TokenManager::parse_token_file(&content), Some("abc".to_string()));
    assert_eq!(
        TokenManager::parse_token_file("OTHER=1\r\nBENCH_TOKEN=xyz\r\nBENCH_TOKEN=second\n"),
        Some("xyz".to_string())
    );
    assert_eq!(TokenManager::parse_token_file("BENCH_TOKEN=last"), Some("last".to_string()));
    assert_eq!(TokenManager::parse_token_file(""), None);
    assert_eq!(TokenManager::parse_token_file("\n\nX=1\n"), None);
    assert_eq!(TokenManager::parse_token_file(" BENCH_TOKEN=no"), None);
}

#[test]
fn generated_token_shape() {
    let t = TokenManager::generate_token();
    assert_eq!(t.len(), TOKEN_LEN);
    assert!(t.chars().all(|c| TOKEN_CHARSET.contains(c)));
    assert!(t.chars().all(|c| c.is_ascii_alphanumeric()));
}

#[test]
fn token_manager_paths() {
    let m = TokenManager::at_path("/tmp/x/.bench.env");
    assert_eq!(m.file_path(), "/tmp/x/.bench.env");
    if let Ok(m) = TokenManager::new() {
        assert!(m.file_path().ends_with(".bench.env"));
    }
}

#[test]
fn connection_address() {
    assert_eq!(connection_url("wss://h/ws", "tok", &None), "wss://h/ws?clientType=server&channelId=tok");
    let meta = metadata_param("0.1.0", "linux", "/home/a b");
    assert!(!meta.contains('{'));
    assert!(!meta.contains(' '));
    assert!(meta.starts_with("%7B%22"));
    assert!(meta.contains("%2Fhome%2Fa+b"));
    let json: serde_json::Value = serde_json::from_str(&metadata_json("0.1.0", "linux", "/w")).unwrap();
    assert_eq!(json["type"], "terminal");
    assert_eq!(json["os"], "linux");
    assert_eq!(json["working_dir"], "/w");
    assert_eq!(json["version"], "0.1.0");
}

#[test]
fn text_helpers() {
    assert!(is_unauthorized("status 401"));
    assert!(!is_unauthorized("status 40"));
    assert!(contains_text("abc", ""));
    assert!(!contains_text("", "a"));
    assert!(has_prefix("BENCH_TOKEN=1", "BENCH_TOKEN="));
    assert!(!has_prefix("BENCH", "BENCH_TOKEN="));
    assert!(string_eq("x", "x"));
    assert!(!string_eq("x", "y"));
}

#[test]
fn custom_timing() {
    let mut l = LivenessState::with_timing(1_000, 3_000, 10);
    assert_eq!(l.ping_interval_ms, 1_000);
    assert!(!l.is_stale(3_009));
    assert!(l.is_stale(3_010));
    assert!(!l.is_stale(5));
    l.record_pong(3_010);
    assert!(!l.is_stale(6_009));
}

#[test]
fn decode_reads_command_and_id() {
    let req = decode_request(r#"{"message":{"data":{"command":"pwd"}}}"#).unwrap().unwrap();
    assert_eq!(req.command, "pwd");
    assert_eq!(req.request_id, "");
    let req = decode_request(r#"{"message":{"id":7,"data":{"command":"pwd"}}}"#).unwrap().unwrap();
    assert_eq!(req.request_id, "");
    assert!(decode_request(r#"{"message":"x"}"#).unwrap().is_none());
}

#[test]
fn envelope_exact_text() {
    let req = CommandRequest { command: "ls".to_string(), request_id: "abc".to_string() };
    let env = build_response("T", &req, "X", &CommandResult::failed("a\"b\n\u{1}\\"));
    assert_eq!(
        encode_envelope(&env),
        r#"{"action":"message","channelId":"T","clientType":"server","message":{"correlationId":"abc","data":{"error":"a\"b\n\u0001\\","output":"a\"b\n\u0001\\"},"id":"X","type":"response"}}"#
    );
    let ok = build_response("T", &req, "X", &CommandResult::from_streams("", "", Some(0)));
    assert_eq!(
        encode_envelope(&ok),
        r#"{"action":"message","channelId":"T","clientType":"server","message":{"correlationId":"abc","data":{"error":null,"output":"Command exited with status code: 0"},"id":"X","type":"response"}}"#
    );
}

#[test]
fn metadata_exact_text() {
    assert_eq!(
        metadata_json("0.1.0", "linux", "/w"),
        r#"{"os":"linux","type":"terminal","version":"0.1.0","working_dir":"/w"}"#
    );
    assert_eq!(
        metadata_param("1", "x", "a b"),
        "%7B%22os%22%3A%22x%22%2C%22type%22%3A%22terminal%22%2C%22version%22%3A%221%22%2C%22working_dir%22%3A%22a+b%22%7D"
    );
}

#[test]
fn activity_reports_end_the_session() {
    let l = LivenessState::new(0);
    assert_eq!(on_activity(&l, &ActivityEvent::Tick { ping_enqueued: true }, 30_000), None);
    assert_eq!(on_activity(&l, &ActivityEvent::Tick { ping_enqueued: true }, 90_000), Some(Termination::Stale));
    assert_eq!(on_activity(&l, &ActivityEvent::Tick { ping_enqueued: false }, 90_000), Some(Termination::Stale));
    assert_eq!(on_activity(&l, &ActivityEvent::Tick { ping_enqueued: false }, 30_000), Some(Termination::PingFailed));
    assert_eq!(on_activity(&l, &ActivityEvent::WriterStopped, 1), Some(Termination::WriterStopped));
}

#[test]
fn token_from_draws() {
    let zeros = vec![0usize; 32];
    assert_eq!(TokenManager::token_of_draws(&zeros), "a".repeat(32));
    let draws: Vec<usize> = (0..32).map(|i| (i * 2) % 62).collect();
    let expected: String = draws.iter().map(|&i| TOKEN_CHARSET.as_bytes()[i] as char).collect();
    assert_eq!(TokenManager::token_of_draws(&draws), expected);
    let last = vec![61usize; 32];
    assert_eq!(TokenManager::token_of_draws(&last), "9".repeat(32));
}

#[test]
fn token_file_in_home() {
    assert!(matches!(TokenManager::in_home(None), Err(TokenError::NoHomeDirectory)));
    let m = TokenManager::in_home(Some("/home/u".to_string())).unwrap();
    assert_eq!(m.file_path(), "/home/u/.bench.env");
}
