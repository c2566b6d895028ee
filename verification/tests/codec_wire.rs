use headless_chrome::codec::{
    create_msg_to_send, parse_call, push_escaped, render_call, triage_frame,
    unescape_range, unwrap_received_message, CallIdGenerator, WireMessage,
};
use headless_chrome::errors::ChromePageError;
use headless_chrome::{MethodDestination, SessionId};

#[test]
fn t_render_call_shape() {
    let frame = render_call(5, "Page.enable", b"{}");
    let text = String::from_utf8(frame).expect("frame should be utf-8");
    assert_eq!(text, "{\"id\":5,\"method\":\"Page.enable\",\"params\":{}}");
}

#[test]
fn t_call_round_trip() {
    let frame = render_call(184467, "Runtime.evaluate", b"{\"expression\":\"3+3\"}");
    let parts = parse_call(frame.as_slice()).expect("rendered call should parse");
    assert_eq!(parts.call_id, 184467);
    assert_eq!(parts.method, b"Runtime.evaluate".to_vec());
    assert_eq!(parts.params, b"{\"expression\":\"3+3\"}".to_vec());
}

#[test]
fn t_rendered_call_is_valid_json() {
    let frame = render_call(9, "Page.navigate", b"{\"url\":\"https://example.com\"}");
    let v: serde_json::Value = serde_json::from_slice(&frame).expect("frame should be JSON");
    assert_eq!(v["id"], serde_json::Value::from(9));
    assert_eq!(v["method"].as_str(), Some("Page.navigate"));
    assert_eq!(v["params"]["url"].as_str(), Some("https://example.com"));
}

#[test]
fn t_double_wrap_uses_two_distinct_call_ids() {
    let mut gen = CallIdGenerator::new();
    let destination = MethodDestination::Target(SessionId::new("sess-1".to_string()));
    let (frame, inner_id) = create_msg_to_send(&mut gen, "Runtime.enable", b"{}", &destination);
    assert_eq!(gen.next, 2, "one user-level call spends two ids");
    assert_eq!(inner_id, 0, "the inner id is the one the engine correlates");

    let outer = parse_call(frame.as_slice()).expect("outer frame should parse");
    assert_eq!(outer.call_id, 1);
    assert_ne!(outer.call_id, inner_id);
    assert_eq!(outer.method, b"Target.sendMessageToTarget".to_vec());

    let v: serde_json::Value = serde_json::from_slice(&frame).expect("outer should be JSON");
    assert_eq!(v["params"]["sessionId"].as_str(), Some("sess-1"));
    let message = v["params"]["message"].as_str().expect("message should be a string");
    let inner = parse_call(message.as_bytes()).expect("inner frame should parse");
    assert_eq!(inner.call_id, inner_id);
    assert_eq!(inner.method, b"Runtime.enable".to_vec());
    assert_eq!(inner.params, b"{}".to_vec());
}

#[test]
fn t_browser_destination_spends_one_id() {
    let mut gen = CallIdGenerator::new();
    let (frame, call_id) = create_msg_to_send(&mut gen, "Page.enable", b"{}", &MethodDestination::Browser);
    assert_eq!(gen.next, 1);
    assert_eq!(call_id, 0);
    let parts = parse_call(frame.as_slice()).expect("frame should parse");
    assert_eq!(parts.call_id, 0);
}

#[test]
fn t_call_ids_strictly_increasing() {
    let mut gen = CallIdGenerator::new();
    let a = gen.fresh();
    let b = gen.fresh();
    let c = gen.fresh();
    assert!(a < b && b < c);
    assert_eq!((a, b, c), (0, 1, 2));
}

#[test]
fn t_triage_response() {
    match triage_frame(b"{\"id\":7,\"result\":{\"frameId\":\"F1\"}}") {
        WireMessage::Response { call_id, ok, body } => {
            assert_eq!(call_id, 7);
            assert!(ok);
            assert_eq!(body, b"{\"frameId\":\"F1\"}".to_vec());
        }
        _ => panic!("a frame with an id is a response"),
    }
}

#[test]
fn t_triage_error_response() {
    match triage_frame(b"{\"id\":3,\"error\":{\"code\":-32601}}") {
        WireMessage::Response { call_id, ok, body } => {
            assert_eq!(call_id, 3);
            assert!(!ok);
            assert_eq!(body, b"{\"code\":-32601}".to_vec());
        }
        _ => panic!("a frame with an error field is a failed response"),
    }
}

#[test]
fn t_triage_event() {
    match triage_frame(b"{\"method\":\"Page.loadEventFired\",\"params\":{\"timestamp\":12}}") {
        WireMessage::Event { method, params } => {
            assert_eq!(method, b"Page.loadEventFired".to_vec());
            assert_eq!(params, b"{\"timestamp\":12}".to_vec());
        }
        _ => panic!("a frame with a method is an event"),
    }
}

#[test]
fn t_triage_malformed() {
    assert!(matches!(triage_frame(b"not json at all"), WireMessage::Malformed));
    assert!(matches!(triage_frame(b"{\"id\":}"), WireMessage::Malformed));
    assert!(matches!(triage_frame(b""), WireMessage::Malformed));
}

#[test]
fn t_unwrap_received_message_response() {
    let params =
        b"{\"sessionId\":\"S9\",\"targetId\":\"T1\",\"message\":\"{\\\"id\\\":3,\\\"result\\\":{}}\"}";
    let (session, msg) = unwrap_received_message(params).expect("well-formed wrapper");
    assert_eq!(session, b"S9".to_vec());
    match msg {
        WireMessage::Response { call_id, ok, body } => {
            assert_eq!(call_id, 3);
            assert!(ok);
            assert_eq!(body, b"{}".to_vec());
        }
        _ => panic!("the carried frame is a response"),
    }
}

#[test]
fn t_unwrap_received_message_event() {
    let params = b"{\"sessionId\":\"S1\",\"message\":\"{\\\"method\\\":\\\"Page.frameNavigated\\\",\\\"params\\\":{}}\"}";
    let (session, msg) = unwrap_received_message(params).expect("well-formed wrapper");
    assert_eq!(session, b"S1".to_vec());
    assert!(matches!(msg, WireMessage::Event { .. }));
}

#[test]
fn t_malformed_inner_message_is_protocol_parse() {
    // The wrapper itself is fine; the carried message is not a frame.
    let params = b"{\"sessionId\":\"S1\",\"message\":\"this is not an envelope\"}";
    match unwrap_received_message(params) {
        Err(e) => assert_eq!(e, ChromePageError::ProtocolParse),
        Ok(_) => panic!("a malformed inner message must surface a protocol-parse failure"),
    }
    // No message field at all.
    match unwrap_received_message(b"{\"sessionId\":\"S1\"}") {
        Err(e) => assert_eq!(e, ChromePageError::ProtocolParse),
        Ok(_) => panic!("a wrapper without a message is malformed"),
    }
}

#[test]
fn t_escape_round_trip() {
    let raw = b"he said \"hi\\there\"\nline2";
    let mut escaped: Vec<u8> = Vec::new();
    push_escaped(&mut escaped, raw);
    assert!(!escaped.contains(&b'\n'), "control bytes are escaped");
    let back = unescape_range(escaped.as_slice(), 0, escaped.len()).expect("escape output unescapes");
    assert_eq!(back, raw.to_vec());
}

#[test]
fn t_escaped_string_is_valid_json_value() {
    let mut escaped: Vec<u8> = Vec::new();
    push_escaped(&mut escaped, b"a\"b\\c\x01d");
    let mut doc: Vec<u8> = Vec::new();
    doc.push(b'"');
    doc.extend_from_slice(&escaped);
    doc.push(b'"');
    let v: serde_json::Value = serde_json::from_slice(&doc).expect("escaped value is JSON");
    assert_eq!(v.as_str(), Some("a\"b\\c\u{1}d"));
}

#[test]
fn t_press_key_frames() {
    let mut gen = CallIdGenerator::new();
    let frames = headless_chrome::serialize::press_key_frames(
        &mut gen,
        &None,
        "Enter",
        "Enter",
        13,
        Some("\r"),
    );
    assert_eq!(frames.len(), 2);
    let down: serde_json::Value = serde_json::from_slice(&frames[0]).expect("down frame is JSON");
    assert_eq!(down["method"].as_str(), Some("Input.dispatchKeyEvent"));
    assert_eq!(down["params"]["type"].as_str(), Some("keyDown"));
    assert_eq!(down["params"]["key"].as_str(), Some("Enter"));
    assert_eq!(down["params"]["windowsVirtualKeyCode"].as_u64(), Some(13));
    assert_eq!(down["params"]["text"].as_str(), Some("\r"));
    let up: serde_json::Value = serde_json::from_slice(&frames[1]).expect("up frame is JSON");
    assert_eq!(up["params"]["type"].as_str(), Some("keyUp"));

    // Without text and with a multi-character key, the down event is
    // the raw form.
    let frames = headless_chrome::serialize::press_key_frames(&mut gen, &None, "Tab", "Tab", 9, None);
    let down: serde_json::Value = serde_json::from_slice(&frames[0]).expect("down frame is JSON");
    assert_eq!(down["params"]["type"].as_str(), Some("rawKeyDown"));
    assert!(down["params"].get("text").is_none());
}
