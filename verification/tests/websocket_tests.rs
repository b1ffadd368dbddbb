use base64::Engine;
use serde_json::Value;
use std::hash::{Hash, Hasher};
use voxbridge::websocket::{
    audio_chunk_message, client_events, connect_request, decode_audio_delta,
    extract_transcript_delta, is_event_type, next_event_from_frame, realtime_url,
    safety_identifier, server_events, session_close_message, session_update_message, CloseDetails,
    IncomingFrame, NextEvent, ServerEvent,
};

fn object(pairs: Vec<(&str, Value)>) -> Value {
    let mut map = serde_json::Map::new();
    for (k, v) in pairs {
        map.insert(k.to_string(), v);
    }
    Value::Object(map)
}

fn event(kind: Option<&str>, delta: Option<&str>) -> ServerEvent {
    ServerEvent { event_type: kind.map(|s| s.to_string()), delta: delta.map(|s| s.to_string()), error_message: None }
}

#[test]
fn session_update_matches_serde_json() {
    for lang in ["en", "ml", "quo\"te\\back\nline\u{1}\u{7f}é"] {
        let expected = object(vec![
            ("type", Value::String("session.update".to_string())),
            (
                "session",
                object(vec![("audio", object(vec![("output", object(vec![("language", Value::String(lang.to_string()))]))]))]),
            ),
        ]);
        let text = session_update_message(lang);
        assert_eq!(text, serde_json::to_string(&expected).unwrap());
        assert_eq!(serde_json::from_str::<Value>(&text).unwrap(), expected);
    }
    assert_eq!(session_update_message("en"), "{\"session\":{\"audio\":{\"output\":{\"language\":\"en\"}}},\"type\":\"session.update\"}");
}

#[test]
fn quotes_backslashes_and_newlines_are_escaped() {
    assert_eq!(
        session_update_message("a\"b\\c\nd\u{7f}é"),
        "{\"session\":{\"audio\":{\"output\":{\"language\":\"a\\\"b\\\\c\\nd\u{7f}é\"}}},\"type\":\"session.update\"}"
    );
}

#[test]
fn control_characters_are_escaped() {
    assert_eq!(
        session_update_message("\u{8}\u{c}\t\r\u{1f}"),
        "{\"session\":{\"audio\":{\"output\":{\"language\":\"\\b\\f\\t\\r\\u001f\"}}},\"type\":\"session.update\"}"
    );
}

#[test]
fn audio_chunk_matches_serde_json() {
    let bytes: Vec<u8> = (0..=255u8).collect();
    let encoded = base64::engine::general_purpose::STANDARD.encode(&bytes);
    assert_eq!(encoded.len(), 4 * ((bytes.len() + 2) / 3));
    let expected = object(vec![
        ("type", Value::String(client_events::INPUT_AUDIO_BUFFER_APPEND.to_string())),
        ("audio", Value::String(encoded)),
    ]);
    assert_eq!(audio_chunk_message(&bytes), serde_json::to_string(&expected).unwrap());
    assert_eq!(audio_chunk_message(&[]), "{\"audio\":\"\",\"type\":\"session.input_audio_buffer.append\"}");
    assert_eq!(audio_chunk_message(&[1]), "{\"audio\":\"AQ==\",\"type\":\"session.input_audio_buffer.append\"}");
}

#[test]
fn close_message() {
    assert_eq!(session_close_message(), "{\"type\":\"session.close\"}");
}

#[test]
fn audio_delta_decodes_base64() {
    assert_eq!(decode_audio_delta(&event(None, Some("AQD//w=="))), Some(vec![1, 0, 255, 255]));
    assert_eq!(decode_audio_delta(&event(None, Some("AQD//w="))), None);
    assert_eq!(decode_audio_delta(&event(None, None)), None);
    assert_eq!(decode_audio_delta(&event(None, Some(""))), Some(vec![]));
}

#[test]
fn transcript_delta_is_copied() {
    assert_eq!(extract_transcript_delta(&event(None, Some("hi"))), Some("hi".to_string()));
    assert_eq!(extract_transcript_delta(&event(None, None)), None);
}

#[test]
fn event_type_comparison() {
    assert!(is_event_type(&event(Some("error"), None), server_events::ERROR));
    assert!(!is_event_type(&event(Some("errors"), None), server_events::ERROR));
    assert!(!is_event_type(&event(None, None), server_events::ERROR));
}

#[test]
fn frames_become_events() {
    match next_event_from_frame(IncomingFrame::Text("{\"type\":\"x\"}".to_string())) {
        NextEvent::Deliver(Some(Ok(ev))) => {
            assert_eq!(ev.event_type, Some("x".to_string()));
            assert_eq!(ev.delta, None);
            assert_eq!(ev.error_message, None);
        }
        _ => panic!(),
    }
    let serde_message = serde_json::from_str::<Value>("not json").unwrap_err().to_string();
    match next_event_from_frame(IncomingFrame::Text("not json".to_string())) {
        NextEvent::Deliver(Some(Err(e))) => assert_eq!(e, format!("failed to parse server event: {serde_message}")),
        _ => panic!(),
    }
    match next_event_from_frame(IncomingFrame::Close(Some(CloseDetails { code: 1008, reason: "policy".to_string() }))) {
        NextEvent::Deliver(Some(Err(e))) => assert_eq!(e, "server closed the connection: code=1008 reason=policy"),
        _ => panic!(),
    }
    match next_event_from_frame(IncomingFrame::Close(Some(CloseDetails { code: 0, reason: String::new() }))) {
        NextEvent::Deliver(Some(Err(e))) => assert_eq!(e, "server closed the connection: code=0 reason="),
        _ => panic!(),
    }
    match next_event_from_frame(IncomingFrame::Close(None)) {
        NextEvent::Deliver(Some(Err(e))) => assert_eq!(e, "server closed the connection: no close details provided by server"),
        _ => panic!(),
    }
    match next_event_from_frame(IncomingFrame::ReadError("reset".to_string())) {
        NextEvent::Deliver(Some(Err(e))) => assert_eq!(e, "websocket read error: reset"),
        _ => panic!(),
    }
    assert!(matches!(next_event_from_frame(IncomingFrame::Other), NextEvent::Skip));
    assert!(matches!(next_event_from_frame(IncomingFrame::Ended), NextEvent::Deliver(None)));
}

#[test]
fn url_names_the_model() {
    assert_eq!(realtime_url(), "wss://api.openai.com/v1/realtime/translations?model=gpt-realtime-translate");
}

fn reference_identifier(raw: &str) -> String {
    let mut hasher = std::collections::hash_map::DefaultHasher::new();
    raw.to_string().hash(&mut hasher);
    format!("vb-{:x}", hasher.finish())
}

#[test]
fn safety_identifier_hashes_the_user() {
    assert_eq!(safety_identifier(Some("alice".to_string()), Some("bob".to_string())), reference_identifier("alice"));
    assert_eq!(safety_identifier(None, Some("bob".to_string())), reference_identifier("bob"));
    assert_eq!(safety_identifier(None, None), reference_identifier("voxbridge-user"));
    let id = safety_identifier(Some("alice".to_string()), None);
    assert!(id.starts_with("vb-"));
    assert!(id[3..].chars().all(|c| c.is_ascii_hexdigit() && !c.is_ascii_uppercase()));
}

#[test]
fn connect_request_builds_headers() {
    let req = connect_request("sk-abc", "vb-1f").unwrap();
    assert_eq!(req.url, "wss://api.openai.com/v1/realtime/translations?model=gpt-realtime-translate");
    assert_eq!(req.authorization, "Bearer sk-abc");
    assert_eq!(req.safety_identifier, "vb-1f");
    assert!(connect_request("sk-é\t", "vb").is_ok());
}

#[test]
fn connect_request_rejects_control_characters() {
    assert_eq!(connect_request("sk\nabc", "vb-1").err(), Some("invalid API key header: failed to parse header value".to_string()));
    assert_eq!(connect_request("sk\u{7f}", "vb\n").err(), Some("invalid API key header: failed to parse header value".to_string()));
    assert_eq!(connect_request("sk", "vb\r").err(), Some("invalid safety identifier header: failed to parse header value".to_string()));
}

#[test]
fn decoding_accepts_only_canonical_padding() {
    assert_eq!(decode_audio_delta(&event(None, Some("AQ=="))), Some(vec![1]));
    assert_eq!(decode_audio_delta(&event(None, Some("AR=="))), None);
    assert_eq!(decode_audio_delta(&event(None, Some("AQ="))), None);
    assert_eq!(decode_audio_delta(&event(None, Some("AQ"))), None);
    assert_eq!(decode_audio_delta(&event(None, Some("AQ==AQ=="))), None);
    assert_eq!(decode_audio_delta(&event(None, Some("AQID"))), Some(vec![1, 2, 3]));
}

#[test]
fn sent_audio_decodes_back() {
    for n in [0usize, 1, 2, 3, 4, 5, 64, 257] {
        let bytes: Vec<u8> = (0..n).map(|i| (i * 37 % 256) as u8).collect();
        let text = audio_chunk_message(&bytes);
        let value: Value = serde_json::from_str(&text).unwrap();
        let audio = value.get("audio").and_then(|a| a.as_str()).unwrap();
        assert_eq!(decode_audio_delta(&event(None, Some(audio))), Some(bytes));
    }
}

#[test]
fn text_frames_keep_only_string_members() {
    let frame = "{\"type\":\"error\",\"delta\":5,\"error\":{\"message\":\"rate limited\",\"code\":\"x\"}}";
    match next_event_from_frame(IncomingFrame::Text(frame.to_string())) {
        NextEvent::Deliver(Some(Ok(ev))) => {
            assert_eq!(ev.event_type, Some("error".to_string()));
            assert_eq!(ev.delta, None);
            assert_eq!(ev.error_message, Some("rate limited".to_string()));
        }
        _ => panic!(),
    }
    match next_event_from_frame(IncomingFrame::Text("{\"type\":\"session.output_audio.delta\",\"delta\":\"AQD//w==\"}".to_string())) {
        NextEvent::Deliver(Some(Ok(ev))) => {
            assert_eq!(ev.delta, Some("AQD//w==".to_string()));
            assert_eq!(decode_audio_delta(&ev), Some(vec![1, 0, 255, 255]));
        }
        _ => panic!(),
    }
    match next_event_from_frame(IncomingFrame::Text("[1,2]".to_string())) {
        NextEvent::Deliver(Some(Ok(ev))) => {
            assert_eq!(ev.event_type, None);
            assert_eq!(ev.error_message, None);
        }
        _ => panic!(),
    }
}
