use kitty_rc::JsonValue;
use kitty_rc::KittyMessage;
use kitty_rc::KittyResponse;
use kitty_rc::StreamIdGen;

fn obj(entries: Vec<(&str, JsonValue)>) -> JsonValue {
    let mut out: Vec<(String, JsonValue)> = Vec::new();
    for (k, v) in entries {
        out.push((k.to_string(), v));
    }
    JsonValue::Obj(out)
}

#[test]
fn test_message_encode() {
    let msg = KittyMessage::new("ls".to_string(), vec![0, 14, 2]);
    let encoded = msg.encode().unwrap();
    let decoded = KittyMessage::decode(&encoded).unwrap();
    assert_eq!(decoded.cmd, "ls");
    assert_eq!(decoded.version, vec![0, 14, 2]);
}

#[test]
fn test_message_with_payload() {
    let payload = obj(vec![
        ("match", JsonValue::Str("id:1".to_string())),
        ("data", JsonValue::Str("text:hello".to_string())),
    ]);
    let msg = KittyMessage::new("send-text".to_string(), vec![0, 14, 2]).payload(payload);
    let encoded = msg.encode().unwrap();
    let decoded = KittyMessage::decode(&encoded).unwrap();
    assert_eq!(decoded.cmd, "send-text");
    assert!(decoded.payload.is_some());
}

#[test]
fn test_message_no_response() {
    let msg = KittyMessage::new("close-window".to_string(), vec![0, 14, 2]).no_response(true);
    let encoded = msg.encode().unwrap();
    let decoded = KittyMessage::decode(&encoded).unwrap();
    assert_eq!(decoded.no_response, Some(true));
}

#[test]
fn test_invalid_escape_sequence() {
    let data = b"invalid message";
    let result = KittyMessage::decode(data);
    assert!(result.is_err());
}

#[test]
fn test_response_decode() {
    let raw = b"\x1bP@kitty-cmd{\"ok\":true,\"data\":[{\"id\":1,\"title\":\"test\"}]}\x1b\\";
    let response = KittyResponse::decode(raw).unwrap();
    assert!(response.ok);
    assert!(response.data.is_some());
}

#[test]
fn test_async_id() {
    let msg =
        KittyMessage::new("select-window".to_string(), vec![0, 14, 2]).async_id("abc123".to_string());
    let encoded = msg.encode().unwrap();
    let decoded = KittyMessage::decode(&encoded).unwrap();
    assert_eq!(decoded.async_id, Some("abc123".to_string()));
}

#[test]
fn test_cancel_async() {
    let msg = KittyMessage::new("select-window".to_string(), vec![0, 14, 2])
        .async_id("abc123".to_string())
        .cancel_async(true);
    let encoded = msg.encode().unwrap();
    let decoded = KittyMessage::decode(&encoded).unwrap();
    assert_eq!(decoded.cancel_async, Some(true));
}

#[test]
fn test_unique_id_generation() {
    let mut ids = StreamIdGen::new();
    let id1 = ids.next_id();
    let id2 = ids.next_id();
    assert_ne!(id1, id2);
}

#[test]
fn test_needs_streaming_false() {
    let msg = KittyMessage::new("send-text".to_string(), vec![0, 14, 2])
        .payload(obj(vec![("data", JsonValue::Str("hello".to_string()))]));
    assert!(!msg.needs_streaming());
}

#[test]
fn test_needs_streaming_true() {
    let large_data = "x".repeat(5000);
    let msg = KittyMessage::new("send-text".to_string(), vec![0, 14, 2])
        .payload(obj(vec![("data", JsonValue::Str(large_data))]));
    assert!(msg.needs_streaming());
}

#[test]
fn test_into_chunks_no_streaming() {
    let msg = KittyMessage::new("send-text".to_string(), vec![0, 14, 2])
        .payload(obj(vec![("data", JsonValue::Str("hello".to_string()))]));
    let chunks = msg.into_chunks("1");
    assert_eq!(chunks.len(), 1);
}

#[test]
fn test_into_chunks_with_streaming() {
    let large_data = "x".repeat(5000);
    let msg = KittyMessage::new("set-background-image".to_string(), vec![0, 14, 2])
        .payload(obj(vec![("data", JsonValue::Str(large_data))]));
    let chunks = msg.into_chunks("1");
    assert!(chunks.len() > 1);
    assert!(chunks.iter().all(|c| c.stream_id.is_some()));
    assert!(chunks.iter().all(|c| c.stream == Some(true)));
}

#[test]
fn test_encode_exact_wire_bytes() {
    let msg = KittyMessage::new("ls".to_string(), vec![0, 43, 1]);
    let encoded = msg.encode().unwrap();
    assert_eq!(
        encoded,
        b"\x1bP@kitty-cmd{\"cmd\":\"ls\",\"version\":[0,43,1]}\x1b\\".to_vec()
    );
}

#[test]
fn test_response_decode_fields_exact() {
    let raw = b"\x1bP@kitty-cmd{\"ok\":true,\"data\":[{\"id\":1}]}\x1b\\";
    let response = KittyResponse::decode(raw).unwrap();
    assert!(response.ok);
    let expected = JsonValue::Arr(vec![JsonValue::Obj(vec![(
        "id".to_string(),
        JsonValue::Int(1),
    )])]);
    assert_eq!(response.data, Some(expected));
    assert!(response.error.is_none());
}

#[test]
fn test_chunk_threshold_exact_limit_no_split() {
    let data = "y".repeat(4096);
    let msg = KittyMessage::new("send-text".to_string(), vec![0, 43, 1])
        .payload(obj(vec![("data", JsonValue::Str(data))]));
    assert!(!msg.needs_streaming());
    let chunks = msg.into_chunks("7");
    assert_eq!(chunks.len(), 1);
    assert!(chunks[0].stream_id.is_none());
}

#[test]
fn test_chunk_threshold_one_over_limit() {
    let data = "y".repeat(4097);
    let msg = KittyMessage::new("send-text".to_string(), vec![0, 43, 1])
        .payload(obj(vec![("data", JsonValue::Str(data))]));
    assert!(msg.needs_streaming());
    let chunks = msg.into_chunks("7");
    // ceil(4097 / 4096) content chunks plus one terminator.
    assert_eq!(chunks.len(), 3);
    for (i, c) in chunks.iter().enumerate() {
        assert_eq!(c.stream_id.as_deref(), Some("7"));
        assert_eq!(c.stream, Some(true));
        match &c.payload {
            Some(JsonValue::Obj(entries)) => {
                if i < 2 {
                    assert_eq!(entries[1].0, "chunk_num");
                    assert_eq!(entries[1].1, JsonValue::Int(i as i64));
                } else {
                    assert_eq!(entries.len(), 1);
                    assert_eq!(entries[0], ("data".to_string(), JsonValue::Str(String::new())));
                }
            }
            _ => panic!("chunk payload must be an object"),
        }
    }
    match (&chunks[0].payload, &chunks[1].payload) {
        (Some(JsonValue::Obj(e0)), Some(JsonValue::Obj(e1))) => {
            assert_eq!(e0[0], ("data".to_string(), JsonValue::Str("y".repeat(4096))));
            assert_eq!(e1[0], ("data".to_string(), JsonValue::Str("y".to_string())));
        }
        _ => panic!("chunk payloads must be objects"),
    }
}

#[test]
fn test_round_trip_all_fields_present() {
    let msg = KittyMessage::new("resize-window".to_string(), vec![0, 43, 1])
        .no_response(false)
        .kitty_window_id("3".to_string())
        .payload(obj(vec![
            ("match", JsonValue::Str("id:1".to_string())),
            ("increment", JsonValue::Int(-4)),
            ("flag", JsonValue::Bool(false)),
            ("nothing", JsonValue::Null),
            ("list", JsonValue::Arr(vec![JsonValue::Int(1), JsonValue::Str("two".to_string())])),
        ]))
        .async_id("a1".to_string())
        .cancel_async(true)
        .stream_id("s9".to_string())
        .stream(false);
    let encoded = msg.encode().unwrap();
    let decoded = KittyMessage::decode(&encoded).unwrap();
    assert_eq!(decoded.cmd, "resize-window");
    assert_eq!(decoded.version, vec![0, 43, 1]);
    assert_eq!(decoded.no_response, Some(false));
    assert_eq!(decoded.kitty_window_id, Some("3".to_string()));
    assert_eq!(decoded.async_id, Some("a1".to_string()));
    assert_eq!(decoded.cancel_async, Some(true));
    assert_eq!(decoded.stream_id, Some("s9".to_string()));
    assert_eq!(decoded.stream, Some(false));
    assert_eq!(decoded.payload, msg.payload);
}

#[test]
fn test_round_trip_escapes_and_unicode() {
    let tricky = "a\"b\\c\nd\te\u{8}\u{c}\rf\u{1}g\u{1f600}é";
    let msg = KittyMessage::new("send-text".to_string(), vec![0, 43, 1])
        .payload(obj(vec![("data", JsonValue::Str(tricky.to_string()))]));
    let encoded = msg.encode().unwrap();
    let decoded = KittyMessage::decode(&encoded).unwrap();
    assert_eq!(decoded.payload, msg.payload);
}

#[test]
fn test_decode_rejects_missing_suffix() {
    let data = b"\x1bP@kitty-cmd{\"cmd\":\"ls\",\"version\":[0,43,1]}";
    assert!(KittyMessage::decode(data).is_err());
    assert!(KittyResponse::decode(data).is_err());
}

#[test]
fn test_decode_rejects_invalid_utf8() {
    let data = b"\x1bP@kitty-cmd{\"cmd\"\xff}\x1b\\";
    assert!(KittyMessage::decode(data).is_err());
}

#[test]
fn test_decode_rejects_non_object_response() {
    let data = b"\x1bP@kitty-cmd[1,2,3]\x1b\\";
    assert!(KittyResponse::decode(data).is_err());
}

#[test]
fn test_decode_accepts_whitespace_and_escapes() {
    let raw = b"\x1bP@kitty-cmd{ \"ok\": false, \"error\": \"no \\u0074ab\" }\x1b\\";
    let response = KittyResponse::decode(raw).unwrap();
    assert!(!response.ok);
    assert_eq!(response.error, Some("no tab".to_string()));
    assert!(response.data.is_none());
}

#[test]
fn test_chunk_threshold_counts_bytes_not_characters() {
    // 4000 two-byte characters are 8000 UTF-8 bytes: over the limit even
    // though the character count is under it.
    let data: String = "\u{e9}".repeat(4000);
    let msg = KittyMessage::new("send-text".to_string(), vec![0, 43, 1])
        .payload(obj(vec![("data", JsonValue::Str(data))]));
    assert!(msg.needs_streaming());
    let chunks = msg.into_chunks("9");
    // Greedy whole-character packing: 2048 characters fill 4096 bytes.
    assert_eq!(chunks.len(), 3);
    match (&chunks[0].payload, &chunks[1].payload) {
        (Some(JsonValue::Obj(e0)), Some(JsonValue::Obj(e1))) => {
            assert_eq!(e0[0], ("data".to_string(), JsonValue::Str("\u{e9}".repeat(2048))));
            assert_eq!(e1[0], ("data".to_string(), JsonValue::Str("\u{e9}".repeat(1952))));
        }
        _ => panic!("chunk payloads must be objects"),
    }
}

#[test]
fn test_chunk_exact_byte_limit_multibyte_no_split() {
    // 2048 two-byte characters are exactly the 4096-byte limit.
    let data: String = "\u{e9}".repeat(2048);
    let msg = KittyMessage::new("send-text".to_string(), vec![0, 43, 1])
        .payload(obj(vec![("data", JsonValue::Str(data))]));
    assert!(!msg.needs_streaming());
    assert_eq!(msg.into_chunks("9").len(), 1);
}

#[test]
fn test_chunk_never_splits_a_character() {
    // 4095 one-byte characters then one four-byte character: the wide
    // character does not fit the first slice and moves whole to the next.
    let mut data = "y".repeat(4095);
    data.push('\u{1f600}');
    let msg = KittyMessage::new("send-text".to_string(), vec![0, 43, 1])
        .payload(obj(vec![("data", JsonValue::Str(data))]));
    assert!(msg.needs_streaming());
    let chunks = msg.into_chunks("9");
    assert_eq!(chunks.len(), 3);
    match (&chunks[0].payload, &chunks[1].payload) {
        (Some(JsonValue::Obj(e0)), Some(JsonValue::Obj(e1))) => {
            assert_eq!(e0[0], ("data".to_string(), JsonValue::Str("y".repeat(4095))));
            assert_eq!(e1[0], ("data".to_string(), JsonValue::Str("\u{1f600}".to_string())));
        }
        _ => panic!("chunk payloads must be objects"),
    }
}
