use chat_relay::ids::format_uuid;
use chat_relay::json::{quote_json, JsonScalar};
use chat_relay::models::ChatMessage;
use chat_relay::wire::{
    frame, ChatEvent, DecodeError, FrameFields, MessagePayload, TypingPayload, WsClientEvent,
};

const USER: u128 = 0x67e55044_10b1_426f_9247_bb680e5fe0c8;
const USER_TEXT: &str = "67e55044-10b1-426f-9247-bb680e5fe0c8";
const ROOM: u128 = 0x00000000_0000_0000_0000_00000000002a;
const ROOM_TEXT: &str = "00000000-0000-0000-0000-00000000002a";

fn text(value: &str) -> Option<JsonScalar> {
    Some(JsonScalar::Text(value.to_string()))
}

#[test]
fn presence_events_encode_with_the_hyphenated_user() {
    let online = ChatEvent::PresenceOnline { user_id: USER };
    assert_eq!(online.name(), "user_online");
    assert_eq!(
        online.encode(),
        "{\"event\":\"user_online\",\"data\":{\"user_id\":\"67e55044-10b1-426f-9247-bb680e5fe0c8\"}}"
    );
    let offline = ChatEvent::PresenceOffline { user_id: USER };
    assert_eq!(offline.name(), "user_offline");
    assert_eq!(
        offline.encode(),
        "{\"event\":\"user_offline\",\"data\":{\"user_id\":\"67e55044-10b1-426f-9247-bb680e5fe0c8\"}}"
    );
}

#[test]
fn identifiers_are_written_as_the_uuid_crate_writes_them() {
    for id in [0u128, 1, USER, ROOM, u128::MAX, 0x0123456789abcdef_fedcba9876543210] {
        let expected = uuid::Uuid::from_u128(id).hyphenated().to_string();
        let event = ChatEvent::PresenceOnline { user_id: id };
        assert_eq!(event.data(), format!("\"user_id\":\"{}\"", expected));
    }
    assert_eq!(
        ChatEvent::PresenceOnline { user_id: 0 }.data(),
        "\"user_id\":\"00000000-0000-0000-0000-000000000000\""
    );
    assert_eq!(
        ChatEvent::PresenceOnline { user_id: u128::MAX }.data(),
        "\"user_id\":\"ffffffff-ffff-ffff-ffff-ffffffffffff\""
    );
}

#[test]
fn uuid_text_agrees_with_the_uuid_crate() {
    assert_eq!(format_uuid(USER), USER_TEXT);
    assert_eq!(format_uuid(0), "00000000-0000-0000-0000-000000000000");
    assert_eq!(format_uuid(u128::MAX), "ffffffff-ffff-ffff-ffff-ffffffffffff");
    assert_eq!(
        format_uuid(0x0123456789abcdef_fedcba9876543210),
        "01234567-89ab-cdef-fedc-ba9876543210"
    );
    let mut id: u128 = 0x9e3779b97f4a7c15_f39cc0605cedc835;
    for _ in 0..500 {
        id = id.wrapping_mul(0xda942042e4dd58b5).wrapping_add(0x2545f4914f6cdd1d).rotate_left(29);
        let expected = uuid::Uuid::from_u128(id).to_string();
        assert_eq!(format_uuid(id), expected);
        assert_eq!(uuid::Uuid::parse_str(&format_uuid(id)).unwrap().as_u128(), id);
    }
    for shift in 0..128 {
        let id = 1u128 << shift;
        assert_eq!(format_uuid(id), uuid::Uuid::from_u128(id).hyphenated().to_string());
    }
}

#[test]
fn quoting_agrees_with_serde_json() {
    assert_eq!(quote_json(""), "\"\"");
    assert_eq!(quote_json("hi"), "\"hi\"");
    assert_eq!(quote_json("a\"b"), "\"a\\\"b\"");
    assert_eq!(quote_json("a\\b"), "\"a\\\\b\"");
    assert_eq!(quote_json("\u{8}\t\n\u{c}\r"), "\"\\b\\t\\n\\f\\r\"");
    assert_eq!(quote_json("\u{0}\u{1f}\u{7f}"), "\"\\u0000\\u001f\u{7f}\"");
    assert_eq!(quote_json("/é\u{2028}😀"), "\"/é\u{2028}😀\"");

    for code in 0..=0x2ffu32 {
        let c = char::from_u32(code).unwrap();
        let text = format!("a{}b{}{}", c, c, '"');
        assert_eq!(quote_json(&text), serde_json::to_string(&text).unwrap(), "{:x}", code);
    }
    for text in ["\u{ffff}", "\u{10000}", "\u{10ffff}", "plain text", "{\"k\":[1,2]}"] {
        assert_eq!(quote_json(text), serde_json::to_string(text).unwrap());
        let back: String = serde_json::from_str(&quote_json(text)).unwrap();
        assert_eq!(back, text);
    }
}

#[test]
fn typing_event_encodes_its_three_fields() {
    let event = ChatEvent::Typing { conversation_id: ROOM, sender_id: USER, is_typing: true };
    assert_eq!(event.name(), "user_typing");
    assert_eq!(
        event.encode(),
        format!(
            "{{\"event\":\"user_typing\",\"data\":{{\"sender_id\":\"{}\",\"conversation_id\":\"{}\",\"is_typing\":true}}}}",
            USER_TEXT, ROOM_TEXT
        )
    );
    let stopped = ChatEvent::Typing { conversation_id: ROOM, sender_id: USER, is_typing: false };
    assert!(stopped.encode().ends_with("\"is_typing\":false}}"));
}

#[test]
fn new_message_encodes_the_stored_record() {
    let event = ChatEvent::NewMessage(ChatMessage {
        id: 7,
        conversation_id: ROOM,
        sender_id: USER,
        content: "hi".to_string(),
        created_at: "2024-05-01T12:00:00.250Z".to_string(),
    });
    assert_eq!(event.name(), "new_message");
    assert_eq!(
        event.encode(),
        format!(
            "{{\"event\":\"new_message\",\"data\":{{\"id\":\"00000000-0000-0000-0000-000000000007\",\"conversation_id\":\"{}\",\"sender_id\":\"{}\",\"content\":\"hi\",\"created_at\":\"2024-05-01T12:00:00.250Z\"}}}}",
            ROOM_TEXT, USER_TEXT
        )
    );
}

#[test]
fn content_is_escaped_as_json() {
    let event = ChatEvent::NewMessage(ChatMessage {
        id: 7,
        conversation_id: ROOM,
        sender_id: USER,
        content: "say \"hi\"\n\\o/ \u{1}é".to_string(),
        created_at: "t".to_string(),
    });
    let encoded = event.encode();
    assert!(encoded.contains("\"content\":\"say \\\"hi\\\"\\n\\\\o/ \\u0001é\""));

    let parsed: serde_json::Value = serde_json::from_str(&encoded).unwrap();
    assert_eq!(parsed["event"], "new_message");
    assert_eq!(parsed["data"]["content"], "say \"hi\"\n\\o/ \u{1}é");
    assert_eq!(parsed["data"]["sender_id"], USER_TEXT);
    assert_eq!(parsed["data"]["created_at"], "t");
}

#[test]
fn every_outbound_frame_is_a_json_object_with_event_and_data() {
    let events = vec![
        ChatEvent::PresenceOnline { user_id: USER },
        ChatEvent::PresenceOffline { user_id: USER },
        ChatEvent::Typing { conversation_id: ROOM, sender_id: USER, is_typing: false },
        ChatEvent::NewMessage(ChatMessage {
            id: 1,
            conversation_id: ROOM,
            sender_id: USER,
            content: String::new(),
            created_at: String::new(),
        }),
    ];
    for event in events {
        let parsed: serde_json::Value = serde_json::from_str(&event.encode()).unwrap();
        let object = parsed.as_object().unwrap();
        assert_eq!(object.len(), 2);
        assert_eq!(object["event"], event.name());
        assert!(object["data"].is_object());
    }
}

#[test]
fn frame_puts_tag_and_data_together() {
    assert_eq!(frame("ping", ""), "{\"event\":\"ping\",\"data\":{}}");
    assert_eq!(frame("a", "\"b\":1"), "{\"event\":\"a\",\"data\":{\"b\":1}}");
}

#[test]
fn message_frame_decodes() {
    let frame = format!(
        "{{\"event\":\"message\",\"data\":{{\"conversation_id\":\"{}\",\"content\":\"hi\"}}}}",
        ROOM_TEXT
    );
    assert_eq!(
        WsClientEvent::decode(&frame),
        Ok(WsClientEvent::Message(MessagePayload {
            conversation_id: ROOM,
            content: "hi".to_string()
        }))
    );
}

#[test]
fn typing_frame_decodes() {
    let frame = format!(
        "{{\"event\":\"typing\",\"data\":{{\"conversation_id\":\"{}\",\"is_typing\":true}}}}",
        USER_TEXT
    );
    assert_eq!(
        WsClientEvent::decode(&frame),
        Ok(WsClientEvent::Typing(TypingPayload { conversation_id: USER, is_typing: true }))
    );
}

#[test]
fn decoding_does_not_depend_on_layout_order_or_extra_fields() {
    let frame = format!(
        " {{ \"data\" : {{ \"is_typing\" : false , \"extra\" : [1, 2] , \"conversation_id\" : \"{}\" }} ,\n \"id\" : 9 , \"event\" : \"typing\" }} ",
        ROOM_TEXT
    );
    assert_eq!(
        WsClientEvent::decode(&frame),
        Ok(WsClientEvent::Typing(TypingPayload { conversation_id: ROOM, is_typing: false }))
    );
}

#[test]
fn escaped_content_is_unescaped() {
    let frame = format!(
        "{{\"event\":\"message\",\"data\":{{\"conversation_id\":\"{}\",\"content\":\"a\\\"b\\n\\u00e9\"}}}}",
        ROOM_TEXT
    );
    assert_eq!(
        WsClientEvent::decode(&frame),
        Ok(WsClientEvent::Message(MessagePayload {
            conversation_id: ROOM,
            content: "a\"b\né".to_string()
        }))
    );
}

#[test]
fn conversation_may_come_in_any_form_the_uuid_crate_reads() {
    for form in [
        "67e5504410b1426f9247bb680e5fe0c8",
        "67E55044-10B1-426F-9247-BB680E5FE0C8",
        "{67e55044-10b1-426f-9247-bb680e5fe0c8}",
        "urn:uuid:67e55044-10b1-426f-9247-bb680e5fe0c8",
    ] {
        let frame = format!(
            "{{\"event\":\"message\",\"data\":{{\"conversation_id\":\"{}\",\"content\":\"\"}}}}",
            form
        );
        assert_eq!(
            WsClientEvent::decode(&frame),
            Ok(WsClientEvent::Message(MessagePayload {
                conversation_id: USER,
                content: String::new()
            }))
        );
    }
}

#[test]
fn text_that_is_not_json_is_rejected() {
    for frame in ["", "hello", "{", "{\"event\":\"typing\"", "{'event':'typing'}", "{} {}"] {
        assert_eq!(WsClientEvent::decode(frame), Err(DecodeError::NotJson));
        assert_eq!(FrameFields::read(frame), None);
    }
}

#[test]
fn frames_without_a_known_event_are_rejected() {
    for frame in [
        "{}",
        "[]",
        "null",
        "42",
        "\"message\"",
        "{\"data\":{}}",
        "{\"event\":null}",
        "{\"event\":7,\"data\":{}}",
        "{\"event\":\"Message\",\"data\":{}}",
        "{\"event\":\"new_message\",\"data\":{}}",
        "{\"event\":\"\",\"data\":{}}",
        "{\"event\":[\"typing\"],\"data\":{}}",
    ] {
        assert_eq!(WsClientEvent::decode(frame), Err(DecodeError::UnknownEvent));
    }
}

#[test]
fn frames_with_a_bad_payload_are_rejected() {
    let room = ROOM_TEXT;
    let frames = vec![
        "{\"event\":\"message\"}".to_string(),
        "{\"event\":\"message\",\"data\":null}".to_string(),
        "{\"event\":\"message\",\"data\":{}}".to_string(),
        format!("{{\"event\":\"message\",\"data\":{{\"conversation_id\":\"{}\"}}}}", room),
        "{\"event\":\"message\",\"data\":{\"content\":\"hi\"}}".to_string(),
        format!(
            "{{\"event\":\"message\",\"data\":{{\"conversation_id\":\"{}\",\"content\":5}}}}",
            room
        ),
        "{\"event\":\"message\",\"data\":{\"conversation_id\":\"not-a-uuid\",\"content\":\"hi\"}}"
            .to_string(),
        "{\"event\":\"message\",\"data\":{\"conversation_id\":42,\"content\":\"hi\"}}".to_string(),
        format!(
            "{{\"event\":\"message\",\"data\":{{\"conversation_id\":\"{}\",\"is_typing\":true}}}}",
            room
        ),
        format!("{{\"event\":\"typing\",\"data\":{{\"conversation_id\":\"{}\"}}}}", room),
        format!(
            "{{\"event\":\"typing\",\"data\":{{\"conversation_id\":\"{}\",\"is_typing\":\"true\"}}}}",
            room
        ),
        format!(
            "{{\"event\":\"typing\",\"data\":{{\"conversation_id\":\"{}\",\"is_typing\":1}}}}",
            room
        ),
        format!(
            "{{\"event\":\"typing\",\"data\":{{\"conversation_id\":\"{}\",\"content\":\"hi\"}}}}",
            room
        ),
        "{\"event\":\"typing\",\"data\":{\"is_typing\":true}}".to_string(),
    ];
    for frame in frames {
        assert_eq!(WsClientEvent::decode(&frame), Err(DecodeError::InvalidPayload), "{}", frame);
    }
}

#[test]
fn fields_are_read_from_their_places() {
    let frame = format!(
        "{{\"event\":\"typing\",\"data\":{{\"conversation_id\":\"{}\",\"is_typing\":true,\"content\":[1]}}}}",
        ROOM_TEXT
    );
    let fields = FrameFields::read(&frame).unwrap();
    assert_eq!(fields.event, text("typing"));
    assert_eq!(fields.conversation_id, text(ROOM_TEXT));
    assert_eq!(fields.is_typing, Some(JsonScalar::Flag(true)));
    assert_eq!(fields.content, Some(JsonScalar::Other));
    assert_eq!(fields.conversation(), Some(ROOM));

    let bare = FrameFields::read("{\"event\":null}").unwrap();
    assert_eq!(bare.event, Some(JsonScalar::Other));
    assert_eq!(bare.conversation_id, None);
    assert_eq!(bare.content, None);
    assert_eq!(bare.is_typing, None);
    assert_eq!(bare.conversation(), None);

    let wrong = FrameFields::read("{\"data\":{\"conversation_id\":\"zz\"}}").unwrap();
    assert_eq!(wrong.event, None);
    assert_eq!(wrong.conversation_id, text("zz"));
    assert_eq!(wrong.conversation(), None);
}

#[test]
fn events_are_made_from_fields() {
    assert_eq!(
        WsClientEvent::from_fields(text("message"), Some(ROOM), text("hi"), None),
        Ok(WsClientEvent::Message(MessagePayload {
            conversation_id: ROOM,
            content: "hi".to_string()
        }))
    );
    assert_eq!(
        WsClientEvent::from_fields(
            text("typing"),
            Some(ROOM),
            text("ignored"),
            Some(JsonScalar::Flag(false))
        ),
        Ok(WsClientEvent::Typing(TypingPayload { conversation_id: ROOM, is_typing: false }))
    );
    assert_eq!(
        WsClientEvent::from_fields(text("message"), None, text("hi"), None),
        Err(DecodeError::InvalidPayload)
    );
    assert_eq!(
        WsClientEvent::from_fields(text("message"), Some(ROOM), Some(JsonScalar::Flag(true)), None),
        Err(DecodeError::InvalidPayload)
    );
    assert_eq!(
        WsClientEvent::from_fields(text("typing"), Some(ROOM), None, Some(JsonScalar::Other)),
        Err(DecodeError::InvalidPayload)
    );
    assert_eq!(
        WsClientEvent::from_fields(text("typing"), None, None, Some(JsonScalar::Flag(true))),
        Err(DecodeError::InvalidPayload)
    );
    assert_eq!(
        WsClientEvent::from_fields(text("presence"), Some(ROOM), text("hi"), None),
        Err(DecodeError::UnknownEvent)
    );
    assert_eq!(
        WsClientEvent::from_fields(Some(JsonScalar::Flag(true)), Some(ROOM), text("hi"), None),
        Err(DecodeError::UnknownEvent)
    );
    assert_eq!(
        WsClientEvent::from_fields(None, Some(ROOM), text("hi"), Some(JsonScalar::Flag(true))),
        Err(DecodeError::UnknownEvent)
    );
}
