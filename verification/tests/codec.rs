use revolt::codec::decode;
use revolt::codec::encode;
use revolt::event::ClientToServerEvent;
use revolt::event::ErrorId;
use revolt::event::ServerToClientEvent;
use revolt::gateway::DecodeReason;
use revolt::gateway::GatewayError;
use revolt::message::SystemMessage;

fn decode_err(frame: &str) -> DecodeReason {
    match decode(frame) {
        Err(GatewayError::Decode { reason }) => reason,
        other => panic!("expected a decode error, got {:?}", other),
    }
}

#[test]
fn decodes_authenticated() {
    assert_eq!(
        decode("{\"type\":\"Authenticated\"}"),
        Ok(ServerToClientEvent::Authenticated)
    );
}

#[test]
fn decodes_pong() {
    assert_eq!(
        decode("{\"type\":\"Pong\",\"data\":7}"),
        Ok(ServerToClientEvent::Pong { data: 7 })
    );
}

#[test]
fn decodes_pong_with_whitespace() {
    assert_eq!(
        decode("  { \"type\" : \"Pong\" , \"data\" : 7 }\n"),
        Ok(ServerToClientEvent::Pong { data: 7 })
    );
}

#[test]
fn decodes_pong_at_limit() {
    assert_eq!(
        decode("{\"type\":\"Pong\",\"data\":4294967295}"),
        Ok(ServerToClientEvent::Pong { data: u32::MAX })
    );
}

#[test]
fn unknown_tag_is_not_an_error() {
    assert_eq!(
        decode("{\"type\":\"NewFutureEvent\",\"foo\":1}"),
        Ok(ServerToClientEvent::Unknown)
    );
}

#[test]
fn unknown_tag_with_nested_payload() {
    assert_eq!(
        decode("{\"type\":\"Ready\",\"users\":[{\"_id\":\"u\",\"badges\":[1,2.5,true]}],\"servers\":[]}"),
        Ok(ServerToClientEvent::Unknown)
    );
}

#[test]
fn decodes_error_event() {
    assert_eq!(
        decode("{\"type\":\"Error\",\"error\":{\"type\":\"InternalError\"}}"),
        Ok(ServerToClientEvent::Error {
            error: ErrorId::InternalError
        })
    );
}

#[test]
fn decodes_error_event_each_id() {
    for (tag, id) in [
        ("LabelMe", ErrorId::LabelMe),
        ("InternalError", ErrorId::InternalError),
        ("InvalidSenssion", ErrorId::InvalidSenssion),
        ("OnboardingNotFinished", ErrorId::OnboardingNotFinished),
        ("AlreadyAuthenticated", ErrorId::AlreadyAuthenticated),
    ] {
        let frame = format!("{{\"type\":\"Error\",\"error\":{{\"type\":\"{}\"}}}}", tag);
        assert_eq!(
            decode(&frame),
            Ok(ServerToClientEvent::Error { error: id })
        );
    }
}

#[test]
fn unknown_error_id_is_a_payload_error() {
    assert_eq!(
        decode("{\"type\":\"Error\",\"error\":{\"type\":\"BrandNew\"}}"),
        Err(GatewayError::Decode {
            reason: DecodeReason::Payload
        })
    );
}

#[test]
fn decodes_message() {
    let got = decode("{\"type\":\"Message\",\"channel\":\"chan1\",\"content\":\"hi\"}").unwrap();
    match got {
        ServerToClientEvent::Message { message } => {
            assert_eq!(message.channel, "chan1");
            assert_eq!(message.content.as_deref(), Some("hi"));
            assert!(message.system.is_none());
        }
        other => panic!("expected a message, got {:?}", other),
    }
}

#[test]
fn decodes_message_without_content() {
    let got = decode("{\"type\":\"Message\",\"channel\":\"c\"}").unwrap();
    match got {
        ServerToClientEvent::Message { message } => {
            assert_eq!(message.channel, "c");
            assert!(message.content.is_none());
        }
        other => panic!("expected a message, got {:?}", other),
    }
}

#[test]
fn decodes_message_with_null_content() {
    let got = decode("{\"type\":\"Message\",\"channel\":\"c\",\"content\":null}").unwrap();
    match got {
        ServerToClientEvent::Message { message } => {
            assert!(message.content.is_none());
        }
        other => panic!("expected a message, got {:?}", other),
    }
}

#[test]
fn decodes_message_with_system_payload() {
    let got = decode(
        "{\"type\":\"Message\",\"channel\":\"c\",\"system\":{\"type\":\"user_added\",\"id\":\"u1\",\"by\":\"u2\"}}",
    )
    .unwrap();
    match got {
        ServerToClientEvent::Message { message } => {
            assert_eq!(
                message.system,
                Some(SystemMessage::UserAdded {
                    id: "u1".to_string(),
                    by: "u2".to_string()
                })
            );
        }
        other => panic!("expected a message, got {:?}", other),
    }
}

#[test]
fn decodes_message_with_system_text() {
    let got =
        decode("{\"type\":\"Message\",\"channel\":\"c\",\"system\":{\"type\":\"text\",\"content\":\"t\"}}")
            .unwrap();
    match got {
        ServerToClientEvent::Message { message } => {
            assert_eq!(
                message.system,
                Some(SystemMessage::Text {
                    content: "t".to_string()
                })
            );
        }
        other => panic!("expected a message, got {:?}", other),
    }
}

#[test]
fn message_without_channel_is_a_payload_error() {
    assert_eq!(
        decode_err("{\"type\":\"Message\",\"content\":\"hi\"}"),
        DecodeReason::Payload
    );
}

#[test]
fn unknown_system_tag_is_a_payload_error() {
    assert_eq!(
        decode_err("{\"type\":\"Message\",\"channel\":\"c\",\"system\":{\"type\":\"brand_new\"}}"),
        DecodeReason::Payload
    );
}

#[test]
fn malformed_text_is_a_malformed_error() {
    assert_eq!(decode_err("not a frame"), DecodeReason::Malformed);
    assert_eq!(decode_err("{\"type\":\"Pong\""), DecodeReason::Malformed);
    assert_eq!(decode_err(""), DecodeReason::Malformed);
    assert_eq!(decode_err("{\"type\":\"Pong\",}"), DecodeReason::Malformed);
    assert_eq!(decode_err("{\"type\":\"Pong\"} extra"), DecodeReason::Malformed);
}

#[test]
fn non_envelope_values_are_envelope_errors() {
    assert_eq!(decode_err("[1,2,3]"), DecodeReason::Envelope);
    assert_eq!(decode_err("\"hello\""), DecodeReason::Envelope);
    assert_eq!(decode_err("17"), DecodeReason::Envelope);
    assert_eq!(decode_err("null"), DecodeReason::Envelope);
    assert_eq!(decode_err("{\"data\":1}"), DecodeReason::Envelope);
    assert_eq!(decode_err("{\"type\":5}"), DecodeReason::Envelope);
}

#[test]
fn bad_pong_payloads_are_payload_errors() {
    assert_eq!(decode_err("{\"type\":\"Pong\"}"), DecodeReason::Payload);
    assert_eq!(
        decode_err("{\"type\":\"Pong\",\"data\":\"7\"}"),
        DecodeReason::Payload
    );
    assert_eq!(
        decode_err("{\"type\":\"Pong\",\"data\":1.5}"),
        DecodeReason::Payload
    );
    assert_eq!(
        decode_err("{\"type\":\"Pong\",\"data\":1e3}"),
        DecodeReason::Payload
    );
    assert_eq!(
        decode_err("{\"type\":\"Pong\",\"data\":-1}"),
        DecodeReason::Payload
    );
    assert_eq!(
        decode_err("{\"type\":\"Pong\",\"data\":4294967296}"),
        DecodeReason::Payload
    );
}

#[test]
fn first_type_member_wins() {
    assert_eq!(
        decode("{\"type\":\"Pong\",\"type\":\"Authenticated\",\"data\":3}"),
        Ok(ServerToClientEvent::Pong { data: 3 })
    );
}

#[test]
fn decodes_string_escapes() {
    let got = decode(
        "{\"type\":\"Message\",\"channel\":\"a\\n\\t\\\"b\\\\c\\/\",\"content\":\"\\u0041\\uD83D\\uDE00\"}",
    )
    .unwrap();
    match got {
        ServerToClientEvent::Message { message } => {
            assert_eq!(message.channel, "a\n\t\"b\\c/");
            assert_eq!(message.content.as_deref(), Some("A\u{1F600}"));
        }
        other => panic!("expected a message, got {:?}", other),
    }
}

#[test]
fn lone_surrogate_is_malformed() {
    assert_eq!(
        decode_err("{\"type\":\"Message\",\"channel\":\"\\uD83D\"}"),
        DecodeReason::Malformed
    );
}

#[test]
fn encodes_authenticate() {
    let e = ClientToServerEvent::Authenticate {
        token: "abc".to_string(),
    };
    assert_eq!(encode(&e), "{\"type\":\"Authenticate\",\"token\":\"abc\"}");
}

#[test]
fn encodes_ping() {
    let e = ClientToServerEvent::Ping { data: 0 };
    assert_eq!(encode(&e), "{\"type\":\"Ping\",\"data\":0}");
    let e = ClientToServerEvent::Ping { data: 1234567890 };
    assert_eq!(encode(&e), "{\"type\":\"Ping\",\"data\":1234567890}");
    let e = ClientToServerEvent::Ping { data: -12 };
    assert_eq!(encode(&e), "{\"type\":\"Ping\",\"data\":-12}");
    let e = ClientToServerEvent::Ping { data: i32::MIN };
    assert_eq!(encode(&e), "{\"type\":\"Ping\",\"data\":-2147483648}");
}

#[test]
fn encodes_typing_events() {
    let e = ClientToServerEvent::BeginTyping {
        channel: "chan".to_string(),
    };
    assert_eq!(encode(&e), "{\"type\":\"BeginTyping\",\"channel\":\"chan\"}");
    let e = ClientToServerEvent::EndTyping {
        channel: "chan".to_string(),
    };
    assert_eq!(encode(&e), "{\"type\":\"EndTyping\",\"channel\":\"chan\"}");
}

#[test]
fn encodes_escaped_token() {
    let e = ClientToServerEvent::Authenticate {
        token: "a\"b\\c\nd".to_string(),
    };
    assert_eq!(
        encode(&e),
        "{\"type\":\"Authenticate\",\"token\":\"a\\\"b\\\\c\\u000ad\"}"
    );
}

#[test]
fn encoded_frames_parse_as_json() {
    let e = ClientToServerEvent::Authenticate {
        token: "tok\"en\u{1}\u{1F600}".to_string(),
    };
    let v: serde_json::Value = serde_json::from_str(&encode(&e)).unwrap();
    assert_eq!(v["type"].as_str(), Some("Authenticate"));
    assert_eq!(v["token"].as_str(), Some("tok\"en\u{1}\u{1F600}"));

    let e = ClientToServerEvent::Ping { data: -42 };
    let v: serde_json::Value = serde_json::from_str(&encode(&e)).unwrap();
    assert_eq!(v["type"].as_str(), Some("Ping"));
    assert_eq!(v["data"].as_i64(), Some(-42));
}

#[test]
fn decodes_each_system_message_kind() {
    let cases = [
        (
            "{\"type\":\"user_remove\",\"id\":\"a\",\"by\":\"b\"}",
            SystemMessage::UserRemove {
                id: "a".to_string(),
                by: "b".to_string(),
            },
        ),
        (
            "{\"type\":\"user_joined\",\"id\":\"a\"}",
            SystemMessage::UserJoined {
                id: "a".to_string(),
            },
        ),
        (
            "{\"type\":\"user_left\",\"id\":\"a\"}",
            SystemMessage::UserLeft {
                id: "a".to_string(),
            },
        ),
        (
            "{\"type\":\"user_kicked\",\"id\":\"a\"}",
            SystemMessage::UserKicked {
                id: "a".to_string(),
            },
        ),
        (
            "{\"type\":\"user_banned\",\"id\":\"a\"}",
            SystemMessage::UserBanned {
                id: "a".to_string(),
            },
        ),
        (
            "{\"type\":\"channel_renamed\",\"name\":\"n\",\"by\":\"b\"}",
            SystemMessage::ChannelRenamed {
                name: "n".to_string(),
                by: "b".to_string(),
            },
        ),
        (
            "{\"type\":\"channel_description_changed\",\"by\":\"b\"}",
            SystemMessage::ChannelDescriptionChanged {
                by: "b".to_string(),
            },
        ),
        (
            "{\"type\":\"channel_icon_changed\",\"by\":\"b\"}",
            SystemMessage::ChannelIconChanged {
                by: "b".to_string(),
            },
        ),
    ];
    for (system, expected) in cases {
        let frame = format!(
            "{{\"type\":\"Message\",\"channel\":\"c\",\"system\":{}}}",
            system
        );
        match decode(&frame).unwrap() {
            ServerToClientEvent::Message { message } => {
                assert_eq!(message.system, Some(expected));
            }
            other => panic!("expected a message, got {:?}", other),
        }
    }
}

#[test]
fn system_message_with_missing_field_is_a_payload_error() {
    assert_eq!(
        decode_err("{\"type\":\"Message\",\"channel\":\"c\",\"system\":{\"type\":\"text\"}}"),
        DecodeReason::Payload
    );
    assert_eq!(
        decode_err("{\"type\":\"Message\",\"channel\":\"c\",\"system\":{\"type\":\"user_added\",\"id\":\"a\"}}"),
        DecodeReason::Payload
    );
}

#[test]
fn non_string_content_is_a_payload_error() {
    assert_eq!(
        decode_err("{\"type\":\"Message\",\"channel\":\"c\",\"content\":5}"),
        DecodeReason::Payload
    );
    assert_eq!(
        decode_err("{\"type\":\"Message\",\"channel\":\"c\",\"system\":true}"),
        DecodeReason::Payload
    );
}
