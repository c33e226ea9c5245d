use martian_adapters::{
    decode_turn, encode_turn, AdapterError, ContentEntry, ContentEntryData, ConversationRole,
    FunctionCall, ImageUrl, ToolCall, TurnType, WireValue,
};

fn wire_eq(a: &WireValue, b: &WireValue) -> bool {
    match (a, b) {
        (WireValue::Null, WireValue::Null) => true,
        (WireValue::Bool(x), WireValue::Bool(y)) => x == y,
        (WireValue::Int(x), WireValue::Int(y)) => x == y,
        (WireValue::Str(x), WireValue::Str(y)) => x == y,
        (WireValue::Arr(xs), WireValue::Arr(ys)) => {
            xs.len() == ys.len() && xs.iter().zip(ys.iter()).all(|(x, y)| wire_eq(x, y))
        }
        (WireValue::Obj(xs), WireValue::Obj(ys)) => {
            xs.len() == ys.len()
                && xs
                    .iter()
                    .zip(ys.iter())
                    .all(|((ka, va), (kb, vb))| ka == kb && wire_eq(va, vb))
        }
        _ => false,
    }
}

fn obj_field<'a>(v: &'a WireValue, key: &str) -> Option<&'a WireValue> {
    match v {
        WireValue::Obj(fields) => fields.iter().find(|(k, _)| k == key).map(|(_, w)| w),
        _ => None,
    }
}

fn turn_eq(a: &TurnType, b: &TurnType) -> bool {
    match (a, b) {
        (TurnType::Basic(x), TurnType::Basic(y)) => x.role == y.role && x.content == y.content,
        (TurnType::Content(x), TurnType::Content(y)) => {
            x.role == y.role
                && x.content.len() == y.content.len()
                && x.content.iter().zip(y.content.iter()).all(|(e, f)| {
                    e.entry_type == f.entry_type
                        && match (&e.data, &f.data) {
                            (
                                ContentEntryData::Text { text: t1 },
                                ContentEntryData::Text { text: t2 },
                            ) => t1 == t2,
                            (
                                ContentEntryData::Image { image_url: u1 },
                                ContentEntryData::Image { image_url: u2 },
                            ) => u1.url == u2.url && u1.detail == u2.detail,
                            _ => false,
                        }
                })
        }
        (
            TurnType::ToolOutput { role: r1, content: c1, tool_call_id: i1 },
            TurnType::ToolOutput { role: r2, content: c2, tool_call_id: i2 },
        ) => r1 == r2 && c1 == c2 && i1 == i2,
        (
            TurnType::ToolCalls { role: r1, content: c1, tool_calls: t1 },
            TurnType::ToolCalls { role: r2, content: c2, tool_calls: t2 },
        ) => {
            r1 == r2
                && c1 == c2
                && t1.len() == t2.len()
                && t1.iter().zip(t2.iter()).all(|(x, y)| {
                    x.id == y.id
                        && x.call_type == y.call_type
                        && x.function.name == y.function.name
                        && x.function.arguments == y.function.arguments
                })
        }
        _ => false,
    }
}

fn basic_turn() -> TurnType {
    TurnType::Basic(martian_adapters::Turn {
        role: ConversationRole::User,
        content: "hello".to_string(),
    })
}

fn content_turn() -> TurnType {
    TurnType::Content(martian_adapters::ContentTurn {
        role: ConversationRole::User,
        content: vec![
            ContentEntry {
                entry_type: "text".to_string(),
                data: ContentEntryData::Text { text: "look:".to_string() },
            },
            ContentEntry {
                entry_type: "image_url".to_string(),
                data: ContentEntryData::Image {
                    image_url: ImageUrl {
                        url: "https://example.com/a.png".to_string(),
                        detail: Some("high".to_string()),
                    },
                },
            },
        ],
    })
}

fn tool_output_turn() -> TurnType {
    TurnType::ToolOutput {
        role: ConversationRole::Tool,
        content: Some("42".to_string()),
        tool_call_id: "call_1".to_string(),
    }
}

fn tool_calls_turn() -> TurnType {
    TurnType::ToolCalls {
        role: ConversationRole::Assistant,
        content: None,
        tool_calls: vec![ToolCall {
            id: "call_1".to_string(),
            call_type: "function".to_string(),
            function: FunctionCall {
                name: "add".to_string(),
                arguments: "{\"a\":1,\"b\":2}".to_string(),
            },
        }],
    }
}

#[test]
fn test_round_trip_basic() {
    let t = basic_turn();
    let decoded = decode_turn(&encode_turn(&t)).unwrap();
    assert!(turn_eq(&t, &decoded));
}

#[test]
fn test_round_trip_content() {
    let t = content_turn();
    let decoded = decode_turn(&encode_turn(&t)).unwrap();
    assert!(turn_eq(&t, &decoded));
}

#[test]
fn test_round_trip_tool_output() {
    let t = tool_output_turn();
    let decoded = decode_turn(&encode_turn(&t)).unwrap();
    assert!(turn_eq(&t, &decoded));
}

#[test]
fn test_round_trip_tool_calls() {
    let t = tool_calls_turn();
    let decoded = decode_turn(&encode_turn(&t)).unwrap();
    assert!(turn_eq(&t, &decoded));
}

#[test]
fn test_encode_writes_no_tag_and_elides_absent_fields() {
    let encoded = encode_turn(&tool_calls_turn());
    assert!(obj_field(&encoded, "content").is_none());
    assert!(obj_field(&encoded, "tag").is_none());
    assert!(wire_eq(
        obj_field(&encoded, "role").unwrap(),
        &WireValue::Str("assistant".to_string())
    ));
    assert!(obj_field(&encoded, "tool_calls").is_some());
}

#[test]
fn test_decode_ambiguous_shape() {
    let v = WireValue::Obj(vec![(
        "role".to_string(),
        WireValue::Str("user".to_string()),
    )]);
    match decode_turn(&v) {
        Err(AdapterError::AmbiguousTurnShape) => {}
        other => panic!("expected AmbiguousTurnShape, got {:?}", other),
    }
    match decode_turn(&WireValue::Str("not an object".to_string())) {
        Err(AdapterError::AmbiguousTurnShape) => {}
        other => panic!("expected AmbiguousTurnShape, got {:?}", other),
    }
}

#[test]
fn test_decode_malformed_turn() {
    // tool_calls present but not a list
    let v = WireValue::Obj(vec![
        ("role".to_string(), WireValue::Str("assistant".to_string())),
        ("tool_calls".to_string(), WireValue::Str("oops".to_string())),
    ]);
    match decode_turn(&v) {
        Err(AdapterError::MalformedTurn(_)) => {}
        other => panic!("expected MalformedTurn, got {:?}", other),
    }
    // content list entry with neither text nor image_url
    let v = WireValue::Obj(vec![
        ("role".to_string(), WireValue::Str("user".to_string())),
        (
            "content".to_string(),
            WireValue::Arr(vec![WireValue::Obj(vec![(
                "type".to_string(),
                WireValue::Str("text".to_string()),
            )])]),
        ),
    ]);
    match decode_turn(&v) {
        Err(AdapterError::MalformedTurn(_)) => {}
        other => panic!("expected MalformedTurn, got {:?}", other),
    }
    // unknown role string
    let v = WireValue::Obj(vec![
        ("role".to_string(), WireValue::Str("robot".to_string())),
        ("content".to_string(), WireValue::Str("hi".to_string())),
    ]);
    match decode_turn(&v) {
        Err(AdapterError::MalformedTurn(_)) => {}
        other => panic!("expected MalformedTurn, got {:?}", other),
    }
}

#[test]
fn test_decode_ignores_type_field() {
    // the informational "type" says text, but the entry holds image_url:
    // field presence must win.
    let v = WireValue::Obj(vec![
        ("role".to_string(), WireValue::Str("user".to_string())),
        (
            "content".to_string(),
            WireValue::Arr(vec![WireValue::Obj(vec![
                ("type".to_string(), WireValue::Str("text".to_string())),
                (
                    "image_url".to_string(),
                    WireValue::Obj(vec![(
                        "url".to_string(),
                        WireValue::Str("https://example.com/x.png".to_string()),
                    )]),
                ),
            ])]),
        ),
    ]);
    let t = decode_turn(&v).unwrap();
    match t {
        TurnType::Content(ct) => {
            assert_eq!(ct.content.len(), 1);
            assert_eq!(ct.content[0].entry_type, "image_url");
            assert!(matches!(ct.content[0].data, ContentEntryData::Image { .. }));
        }
        other => panic!("expected a content turn, got {:?}", other),
    }
}

#[test]
fn normalization_test_delete_none_values() {
    let mut value = WireValue::Obj(vec![
        ("a".to_string(), WireValue::Int(1)),
        ("b".to_string(), WireValue::Null),
        (
            "c".to_string(),
            WireValue::Obj(vec![
                ("d".to_string(), WireValue::Int(2)),
                ("e".to_string(), WireValue::Null),
            ]),
        ),
        (
            "f".to_string(),
            WireValue::Arr(vec![WireValue::Int(1), WireValue::Null, WireValue::Int(3)]),
        ),
    ]);

    martian_adapters::delete_none_values(&mut value);

    let expected = WireValue::Obj(vec![
        ("a".to_string(), WireValue::Int(1)),
        (
            "c".to_string(),
            WireValue::Obj(vec![("d".to_string(), WireValue::Int(2))]),
        ),
        (
            "f".to_string(),
            WireValue::Arr(vec![WireValue::Int(1), WireValue::Null, WireValue::Int(3)]),
        ),
    ]);
    assert!(wire_eq(&value, &expected));
}

#[test]
fn integration_test_test_delete_none_values() {
    let mut value = WireValue::Obj(vec![
        ("a".to_string(), WireValue::Int(1)),
        ("b".to_string(), WireValue::Null),
        (
            "c".to_string(),
            WireValue::Obj(vec![
                ("d".to_string(), WireValue::Int(2)),
                ("e".to_string(), WireValue::Null),
            ]),
        ),
        (
            "f".to_string(),
            WireValue::Arr(vec![WireValue::Int(1), WireValue::Null, WireValue::Int(3)]),
        ),
    ]);

    martian_adapters::delete_none_values(&mut value);

    let expected = WireValue::Obj(vec![
        ("a".to_string(), WireValue::Int(1)),
        (
            "c".to_string(),
            WireValue::Obj(vec![("d".to_string(), WireValue::Int(2))]),
        ),
        (
            "f".to_string(),
            WireValue::Arr(vec![WireValue::Int(1), WireValue::Null, WireValue::Int(3)]),
        ),
    ]);
    assert!(wire_eq(&value, &expected));
}
