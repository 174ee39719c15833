use a2a_codec::a2a::{A2AMessage, A2AMessageV1, A2AMessageV2};
use a2a_codec::bundle::{bundle_from_u8, bundle_to_json, to_i8, to_u8, try_i8_bundle, Bundled};
use a2a_codec::error::CodecError;
use a2a_codec::json::Json;
use a2a_codec::message_type::{
    A2AMessageKinds, MessageFamilies, MessageTypeV1, MessageTypes,
};
use a2a_codec::messages::{Forward, GenericMsg, MessageSent};
use a2a_codec::settings::ProtocolTypes;
use a2a_codec::status::{MessageStatusCode, RemoteMessageType};

/// Converts a tree parsed by the JSON/MessagePack readers into the codec's
/// own value type.  Floating-point numbers never occur in this protocol.
fn value_to_json(v: &serde_json::Value) -> Json {
    match v {
        serde_json::Value::Null => Json::Null,
        serde_json::Value::Bool(b) => Json::Bool(*b),
        serde_json::Value::Number(n) => {
            if let Some(u) = n.as_u64() {
                Json::UInt(u)
            } else if let Some(i) = n.as_i64() {
                Json::Int(i)
            } else {
                panic!("unexpected non-integer number")
            }
        }
        serde_json::Value::String(s) => Json::Str(s.clone()),
        serde_json::Value::Array(items) => Json::Arr(items.iter().map(value_to_json).collect()),
        serde_json::Value::Object(fields) => Json::Obj(
            fields.iter().map(|(k, v)| (k.clone(), value_to_json(v))).collect(),
        ),
    }
}

/// Converts the codec's value type back into a tree the JSON/MessagePack
/// writers understand.
fn json_to_value(j: &Json) -> serde_json::Value {
    match j {
        Json::Null => serde_json::Value::Null,
        Json::Bool(b) => serde_json::Value::Bool(*b),
        Json::UInt(n) => serde_json::Value::Number(serde_json::Number::from(*n)),
        Json::Int(n) => serde_json::Value::Number(serde_json::Number::from(*n)),
        Json::Str(s) => serde_json::Value::String(s.clone()),
        Json::Arr(items) => serde_json::Value::Array(items.iter().map(json_to_value).collect()),
        Json::Obj(fields) => {
            let mut map = serde_json::Map::new();
            for (k, v) in fields {
                map.insert(k.clone(), json_to_value(v));
            }
            serde_json::Value::Object(map)
        }
    }
}

#[test]
fn test_to_u8() {
    let vec: Vec<i8> = vec![-127, -89, 98, 117, 110, 100, 108, 101, 100, -111, -36, 5, -74];

    let buf = to_u8(&vec);
    println!("new bundle: {:?}", buf);
    assert_eq!(buf, vec![129, 167, 98, 117, 110, 100, 108, 101, 100, 145, 220, 5, 182]);
}

#[test]
fn test_to_i8() {
    let vec: Vec<u8> = vec![129, 167, 98, 117, 110, 100, 108, 101, 100, 145, 220, 19, 13];
    let buf = to_i8(&vec);
    println!("new bundle: {:?}", buf);
    assert_eq!(buf, vec![-127, -89, 98, 117, 110, 100, 108, 101, 100, -111, -36, 19, 13]);
}

#[test]
fn byte_reinterpretation_round_trips() {
    let unsigned: Vec<u8> = vec![0, 1, 127, 128, 200, 255];
    assert_eq!(to_u8(&to_i8(&unsigned)), unsigned);
    let signed: Vec<i8> = vec![-128, -1, 0, 1, 127];
    assert_eq!(to_i8(&to_u8(&signed)), signed);
}

#[test]
fn status_codes_round_trip() {
    let all = [
        MessageStatusCode::Created,
        MessageStatusCode::Sent,
        MessageStatusCode::Pending,
        MessageStatusCode::Accepted,
        MessageStatusCode::Rejected,
        MessageStatusCode::Reviewed,
    ];
    for code in all {
        let wire = code.to_wire();
        assert_eq!(MessageStatusCode::from_wire(wire.as_str()), Ok(code));
    }
}

#[test]
fn status_code_wire_values() {
    assert_eq!(MessageStatusCode::Accepted.to_wire(), "MS-104");
    assert_eq!(MessageStatusCode::Created.to_wire(), "MS-101");
    assert_eq!(MessageStatusCode::Reviewed.to_wire(), "MS-106");
    assert_eq!(
        MessageStatusCode::from_wire("MS-999"),
        Err(CodecError::InvalidJson)
    );
}

#[test]
fn remote_kind_round_trips() {
    for s in ["connReq", "connReqAnswer", "credOffer", "credReq", "cred", "proofReq", "proof", "somethingNew"] {
        let kind = RemoteMessageType::from_wire(s);
        let wire = kind.to_wire();
        assert_eq!(RemoteMessageType::from_wire(wire.as_str()), kind);
        assert_eq!(wire, s);
    }
    assert_eq!(
        RemoteMessageType::from_wire("unheard-of"),
        RemoteMessageType::Other("unheard-of".to_string())
    );
}

#[test]
fn bundle_unsigned_encoding_reads_back() {
    // A bundle written by the codec itself survives real MessagePack.
    let bufs: Vec<Vec<u8>> = vec![vec![1, 2, 250], vec![0, 255]];
    let tree = bundle_to_json(&bufs);
    let bytes = rmp_serde::to_vec_named(&json_to_value(&tree)).unwrap();
    let reread: serde_json::Value = rmp_serde::from_slice(&bytes).unwrap();
    let decoded = bundle_from_u8(&value_to_json(&reread)).unwrap();
    assert_eq!(decoded, bufs);
}

#[test]
fn bundle_signed_encoding_reads_back() {
    // A bundle a historical peer wrote against signed bytes reads through
    // the tolerance path and yields the unsigned contents.
    let signed = serde_json::Value::Array(vec![
        serde_json::Value::Number(serde_json::Number::from(-127i64)),
        serde_json::Value::Number(serde_json::Number::from(-89i64)),
        serde_json::Value::Number(serde_json::Number::from(98i64)),
    ]);
    let mut map = serde_json::Map::new();
    map.insert(
        "bundled".to_string(),
        serde_json::Value::Array(vec![signed]),
    );
    let tree = value_to_json(&serde_json::Value::Object(map));
    let via_i8 = try_i8_bundle(&tree).unwrap();
    assert_eq!(via_i8, vec![vec![129, 167, 98]]);
    let decoded = bundle_from_u8(&tree).unwrap();
    assert_eq!(decoded, vec![vec![129, 167, 98]]);
}

#[test]
fn bundle_mixed_width_is_rejected() {
    // One element above the signed range and one below the unsigned range
    // defeat both readings, as the two-pass legacy decoder did.
    let mixed = serde_json::Value::Array(vec![
        serde_json::Value::Number(serde_json::Number::from(-5i64)),
        serde_json::Value::Number(serde_json::Number::from(200u64)),
    ]);
    let mut map = serde_json::Map::new();
    map.insert("bundled".to_string(), serde_json::Value::Array(vec![mixed]));
    let tree = value_to_json(&serde_json::Value::Object(map));
    assert_eq!(bundle_from_u8(&tree), Err(CodecError::InvalidMsgpack));
}

#[test]
fn empty_bundle_reads_back_empty() {
    let bufs: Vec<Vec<u8>> = vec![];
    let tree = bundle_to_json(&bufs);
    assert_eq!(bundle_from_u8(&tree).unwrap(), bufs);
}

#[test]
fn bundled_create_wraps_one_value() {
    let b = Bundled::create(vec![9u8, 8, 7]);
    assert_eq!(b.bundled, vec![vec![9u8, 8, 7]]);
}

#[test]
fn forward_json_decodes_to_v1_forward() {
    let text = r#"{"@type":{"name":"FWD","ver":"1.0"},"@fwd":"DID1","@msg":[1,2,3]}"#;
    let value: serde_json::Value = serde_json::from_str(text).unwrap();
    let tree = value_to_json(&value);
    match A2AMessage::from_json(&tree) {
        Some(A2AMessage::Version1(A2AMessageV1::Forward(fwd))) => {
            assert_eq!(fwd.fwd, "DID1");
            assert_eq!(fwd.msg, vec![1, 2, 3]);
        }
        other => panic!("unexpected decode: {:?}", other),
    }
}

#[test]
fn answer_response_json_decodes_to_v2_variant() {
    let text = r#"{"@type":{"did":"did:sov:123456789abcdefghi1234","family":"pairwise","version":"1.0","type":"CONN_REQUEST_ANSWER_RESP"},"uid":"yzjjywu"}"#;
    let value: serde_json::Value = serde_json::from_str(text).unwrap();
    let tree = value_to_json(&value);
    match A2AMessage::from_json(&tree) {
        Some(A2AMessage::Version2(A2AMessageV2::ConnectionRequestAnswerResponse(m))) => {
            match &m.msg_type {
                MessageTypes::MessageTypeV2(t) => {
                    assert_eq!(t.family, MessageFamilies::Pairwise);
                    assert_eq!(t.type_, "CONN_REQUEST_ANSWER_RESP");
                }
                other => panic!("unexpected type shape: {:?}", other),
            }
        }
        other => panic!("unexpected decode: {:?}", other),
    }
}

#[test]
fn v1_dispatch_round_trips_every_kind() {
    let names = [
        "CONNECT",
        "CONNECTED",
        "SIGNUP",
        "SIGNED_UP",
        "CREATE_AGENT",
        "AGENT_CREATED",
        "UPDATE_COM_METHOD",
        "CREATE_KEY",
        "KEY_CREATED",
        "GET_MSGS",
        "MSGS",
        "GET_MSGS_BY_CONNS",
        "MSGS_BY_CONNS",
        "UPDATE_CONN_STATUS",
        "CONN_STATUS_UPDATED",
        "UPDATE_MSG_STATUS_BY_CONNS",
        "MSG_STATUS_UPDATED_BY_CONNS",
        "UPDATE_CONFIGS",
        "CONFIGS_UPDATED",
    ];
    for name in names {
        let msg_type = MessageTypes::MessageTypeV1(MessageTypeV1 {
            name: name.to_string(),
            ver: "1.0".to_string(),
        });
        let generic = GenericMsg { msg_type, body: vec![] };
        let tree = generic.to_json();
        let decoded = A2AMessageV1::from_json(&tree)
            .unwrap_or_else(|| panic!("{} did not decode", name));
        let reencoded = decoded.to_json();
        assert_eq!(reencoded, tree, "{} did not round trip", name);
    }
}

#[test]
fn v2_dispatch_round_trips_every_kind() {
    let names = [
        "CONNECT",
        "CONNECTED",
        "SIGNUP",
        "SIGNED_UP",
        "CREATE_AGENT",
        "AGENT_CREATED",
        "UPDATE_COM_METHOD",
        "CREATE_KEY",
        "KEY_CREATED",
        "GET_MSGS",
        "MSGS",
        "GET_MSGS_BY_CONNS",
        "MSGS_BY_CONNS",
        "CONN_REQUEST",
        "CONN_REQUEST_RESP",
        "CONN_REQUEST_ANSWER",
        "CONN_REQUEST_ANSWER_RESP",
        "UPDATE_CONN_STATUS",
        "CONN_STATUS_UPDATED",
        "UPDATE_MSG_STATUS_BY_CONNS",
        "MSG_STATUS_UPDATED_BY_CONNS",
        "UPDATE_CONFIGS",
        "CONFIGS_UPDATED",
    ];
    for name in names {
        let msg_type = MessageTypes::build(A2AMessageKinds::Connect, ProtocolTypes::V2);
        let msg_type = match msg_type {
            MessageTypes::MessageTypeV2(mut t) => {
                t.type_ = name.to_string();
                MessageTypes::MessageTypeV2(t)
            }
            other => other,
        };
        let generic = GenericMsg { msg_type, body: vec![] };
        let tree = generic.to_json();
        let decoded = A2AMessageV2::from_json(&tree)
            .unwrap_or_else(|| panic!("{} did not decode", name));
        let reencoded = decoded.to_json();
        assert_eq!(reencoded, tree, "{} did not round trip", name);
    }
}

#[test]
fn both_sent_names_decode_to_message_sent() {
    for name in ["MSG_SENT", "MSGS_SENT"] {
        let sent = MessageSent {
            msg_type: MessageTypeV1 { name: name.to_string(), ver: "1.0".to_string() },
            uid: None,
            uids: vec!["uid-1".to_string()],
        };
        let tree = sent.to_json();
        match A2AMessageV1::from_json(&tree) {
            Some(A2AMessageV1::MessageSent(m)) => assert_eq!(m, sent),
            other => panic!("{} decoded to {:?}", name, other),
        }
    }
}

#[test]
fn forward_wrap_twice_names_both_hops() {
    let ciphertext = vec![10u8, 20, 30];
    let inner = Forward::new("HOP1DID".to_string(), ciphertext.clone(), ProtocolTypes::V2);
    let inner_tree = inner.to_json();
    // The sealed inner envelope, as the agency-bound hop would carry it.
    let sealed = serde_json::to_vec(&json_to_value(&inner_tree)).unwrap();
    let outer = Forward::new("HOP2DID".to_string(), sealed.clone(), ProtocolTypes::V2);
    let outer_tree = outer.to_json();

    let outer_back = Forward::from_json(&outer_tree).unwrap();
    assert_eq!(outer_back.fwd, "HOP2DID");
    assert_eq!(outer_back.msg, sealed);
    let inner_value: serde_json::Value = serde_json::from_slice(&outer_back.msg).unwrap();
    let inner_back = Forward::from_json(&value_to_json(&inner_value)).unwrap();
    assert_eq!(inner_back.fwd, "HOP1DID");
    assert_eq!(inner_back.msg, ciphertext);
}

#[test]
fn versions_never_cross_decode() {
    let v1_tree = GenericMsg {
        msg_type: MessageTypes::build(A2AMessageKinds::Connect, ProtocolTypes::V1),
        body: vec![],
    }
    .to_json();
    assert!(A2AMessageV1::from_json(&v1_tree).is_some());
    assert!(A2AMessageV2::from_json(&v1_tree).is_none());

    let v2_tree = GenericMsg {
        msg_type: MessageTypes::build(A2AMessageKinds::Connect, ProtocolTypes::V2),
        body: vec![],
    }
    .to_json();
    assert!(A2AMessageV2::from_json(&v2_tree).is_some());
    assert!(A2AMessageV1::from_json(&v2_tree).is_none());
}

#[test]
fn unknown_type_name_is_rejected() {
    let tree = GenericMsg {
        msg_type: MessageTypes::MessageTypeV1(MessageTypeV1 {
            name: "NO_SUCH_KIND".to_string(),
            ver: "1.0".to_string(),
        }),
        body: vec![],
    }
    .to_json();
    assert!(A2AMessageV1::from_json(&tree).is_none());
    assert!(A2AMessage::from_json(&tree).is_none());
}

#[test]
fn missing_type_field_is_rejected() {
    let tree = Json::Obj(vec![("uid".to_string(), Json::Str("x".to_string()))]);
    assert!(A2AMessage::from_json(&tree).is_none());
}

#[test]
fn v1_message_survives_real_messagepack() {
    // A full older-protocol message written through rmp-serde reads back
    // through the dispatch unchanged.
    let sent = MessageSent {
        msg_type: MessageTypeV1 { name: "MSGS_SENT".to_string(), ver: "1.0".to_string() },
        uid: Some("u-1".to_string()),
        uids: vec!["a".to_string(), "b".to_string()],
    };
    let bytes = rmp_serde::to_vec_named(&json_to_value(&sent.to_json())).unwrap();
    let value: serde_json::Value = rmp_serde::from_slice(&bytes).unwrap();
    match A2AMessageV1::from_json(&value_to_json(&value)) {
        Some(A2AMessageV1::MessageSent(m)) => assert_eq!(m, sent),
        other => panic!("unexpected decode: {:?}", other),
    }
}

#[test]
fn v2_message_survives_real_json_text() {
    let tree = GenericMsg {
        msg_type: MessageTypes::build(A2AMessageKinds::GetMessages, ProtocolTypes::V2),
        body: vec![("uids".to_string(), Json::Arr(vec![Json::Str("m1".to_string())]))],
    }
    .to_json();
    let text = serde_json::to_string(&json_to_value(&tree)).unwrap();
    let value: serde_json::Value = serde_json::from_str(&text).unwrap();
    match A2AMessage::from_json(&value_to_json(&value)) {
        Some(A2AMessage::Version2(A2AMessageV2::GetMessages(m))) => {
            assert_eq!(m.body.len(), 1);
            assert_eq!(m.body[0].0, "uids");
        }
        other => panic!("unexpected decode: {:?}", other),
    }
}

#[test]
fn connection_method_update_keeps_its_legacy_name_mismatch() {
    // The registry writes UPDATE_CONNECTION_METHOD into a freshly built
    // `@type`, while the dispatch tables only know UPDATE_COM_METHOD, so a
    // message built from that kind never reads back.
    let built = GenericMsg {
        msg_type: MessageTypes::build(A2AMessageKinds::UpdateConMethod, ProtocolTypes::V1),
        body: vec![],
    }
    .to_json();
    assert!(A2AMessageV1::from_json(&built).is_none());

    // A peer writing the table's own name is understood.
    let wire = GenericMsg {
        msg_type: MessageTypes::MessageTypeV1(MessageTypeV1 {
            name: "UPDATE_COM_METHOD".to_string(),
            ver: "1.0".to_string(),
        }),
        body: vec![],
    }
    .to_json();
    match A2AMessageV1::from_json(&wire) {
        Some(A2AMessageV1::UpdateConnectionMethod(_)) => {}
        other => panic!("unexpected decode: {:?}", other),
    }
}
