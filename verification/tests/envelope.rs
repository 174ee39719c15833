use a2a_codec::a2a::A2AMessage;
use a2a_codec::builder::{
    create_keys, delete_connection, get_messages, proof_request, send_invite, send_message,
    update_data, GeneralMessage,
};
use a2a_codec::error::CodecError;
use a2a_codec::json::Json;
use a2a_codec::message_type::{A2AMessageKinds, MessageFamilies, MessageTypes};
use a2a_codec::payload::{Payload, PayloadKinds, PayloadTypes};
use a2a_codec::pipeline::{
    agency_keys, bundle_single, decode_response_messages, extract_message_field,
    first_message_for_agent, prepare_forward_message,
};
use a2a_codec::settings::{ProtocolTypes, Settings};

fn test_settings(version: ProtocolTypes) -> Settings {
    Settings {
        protocol_type: version,
        agency_verkey: Some("AGENCYVK".to_string()),
        remote_to_sdk_verkey: Some("AGENTVK".to_string()),
        sdk_to_remote_verkey: Some("MYVK".to_string()),
        remote_to_sdk_did: Some("AGENTDID".to_string()),
    }
}

#[test]
fn empty_agent_message_list_is_a_serialization_error() {
    let messages: Vec<A2AMessage> = vec![];
    match first_message_for_agent(&messages) {
        Err(e) => assert_eq!(e, CodecError::SerializationError),
        Ok(_) => panic!("an empty list must not serialize"),
    }
}

#[test]
fn agency_keys_read_the_snapshot() {
    let keys = agency_keys(&test_settings(ProtocolTypes::V1)).unwrap();
    assert_eq!(keys.agent_vk, "AGENTVK");
    assert_eq!(keys.my_vk, "MYVK");
}

#[test]
fn missing_configuration_is_reported() {
    let mut settings = test_settings(ProtocolTypes::V1);
    settings.remote_to_sdk_verkey = None;
    assert_eq!(agency_keys(&settings), Err(CodecError::InvalidConfiguration));
    let mut settings = test_settings(ProtocolTypes::V2);
    settings.agency_verkey = None;
    assert_eq!(
        settings.get_agency_verkey(),
        Err(CodecError::InvalidConfiguration)
    );
}

#[test]
fn forward_message_carries_hop_and_ciphertext() {
    let fwd = prepare_forward_message(vec![5, 6, 7], "AGENCYDID", ProtocolTypes::V1);
    assert_eq!(fwd.fwd, "AGENCYDID");
    assert_eq!(fwd.msg, vec![5, 6, 7]);
    match fwd.msg_type {
        MessageTypes::MessageTypeV1(t) => {
            assert_eq!(t.name, "FWD");
            assert_eq!(t.ver, "1.0");
        }
        other => panic!("unexpected type shape: {:?}", other),
    }
}

#[test]
fn single_bundle_holds_one_buffer() {
    let tree = bundle_single(&vec![1u8, 2, 3]);
    match &tree {
        Json::Obj(fields) => {
            assert_eq!(fields.len(), 1);
            assert_eq!(fields[0].0, "bundled");
        }
        other => panic!("unexpected bundle shape: {:?}", other),
    }
}

#[test]
fn message_field_extraction() {
    let envelope = Json::Obj(vec![
        ("message".to_string(), Json::Str("{\"a\":1}".to_string())),
        ("recipient_verkey".to_string(), Json::Str("VK".to_string())),
    ]);
    assert_eq!(extract_message_field(&envelope).unwrap(), "{\"a\":1}");
    let broken = Json::Obj(vec![("message".to_string(), Json::UInt(3))]);
    assert_eq!(extract_message_field(&broken), Err(CodecError::InvalidJson));
    assert_eq!(
        extract_message_field(&Json::Str("nope".to_string())),
        Err(CodecError::InvalidJson)
    );
}

#[test]
fn response_bundle_fails_as_invalid_json() {
    let good = a2a_codec::messages::GenericMsg {
        msg_type: MessageTypes::build(A2AMessageKinds::Connected, ProtocolTypes::V1),
        body: vec![],
    }
    .to_json();
    let bad = Json::Obj(vec![("no_type".to_string(), Json::Null)]);
    assert!(decode_response_messages(&vec![good]).is_ok());
    let good = a2a_codec::messages::GenericMsg {
        msg_type: MessageTypes::build(A2AMessageKinds::Connected, ProtocolTypes::V1),
        body: vec![],
    }
    .to_json();
    assert_eq!(
        decode_response_messages(&vec![good, bad]),
        Err(CodecError::InvalidJson)
    );
}

#[test]
fn payload_type_names_follow_the_version() {
    match PayloadTypes::build_v1(PayloadKinds::CredOffer, "json") {
        PayloadTypes::PayloadTypeV1(t) => {
            assert_eq!(t.name, "CRED_OFFER");
            assert_eq!(t.ver, "1.0");
            assert_eq!(t.fmt, "json");
        }
        other => panic!("unexpected payload type: {:?}", other),
    }
    match PayloadTypes::build_v2(PayloadKinds::CredOffer) {
        PayloadTypes::PayloadTypeV2(t) => {
            assert_eq!(t.type_, "credential-offer");
            assert_eq!(t.family, MessageFamilies::CredentialExchange);
            assert_eq!(t.version, "1.0");
        }
        other => panic!("unexpected payload type: {:?}", other),
    }
    match PayloadTypes::build_v2(PayloadKinds::ProofRequest) {
        PayloadTypes::PayloadTypeV2(t) => assert_eq!(t.type_, "presentation-request"),
        other => panic!("unexpected payload type: {:?}", other),
    }
}

#[test]
fn payload_round_trips_under_both_versions() {
    for version in [ProtocolTypes::V1, ProtocolTypes::V2] {
        let payload = Payload::build("{\"cred\":true}", PayloadKinds::Cred, version);
        let tree = payload.to_json();
        assert_eq!(Payload::decrypted_msg(&tree).unwrap(), "{\"cred\":true}");
    }
}

#[test]
fn payload_decode_failure_is_invalid_msgpack() {
    let not_a_payload = Json::Obj(vec![("x".to_string(), Json::Null)]);
    assert_eq!(
        Payload::decrypted_msg(&not_a_payload),
        Err(CodecError::InvalidMsgpack)
    );
}

#[test]
fn registry_builds_both_type_shapes() {
    match MessageTypes::build(A2AMessageKinds::CreateKey, ProtocolTypes::V1) {
        MessageTypes::MessageTypeV1(t) => {
            assert_eq!(t.name, "CREATE_KEY");
            assert_eq!(t.ver, "1.0");
        }
        other => panic!("unexpected type shape: {:?}", other),
    }
    match MessageTypes::build(A2AMessageKinds::CreateKey, ProtocolTypes::V2) {
        MessageTypes::MessageTypeV2(t) => {
            assert_eq!(t.type_, "CREATE_KEY");
            assert_eq!(t.family, MessageFamilies::Pairwise);
            assert_eq!(t.did, "did:sov:123456789abcdefghi1234");
            assert_eq!(t.version, "1.0");
        }
        other => panic!("unexpected type shape: {:?}", other),
    }
}

#[test]
fn kind_families_match_the_registry() {
    assert_eq!(A2AMessageKinds::Forward.family(), MessageFamilies::Routing);
    assert_eq!(A2AMessageKinds::Connect.family(), MessageFamilies::Onboarding);
    assert_eq!(A2AMessageKinds::CreateKey.family(), MessageFamilies::Pairwise);
    assert_eq!(A2AMessageKinds::UpdateConfigs.family(), MessageFamilies::Configs);
    assert_eq!(
        A2AMessageKinds::SendRemoteMessage.family(),
        MessageFamilies::Routing
    );
    assert_eq!(A2AMessageKinds::Forward.name(), "FWD");
    assert_eq!(A2AMessageKinds::MessageSent.name(), "MSGS_SENT");
    assert_eq!(A2AMessageKinds::UpdateConMethod.name(), "UPDATE_CONNECTION_METHOD");
}

#[test]
fn family_wire_names_round_trip() {
    for f in [
        MessageFamilies::Routing,
        MessageFamilies::Onboarding,
        MessageFamilies::Pairwise,
        MessageFamilies::CredentialExchange,
        MessageFamilies::Configs,
    ] {
        let wire = f.wire_name();
        assert_eq!(MessageFamilies::from_wire_name(wire.as_str()), f);
        assert_eq!(f.version(), "1.0");
    }
    assert_eq!(
        MessageFamilies::from_wire_name("new-family"),
        MessageFamilies::Unknown("new-family".to_string())
    );
}

#[test]
fn builders_validate_before_storing() {
    let mut builder = create_keys();
    builder.to("8XFh8yBzrpJQmNyZzgoTqB").unwrap();
    builder.to_vk("EkVTa7SCJ5SntpYyX7CSb2pcBhiVGT9kWSagA8a9T69A").unwrap();
    assert_eq!(builder.to_did, "8XFh8yBzrpJQmNyZzgoTqB");
    assert_eq!(builder.to_vk, "EkVTa7SCJ5SntpYyX7CSb2pcBhiVGT9kWSagA8a9T69A");

    // Ill-formed input is refused and the builder keeps its state: '0', 'I',
    // 'O' and 'l' are no base58 characters.
    assert_eq!(builder.to("0000"), Err(CodecError::InvalidDid));
    assert_eq!(builder.to_did, "8XFh8yBzrpJQmNyZzgoTqB");
    assert_eq!(builder.agent_vk("Illegal"), Err(CodecError::InvalidVerkey));
    assert_eq!(builder.agent_vk, "");
    assert_eq!(builder.to(""), Err(CodecError::InvalidDid));
}

#[test]
fn every_builder_starts_empty() {
    assert_eq!(send_invite().to_did, "");
    assert_eq!(delete_connection().to_vk, "");
    assert_eq!(get_messages().agent_did, "");
    assert_eq!(send_message().agent_vk, "");
    assert_eq!(update_data().to_did, "");
    assert_eq!(proof_request().to_did, "");
    let mut b = a2a_codec::builder::accept_invite();
    b.agent_did("8XFh8yBzrpJQmNyZzgoTqB").unwrap();
    assert_eq!(b.agent_did, "8XFh8yBzrpJQmNyZzgoTqB");
}
