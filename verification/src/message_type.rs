//! The message-type registry.
//!
//! Every message kind maps to a family and a wire name, and each protocol
//! version writes that pair in its own `@type` shape: the older protocol as
//! `{ name, ver }`, the newer one as `{ did, family, version, type }` with a
//! fixed well-known issuer identifier.

use vstd::prelude::*;
use crate::json::{Json, JsonVal, json_fields_view, lemma_json_fields_view};
use crate::field::{get_str, str_field_spec};
use crate::settings::ProtocolTypes;
use crate::json::str_eq;

verus! {

/// The model of [`MessageFamilies`].
pub enum MessageFamiliesVal {
    Routing,
    Onboarding,
    Pairwise,
    CredentialExchange,
    Configs,
    Unknown(Seq<char>),
}

/// The family a message kind belongs to.
#[derive(Clone, Debug, PartialEq, Eq)]
pub enum MessageFamilies {
    Routing,
    Onboarding,
    Pairwise,
    CredentialExchange,
    Configs,
    Unknown(String),
}

impl View for MessageFamilies {
    type V = MessageFamiliesVal;

    open spec fn view(&self) -> MessageFamiliesVal {
        match self {
            MessageFamilies::Routing => MessageFamiliesVal::Routing,
            MessageFamilies::Onboarding => MessageFamiliesVal::Onboarding,
            MessageFamilies::Pairwise => MessageFamiliesVal::Pairwise,
            MessageFamilies::CredentialExchange => MessageFamiliesVal::CredentialExchange,
            MessageFamilies::Configs => MessageFamiliesVal::Configs,
            MessageFamilies::Unknown(s) => MessageFamiliesVal::Unknown(s@),
        }
    }
}

impl MessageFamiliesVal {
    /// The family's name on the wire.
    pub open spec fn wire_name_spec(self) -> Seq<char> {
        match self {
            MessageFamiliesVal::Routing => "routing"@,
            MessageFamiliesVal::Onboarding => "onboarding"@,
            MessageFamiliesVal::Pairwise => "pairwise"@,
            MessageFamiliesVal::CredentialExchange => "credential_exchange"@,
            MessageFamiliesVal::Configs => "configs"@,
            MessageFamiliesVal::Unknown(s) => s,
        }
    }

    /// The family a wire name denotes; unrecognized names are kept as they are.
    pub open spec fn from_wire_spec(s: Seq<char>) -> MessageFamiliesVal {
        if s == "routing"@ {
            MessageFamiliesVal::Routing
        } else if s == "onboarding"@ {
            MessageFamiliesVal::Onboarding
        } else if s == "pairwise"@ {
            MessageFamiliesVal::Pairwise
        } else if s == "credential_exchange"@ {
            MessageFamiliesVal::CredentialExchange
        } else if s == "configs"@ {
            MessageFamiliesVal::Configs
        } else {
            MessageFamiliesVal::Unknown(s)
        }
    }
}

impl MessageFamilies {
    /// The protocol version string this family speaks.
    pub fn version(&self) -> (r: String)
        ensures
            r@ == "1.0"@,
    {
        "1.0".to_owned()
    }

    /// The family's name on the wire.
    pub fn wire_name(&self) -> (r: String)
        ensures
            r@ == self@.wire_name_spec(),
    {
        match self {
            MessageFamilies::Routing => "routing".to_owned(),
            MessageFamilies::Onboarding => "onboarding".to_owned(),
            MessageFamilies::Pairwise => "pairwise".to_owned(),
            MessageFamilies::CredentialExchange => "credential_exchange".to_owned(),
            MessageFamilies::Configs => "configs".to_owned(),
            MessageFamilies::Unknown(s) => s.clone(),
        }
    }

    /// Reads a family from its wire name, keeping unrecognized names.
    pub fn from_wire_name(s: &str) -> (r: Self)
        ensures
            r@ == MessageFamiliesVal::from_wire_spec(s@),
    {
        if str_eq(s, "routing") {
            MessageFamilies::Routing
        } else if str_eq(s, "onboarding") {
            MessageFamilies::Onboarding
        } else if str_eq(s, "pairwise") {
            MessageFamilies::Pairwise
        } else if str_eq(s, "credential_exchange") {
            MessageFamilies::CredentialExchange
        } else if str_eq(s, "configs") {
            MessageFamilies::Configs
        } else {
            MessageFamilies::Unknown(s.to_owned())
        }
    }
}

/// The closed set of message kinds the codec can build a `@type` for.
#[derive(Clone, Copy, Debug, PartialEq, Eq, Structural)]
pub enum A2AMessageKinds {
    Forward,
    Connect,
    Connected,
    SignUp,
    SignedUp,
    CreateAgent,
    AgentCreated,
    CreateKey,
    KeyCreated,
    CreateMessage,
    MessageDetail,
    MessageCreated,
    MessageSent,
    GetMessages,
    GetMessagesByConnections,
    Messages,
    UpdateMessageStatusByConnections,
    MessageStatusUpdatedByConnections,
    UpdateConnectionStatus,
    UpdateConfigs,
    ConfigsUpdated,
    UpdateConMethod,
    ConnectionRequest,
    ConnectionRequestAnswer,
    SendRemoteMessage,
    SendRemoteMessageResponse,
}

impl A2AMessageKinds {
    /// The family each kind belongs to.
    pub open spec fn family_spec(self) -> MessageFamiliesVal {
        match self {
            A2AMessageKinds::Forward => MessageFamiliesVal::Routing,
            A2AMessageKinds::Connect => MessageFamiliesVal::Onboarding,
            A2AMessageKinds::Connected => MessageFamiliesVal::Onboarding,
            A2AMessageKinds::CreateAgent => MessageFamiliesVal::Onboarding,
            A2AMessageKinds::AgentCreated => MessageFamiliesVal::Onboarding,
            A2AMessageKinds::SignUp => MessageFamiliesVal::Onboarding,
            A2AMessageKinds::SignedUp => MessageFamiliesVal::Onboarding,
            A2AMessageKinds::CreateKey => MessageFamiliesVal::Pairwise,
            A2AMessageKinds::KeyCreated => MessageFamiliesVal::Pairwise,
            A2AMessageKinds::CreateMessage => MessageFamiliesVal::Pairwise,
            A2AMessageKinds::MessageDetail => MessageFamiliesVal::Pairwise,
            A2AMessageKinds::MessageCreated => MessageFamiliesVal::Pairwise,
            A2AMessageKinds::MessageSent => MessageFamiliesVal::Pairwise,
            A2AMessageKinds::GetMessages => MessageFamiliesVal::Pairwise,
            A2AMessageKinds::GetMessagesByConnections => MessageFamiliesVal::Pairwise,
            A2AMessageKinds::Messages => MessageFamiliesVal::Pairwise,
            A2AMessageKinds::UpdateConnectionStatus => MessageFamiliesVal::Pairwise,
            A2AMessageKinds::ConnectionRequest => MessageFamiliesVal::Pairwise,
            A2AMessageKinds::ConnectionRequestAnswer => MessageFamiliesVal::Pairwise,
            A2AMessageKinds::UpdateMessageStatusByConnections => MessageFamiliesVal::Pairwise,
            A2AMessageKinds::MessageStatusUpdatedByConnections => MessageFamiliesVal::Pairwise,
            A2AMessageKinds::UpdateConfigs => MessageFamiliesVal::Configs,
            A2AMessageKinds::ConfigsUpdated => MessageFamiliesVal::Configs,
            A2AMessageKinds::UpdateConMethod => MessageFamiliesVal::Configs,
            A2AMessageKinds::SendRemoteMessage => MessageFamiliesVal::Routing,
            A2AMessageKinds::SendRemoteMessageResponse => MessageFamiliesVal::Routing,
        }
    }

    /// The name each kind writes into a freshly built `@type`.
    pub open spec fn name_spec(self) -> Seq<char> {
        match self {
            A2AMessageKinds::Forward => "FWD"@,
            A2AMessageKinds::Connect => "CONNECT"@,
            A2AMessageKinds::Connected => "CONNECTED"@,
            A2AMessageKinds::CreateAgent => "CREATE_AGENT"@,
            A2AMessageKinds::AgentCreated => "AGENT_CREATED"@,
            A2AMessageKinds::SignUp => "SIGNUP"@,
            A2AMessageKinds::SignedUp => "SIGNED_UP"@,
            A2AMessageKinds::CreateKey => "CREATE_KEY"@,
            A2AMessageKinds::KeyCreated => "KEY_CREATED"@,
            A2AMessageKinds::CreateMessage => "CREATE_MSG"@,
            A2AMessageKinds::MessageDetail => "MSG_DETAIL"@,
            A2AMessageKinds::MessageCreated => "MSG_CREATED"@,
            A2AMessageKinds::MessageSent => "MSGS_SENT"@,
            A2AMessageKinds::GetMessages => "GET_MSGS"@,
            A2AMessageKinds::GetMessagesByConnections => "GET_MSGS_BY_CONNS"@,
            A2AMessageKinds::UpdateMessageStatusByConnections => "UPDATE_MSG_STATUS_BY_CONNS"@,
            A2AMessageKinds::MessageStatusUpdatedByConnections => "MSG_STATUS_UPDATED_BY_CONNS"@,
            A2AMessageKinds::Messages => "MSGS"@,
            A2AMessageKinds::UpdateConnectionStatus => "UPDATE_CONN_STATUS"@,
            A2AMessageKinds::ConnectionRequest => "CONN_REQUEST"@,
            A2AMessageKinds::ConnectionRequestAnswer => "CONN_REQUEST_ANSWER"@,
            A2AMessageKinds::UpdateConfigs => "UPDATE_CONFIGS"@,
            A2AMessageKinds::ConfigsUpdated => "CONFIGS_UPDATED"@,
            A2AMessageKinds::UpdateConMethod => "UPDATE_CONNECTION_METHOD"@,
            A2AMessageKinds::SendRemoteMessage => "SEND_REMOTE_MSG"@,
            A2AMessageKinds::SendRemoteMessageResponse => "REMOTE_MSG_SENT"@,
        }
    }

    /// The family this kind belongs to.
    pub fn family(&self) -> (r: MessageFamilies)
        ensures
            r@ == self.family_spec(),
    {
        match self {
            A2AMessageKinds::Forward => MessageFamilies::Routing,
            A2AMessageKinds::Connect => MessageFamilies::Onboarding,
            A2AMessageKinds::Connected => MessageFamilies::Onboarding,
            A2AMessageKinds::CreateAgent => MessageFamilies::Onboarding,
            A2AMessageKinds::AgentCreated => MessageFamilies::Onboarding,
            A2AMessageKinds::SignUp => MessageFamilies::Onboarding,
            A2AMessageKinds::SignedUp => MessageFamilies::Onboarding,
            A2AMessageKinds::CreateKey => MessageFamilies::Pairwise,
            A2AMessageKinds::KeyCreated => MessageFamilies::Pairwise,
            A2AMessageKinds::CreateMessage => MessageFamilies::Pairwise,
            A2AMessageKinds::MessageDetail => MessageFamilies::Pairwise,
            A2AMessageKinds::MessageCreated => MessageFamilies::Pairwise,
            A2AMessageKinds::MessageSent => MessageFamilies::Pairwise,
            A2AMessageKinds::GetMessages => MessageFamilies::Pairwise,
            A2AMessageKinds::GetMessagesByConnections => MessageFamilies::Pairwise,
            A2AMessageKinds::Messages => MessageFamilies::Pairwise,
            A2AMessageKinds::UpdateConnectionStatus => MessageFamilies::Pairwise,
            A2AMessageKinds::ConnectionRequest => MessageFamilies::Pairwise,
            A2AMessageKinds::ConnectionRequestAnswer => MessageFamilies::Pairwise,
            A2AMessageKinds::UpdateMessageStatusByConnections => MessageFamilies::Pairwise,
            A2AMessageKinds::MessageStatusUpdatedByConnections => MessageFamilies::Pairwise,
            A2AMessageKinds::UpdateConfigs => MessageFamilies::Configs,
            A2AMessageKinds::ConfigsUpdated => MessageFamilies::Configs,
            A2AMessageKinds::UpdateConMethod => MessageFamilies::Configs,
            A2AMessageKinds::SendRemoteMessage => MessageFamilies::Routing,
            A2AMessageKinds::SendRemoteMessageResponse => MessageFamilies::Routing,
        }
    }

    /// The name this kind writes into a freshly built `@type`.
    pub fn name(&self) -> (r: String)
        ensures
            r@ == self.name_spec(),
    {
        match self {
            A2AMessageKinds::Forward => "FWD".to_owned(),
            A2AMessageKinds::Connect => "CONNECT".to_owned(),
            A2AMessageKinds::Connected => "CONNECTED".to_owned(),
            A2AMessageKinds::CreateAgent => "CREATE_AGENT".to_owned(),
            A2AMessageKinds::AgentCreated => "AGENT_CREATED".to_owned(),
            A2AMessageKinds::SignUp => "SIGNUP".to_owned(),
            A2AMessageKinds::SignedUp => "SIGNED_UP".to_owned(),
            A2AMessageKinds::CreateKey => "CREATE_KEY".to_owned(),
            A2AMessageKinds::KeyCreated => "KEY_CREATED".to_owned(),
            A2AMessageKinds::CreateMessage => "CREATE_MSG".to_owned(),
            A2AMessageKinds::MessageDetail => "MSG_DETAIL".to_owned(),
            A2AMessageKinds::MessageCreated => "MSG_CREATED".to_owned(),
            A2AMessageKinds::MessageSent => "MSGS_SENT".to_owned(),
            A2AMessageKinds::GetMessages => "GET_MSGS".to_owned(),
            A2AMessageKinds::GetMessagesByConnections => "GET_MSGS_BY_CONNS".to_owned(),
            A2AMessageKinds::UpdateMessageStatusByConnections => "UPDATE_MSG_STATUS_BY_CONNS".to_owned(),
            A2AMessageKinds::MessageStatusUpdatedByConnections => "MSG_STATUS_UPDATED_BY_CONNS".to_owned(),
            A2AMessageKinds::Messages => "MSGS".to_owned(),
            A2AMessageKinds::UpdateConnectionStatus => "UPDATE_CONN_STATUS".to_owned(),
            A2AMessageKinds::ConnectionRequest => "CONN_REQUEST".to_owned(),
            A2AMessageKinds::ConnectionRequestAnswer => "CONN_REQUEST_ANSWER".to_owned(),
            A2AMessageKinds::UpdateConfigs => "UPDATE_CONFIGS".to_owned(),
            A2AMessageKinds::ConfigsUpdated => "CONFIGS_UPDATED".to_owned(),
            A2AMessageKinds::UpdateConMethod => "UPDATE_CONNECTION_METHOD".to_owned(),
            A2AMessageKinds::SendRemoteMessage => "SEND_REMOTE_MSG".to_owned(),
            A2AMessageKinds::SendRemoteMessageResponse => "REMOTE_MSG_SENT".to_owned(),
        }
    }
}

/// The well-known issuer identifier written into every newer-protocol `@type`.
pub open spec fn well_known_did_spec() -> Seq<char> {
    "did:sov:123456789abcdefghi1234"@
}

/// The well-known issuer identifier written into every newer-protocol `@type`.
pub fn well_known_did() -> (r: String)
    ensures
        r@ == well_known_did_spec(),
{
    "did:sov:123456789abcdefghi1234".to_owned()
}

/// The model of [`MessageTypeV1`].
pub struct MessageTypeV1Val {
    pub name: Seq<char>,
    pub ver: Seq<char>,
}

/// A `@type` of the older protocol: `{ name, ver }`.
#[derive(Clone, Debug, PartialEq, Eq)]
pub struct MessageTypeV1 {
    pub name: String,
    pub ver: String,
}

impl View for MessageTypeV1 {
    type V = MessageTypeV1Val;

    open spec fn view(&self) -> MessageTypeV1Val {
        MessageTypeV1Val { name: self.name@, ver: self.ver@ }
    }
}

/// The model of [`MessageTypeV2`].
pub struct MessageTypeV2Val {
    pub did: Seq<char>,
    pub family: MessageFamiliesVal,
    pub version: Seq<char>,
    pub type_: Seq<char>,
}

/// A `@type` of the newer protocol: `{ did, family, version, type }`.
#[derive(Clone, Debug, PartialEq, Eq)]
pub struct MessageTypeV2 {
    pub did: String,
    pub family: MessageFamilies,
    pub version: String,
    pub type_: String,
}

impl View for MessageTypeV2 {
    type V = MessageTypeV2Val;

    open spec fn view(&self) -> MessageTypeV2Val {
        MessageTypeV2Val {
            did: self.did@,
            family: self.family@,
            version: self.version@,
            type_: self.type_@,
        }
    }
}

/// The model of [`MessageTypes`].
pub enum MessageTypesVal {
    MessageTypeV2(MessageTypeV2Val),
    MessageTypeV1(MessageTypeV1Val),
}

/// A `@type` of either shape.  When read off the wire, the newer shape is
/// attempted first and the older one second.
#[derive(Clone, Debug, PartialEq, Eq)]
pub enum MessageTypes {
    MessageTypeV2(MessageTypeV2),
    MessageTypeV1(MessageTypeV1),
}

impl View for MessageTypes {
    type V = MessageTypesVal;

    open spec fn view(&self) -> MessageTypesVal {
        match self {
            MessageTypes::MessageTypeV2(t) => MessageTypesVal::MessageTypeV2(t@),
            MessageTypes::MessageTypeV1(t) => MessageTypesVal::MessageTypeV1(t@),
        }
    }
}

impl MessageTypes {
    /// The `@type` value a freshly built message of `kind` carries under
    /// `version`.
    pub open spec fn build_spec(kind: A2AMessageKinds, version: ProtocolTypes) -> MessageTypesVal {
        match version {
            ProtocolTypes::V1 => MessageTypesVal::MessageTypeV1(
                MessageTypeV1Val { name: kind.name_spec(), ver: "1.0"@ },
            ),
            ProtocolTypes::V2 => MessageTypesVal::MessageTypeV2(
                MessageTypeV2Val {
                    did: well_known_did_spec(),
                    family: kind.family_spec(),
                    version: "1.0"@,
                    type_: kind.name_spec(),
                },
            ),
        }
    }

    /// Builds the `@type` a message of `kind` carries under `version`.
    pub fn build(kind: A2AMessageKinds, version: ProtocolTypes) -> (r: MessageTypes)
        ensures
            r@ == Self::build_spec(kind, version),
    {
        match version {
            ProtocolTypes::V1 => MessageTypes::MessageTypeV1(
                MessageTypeV1 { name: kind.name(), ver: kind.family().version() },
            ),
            ProtocolTypes::V2 => MessageTypes::MessageTypeV2(
                MessageTypeV2 {
                    did: well_known_did(),
                    family: kind.family(),
                    version: kind.family().version(),
                    type_: kind.name(),
                },
            ),
        }
    }
}

impl MessageTypeV1Val {
    /// The wire object of an older-protocol `@type`.
    pub open spec fn to_val(self) -> JsonVal {
        JsonVal::Obj(
            seq![("name"@, JsonVal::Str(self.name)), ("ver"@, JsonVal::Str(self.ver))],
        )
    }

    /// Reads an older-protocol `@type` from a wire object.
    pub open spec fn from_val(j: JsonVal) -> Option<MessageTypeV1Val> {
        match j {
            JsonVal::Obj(fs) => match (str_field_spec(fs, "name"@), str_field_spec(fs, "ver"@)) {
                (Option::Some(name), Option::Some(ver)) => Option::Some(
                    MessageTypeV1Val { name, ver },
                ),
                _ => Option::None,
            },
            _ => Option::None,
        }
    }
}

impl MessageTypeV2Val {
    /// The wire object of a newer-protocol `@type`.
    pub open spec fn to_val(self) -> JsonVal {
        JsonVal::Obj(
            seq![
                ("did"@, JsonVal::Str(self.did)),
                ("family"@, JsonVal::Str(self.family.wire_name_spec())),
                ("version"@, JsonVal::Str(self.version)),
                ("type"@, JsonVal::Str(self.type_)),
            ],
        )
    }

    /// Reads a newer-protocol `@type` from a wire object.
    pub open spec fn from_val(j: JsonVal) -> Option<MessageTypeV2Val> {
        match j {
            JsonVal::Obj(fs) => match (
                str_field_spec(fs, "did"@),
                str_field_spec(fs, "family"@),
                str_field_spec(fs, "version"@),
                str_field_spec(fs, "type"@),
            ) {
                (
                    Option::Some(did),
                    Option::Some(family),
                    Option::Some(version),
                    Option::Some(type_),
                ) => Option::Some(
                    MessageTypeV2Val {
                        did,
                        family: MessageFamiliesVal::from_wire_spec(family),
                        version,
                        type_,
                    },
                ),
                _ => Option::None,
            },
            _ => Option::None,
        }
    }
}

impl MessageTypesVal {
    /// The wire object of a `@type` of either shape.
    pub open spec fn to_val(self) -> JsonVal {
        match self {
            MessageTypesVal::MessageTypeV2(t) => t.to_val(),
            MessageTypesVal::MessageTypeV1(t) => t.to_val(),
        }
    }

    /// Reads a `@type` of either shape, the newer shape first.
    pub open spec fn from_val(j: JsonVal) -> Option<MessageTypesVal> {
        match MessageTypeV2Val::from_val(j) {
            Option::Some(t) => Option::Some(MessageTypesVal::MessageTypeV2(t)),
            Option::None => match MessageTypeV1Val::from_val(j) {
                Option::Some(t) => Option::Some(MessageTypesVal::MessageTypeV1(t)),
                Option::None => Option::None,
            },
        }
    }

    /// The name a `@type` dispatches on: `name` in the older shape, `type`
    /// in the newer one.
    pub open spec fn dispatch_name(self) -> Seq<char> {
        match self {
            MessageTypesVal::MessageTypeV2(t) => t.type_,
            MessageTypesVal::MessageTypeV1(t) => t.name,
        }
    }
}

/// A family whose wire name reads back to the family itself; true of every
/// family but an `Unknown` that spells a recognized name.
pub open spec fn family_wf(f: MessageFamiliesVal) -> bool {
    MessageFamiliesVal::from_wire_spec(f.wire_name_spec()) == f
}

/// A newer-protocol `@type` object never reads back as the older shape and
/// vice versa, and each shape reads back to itself.
pub proof fn lemma_message_type_round_trip(t: MessageTypesVal)
    requires
        t is MessageTypeV2 ==> family_wf(t->MessageTypeV2_0.family),
    ensures
        MessageTypesVal::from_val(t.to_val()) == Option::Some(t),
        t is MessageTypeV1 ==> MessageTypeV2Val::from_val(t.to_val()) is None,
        t is MessageTypeV2 ==> MessageTypeV1Val::from_val(t.to_val()) is None,
{
    reveal_with_fuel(JsonVal::fields_lookup, 6);
    reveal_strlit("name");
    reveal_strlit("ver");
    reveal_strlit("did");
    reveal_strlit("family");
    reveal_strlit("version");
    reveal_strlit("type");
    match t {
        MessageTypesVal::MessageTypeV1(t1) => {
            let fs = seq![("name"@, JsonVal::Str(t1.name)), ("ver"@, JsonVal::Str(t1.ver))];
            assert("ver"@[0] != "did"@[0] && "ver"@[0] != "type"@[0]);
            assert(fs.skip(1) =~= seq![("ver"@, JsonVal::Str(t1.ver))]);
            assert(fs.skip(1).skip(1) =~= Seq::<(Seq<char>, JsonVal)>::empty());
            assert(str_field_spec(fs, "name"@) == Option::Some(t1.name));
            assert(str_field_spec(fs, "ver"@) == Option::Some(t1.ver));
            assert(str_field_spec(fs, "did"@) is None);
            assert(MessageTypeV2Val::from_val(t.to_val()) is None);
            assert(MessageTypeV1Val::from_val(t.to_val()) == Option::Some(t1));
        },
        MessageTypesVal::MessageTypeV2(t2) => {
            let fs = seq![
                ("did"@, JsonVal::Str(t2.did)),
                ("family"@, JsonVal::Str(t2.family.wire_name_spec())),
                ("version"@, JsonVal::Str(t2.version)),
                ("type"@, JsonVal::Str(t2.type_)),
            ];
            assert(fs.skip(1) =~= fs.subrange(1, 4));
            assert(fs.skip(1)[0] == fs[1] && fs.skip(1).len() == 3);
            assert(fs.skip(1).skip(1) =~= fs.subrange(2, 4));
            assert(fs.subrange(2, 4)[0] == fs[2] && fs.subrange(2, 4).len() == 2);
            assert(fs.subrange(2, 4).skip(1) =~= fs.subrange(3, 4));
            assert(fs.subrange(3, 4)[0] == fs[3] && fs.subrange(3, 4).len() == 1);
            assert(fs.subrange(3, 4).skip(1) =~= Seq::<(Seq<char>, JsonVal)>::empty());
            assert("did"@.len() == 3 && "family"@.len() == 6 && "version"@.len() == 7
                && "type"@.len() == 4);
            let fs1 = fs.skip(1);
            assert(fs1.len() == 3 && fs1[0] == fs[1] && fs1[1] == fs[2] && fs1[2] == fs[3]);
            assert(fs1[0].0 == "family"@);
            assert(JsonVal::fields_lookup(fs1, "family"@) == Option::Some(
                JsonVal::Str(t2.family.wire_name_spec()),
            ));
            assert(JsonVal::fields_lookup(fs, "family"@) == JsonVal::fields_lookup(
                fs1,
                "family"@,
            ));
            assert(str_field_spec(fs, "did"@) == Option::Some(t2.did));
            assert(str_field_spec(fs, "family"@) == Option::Some(t2.family.wire_name_spec()));
            let fs2 = fs1.skip(1);
            let fs3 = fs2.skip(1);
            assert(fs2.len() == 2 && fs2[0] == fs[2] && fs2[1] == fs[3]);
            assert(fs3.len() == 1 && fs3[0] == fs[3]);
            assert(JsonVal::fields_lookup(fs2, "version"@) == Option::Some(
                JsonVal::Str(t2.version),
            ));
            assert(JsonVal::fields_lookup(fs1, "version"@) == JsonVal::fields_lookup(
                fs2,
                "version"@,
            ));
            assert(JsonVal::fields_lookup(fs, "version"@) == JsonVal::fields_lookup(
                fs1,
                "version"@,
            ));
            assert(str_field_spec(fs, "version"@) == Option::Some(t2.version));
            assert(JsonVal::fields_lookup(fs3, "type"@) == Option::Some(JsonVal::Str(t2.type_)));
            assert(JsonVal::fields_lookup(fs2, "type"@) == JsonVal::fields_lookup(fs3, "type"@));
            assert(JsonVal::fields_lookup(fs1, "type"@) == JsonVal::fields_lookup(fs2, "type"@));
            assert(JsonVal::fields_lookup(fs, "type"@) == JsonVal::fields_lookup(fs1, "type"@));
            assert(str_field_spec(fs, "type"@) == Option::Some(t2.type_));
            assert("name"@.len() == 4 && "name"@[0] == 'n' && "type"@[0] == 't');
            assert(fs3.skip(1) =~= Seq::<(Seq<char>, JsonVal)>::empty());
            assert(JsonVal::fields_lookup(fs3.skip(1), "name"@) is None);
            assert(JsonVal::fields_lookup(fs3, "name"@) is None);
            assert(JsonVal::fields_lookup(fs2, "name"@) is None);
            assert(JsonVal::fields_lookup(fs1, "name"@) is None);
            assert(JsonVal::fields_lookup(fs, "name"@) is None);
            assert(str_field_spec(fs, "name"@) is None);
            assert(MessageTypeV1Val::from_val(t.to_val()) is None);
            assert(MessageTypeV2Val::from_val(t.to_val()) == Option::Some(t2));
        },
    }
}

impl MessageTypeV1 {
    /// Writes the `@type` as its wire object.
    pub fn to_json(&self) -> (r: Json)
        ensures
            r@ == self@.to_val(),
    {
        let mut fields: Vec<(String, Json)> = Vec::new();
        fields.push(("name".to_owned(), Json::Str(self.name.clone())));
        fields.push(("ver".to_owned(), Json::Str(self.ver.clone())));
        proof {
            lemma_json_fields_view(fields@);
            assert(json_fields_view(fields@) =~= self@.to_val()->Obj_0);
        }
        Json::Obj(fields)
    }

    /// Reads a `@type` of the older shape from a wire value.
    pub fn from_json(j: &Json) -> (r: Option<MessageTypeV1>)
        ensures
            match r {
                Option::Some(t) => MessageTypeV1Val::from_val(j@) == Option::Some(t@),
                Option::None => MessageTypeV1Val::from_val(j@) is None,
            },
    {
        match j {
            Json::Obj(fields) => {
                let name = get_str(fields, "name");
                let ver = get_str(fields, "ver");
                match (name, ver) {
                    (Option::Some(name), Option::Some(ver)) => Option::Some(
                        MessageTypeV1 { name, ver },
                    ),
                    _ => Option::None,
                }
            },
            _ => Option::None,
        }
    }
}

impl MessageTypeV2 {
    /// Writes the `@type` as its wire object.
    pub fn to_json(&self) -> (r: Json)
        ensures
            r@ == self@.to_val(),
    {
        let mut fields: Vec<(String, Json)> = Vec::new();
        fields.push(("did".to_owned(), Json::Str(self.did.clone())));
        fields.push(("family".to_owned(), Json::Str(self.family.wire_name())));
        fields.push(("version".to_owned(), Json::Str(self.version.clone())));
        fields.push(("type".to_owned(), Json::Str(self.type_.clone())));
        proof {
            lemma_json_fields_view(fields@);
            assert(json_fields_view(fields@) =~= self@.to_val()->Obj_0);
        }
        Json::Obj(fields)
    }

    /// Reads a `@type` of the newer shape from a wire value.
    pub fn from_json(j: &Json) -> (r: Option<MessageTypeV2>)
        ensures
            match r {
                Option::Some(t) => MessageTypeV2Val::from_val(j@) == Option::Some(t@),
                Option::None => MessageTypeV2Val::from_val(j@) is None,
            },
    {
        match j {
            Json::Obj(fields) => {
                let did = get_str(fields, "did");
                let family = get_str(fields, "family");
                let version = get_str(fields, "version");
                let type_ = get_str(fields, "type");
                match (did, family, version, type_) {
                    (
                        Option::Some(did),
                        Option::Some(family),
                        Option::Some(version),
                        Option::Some(type_),
                    ) => Option::Some(
                        MessageTypeV2 {
                            did,
                            family: MessageFamilies::from_wire_name(family.as_str()),
                            version,
                            type_,
                        },
                    ),
                    _ => Option::None,
                }
            },
            _ => Option::None,
        }
    }
}

impl MessageTypes {
    /// Writes the `@type` as its wire object.
    pub fn to_json(&self) -> (r: Json)
        ensures
            r@ == self@.to_val(),
    {
        match self {
            MessageTypes::MessageTypeV2(t) => t.to_json(),
            MessageTypes::MessageTypeV1(t) => t.to_json(),
        }
    }

    /// Reads a `@type` of either shape, trying the newer shape first.
    pub fn from_json(j: &Json) -> (r: Option<MessageTypes>)
        ensures
            match r {
                Option::Some(t) => MessageTypesVal::from_val(j@) == Option::Some(t@),
                Option::None => MessageTypesVal::from_val(j@) is None,
            },
    {
        match MessageTypeV2::from_json(j) {
            Option::Some(t) => Option::Some(MessageTypes::MessageTypeV2(t)),
            Option::None => match MessageTypeV1::from_json(j) {
                Option::Some(t) => Option::Some(MessageTypes::MessageTypeV1(t)),
                Option::None => Option::None,
            },
        }
    }
}

/// Every family the registry assigns to a kind reads back to itself from
/// its wire name, so a freshly built `@type` always survives a round trip.
pub proof fn lemma_built_family_wf(kind: A2AMessageKinds)
    ensures
        family_wf(kind.family_spec()),
{
    reveal_strlit("routing");
    reveal_strlit("onboarding");
    reveal_strlit("pairwise");
    reveal_strlit("credential_exchange");
    reveal_strlit("configs");
    assert("routing"@.len() == 7 && "onboarding"@.len() == 10 && "pairwise"@.len() == 8
        && "credential_exchange"@.len() == 19 && "configs"@.len() == 7);
    assert("routing"@[0] == 'r' && "configs"@[0] == 'c');
}

} // verus!
