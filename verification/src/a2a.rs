//! The tagged-union message type, one sum per protocol version.
//!
//! A message is written as whichever variant it wraps, with no wrapper
//! object: the wire object is the domain message itself, including its
//! embedded `@type`.  Reading dispatches on that discriminator: the older
//! protocol's reader keys on `name`, the newer one's on `type`, and a
//! message of unknown shape is rejected rather than skipped.

use vstd::prelude::*;
use crate::json::{Json, JsonVal, json_clone, lemma_lookup_at, obj_get, str_eq};
use crate::message_type::{
    MessageTypeV1, MessageTypeV1Val, MessageTypeV2, MessageTypeV2Val, MessageTypes,
    MessageTypesVal, family_wf, lemma_message_type_round_trip,
};
use crate::messages::{
    CreateMessage, CreateMessageVal, Forward, ForwardVal, GeneralMessageDetailVal, GenericMsg,
    GenericMsgVal, MessageCreated, MessageCreatedVal, MessageDetail, MessageDetailVal,
    MessageSent, MessageSentVal, SendRemoteMessage, SendRemoteMessageResponse,
    SendRemoteMessageResponseVal, SendRemoteMessageVal, lemma_create_message_round_trip,
    lemma_forward_round_trip, lemma_general_detail_round_trip, lemma_generic_round_trip,
    lemma_message_created_round_trip, lemma_message_detail_round_trip,
    lemma_message_sent_round_trip, lemma_send_remote_response_round_trip,
    lemma_send_remote_round_trip, mts_wf, remote_wf,
};

verus! {

/// The model of [`A2AMessageV1`].
pub enum A2AMessageV1Val {
    Forward(ForwardVal),
    Connect(GenericMsgVal),
    ConnectResponse(GenericMsgVal),
    SignUp(GenericMsgVal),
    SignUpResponse(GenericMsgVal),
    CreateAgent(GenericMsgVal),
    CreateAgentResponse(GenericMsgVal),
    UpdateConnectionMethod(GenericMsgVal),
    CreateKey(GenericMsgVal),
    CreateKeyResponse(GenericMsgVal),
    GetMessages(GenericMsgVal),
    GetMessagesResponse(GenericMsgVal),
    GetMessagesByConnections(GenericMsgVal),
    GetMessagesByConnectionsResponse(GenericMsgVal),
    CreateMessage(CreateMessageVal),
    MessageDetail(MessageDetailVal),
    MessageCreated(MessageCreatedVal),
    MessageSent(MessageSentVal),
    UpdateConnection(GenericMsgVal),
    UpdateConnectionResponse(GenericMsgVal),
    UpdateMessageStatusByConnections(GenericMsgVal),
    UpdateMessageStatusByConnectionsResponse(GenericMsgVal),
    UpdateConfigs(GenericMsgVal),
    UpdateConfigsResponse(GenericMsgVal),
}

/// A message of the older protocol.
#[derive(Debug, PartialEq)]
pub enum A2AMessageV1 {
    Forward(Forward),
    Connect(GenericMsg),
    ConnectResponse(GenericMsg),
    SignUp(GenericMsg),
    SignUpResponse(GenericMsg),
    CreateAgent(GenericMsg),
    CreateAgentResponse(GenericMsg),
    UpdateConnectionMethod(GenericMsg),
    CreateKey(GenericMsg),
    CreateKeyResponse(GenericMsg),
    GetMessages(GenericMsg),
    GetMessagesResponse(GenericMsg),
    GetMessagesByConnections(GenericMsg),
    GetMessagesByConnectionsResponse(GenericMsg),
    CreateMessage(CreateMessage),
    MessageDetail(MessageDetail),
    MessageCreated(MessageCreated),
    MessageSent(MessageSent),
    UpdateConnection(GenericMsg),
    UpdateConnectionResponse(GenericMsg),
    UpdateMessageStatusByConnections(GenericMsg),
    UpdateMessageStatusByConnectionsResponse(GenericMsg),
    UpdateConfigs(GenericMsg),
    UpdateConfigsResponse(GenericMsg),
}

impl View for A2AMessageV1 {
    type V = A2AMessageV1Val;

    open spec fn view(&self) -> A2AMessageV1Val {
        match self {
            A2AMessageV1::Forward(m) => A2AMessageV1Val::Forward(m@),
            A2AMessageV1::Connect(m) => A2AMessageV1Val::Connect(m@),
            A2AMessageV1::ConnectResponse(m) => A2AMessageV1Val::ConnectResponse(m@),
            A2AMessageV1::SignUp(m) => A2AMessageV1Val::SignUp(m@),
            A2AMessageV1::SignUpResponse(m) => A2AMessageV1Val::SignUpResponse(m@),
            A2AMessageV1::CreateAgent(m) => A2AMessageV1Val::CreateAgent(m@),
            A2AMessageV1::CreateAgentResponse(m) => A2AMessageV1Val::CreateAgentResponse(m@),
            A2AMessageV1::UpdateConnectionMethod(m) => A2AMessageV1Val::UpdateConnectionMethod(m@),
            A2AMessageV1::CreateKey(m) => A2AMessageV1Val::CreateKey(m@),
            A2AMessageV1::CreateKeyResponse(m) => A2AMessageV1Val::CreateKeyResponse(m@),
            A2AMessageV1::GetMessages(m) => A2AMessageV1Val::GetMessages(m@),
            A2AMessageV1::GetMessagesResponse(m) => A2AMessageV1Val::GetMessagesResponse(m@),
            A2AMessageV1::GetMessagesByConnections(m) => A2AMessageV1Val::GetMessagesByConnections(m@),
            A2AMessageV1::GetMessagesByConnectionsResponse(m) => A2AMessageV1Val::GetMessagesByConnectionsResponse(m@),
            A2AMessageV1::CreateMessage(m) => A2AMessageV1Val::CreateMessage(m@),
            A2AMessageV1::MessageDetail(m) => A2AMessageV1Val::MessageDetail(m@),
            A2AMessageV1::MessageCreated(m) => A2AMessageV1Val::MessageCreated(m@),
            A2AMessageV1::MessageSent(m) => A2AMessageV1Val::MessageSent(m@),
            A2AMessageV1::UpdateConnection(m) => A2AMessageV1Val::UpdateConnection(m@),
            A2AMessageV1::UpdateConnectionResponse(m) => A2AMessageV1Val::UpdateConnectionResponse(m@),
            A2AMessageV1::UpdateMessageStatusByConnections(m) => A2AMessageV1Val::UpdateMessageStatusByConnections(m@),
            A2AMessageV1::UpdateMessageStatusByConnectionsResponse(m) => A2AMessageV1Val::UpdateMessageStatusByConnectionsResponse(m@),
            A2AMessageV1::UpdateConfigs(m) => A2AMessageV1Val::UpdateConfigs(m@),
            A2AMessageV1::UpdateConfigsResponse(m) => A2AMessageV1Val::UpdateConfigsResponse(m@),
        }
    }
}

/// The model of [`A2AMessageV2`].
pub enum A2AMessageV2Val {
    Forward(ForwardVal),
    Connect(GenericMsgVal),
    ConnectResponse(GenericMsgVal),
    SignUp(GenericMsgVal),
    SignUpResponse(GenericMsgVal),
    CreateAgent(GenericMsgVal),
    CreateAgentResponse(GenericMsgVal),
    UpdateConnectionMethod(GenericMsgVal),
    CreateKey(GenericMsgVal),
    CreateKeyResponse(GenericMsgVal),
    GetMessages(GenericMsgVal),
    GetMessagesResponse(GenericMsgVal),
    GetMessagesByConnections(GenericMsgVal),
    GetMessagesByConnectionsResponse(GenericMsgVal),
    ConnectionRequest(GenericMsgVal),
    ConnectionRequestResponse(GenericMsgVal),
    ConnectionRequestAnswer(GenericMsgVal),
    ConnectionRequestAnswerResponse(GenericMsgVal),
    SendRemoteMessage(SendRemoteMessageVal),
    SendRemoteMessageResponse(SendRemoteMessageResponseVal),
    UpdateConnection(GenericMsgVal),
    UpdateConnectionResponse(GenericMsgVal),
    UpdateMessageStatusByConnections(GenericMsgVal),
    UpdateMessageStatusByConnectionsResponse(GenericMsgVal),
    UpdateConfigs(GenericMsgVal),
    UpdateConfigsResponse(GenericMsgVal),
}

/// A message of the newer protocol.
#[derive(Debug, PartialEq)]
pub enum A2AMessageV2 {
    Forward(Forward),
    Connect(GenericMsg),
    ConnectResponse(GenericMsg),
    SignUp(GenericMsg),
    SignUpResponse(GenericMsg),
    CreateAgent(GenericMsg),
    CreateAgentResponse(GenericMsg),
    UpdateConnectionMethod(GenericMsg),
    CreateKey(GenericMsg),
    CreateKeyResponse(GenericMsg),
    GetMessages(GenericMsg),
    GetMessagesResponse(GenericMsg),
    GetMessagesByConnections(GenericMsg),
    GetMessagesByConnectionsResponse(GenericMsg),
    ConnectionRequest(GenericMsg),
    ConnectionRequestResponse(GenericMsg),
    ConnectionRequestAnswer(GenericMsg),
    ConnectionRequestAnswerResponse(GenericMsg),
    SendRemoteMessage(SendRemoteMessage),
    SendRemoteMessageResponse(SendRemoteMessageResponse),
    UpdateConnection(GenericMsg),
    UpdateConnectionResponse(GenericMsg),
    UpdateMessageStatusByConnections(GenericMsg),
    UpdateMessageStatusByConnectionsResponse(GenericMsg),
    UpdateConfigs(GenericMsg),
    UpdateConfigsResponse(GenericMsg),
}

impl View for A2AMessageV2 {
    type V = A2AMessageV2Val;

    open spec fn view(&self) -> A2AMessageV2Val {
        match self {
            A2AMessageV2::Forward(m) => A2AMessageV2Val::Forward(m@),
            A2AMessageV2::Connect(m) => A2AMessageV2Val::Connect(m@),
            A2AMessageV2::ConnectResponse(m) => A2AMessageV2Val::ConnectResponse(m@),
            A2AMessageV2::SignUp(m) => A2AMessageV2Val::SignUp(m@),
            A2AMessageV2::SignUpResponse(m) => A2AMessageV2Val::SignUpResponse(m@),
            A2AMessageV2::CreateAgent(m) => A2AMessageV2Val::CreateAgent(m@),
            A2AMessageV2::CreateAgentResponse(m) => A2AMessageV2Val::CreateAgentResponse(m@),
            A2AMessageV2::UpdateConnectionMethod(m) => A2AMessageV2Val::UpdateConnectionMethod(m@),
            A2AMessageV2::CreateKey(m) => A2AMessageV2Val::CreateKey(m@),
            A2AMessageV2::CreateKeyResponse(m) => A2AMessageV2Val::CreateKeyResponse(m@),
            A2AMessageV2::GetMessages(m) => A2AMessageV2Val::GetMessages(m@),
            A2AMessageV2::GetMessagesResponse(m) => A2AMessageV2Val::GetMessagesResponse(m@),
            A2AMessageV2::GetMessagesByConnections(m) => A2AMessageV2Val::GetMessagesByConnections(m@),
            A2AMessageV2::GetMessagesByConnectionsResponse(m) => A2AMessageV2Val::GetMessagesByConnectionsResponse(m@),
            A2AMessageV2::ConnectionRequest(m) => A2AMessageV2Val::ConnectionRequest(m@),
            A2AMessageV2::ConnectionRequestResponse(m) => A2AMessageV2Val::ConnectionRequestResponse(m@),
            A2AMessageV2::ConnectionRequestAnswer(m) => A2AMessageV2Val::ConnectionRequestAnswer(m@),
            A2AMessageV2::ConnectionRequestAnswerResponse(m) => A2AMessageV2Val::ConnectionRequestAnswerResponse(m@),
            A2AMessageV2::SendRemoteMessage(m) => A2AMessageV2Val::SendRemoteMessage(m@),
            A2AMessageV2::SendRemoteMessageResponse(m) => A2AMessageV2Val::SendRemoteMessageResponse(m@),
            A2AMessageV2::UpdateConnection(m) => A2AMessageV2Val::UpdateConnection(m@),
            A2AMessageV2::UpdateConnectionResponse(m) => A2AMessageV2Val::UpdateConnectionResponse(m@),
            A2AMessageV2::UpdateMessageStatusByConnections(m) => A2AMessageV2Val::UpdateMessageStatusByConnections(m@),
            A2AMessageV2::UpdateMessageStatusByConnectionsResponse(m) => A2AMessageV2Val::UpdateMessageStatusByConnectionsResponse(m@),
            A2AMessageV2::UpdateConfigs(m) => A2AMessageV2Val::UpdateConfigs(m@),
            A2AMessageV2::UpdateConfigsResponse(m) => A2AMessageV2Val::UpdateConfigsResponse(m@),
        }
    }
}

/// A carried-through detail block whose discriminator names the detail
/// kind of the older protocol.
pub open spec fn detail_type_wf(m: MessageDetailVal) -> bool {
    match m {
        MessageDetailVal::General(g) => g.msg_type.name == "MSG_DETAIL"@,
        MessageDetailVal::Other(j) => match j {
            JsonVal::Obj(fs) => match JsonVal::fields_lookup(fs, "@type"@) {
                Option::Some(tv) => MessageTypeV2Val::from_val(tv) is None && match MessageTypeV1Val::from_val(
                    tv,
                ) {
                    Option::Some(mt) => mt.name == "MSG_DETAIL"@,
                    Option::None => false,
                },
                Option::None => false,
            },
            _ => false,
        },
    }
}

impl A2AMessageV1Val {
    /// The wire object: the wrapped variant itself.
    pub open spec fn to_val(self) -> JsonVal {
        match self {
            A2AMessageV1Val::Forward(m) => m.to_val(),
            A2AMessageV1Val::Connect(m) => m.to_val(),
            A2AMessageV1Val::ConnectResponse(m) => m.to_val(),
            A2AMessageV1Val::SignUp(m) => m.to_val(),
            A2AMessageV1Val::SignUpResponse(m) => m.to_val(),
            A2AMessageV1Val::CreateAgent(m) => m.to_val(),
            A2AMessageV1Val::CreateAgentResponse(m) => m.to_val(),
            A2AMessageV1Val::UpdateConnectionMethod(m) => m.to_val(),
            A2AMessageV1Val::CreateKey(m) => m.to_val(),
            A2AMessageV1Val::CreateKeyResponse(m) => m.to_val(),
            A2AMessageV1Val::GetMessages(m) => m.to_val(),
            A2AMessageV1Val::GetMessagesResponse(m) => m.to_val(),
            A2AMessageV1Val::GetMessagesByConnections(m) => m.to_val(),
            A2AMessageV1Val::GetMessagesByConnectionsResponse(m) => m.to_val(),
            A2AMessageV1Val::CreateMessage(m) => m.to_val(),
            A2AMessageV1Val::MessageDetail(m) => m.to_val(),
            A2AMessageV1Val::MessageCreated(m) => m.to_val(),
            A2AMessageV1Val::MessageSent(m) => m.to_val(),
            A2AMessageV1Val::UpdateConnection(m) => m.to_val(),
            A2AMessageV1Val::UpdateConnectionResponse(m) => m.to_val(),
            A2AMessageV1Val::UpdateMessageStatusByConnections(m) => m.to_val(),
            A2AMessageV1Val::UpdateMessageStatusByConnectionsResponse(m) => m.to_val(),
            A2AMessageV1Val::UpdateConfigs(m) => m.to_val(),
            A2AMessageV1Val::UpdateConfigsResponse(m) => m.to_val(),
        }
    }

    /// The older protocol's dispatch: keyed on the `name` of the `@type`.
    pub open spec fn dispatch(j: JsonVal, name: Seq<char>) -> Option<A2AMessageV1Val> {
        if name == "FWD"@ {
            match ForwardVal::from_val(j) {
            Option::Some(m) => Option::Some(A2AMessageV1Val::Forward(m)),
            Option::None => Option::None,
        }
        } else if name == "CONNECT"@ {
            match GenericMsgVal::from_val(j) {
            Option::Some(m) => Option::Some(A2AMessageV1Val::Connect(m)),
            Option::None => Option::None,
        }
        } else if name == "CONNECTED"@ {
            match GenericMsgVal::from_val(j) {
            Option::Some(m) => Option::Some(A2AMessageV1Val::ConnectResponse(m)),
            Option::None => Option::None,
        }
        } else if name == "SIGNUP"@ {
            match GenericMsgVal::from_val(j) {
            Option::Some(m) => Option::Some(A2AMessageV1Val::SignUp(m)),
            Option::None => Option::None,
        }
        } else if name == "SIGNED_UP"@ {
            match GenericMsgVal::from_val(j) {
            Option::Some(m) => Option::Some(A2AMessageV1Val::SignUpResponse(m)),
            Option::None => Option::None,
        }
        } else if name == "CREATE_AGENT"@ {
            match GenericMsgVal::from_val(j) {
            Option::Some(m) => Option::Some(A2AMessageV1Val::CreateAgent(m)),
            Option::None => Option::None,
        }
        } else if name == "AGENT_CREATED"@ {
            match GenericMsgVal::from_val(j) {
            Option::Some(m) => Option::Some(A2AMessageV1Val::CreateAgentResponse(m)),
            Option::None => Option::None,
        }
        } else if name == "UPDATE_COM_METHOD"@ {
            match GenericMsgVal::from_val(j) {
            Option::Some(m) => Option::Some(A2AMessageV1Val::UpdateConnectionMethod(m)),
            Option::None => Option::None,
        }
        } else if name == "CREATE_KEY"@ {
            match GenericMsgVal::from_val(j) {
            Option::Some(m) => Option::Some(A2AMessageV1Val::CreateKey(m)),
            Option::None => Option::None,
        }
        } else if name == "KEY_CREATED"@ {
            match GenericMsgVal::from_val(j) {
            Option::Some(m) => Option::Some(A2AMessageV1Val::CreateKeyResponse(m)),
            Option::None => Option::None,
        }
        } else if name == "GET_MSGS"@ {
            match GenericMsgVal::from_val(j) {
            Option::Some(m) => Option::Some(A2AMessageV1Val::GetMessages(m)),
            Option::None => Option::None,
        }
        } else if name == "MSGS"@ {
            match GenericMsgVal::from_val(j) {
            Option::Some(m) => Option::Some(A2AMessageV1Val::GetMessagesResponse(m)),
            Option::None => Option::None,
        }
        } else if name == "GET_MSGS_BY_CONNS"@ {
            match GenericMsgVal::from_val(j) {
            Option::Some(m) => Option::Some(A2AMessageV1Val::GetMessagesByConnections(m)),
            Option::None => Option::None,
        }
        } else if name == "MSGS_BY_CONNS"@ {
            match GenericMsgVal::from_val(j) {
            Option::Some(m) => Option::Some(A2AMessageV1Val::GetMessagesByConnectionsResponse(m)),
            Option::None => Option::None,
        }
        } else if name == "CREATE_MSG"@ {
            match CreateMessageVal::from_val(j) {
            Option::Some(m) => Option::Some(A2AMessageV1Val::CreateMessage(m)),
            Option::None => Option::None,
        }
        } else if name == "MSG_DETAIL"@ {
            Option::Some(A2AMessageV1Val::MessageDetail(MessageDetailVal::from_val(j)))
        } else if name == "MSG_CREATED"@ {
            match MessageCreatedVal::from_val(j) {
            Option::Some(m) => Option::Some(A2AMessageV1Val::MessageCreated(m)),
            Option::None => Option::None,
        }
        } else if name == "MSG_SENT"@ || name == "MSGS_SENT"@ {
            match MessageSentVal::from_val(j) {
            Option::Some(m) => Option::Some(A2AMessageV1Val::MessageSent(m)),
            Option::None => Option::None,
        }
        } else if name == "UPDATE_CONN_STATUS"@ {
            match GenericMsgVal::from_val(j) {
            Option::Some(m) => Option::Some(A2AMessageV1Val::UpdateConnection(m)),
            Option::None => Option::None,
        }
        } else if name == "CONN_STATUS_UPDATED"@ {
            match GenericMsgVal::from_val(j) {
            Option::Some(m) => Option::Some(A2AMessageV1Val::UpdateConnectionResponse(m)),
            Option::None => Option::None,
        }
        } else if name == "UPDATE_MSG_STATUS_BY_CONNS"@ {
            match GenericMsgVal::from_val(j) {
            Option::Some(m) => Option::Some(A2AMessageV1Val::UpdateMessageStatusByConnections(m)),
            Option::None => Option::None,
        }
        } else if name == "MSG_STATUS_UPDATED_BY_CONNS"@ {
            match GenericMsgVal::from_val(j) {
            Option::Some(m) => Option::Some(A2AMessageV1Val::UpdateMessageStatusByConnectionsResponse(m)),
            Option::None => Option::None,
        }
        } else if name == "UPDATE_CONFIGS"@ {
            match GenericMsgVal::from_val(j) {
            Option::Some(m) => Option::Some(A2AMessageV1Val::UpdateConfigs(m)),
            Option::None => Option::None,
        }
        } else if name == "CONFIGS_UPDATED"@ {
            match GenericMsgVal::from_val(j) {
            Option::Some(m) => Option::Some(A2AMessageV1Val::UpdateConfigsResponse(m)),
            Option::None => Option::None,
        }
        } else {
            Option::None
        }
    }

    /// Reads a message of the older protocol from a wire object.
    pub open spec fn from_val(j: JsonVal) -> Option<A2AMessageV1Val> {
        match j {
            JsonVal::Obj(fs) => match JsonVal::fields_lookup(fs, "@type"@) {
                Option::Some(tv) => match MessageTypeV1Val::from_val(tv) {
                    Option::Some(mt) => Self::dispatch(j, mt.name),
                    Option::None => Option::None,
                },
                Option::None => Option::None,
            },
            _ => Option::None,
        }
    }

    /// Whether the embedded `@type` is of the older shape and names the
    /// wrapped variant's entry in the dispatch table.
    pub open spec fn wf(self) -> bool {
        match self {
            A2AMessageV1Val::Forward(m) => m.msg_type is MessageTypeV1 && m.msg_type->MessageTypeV1_0.name == "FWD"@,
            A2AMessageV1Val::Connect(m) => m.wf() && m.msg_type is MessageTypeV1 && m.msg_type->MessageTypeV1_0.name == "CONNECT"@,
            A2AMessageV1Val::ConnectResponse(m) => m.wf() && m.msg_type is MessageTypeV1 && m.msg_type->MessageTypeV1_0.name == "CONNECTED"@,
            A2AMessageV1Val::SignUp(m) => m.wf() && m.msg_type is MessageTypeV1 && m.msg_type->MessageTypeV1_0.name == "SIGNUP"@,
            A2AMessageV1Val::SignUpResponse(m) => m.wf() && m.msg_type is MessageTypeV1 && m.msg_type->MessageTypeV1_0.name == "SIGNED_UP"@,
            A2AMessageV1Val::CreateAgent(m) => m.wf() && m.msg_type is MessageTypeV1 && m.msg_type->MessageTypeV1_0.name == "CREATE_AGENT"@,
            A2AMessageV1Val::CreateAgentResponse(m) => m.wf() && m.msg_type is MessageTypeV1 && m.msg_type->MessageTypeV1_0.name == "AGENT_CREATED"@,
            A2AMessageV1Val::UpdateConnectionMethod(m) => m.wf() && m.msg_type is MessageTypeV1 && m.msg_type->MessageTypeV1_0.name == "UPDATE_COM_METHOD"@,
            A2AMessageV1Val::CreateKey(m) => m.wf() && m.msg_type is MessageTypeV1 && m.msg_type->MessageTypeV1_0.name == "CREATE_KEY"@,
            A2AMessageV1Val::CreateKeyResponse(m) => m.wf() && m.msg_type is MessageTypeV1 && m.msg_type->MessageTypeV1_0.name == "KEY_CREATED"@,
            A2AMessageV1Val::GetMessages(m) => m.wf() && m.msg_type is MessageTypeV1 && m.msg_type->MessageTypeV1_0.name == "GET_MSGS"@,
            A2AMessageV1Val::GetMessagesResponse(m) => m.wf() && m.msg_type is MessageTypeV1 && m.msg_type->MessageTypeV1_0.name == "MSGS"@,
            A2AMessageV1Val::GetMessagesByConnections(m) => m.wf() && m.msg_type is MessageTypeV1 && m.msg_type->MessageTypeV1_0.name == "GET_MSGS_BY_CONNS"@,
            A2AMessageV1Val::GetMessagesByConnectionsResponse(m) => m.wf() && m.msg_type is MessageTypeV1 && m.msg_type->MessageTypeV1_0.name == "MSGS_BY_CONNS"@,
            A2AMessageV1Val::CreateMessage(m) => m.msg_type.name == "CREATE_MSG"@ && remote_wf(m.mtype),
            A2AMessageV1Val::MessageDetail(m) => m.wf() && detail_type_wf(m),
            A2AMessageV1Val::MessageCreated(m) => m.msg_type.name == "MSG_CREATED"@,
            A2AMessageV1Val::MessageSent(m) => m.msg_type.name == "MSG_SENT"@ || m.msg_type.name == "MSGS_SENT"@,
            A2AMessageV1Val::UpdateConnection(m) => m.wf() && m.msg_type is MessageTypeV1 && m.msg_type->MessageTypeV1_0.name == "UPDATE_CONN_STATUS"@,
            A2AMessageV1Val::UpdateConnectionResponse(m) => m.wf() && m.msg_type is MessageTypeV1 && m.msg_type->MessageTypeV1_0.name == "CONN_STATUS_UPDATED"@,
            A2AMessageV1Val::UpdateMessageStatusByConnections(m) => m.wf() && m.msg_type is MessageTypeV1 && m.msg_type->MessageTypeV1_0.name == "UPDATE_MSG_STATUS_BY_CONNS"@,
            A2AMessageV1Val::UpdateMessageStatusByConnectionsResponse(m) => m.wf() && m.msg_type is MessageTypeV1 && m.msg_type->MessageTypeV1_0.name == "MSG_STATUS_UPDATED_BY_CONNS"@,
            A2AMessageV1Val::UpdateConfigs(m) => m.wf() && m.msg_type is MessageTypeV1 && m.msg_type->MessageTypeV1_0.name == "UPDATE_CONFIGS"@,
            A2AMessageV1Val::UpdateConfigsResponse(m) => m.wf() && m.msg_type is MessageTypeV1 && m.msg_type->MessageTypeV1_0.name == "CONFIGS_UPDATED"@,
        }
    }
}

impl A2AMessageV2Val {
    /// The wire object: the wrapped variant itself.
    pub open spec fn to_val(self) -> JsonVal {
        match self {
            A2AMessageV2Val::Forward(m) => m.to_val(),
            A2AMessageV2Val::Connect(m) => m.to_val(),
            A2AMessageV2Val::ConnectResponse(m) => m.to_val(),
            A2AMessageV2Val::SignUp(m) => m.to_val(),
            A2AMessageV2Val::SignUpResponse(m) => m.to_val(),
            A2AMessageV2Val::CreateAgent(m) => m.to_val(),
            A2AMessageV2Val::CreateAgentResponse(m) => m.to_val(),
            A2AMessageV2Val::UpdateConnectionMethod(m) => m.to_val(),
            A2AMessageV2Val::CreateKey(m) => m.to_val(),
            A2AMessageV2Val::CreateKeyResponse(m) => m.to_val(),
            A2AMessageV2Val::GetMessages(m) => m.to_val(),
            A2AMessageV2Val::GetMessagesResponse(m) => m.to_val(),
            A2AMessageV2Val::GetMessagesByConnections(m) => m.to_val(),
            A2AMessageV2Val::GetMessagesByConnectionsResponse(m) => m.to_val(),
            A2AMessageV2Val::ConnectionRequest(m) => m.to_val(),
            A2AMessageV2Val::ConnectionRequestResponse(m) => m.to_val(),
            A2AMessageV2Val::ConnectionRequestAnswer(m) => m.to_val(),
            A2AMessageV2Val::ConnectionRequestAnswerResponse(m) => m.to_val(),
            A2AMessageV2Val::SendRemoteMessage(m) => m.to_val(),
            A2AMessageV2Val::SendRemoteMessageResponse(m) => m.to_val(),
            A2AMessageV2Val::UpdateConnection(m) => m.to_val(),
            A2AMessageV2Val::UpdateConnectionResponse(m) => m.to_val(),
            A2AMessageV2Val::UpdateMessageStatusByConnections(m) => m.to_val(),
            A2AMessageV2Val::UpdateMessageStatusByConnectionsResponse(m) => m.to_val(),
            A2AMessageV2Val::UpdateConfigs(m) => m.to_val(),
            A2AMessageV2Val::UpdateConfigsResponse(m) => m.to_val(),
        }
    }

    /// The newer protocol's dispatch: keyed on the `type` of the `@type`.
    pub open spec fn dispatch(j: JsonVal, name: Seq<char>) -> Option<A2AMessageV2Val> {
        if name == "FWD"@ {
            match ForwardVal::from_val(j) {
            Option::Some(m) => Option::Some(A2AMessageV2Val::Forward(m)),
            Option::None => Option::None,
        }
        } else if name == "CONNECT"@ {
            match GenericMsgVal::from_val(j) {
            Option::Some(m) => Option::Some(A2AMessageV2Val::Connect(m)),
            Option::None => Option::None,
        }
        } else if name == "CONNECTED"@ {
            match GenericMsgVal::from_val(j) {
            Option::Some(m) => Option::Some(A2AMessageV2Val::ConnectResponse(m)),
            Option::None => Option::None,
        }
        } else if name == "SIGNUP"@ {
            match GenericMsgVal::from_val(j) {
            Option::Some(m) => Option::Some(A2AMessageV2Val::SignUp(m)),
            Option::None => Option::None,
        }
        } else if name == "SIGNED_UP"@ {
            match GenericMsgVal::from_val(j) {
            Option::Some(m) => Option::Some(A2AMessageV2Val::SignUpResponse(m)),
            Option::None => Option::None,
        }
        } else if name == "CREATE_AGENT"@ {
            match GenericMsgVal::from_val(j) {
            Option::Some(m) => Option::Some(A2AMessageV2Val::CreateAgent(m)),
            Option::None => Option::None,
        }
        } else if name == "AGENT_CREATED"@ {
            match GenericMsgVal::from_val(j) {
            Option::Some(m) => Option::Some(A2AMessageV2Val::CreateAgentResponse(m)),
            Option::None => Option::None,
        }
        } else if name == "UPDATE_COM_METHOD"@ {
            match GenericMsgVal::from_val(j) {
            Option::Some(m) => Option::Some(A2AMessageV2Val::UpdateConnectionMethod(m)),
            Option::None => Option::None,
        }
        } else if name == "CREATE_KEY"@ {
            match GenericMsgVal::from_val(j) {
            Option::Some(m) => Option::Some(A2AMessageV2Val::CreateKey(m)),
            Option::None => Option::None,
        }
        } else if name == "KEY_CREATED"@ {
            match GenericMsgVal::from_val(j) {
            Option::Some(m) => Option::Some(A2AMessageV2Val::CreateKeyResponse(m)),
            Option::None => Option::None,
        }
        } else if name == "GET_MSGS"@ {
            match GenericMsgVal::from_val(j) {
            Option::Some(m) => Option::Some(A2AMessageV2Val::GetMessages(m)),
            Option::None => Option::None,
        }
        } else if name == "MSGS"@ {
            match GenericMsgVal::from_val(j) {
            Option::Some(m) => Option::Some(A2AMessageV2Val::GetMessagesResponse(m)),
            Option::None => Option::None,
        }
        } else if name == "GET_MSGS_BY_CONNS"@ {
            match GenericMsgVal::from_val(j) {
            Option::Some(m) => Option::Some(A2AMessageV2Val::GetMessagesByConnections(m)),
            Option::None => Option::None,
        }
        } else if name == "MSGS_BY_CONNS"@ {
            match GenericMsgVal::from_val(j) {
            Option::Some(m) => Option::Some(A2AMessageV2Val::GetMessagesByConnectionsResponse(m)),
            Option::None => Option::None,
        }
        } else if name == "CONN_REQUEST"@ {
            match GenericMsgVal::from_val(j) {
            Option::Some(m) => Option::Some(A2AMessageV2Val::ConnectionRequest(m)),
            Option::None => Option::None,
        }
        } else if name == "CONN_REQUEST_RESP"@ {
            match GenericMsgVal::from_val(j) {
            Option::Some(m) => Option::Some(A2AMessageV2Val::ConnectionRequestResponse(m)),
            Option::None => Option::None,
        }
        } else if name == "CONN_REQUEST_ANSWER"@ {
            match GenericMsgVal::from_val(j) {
            Option::Some(m) => Option::Some(A2AMessageV2Val::ConnectionRequestAnswer(m)),
            Option::None => Option::None,
        }
        } else if name == "CONN_REQUEST_ANSWER_RESP"@ {
            match GenericMsgVal::from_val(j) {
            Option::Some(m) => Option::Some(A2AMessageV2Val::ConnectionRequestAnswerResponse(m)),
            Option::None => Option::None,
        }
        } else if name == "SEND_REMOTE_MSG"@ {
            match SendRemoteMessageVal::from_val(j) {
            Option::Some(m) => Option::Some(A2AMessageV2Val::SendRemoteMessage(m)),
            Option::None => Option::None,
        }
        } else if name == "REMOTE_MSG_SENT"@ {
            match SendRemoteMessageResponseVal::from_val(j) {
            Option::Some(m) => Option::Some(A2AMessageV2Val::SendRemoteMessageResponse(m)),
            Option::None => Option::None,
        }
        } else if name == "UPDATE_CONN_STATUS"@ {
            match GenericMsgVal::from_val(j) {
            Option::Some(m) => Option::Some(A2AMessageV2Val::UpdateConnection(m)),
            Option::None => Option::None,
        }
        } else if name == "CONN_STATUS_UPDATED"@ {
            match GenericMsgVal::from_val(j) {
            Option::Some(m) => Option::Some(A2AMessageV2Val::UpdateConnectionResponse(m)),
            Option::None => Option::None,
        }
        } else if name == "UPDATE_MSG_STATUS_BY_CONNS"@ {
            match GenericMsgVal::from_val(j) {
            Option::Some(m) => Option::Some(A2AMessageV2Val::UpdateMessageStatusByConnections(m)),
            Option::None => Option::None,
        }
        } else if name == "MSG_STATUS_UPDATED_BY_CONNS"@ {
            match GenericMsgVal::from_val(j) {
            Option::Some(m) => Option::Some(A2AMessageV2Val::UpdateMessageStatusByConnectionsResponse(m)),
            Option::None => Option::None,
        }
        } else if name == "UPDATE_CONFIGS"@ {
            match GenericMsgVal::from_val(j) {
            Option::Some(m) => Option::Some(A2AMessageV2Val::UpdateConfigs(m)),
            Option::None => Option::None,
        }
        } else if name == "CONFIGS_UPDATED"@ {
            match GenericMsgVal::from_val(j) {
            Option::Some(m) => Option::Some(A2AMessageV2Val::UpdateConfigsResponse(m)),
            Option::None => Option::None,
        }
        } else {
            Option::None
        }
    }

    /// Reads a message of the newer protocol from a wire object.
    pub open spec fn from_val(j: JsonVal) -> Option<A2AMessageV2Val> {
        match j {
            JsonVal::Obj(fs) => match JsonVal::fields_lookup(fs, "@type"@) {
                Option::Some(tv) => match MessageTypeV2Val::from_val(tv) {
                    Option::Some(mt) => Self::dispatch(j, mt.type_),
                    Option::None => Option::None,
                },
                Option::None => Option::None,
            },
            _ => Option::None,
        }
    }

    /// Whether the embedded `@type` is of the newer shape and names the
    /// wrapped variant's entry in the dispatch table.
    pub open spec fn wf(self) -> bool {
        match self {
            A2AMessageV2Val::Forward(m) => m.msg_type is MessageTypeV2 && m.msg_type->MessageTypeV2_0.type_ == "FWD"@ && family_wf(m.msg_type->MessageTypeV2_0.family),
            A2AMessageV2Val::Connect(m) => m.wf() && m.msg_type is MessageTypeV2 && m.msg_type->MessageTypeV2_0.type_ == "CONNECT"@ && family_wf(m.msg_type->MessageTypeV2_0.family),
            A2AMessageV2Val::ConnectResponse(m) => m.wf() && m.msg_type is MessageTypeV2 && m.msg_type->MessageTypeV2_0.type_ == "CONNECTED"@ && family_wf(m.msg_type->MessageTypeV2_0.family),
            A2AMessageV2Val::SignUp(m) => m.wf() && m.msg_type is MessageTypeV2 && m.msg_type->MessageTypeV2_0.type_ == "SIGNUP"@ && family_wf(m.msg_type->MessageTypeV2_0.family),
            A2AMessageV2Val::SignUpResponse(m) => m.wf() && m.msg_type is MessageTypeV2 && m.msg_type->MessageTypeV2_0.type_ == "SIGNED_UP"@ && family_wf(m.msg_type->MessageTypeV2_0.family),
            A2AMessageV2Val::CreateAgent(m) => m.wf() && m.msg_type is MessageTypeV2 && m.msg_type->MessageTypeV2_0.type_ == "CREATE_AGENT"@ && family_wf(m.msg_type->MessageTypeV2_0.family),
            A2AMessageV2Val::CreateAgentResponse(m) => m.wf() && m.msg_type is MessageTypeV2 && m.msg_type->MessageTypeV2_0.type_ == "AGENT_CREATED"@ && family_wf(m.msg_type->MessageTypeV2_0.family),
            A2AMessageV2Val::UpdateConnectionMethod(m) => m.wf() && m.msg_type is MessageTypeV2 && m.msg_type->MessageTypeV2_0.type_ == "UPDATE_COM_METHOD"@ && family_wf(m.msg_type->MessageTypeV2_0.family),
            A2AMessageV2Val::CreateKey(m) => m.wf() && m.msg_type is MessageTypeV2 && m.msg_type->MessageTypeV2_0.type_ == "CREATE_KEY"@ && family_wf(m.msg_type->MessageTypeV2_0.family),
            A2AMessageV2Val::CreateKeyResponse(m) => m.wf() && m.msg_type is MessageTypeV2 && m.msg_type->MessageTypeV2_0.type_ == "KEY_CREATED"@ && family_wf(m.msg_type->MessageTypeV2_0.family),
            A2AMessageV2Val::GetMessages(m) => m.wf() && m.msg_type is MessageTypeV2 && m.msg_type->MessageTypeV2_0.type_ == "GET_MSGS"@ && family_wf(m.msg_type->MessageTypeV2_0.family),
            A2AMessageV2Val::GetMessagesResponse(m) => m.wf() && m.msg_type is MessageTypeV2 && m.msg_type->MessageTypeV2_0.type_ == "MSGS"@ && family_wf(m.msg_type->MessageTypeV2_0.family),
            A2AMessageV2Val::GetMessagesByConnections(m) => m.wf() && m.msg_type is MessageTypeV2 && m.msg_type->MessageTypeV2_0.type_ == "GET_MSGS_BY_CONNS"@ && family_wf(m.msg_type->MessageTypeV2_0.family),
            A2AMessageV2Val::GetMessagesByConnectionsResponse(m) => m.wf() && m.msg_type is MessageTypeV2 && m.msg_type->MessageTypeV2_0.type_ == "MSGS_BY_CONNS"@ && family_wf(m.msg_type->MessageTypeV2_0.family),
            A2AMessageV2Val::ConnectionRequest(m) => m.wf() && m.msg_type is MessageTypeV2 && m.msg_type->MessageTypeV2_0.type_ == "CONN_REQUEST"@ && family_wf(m.msg_type->MessageTypeV2_0.family),
            A2AMessageV2Val::ConnectionRequestResponse(m) => m.wf() && m.msg_type is MessageTypeV2 && m.msg_type->MessageTypeV2_0.type_ == "CONN_REQUEST_RESP"@ && family_wf(m.msg_type->MessageTypeV2_0.family),
            A2AMessageV2Val::ConnectionRequestAnswer(m) => m.wf() && m.msg_type is MessageTypeV2 && m.msg_type->MessageTypeV2_0.type_ == "CONN_REQUEST_ANSWER"@ && family_wf(m.msg_type->MessageTypeV2_0.family),
            A2AMessageV2Val::ConnectionRequestAnswerResponse(m) => m.wf() && m.msg_type is MessageTypeV2 && m.msg_type->MessageTypeV2_0.type_ == "CONN_REQUEST_ANSWER_RESP"@ && family_wf(m.msg_type->MessageTypeV2_0.family),
            A2AMessageV2Val::SendRemoteMessage(m) => m.msg_type.type_ == "SEND_REMOTE_MSG"@ && family_wf(m.msg_type.family) && remote_wf(m.mtype),
            A2AMessageV2Val::SendRemoteMessageResponse(m) => m.msg_type is MessageTypeV2 && m.msg_type->MessageTypeV2_0.type_ == "REMOTE_MSG_SENT"@ && family_wf(m.msg_type->MessageTypeV2_0.family),
            A2AMessageV2Val::UpdateConnection(m) => m.wf() && m.msg_type is MessageTypeV2 && m.msg_type->MessageTypeV2_0.type_ == "UPDATE_CONN_STATUS"@ && family_wf(m.msg_type->MessageTypeV2_0.family),
            A2AMessageV2Val::UpdateConnectionResponse(m) => m.wf() && m.msg_type is MessageTypeV2 && m.msg_type->MessageTypeV2_0.type_ == "CONN_STATUS_UPDATED"@ && family_wf(m.msg_type->MessageTypeV2_0.family),
            A2AMessageV2Val::UpdateMessageStatusByConnections(m) => m.wf() && m.msg_type is MessageTypeV2 && m.msg_type->MessageTypeV2_0.type_ == "UPDATE_MSG_STATUS_BY_CONNS"@ && family_wf(m.msg_type->MessageTypeV2_0.family),
            A2AMessageV2Val::UpdateMessageStatusByConnectionsResponse(m) => m.wf() && m.msg_type is MessageTypeV2 && m.msg_type->MessageTypeV2_0.type_ == "MSG_STATUS_UPDATED_BY_CONNS"@ && family_wf(m.msg_type->MessageTypeV2_0.family),
            A2AMessageV2Val::UpdateConfigs(m) => m.wf() && m.msg_type is MessageTypeV2 && m.msg_type->MessageTypeV2_0.type_ == "UPDATE_CONFIGS"@ && family_wf(m.msg_type->MessageTypeV2_0.family),
            A2AMessageV2Val::UpdateConfigsResponse(m) => m.wf() && m.msg_type is MessageTypeV2 && m.msg_type->MessageTypeV2_0.type_ == "CONFIGS_UPDATED"@ && family_wf(m.msg_type->MessageTypeV2_0.family),
        }
    }
}

/// Every well-formed message of the older protocol reads back to the same
/// variant with the same contents.
#[verifier::rlimit(100)]
pub proof fn lemma_a2a_v1_round_trip(m: A2AMessageV1Val)
    requires
        m.wf(),
    ensures
        A2AMessageV1Val::from_val(m.to_val()) == Option::Some(m),
{
    reveal_strlit("@type");
    reveal_strlit("AGENT_CREATED");
    reveal_strlit("CONFIGS_UPDATED");
    reveal_strlit("CONNECT");
    reveal_strlit("CONNECTED");
    reveal_strlit("CONN_REQUEST");
    reveal_strlit("CONN_REQUEST_ANSWER");
    reveal_strlit("CONN_REQUEST_ANSWER_RESP");
    reveal_strlit("CONN_REQUEST_RESP");
    reveal_strlit("CONN_STATUS_UPDATED");
    reveal_strlit("CREATE_AGENT");
    reveal_strlit("CREATE_KEY");
    reveal_strlit("CREATE_MSG");
    reveal_strlit("FWD");
    reveal_strlit("GET_MSGS");
    reveal_strlit("GET_MSGS_BY_CONNS");
    reveal_strlit("KEY_CREATED");
    reveal_strlit("MSGS");
    reveal_strlit("MSGS_BY_CONNS");
    reveal_strlit("MSGS_SENT");
    reveal_strlit("MSG_CREATED");
    reveal_strlit("MSG_DETAIL");
    reveal_strlit("MSG_SENT");
    reveal_strlit("MSG_STATUS_UPDATED_BY_CONNS");
    reveal_strlit("REMOTE_MSG_SENT");
    reveal_strlit("SEND_REMOTE_MSG");
    reveal_strlit("SIGNED_UP");
    reveal_strlit("SIGNUP");
    reveal_strlit("UPDATE_COM_METHOD");
    reveal_strlit("UPDATE_CONFIGS");
    reveal_strlit("UPDATE_CONN_STATUS");
    reveal_strlit("UPDATE_MSG_STATUS_BY_CONNS");
    assert("AGENT_CREATED"@.len() == 13 && "CONFIGS_UPDATED"@.len() == 15 && "CONNECT"@.len() == 7 && "CONNECTED"@.len() == 9 && "CONN_REQUEST"@.len() == 12 && "CONN_REQUEST_ANSWER"@.len() == 19 && "CONN_REQUEST_ANSWER_RESP"@.len() == 24 && "CONN_REQUEST_RESP"@.len() == 17 && "CONN_STATUS_UPDATED"@.len() == 19 && "CREATE_AGENT"@.len() == 12 && "CREATE_KEY"@.len() == 10 && "CREATE_MSG"@.len() == 10 && "FWD"@.len() == 3 && "GET_MSGS"@.len() == 8 && "GET_MSGS_BY_CONNS"@.len() == 17 && "KEY_CREATED"@.len() == 11 && "MSGS"@.len() == 4 && "MSGS_BY_CONNS"@.len() == 13 && "MSGS_SENT"@.len() == 9 && "MSG_CREATED"@.len() == 11 && "MSG_DETAIL"@.len() == 10 && "MSG_SENT"@.len() == 8 && "MSG_STATUS_UPDATED_BY_CONNS"@.len() == 27 && "REMOTE_MSG_SENT"@.len() == 15 && "SEND_REMOTE_MSG"@.len() == 15 && "SIGNED_UP"@.len() == 9 && "SIGNUP"@.len() == 6 && "UPDATE_COM_METHOD"@.len() == 17 && "UPDATE_CONFIGS"@.len() == 14 && "UPDATE_CONN_STATUS"@.len() == 18 && "UPDATE_MSG_STATUS_BY_CONNS"@.len() == 26);
    assert("AGENT_CREATED"@[0] == 'A' && "CONFIGS_UPDATED"@[0] == 'C' && "CONNECT"@[0] == 'C' && "CONNECTED"@[0] == 'C' && "CONN_REQUEST"@[0] == 'C' && "CONN_REQUEST_ANSWER"@[0] == 'C' && "CONN_REQUEST_ANSWER_RESP"@[0] == 'C' && "CONN_REQUEST_RESP"@[0] == 'C' && "CONN_STATUS_UPDATED"@[0] == 'C' && "CREATE_AGENT"@[0] == 'C' && "CREATE_KEY"@[0] == 'C' && "CREATE_MSG"@[0] == 'C' && "FWD"@[0] == 'F' && "GET_MSGS"@[0] == 'G' && "GET_MSGS_BY_CONNS"@[0] == 'G' && "KEY_CREATED"@[0] == 'K' && "MSGS"@[0] == 'M' && "MSGS_BY_CONNS"@[0] == 'M' && "MSGS_SENT"@[0] == 'M' && "MSG_CREATED"@[0] == 'M' && "MSG_DETAIL"@[0] == 'M' && "MSG_SENT"@[0] == 'M' && "MSG_STATUS_UPDATED_BY_CONNS"@[0] == 'M' && "REMOTE_MSG_SENT"@[0] == 'R' && "SEND_REMOTE_MSG"@[0] == 'S' && "SIGNED_UP"@[0] == 'S' && "SIGNUP"@[0] == 'S' && "UPDATE_COM_METHOD"@[0] == 'U' && "UPDATE_CONFIGS"@[0] == 'U' && "UPDATE_CONN_STATUS"@[0] == 'U' && "UPDATE_MSG_STATUS_BY_CONNS"@[0] == 'U');
    assert("CREATE_KEY"@[7] == 'K' && "CREATE_MSG"@[7] == 'M');
    assert("CREATE_AGENT"@[1] == 'R' && "CONN_REQUEST"@[1] == 'O');
    assert("CONN_STATUS_UPDATED"@[5] == 'S' && "CONN_REQUEST_ANSWER"@[5] == 'R');
    assert("MSG_SENT"@[3] == '_' && "MSGS_SENT"@[3] == 'S');
    match m {
            A2AMessageV1Val::Forward(m) => {
                lemma_forward_round_trip(m);
                let fs = m.to_val()->Obj_0;
                lemma_lookup_at(fs, "@type"@, 0);
                lemma_message_type_round_trip(m.msg_type);
            },
            A2AMessageV1Val::Connect(m) => {
                lemma_generic_round_trip(m);
                let fs = m.to_val()->Obj_0;
                assert(fs[0] == ("@type"@, m.msg_type.to_val()));
                lemma_lookup_at(fs, "@type"@, 0);
                lemma_message_type_round_trip(m.msg_type);
            },
            A2AMessageV1Val::ConnectResponse(m) => {
                lemma_generic_round_trip(m);
                let fs = m.to_val()->Obj_0;
                assert(fs[0] == ("@type"@, m.msg_type.to_val()));
                lemma_lookup_at(fs, "@type"@, 0);
                lemma_message_type_round_trip(m.msg_type);
            },
            A2AMessageV1Val::SignUp(m) => {
                lemma_generic_round_trip(m);
                let fs = m.to_val()->Obj_0;
                assert(fs[0] == ("@type"@, m.msg_type.to_val()));
                lemma_lookup_at(fs, "@type"@, 0);
                lemma_message_type_round_trip(m.msg_type);
            },
            A2AMessageV1Val::SignUpResponse(m) => {
                lemma_generic_round_trip(m);
                let fs = m.to_val()->Obj_0;
                assert(fs[0] == ("@type"@, m.msg_type.to_val()));
                lemma_lookup_at(fs, "@type"@, 0);
                lemma_message_type_round_trip(m.msg_type);
            },
            A2AMessageV1Val::CreateAgent(m) => {
                lemma_generic_round_trip(m);
                let fs = m.to_val()->Obj_0;
                assert(fs[0] == ("@type"@, m.msg_type.to_val()));
                lemma_lookup_at(fs, "@type"@, 0);
                lemma_message_type_round_trip(m.msg_type);
            },
            A2AMessageV1Val::CreateAgentResponse(m) => {
                lemma_generic_round_trip(m);
                let fs = m.to_val()->Obj_0;
                assert(fs[0] == ("@type"@, m.msg_type.to_val()));
                lemma_lookup_at(fs, "@type"@, 0);
                lemma_message_type_round_trip(m.msg_type);
            },
            A2AMessageV1Val::UpdateConnectionMethod(m) => {
                lemma_generic_round_trip(m);
                let fs = m.to_val()->Obj_0;
                assert(fs[0] == ("@type"@, m.msg_type.to_val()));
                lemma_lookup_at(fs, "@type"@, 0);
                lemma_message_type_round_trip(m.msg_type);
            },
            A2AMessageV1Val::CreateKey(m) => {
                lemma_generic_round_trip(m);
                let fs = m.to_val()->Obj_0;
                assert(fs[0] == ("@type"@, m.msg_type.to_val()));
                lemma_lookup_at(fs, "@type"@, 0);
                lemma_message_type_round_trip(m.msg_type);
            },
            A2AMessageV1Val::CreateKeyResponse(m) => {
                lemma_generic_round_trip(m);
                let fs = m.to_val()->Obj_0;
                assert(fs[0] == ("@type"@, m.msg_type.to_val()));
                lemma_lookup_at(fs, "@type"@, 0);
                lemma_message_type_round_trip(m.msg_type);
            },
            A2AMessageV1Val::GetMessages(m) => {
                lemma_generic_round_trip(m);
                let fs = m.to_val()->Obj_0;
                assert(fs[0] == ("@type"@, m.msg_type.to_val()));
                lemma_lookup_at(fs, "@type"@, 0);
                lemma_message_type_round_trip(m.msg_type);
            },
            A2AMessageV1Val::GetMessagesResponse(m) => {
                lemma_generic_round_trip(m);
                let fs = m.to_val()->Obj_0;
                assert(fs[0] == ("@type"@, m.msg_type.to_val()));
                lemma_lookup_at(fs, "@type"@, 0);
                lemma_message_type_round_trip(m.msg_type);
            },
            A2AMessageV1Val::GetMessagesByConnections(m) => {
                lemma_generic_round_trip(m);
                let fs = m.to_val()->Obj_0;
                assert(fs[0] == ("@type"@, m.msg_type.to_val()));
                lemma_lookup_at(fs, "@type"@, 0);
                lemma_message_type_round_trip(m.msg_type);
            },
            A2AMessageV1Val::GetMessagesByConnectionsResponse(m) => {
                lemma_generic_round_trip(m);
                let fs = m.to_val()->Obj_0;
                assert(fs[0] == ("@type"@, m.msg_type.to_val()));
                lemma_lookup_at(fs, "@type"@, 0);
                lemma_message_type_round_trip(m.msg_type);
            },
            A2AMessageV1Val::CreateMessage(m) => {
                lemma_create_message_round_trip(m);
                let fs = m.to_val()->Obj_0;
                lemma_lookup_at(fs, "@type"@, 0);
                lemma_message_type_round_trip(MessageTypesVal::MessageTypeV1(m.msg_type));
            },
            A2AMessageV1Val::MessageDetail(m) => {
                lemma_message_detail_round_trip(m);
            },
            A2AMessageV1Val::MessageCreated(m) => {
                lemma_message_created_round_trip(m);
                let fs = m.to_val()->Obj_0;
                lemma_lookup_at(fs, "@type"@, 0);
                lemma_message_type_round_trip(MessageTypesVal::MessageTypeV1(m.msg_type));
            },
            A2AMessageV1Val::MessageSent(m) => {
                lemma_message_sent_round_trip(m);
                let fs = m.to_val()->Obj_0;
                assert(fs[0] == ("@type"@, m.msg_type.to_val()));
                lemma_lookup_at(fs, "@type"@, 0);
                lemma_message_type_round_trip(MessageTypesVal::MessageTypeV1(m.msg_type));
            },
            A2AMessageV1Val::UpdateConnection(m) => {
                lemma_generic_round_trip(m);
                let fs = m.to_val()->Obj_0;
                assert(fs[0] == ("@type"@, m.msg_type.to_val()));
                lemma_lookup_at(fs, "@type"@, 0);
                lemma_message_type_round_trip(m.msg_type);
            },
            A2AMessageV1Val::UpdateConnectionResponse(m) => {
                lemma_generic_round_trip(m);
                let fs = m.to_val()->Obj_0;
                assert(fs[0] == ("@type"@, m.msg_type.to_val()));
                lemma_lookup_at(fs, "@type"@, 0);
                lemma_message_type_round_trip(m.msg_type);
            },
            A2AMessageV1Val::UpdateMessageStatusByConnections(m) => {
                lemma_generic_round_trip(m);
                let fs = m.to_val()->Obj_0;
                assert(fs[0] == ("@type"@, m.msg_type.to_val()));
                lemma_lookup_at(fs, "@type"@, 0);
                lemma_message_type_round_trip(m.msg_type);
            },
            A2AMessageV1Val::UpdateMessageStatusByConnectionsResponse(m) => {
                lemma_generic_round_trip(m);
                let fs = m.to_val()->Obj_0;
                assert(fs[0] == ("@type"@, m.msg_type.to_val()));
                lemma_lookup_at(fs, "@type"@, 0);
                lemma_message_type_round_trip(m.msg_type);
            },
            A2AMessageV1Val::UpdateConfigs(m) => {
                lemma_generic_round_trip(m);
                let fs = m.to_val()->Obj_0;
                assert(fs[0] == ("@type"@, m.msg_type.to_val()));
                lemma_lookup_at(fs, "@type"@, 0);
                lemma_message_type_round_trip(m.msg_type);
            },
            A2AMessageV1Val::UpdateConfigsResponse(m) => {
                lemma_generic_round_trip(m);
                let fs = m.to_val()->Obj_0;
                assert(fs[0] == ("@type"@, m.msg_type.to_val()));
                lemma_lookup_at(fs, "@type"@, 0);
                lemma_message_type_round_trip(m.msg_type);
            },
    }
}

/// Every well-formed message of the newer protocol reads back to the same
/// variant with the same contents.
#[verifier::rlimit(100)]
pub proof fn lemma_a2a_v2_round_trip(m: A2AMessageV2Val)
    requires
        m.wf(),
    ensures
        A2AMessageV2Val::from_val(m.to_val()) == Option::Some(m),
{
    reveal_strlit("@type");
    reveal_strlit("AGENT_CREATED");
    reveal_strlit("CONFIGS_UPDATED");
    reveal_strlit("CONNECT");
    reveal_strlit("CONNECTED");
    reveal_strlit("CONN_REQUEST");
    reveal_strlit("CONN_REQUEST_ANSWER");
    reveal_strlit("CONN_REQUEST_ANSWER_RESP");
    reveal_strlit("CONN_REQUEST_RESP");
    reveal_strlit("CONN_STATUS_UPDATED");
    reveal_strlit("CREATE_AGENT");
    reveal_strlit("CREATE_KEY");
    reveal_strlit("CREATE_MSG");
    reveal_strlit("FWD");
    reveal_strlit("GET_MSGS");
    reveal_strlit("GET_MSGS_BY_CONNS");
    reveal_strlit("KEY_CREATED");
    reveal_strlit("MSGS");
    reveal_strlit("MSGS_BY_CONNS");
    reveal_strlit("MSGS_SENT");
    reveal_strlit("MSG_CREATED");
    reveal_strlit("MSG_DETAIL");
    reveal_strlit("MSG_SENT");
    reveal_strlit("MSG_STATUS_UPDATED_BY_CONNS");
    reveal_strlit("REMOTE_MSG_SENT");
    reveal_strlit("SEND_REMOTE_MSG");
    reveal_strlit("SIGNED_UP");
    reveal_strlit("SIGNUP");
    reveal_strlit("UPDATE_COM_METHOD");
    reveal_strlit("UPDATE_CONFIGS");
    reveal_strlit("UPDATE_CONN_STATUS");
    reveal_strlit("UPDATE_MSG_STATUS_BY_CONNS");
    assert("AGENT_CREATED"@.len() == 13 && "CONFIGS_UPDATED"@.len() == 15 && "CONNECT"@.len() == 7 && "CONNECTED"@.len() == 9 && "CONN_REQUEST"@.len() == 12 && "CONN_REQUEST_ANSWER"@.len() == 19 && "CONN_REQUEST_ANSWER_RESP"@.len() == 24 && "CONN_REQUEST_RESP"@.len() == 17 && "CONN_STATUS_UPDATED"@.len() == 19 && "CREATE_AGENT"@.len() == 12 && "CREATE_KEY"@.len() == 10 && "CREATE_MSG"@.len() == 10 && "FWD"@.len() == 3 && "GET_MSGS"@.len() == 8 && "GET_MSGS_BY_CONNS"@.len() == 17 && "KEY_CREATED"@.len() == 11 && "MSGS"@.len() == 4 && "MSGS_BY_CONNS"@.len() == 13 && "MSGS_SENT"@.len() == 9 && "MSG_CREATED"@.len() == 11 && "MSG_DETAIL"@.len() == 10 && "MSG_SENT"@.len() == 8 && "MSG_STATUS_UPDATED_BY_CONNS"@.len() == 27 && "REMOTE_MSG_SENT"@.len() == 15 && "SEND_REMOTE_MSG"@.len() == 15 && "SIGNED_UP"@.len() == 9 && "SIGNUP"@.len() == 6 && "UPDATE_COM_METHOD"@.len() == 17 && "UPDATE_CONFIGS"@.len() == 14 && "UPDATE_CONN_STATUS"@.len() == 18 && "UPDATE_MSG_STATUS_BY_CONNS"@.len() == 26);
    assert("AGENT_CREATED"@[0] == 'A' && "CONFIGS_UPDATED"@[0] == 'C' && "CONNECT"@[0] == 'C' && "CONNECTED"@[0] == 'C' && "CONN_REQUEST"@[0] == 'C' && "CONN_REQUEST_ANSWER"@[0] == 'C' && "CONN_REQUEST_ANSWER_RESP"@[0] == 'C' && "CONN_REQUEST_RESP"@[0] == 'C' && "CONN_STATUS_UPDATED"@[0] == 'C' && "CREATE_AGENT"@[0] == 'C' && "CREATE_KEY"@[0] == 'C' && "CREATE_MSG"@[0] == 'C' && "FWD"@[0] == 'F' && "GET_MSGS"@[0] == 'G' && "GET_MSGS_BY_CONNS"@[0] == 'G' && "KEY_CREATED"@[0] == 'K' && "MSGS"@[0] == 'M' && "MSGS_BY_CONNS"@[0] == 'M' && "MSGS_SENT"@[0] == 'M' && "MSG_CREATED"@[0] == 'M' && "MSG_DETAIL"@[0] == 'M' && "MSG_SENT"@[0] == 'M' && "MSG_STATUS_UPDATED_BY_CONNS"@[0] == 'M' && "REMOTE_MSG_SENT"@[0] == 'R' && "SEND_REMOTE_MSG"@[0] == 'S' && "SIGNED_UP"@[0] == 'S' && "SIGNUP"@[0] == 'S' && "UPDATE_COM_METHOD"@[0] == 'U' && "UPDATE_CONFIGS"@[0] == 'U' && "UPDATE_CONN_STATUS"@[0] == 'U' && "UPDATE_MSG_STATUS_BY_CONNS"@[0] == 'U');
    assert("CREATE_KEY"@[7] == 'K' && "CREATE_MSG"@[7] == 'M');
    assert("CREATE_AGENT"@[1] == 'R' && "CONN_REQUEST"@[1] == 'O');
    assert("CONN_STATUS_UPDATED"@[5] == 'S' && "CONN_REQUEST_ANSWER"@[5] == 'R');
    assert("MSG_SENT"@[3] == '_' && "MSGS_SENT"@[3] == 'S');
    match m {
            A2AMessageV2Val::Forward(m) => {
                lemma_forward_round_trip(m);
                let fs = m.to_val()->Obj_0;
                lemma_lookup_at(fs, "@type"@, 0);
                lemma_message_type_round_trip(m.msg_type);
            },
            A2AMessageV2Val::Connect(m) => {
                lemma_generic_round_trip(m);
                let fs = m.to_val()->Obj_0;
                assert(fs[0] == ("@type"@, m.msg_type.to_val()));
                lemma_lookup_at(fs, "@type"@, 0);
                lemma_message_type_round_trip(m.msg_type);
            },
            A2AMessageV2Val::ConnectResponse(m) => {
                lemma_generic_round_trip(m);
                let fs = m.to_val()->Obj_0;
                assert(fs[0] == ("@type"@, m.msg_type.to_val()));
                lemma_lookup_at(fs, "@type"@, 0);
                lemma_message_type_round_trip(m.msg_type);
            },
            A2AMessageV2Val::SignUp(m) => {
                lemma_generic_round_trip(m);
                let fs = m.to_val()->Obj_0;
                assert(fs[0] == ("@type"@, m.msg_type.to_val()));
                lemma_lookup_at(fs, "@type"@, 0);
                lemma_message_type_round_trip(m.msg_type);
            },
            A2AMessageV2Val::SignUpResponse(m) => {
                lemma_generic_round_trip(m);
                let fs = m.to_val()->Obj_0;
                assert(fs[0] == ("@type"@, m.msg_type.to_val()));
                lemma_lookup_at(fs, "@type"@, 0);
                lemma_message_type_round_trip(m.msg_type);
            },
            A2AMessageV2Val::CreateAgent(m) => {
                lemma_generic_round_trip(m);
                let fs = m.to_val()->Obj_0;
                assert(fs[0] == ("@type"@, m.msg_type.to_val()));
                lemma_lookup_at(fs, "@type"@, 0);
                lemma_message_type_round_trip(m.msg_type);
            },
            A2AMessageV2Val::CreateAgentResponse(m) => {
                lemma_generic_round_trip(m);
                let fs = m.to_val()->Obj_0;
                assert(fs[0] == ("@type"@, m.msg_type.to_val()));
                lemma_lookup_at(fs, "@type"@, 0);
                lemma_message_type_round_trip(m.msg_type);
            },
            A2AMessageV2Val::UpdateConnectionMethod(m) => {
                lemma_generic_round_trip(m);
                let fs = m.to_val()->Obj_0;
                assert(fs[0] == ("@type"@, m.msg_type.to_val()));
                lemma_lookup_at(fs, "@type"@, 0);
                lemma_message_type_round_trip(m.msg_type);
            },
            A2AMessageV2Val::CreateKey(m) => {
                lemma_generic_round_trip(m);
                let fs = m.to_val()->Obj_0;
                assert(fs[0] == ("@type"@, m.msg_type.to_val()));
                lemma_lookup_at(fs, "@type"@, 0);
                lemma_message_type_round_trip(m.msg_type);
            },
            A2AMessageV2Val::CreateKeyResponse(m) => {
                lemma_generic_round_trip(m);
                let fs = m.to_val()->Obj_0;
                assert(fs[0] == ("@type"@, m.msg_type.to_val()));
                lemma_lookup_at(fs, "@type"@, 0);
                lemma_message_type_round_trip(m.msg_type);
            },
            A2AMessageV2Val::GetMessages(m) => {
                lemma_generic_round_trip(m);
                let fs = m.to_val()->Obj_0;
                assert(fs[0] == ("@type"@, m.msg_type.to_val()));
                lemma_lookup_at(fs, "@type"@, 0);
                lemma_message_type_round_trip(m.msg_type);
            },
            A2AMessageV2Val::GetMessagesResponse(m) => {
                lemma_generic_round_trip(m);
                let fs = m.to_val()->Obj_0;
                assert(fs[0] == ("@type"@, m.msg_type.to_val()));
                lemma_lookup_at(fs, "@type"@, 0);
                lemma_message_type_round_trip(m.msg_type);
            },
            A2AMessageV2Val::GetMessagesByConnections(m) => {
                lemma_generic_round_trip(m);
                let fs = m.to_val()->Obj_0;
                assert(fs[0] == ("@type"@, m.msg_type.to_val()));
                lemma_lookup_at(fs, "@type"@, 0);
                lemma_message_type_round_trip(m.msg_type);
            },
            A2AMessageV2Val::GetMessagesByConnectionsResponse(m) => {
                lemma_generic_round_trip(m);
                let fs = m.to_val()->Obj_0;
                assert(fs[0] == ("@type"@, m.msg_type.to_val()));
                lemma_lookup_at(fs, "@type"@, 0);
                lemma_message_type_round_trip(m.msg_type);
            },
            A2AMessageV2Val::ConnectionRequest(m) => {
                lemma_generic_round_trip(m);
                let fs = m.to_val()->Obj_0;
                assert(fs[0] == ("@type"@, m.msg_type.to_val()));
                lemma_lookup_at(fs, "@type"@, 0);
                lemma_message_type_round_trip(m.msg_type);
            },
            A2AMessageV2Val::ConnectionRequestResponse(m) => {
                lemma_generic_round_trip(m);
                let fs = m.to_val()->Obj_0;
                assert(fs[0] == ("@type"@, m.msg_type.to_val()));
                lemma_lookup_at(fs, "@type"@, 0);
                lemma_message_type_round_trip(m.msg_type);
            },
            A2AMessageV2Val::ConnectionRequestAnswer(m) => {
                lemma_generic_round_trip(m);
                let fs = m.to_val()->Obj_0;
                assert(fs[0] == ("@type"@, m.msg_type.to_val()));
                lemma_lookup_at(fs, "@type"@, 0);
                lemma_message_type_round_trip(m.msg_type);
            },
            A2AMessageV2Val::ConnectionRequestAnswerResponse(m) => {
                lemma_generic_round_trip(m);
                let fs = m.to_val()->Obj_0;
                assert(fs[0] == ("@type"@, m.msg_type.to_val()));
                lemma_lookup_at(fs, "@type"@, 0);
                lemma_message_type_round_trip(m.msg_type);
            },
            A2AMessageV2Val::SendRemoteMessage(m) => {
                lemma_send_remote_round_trip(m);
                let fs = m.to_val()->Obj_0;
                lemma_lookup_at(fs, "@type"@, 0);
                lemma_message_type_round_trip(MessageTypesVal::MessageTypeV2(m.msg_type));
            },
            A2AMessageV2Val::SendRemoteMessageResponse(m) => {
                lemma_send_remote_response_round_trip(m);
                let fs = m.to_val()->Obj_0;
                lemma_lookup_at(fs, "@type"@, 0);
                lemma_message_type_round_trip(m.msg_type);
            },
            A2AMessageV2Val::UpdateConnection(m) => {
                lemma_generic_round_trip(m);
                let fs = m.to_val()->Obj_0;
                assert(fs[0] == ("@type"@, m.msg_type.to_val()));
                lemma_lookup_at(fs, "@type"@, 0);
                lemma_message_type_round_trip(m.msg_type);
            },
            A2AMessageV2Val::UpdateConnectionResponse(m) => {
                lemma_generic_round_trip(m);
                let fs = m.to_val()->Obj_0;
                assert(fs[0] == ("@type"@, m.msg_type.to_val()));
                lemma_lookup_at(fs, "@type"@, 0);
                lemma_message_type_round_trip(m.msg_type);
            },
            A2AMessageV2Val::UpdateMessageStatusByConnections(m) => {
                lemma_generic_round_trip(m);
                let fs = m.to_val()->Obj_0;
                assert(fs[0] == ("@type"@, m.msg_type.to_val()));
                lemma_lookup_at(fs, "@type"@, 0);
                lemma_message_type_round_trip(m.msg_type);
            },
            A2AMessageV2Val::UpdateMessageStatusByConnectionsResponse(m) => {
                lemma_generic_round_trip(m);
                let fs = m.to_val()->Obj_0;
                assert(fs[0] == ("@type"@, m.msg_type.to_val()));
                lemma_lookup_at(fs, "@type"@, 0);
                lemma_message_type_round_trip(m.msg_type);
            },
            A2AMessageV2Val::UpdateConfigs(m) => {
                lemma_generic_round_trip(m);
                let fs = m.to_val()->Obj_0;
                assert(fs[0] == ("@type"@, m.msg_type.to_val()));
                lemma_lookup_at(fs, "@type"@, 0);
                lemma_message_type_round_trip(m.msg_type);
            },
            A2AMessageV2Val::UpdateConfigsResponse(m) => {
                lemma_generic_round_trip(m);
                let fs = m.to_val()->Obj_0;
                assert(fs[0] == ("@type"@, m.msg_type.to_val()));
                lemma_lookup_at(fs, "@type"@, 0);
                lemma_message_type_round_trip(m.msg_type);
            },
    }
}

/// A well-formed message of the older protocol carries an older-shaped
/// `@type`: the discriminator reads under the older shape and never under
/// the newer one.
pub proof fn lemma_v1_type_shape(m: A2AMessageV1Val)
    requires
        m.wf(),
    ensures
        m.to_val() is Obj,
        ({
            let lk = JsonVal::fields_lookup(m.to_val()->Obj_0, "@type"@);
            &&& lk is Some
            &&& MessageTypeV1Val::from_val(lk->Some_0) is Some
            &&& MessageTypeV2Val::from_val(lk->Some_0) is None
        }),
{
    reveal_strlit("@type");
    match m {
            A2AMessageV1Val::Forward(m) => {
                let fs = m.to_val()->Obj_0;
                assert(fs[0].0 == "@type"@);
                lemma_lookup_at(fs, "@type"@, 0);
                lemma_message_type_round_trip(m.msg_type);
            },
            A2AMessageV1Val::Connect(m) => {
                let fs = m.to_val()->Obj_0;
                assert(fs[0].0 == "@type"@);
                lemma_lookup_at(fs, "@type"@, 0);
                lemma_message_type_round_trip(m.msg_type);
            },
            A2AMessageV1Val::ConnectResponse(m) => {
                let fs = m.to_val()->Obj_0;
                assert(fs[0].0 == "@type"@);
                lemma_lookup_at(fs, "@type"@, 0);
                lemma_message_type_round_trip(m.msg_type);
            },
            A2AMessageV1Val::SignUp(m) => {
                let fs = m.to_val()->Obj_0;
                assert(fs[0].0 == "@type"@);
                lemma_lookup_at(fs, "@type"@, 0);
                lemma_message_type_round_trip(m.msg_type);
            },
            A2AMessageV1Val::SignUpResponse(m) => {
                let fs = m.to_val()->Obj_0;
                assert(fs[0].0 == "@type"@);
                lemma_lookup_at(fs, "@type"@, 0);
                lemma_message_type_round_trip(m.msg_type);
            },
            A2AMessageV1Val::CreateAgent(m) => {
                let fs = m.to_val()->Obj_0;
                assert(fs[0].0 == "@type"@);
                lemma_lookup_at(fs, "@type"@, 0);
                lemma_message_type_round_trip(m.msg_type);
            },
            A2AMessageV1Val::CreateAgentResponse(m) => {
                let fs = m.to_val()->Obj_0;
                assert(fs[0].0 == "@type"@);
                lemma_lookup_at(fs, "@type"@, 0);
                lemma_message_type_round_trip(m.msg_type);
            },
            A2AMessageV1Val::UpdateConnectionMethod(m) => {
                let fs = m.to_val()->Obj_0;
                assert(fs[0].0 == "@type"@);
                lemma_lookup_at(fs, "@type"@, 0);
                lemma_message_type_round_trip(m.msg_type);
            },
            A2AMessageV1Val::CreateKey(m) => {
                let fs = m.to_val()->Obj_0;
                assert(fs[0].0 == "@type"@);
                lemma_lookup_at(fs, "@type"@, 0);
                lemma_message_type_round_trip(m.msg_type);
            },
            A2AMessageV1Val::CreateKeyResponse(m) => {
                let fs = m.to_val()->Obj_0;
                assert(fs[0].0 == "@type"@);
                lemma_lookup_at(fs, "@type"@, 0);
                lemma_message_type_round_trip(m.msg_type);
            },
            A2AMessageV1Val::GetMessages(m) => {
                let fs = m.to_val()->Obj_0;
                assert(fs[0].0 == "@type"@);
                lemma_lookup_at(fs, "@type"@, 0);
                lemma_message_type_round_trip(m.msg_type);
            },
            A2AMessageV1Val::GetMessagesResponse(m) => {
                let fs = m.to_val()->Obj_0;
                assert(fs[0].0 == "@type"@);
                lemma_lookup_at(fs, "@type"@, 0);
                lemma_message_type_round_trip(m.msg_type);
            },
            A2AMessageV1Val::GetMessagesByConnections(m) => {
                let fs = m.to_val()->Obj_0;
                assert(fs[0].0 == "@type"@);
                lemma_lookup_at(fs, "@type"@, 0);
                lemma_message_type_round_trip(m.msg_type);
            },
            A2AMessageV1Val::GetMessagesByConnectionsResponse(m) => {
                let fs = m.to_val()->Obj_0;
                assert(fs[0].0 == "@type"@);
                lemma_lookup_at(fs, "@type"@, 0);
                lemma_message_type_round_trip(m.msg_type);
            },
            A2AMessageV1Val::CreateMessage(m) => {
                let fs = m.to_val()->Obj_0;
                assert(fs[0].0 == "@type"@);
                lemma_lookup_at(fs, "@type"@, 0);
                lemma_message_type_round_trip(MessageTypesVal::MessageTypeV1(m.msg_type));
            },
            A2AMessageV1Val::MessageDetail(m) => {
                match m {
                                    MessageDetailVal::General(g) => {
                                        let fs = g.to_val()->Obj_0;
                                        lemma_lookup_at(fs, "@type"@, 0);
                                        lemma_message_type_round_trip(MessageTypesVal::MessageTypeV1(g.msg_type));
                                    },
                                    MessageDetailVal::Other(_) => {},
                                }
            },
            A2AMessageV1Val::MessageCreated(m) => {
                let fs = m.to_val()->Obj_0;
                assert(fs[0].0 == "@type"@);
                lemma_lookup_at(fs, "@type"@, 0);
                lemma_message_type_round_trip(MessageTypesVal::MessageTypeV1(m.msg_type));
            },
            A2AMessageV1Val::MessageSent(m) => {
                let fs = m.to_val()->Obj_0;
                assert(fs[0].0 == "@type"@);
                lemma_lookup_at(fs, "@type"@, 0);
                lemma_message_type_round_trip(MessageTypesVal::MessageTypeV1(m.msg_type));
            },
            A2AMessageV1Val::UpdateConnection(m) => {
                let fs = m.to_val()->Obj_0;
                assert(fs[0].0 == "@type"@);
                lemma_lookup_at(fs, "@type"@, 0);
                lemma_message_type_round_trip(m.msg_type);
            },
            A2AMessageV1Val::UpdateConnectionResponse(m) => {
                let fs = m.to_val()->Obj_0;
                assert(fs[0].0 == "@type"@);
                lemma_lookup_at(fs, "@type"@, 0);
                lemma_message_type_round_trip(m.msg_type);
            },
            A2AMessageV1Val::UpdateMessageStatusByConnections(m) => {
                let fs = m.to_val()->Obj_0;
                assert(fs[0].0 == "@type"@);
                lemma_lookup_at(fs, "@type"@, 0);
                lemma_message_type_round_trip(m.msg_type);
            },
            A2AMessageV1Val::UpdateMessageStatusByConnectionsResponse(m) => {
                let fs = m.to_val()->Obj_0;
                assert(fs[0].0 == "@type"@);
                lemma_lookup_at(fs, "@type"@, 0);
                lemma_message_type_round_trip(m.msg_type);
            },
            A2AMessageV1Val::UpdateConfigs(m) => {
                let fs = m.to_val()->Obj_0;
                assert(fs[0].0 == "@type"@);
                lemma_lookup_at(fs, "@type"@, 0);
                lemma_message_type_round_trip(m.msg_type);
            },
            A2AMessageV1Val::UpdateConfigsResponse(m) => {
                let fs = m.to_val()->Obj_0;
                assert(fs[0].0 == "@type"@);
                lemma_lookup_at(fs, "@type"@, 0);
                lemma_message_type_round_trip(m.msg_type);
            },
    }
}

/// A well-formed message of the newer protocol carries a newer-shaped
/// `@type`: the discriminator reads under the newer shape and never under
/// the older one.
pub proof fn lemma_v2_type_shape(m: A2AMessageV2Val)
    requires
        m.wf(),
    ensures
        m.to_val() is Obj,
        ({
            let lk = JsonVal::fields_lookup(m.to_val()->Obj_0, "@type"@);
            &&& lk is Some
            &&& MessageTypeV2Val::from_val(lk->Some_0) is Some
            &&& MessageTypeV1Val::from_val(lk->Some_0) is None
        }),
{
    reveal_strlit("@type");
    match m {
            A2AMessageV2Val::Forward(m) => {
                let fs = m.to_val()->Obj_0;
                assert(fs[0].0 == "@type"@);
                lemma_lookup_at(fs, "@type"@, 0);
                lemma_message_type_round_trip(m.msg_type);
            },
            A2AMessageV2Val::Connect(m) => {
                let fs = m.to_val()->Obj_0;
                assert(fs[0].0 == "@type"@);
                lemma_lookup_at(fs, "@type"@, 0);
                lemma_message_type_round_trip(m.msg_type);
            },
            A2AMessageV2Val::ConnectResponse(m) => {
                let fs = m.to_val()->Obj_0;
                assert(fs[0].0 == "@type"@);
                lemma_lookup_at(fs, "@type"@, 0);
                lemma_message_type_round_trip(m.msg_type);
            },
            A2AMessageV2Val::SignUp(m) => {
                let fs = m.to_val()->Obj_0;
                assert(fs[0].0 == "@type"@);
                lemma_lookup_at(fs, "@type"@, 0);
                lemma_message_type_round_trip(m.msg_type);
            },
            A2AMessageV2Val::SignUpResponse(m) => {
                let fs = m.to_val()->Obj_0;
                assert(fs[0].0 == "@type"@);
                lemma_lookup_at(fs, "@type"@, 0);
                lemma_message_type_round_trip(m.msg_type);
            },
            A2AMessageV2Val::CreateAgent(m) => {
                let fs = m.to_val()->Obj_0;
                assert(fs[0].0 == "@type"@);
                lemma_lookup_at(fs, "@type"@, 0);
                lemma_message_type_round_trip(m.msg_type);
            },
            A2AMessageV2Val::CreateAgentResponse(m) => {
                let fs = m.to_val()->Obj_0;
                assert(fs[0].0 == "@type"@);
                lemma_lookup_at(fs, "@type"@, 0);
                lemma_message_type_round_trip(m.msg_type);
            },
            A2AMessageV2Val::UpdateConnectionMethod(m) => {
                let fs = m.to_val()->Obj_0;
                assert(fs[0].0 == "@type"@);
                lemma_lookup_at(fs, "@type"@, 0);
                lemma_message_type_round_trip(m.msg_type);
            },
            A2AMessageV2Val::CreateKey(m) => {
                let fs = m.to_val()->Obj_0;
                assert(fs[0].0 == "@type"@);
                lemma_lookup_at(fs, "@type"@, 0);
                lemma_message_type_round_trip(m.msg_type);
            },
            A2AMessageV2Val::CreateKeyResponse(m) => {
                let fs = m.to_val()->Obj_0;
                assert(fs[0].0 == "@type"@);
                lemma_lookup_at(fs, "@type"@, 0);
                lemma_message_type_round_trip(m.msg_type);
            },
            A2AMessageV2Val::GetMessages(m) => {
                let fs = m.to_val()->Obj_0;
                assert(fs[0].0 == "@type"@);
                lemma_lookup_at(fs, "@type"@, 0);
                lemma_message_type_round_trip(m.msg_type);
            },
            A2AMessageV2Val::GetMessagesResponse(m) => {
                let fs = m.to_val()->Obj_0;
                assert(fs[0].0 == "@type"@);
                lemma_lookup_at(fs, "@type"@, 0);
                lemma_message_type_round_trip(m.msg_type);
            },
            A2AMessageV2Val::GetMessagesByConnections(m) => {
                let fs = m.to_val()->Obj_0;
                assert(fs[0].0 == "@type"@);
                lemma_lookup_at(fs, "@type"@, 0);
                lemma_message_type_round_trip(m.msg_type);
            },
            A2AMessageV2Val::GetMessagesByConnectionsResponse(m) => {
                let fs = m.to_val()->Obj_0;
                assert(fs[0].0 == "@type"@);
                lemma_lookup_at(fs, "@type"@, 0);
                lemma_message_type_round_trip(m.msg_type);
            },
            A2AMessageV2Val::ConnectionRequest(m) => {
                let fs = m.to_val()->Obj_0;
                assert(fs[0].0 == "@type"@);
                lemma_lookup_at(fs, "@type"@, 0);
                lemma_message_type_round_trip(m.msg_type);
            },
            A2AMessageV2Val::ConnectionRequestResponse(m) => {
                let fs = m.to_val()->Obj_0;
                assert(fs[0].0 == "@type"@);
                lemma_lookup_at(fs, "@type"@, 0);
                lemma_message_type_round_trip(m.msg_type);
            },
            A2AMessageV2Val::ConnectionRequestAnswer(m) => {
                let fs = m.to_val()->Obj_0;
                assert(fs[0].0 == "@type"@);
                lemma_lookup_at(fs, "@type"@, 0);
                lemma_message_type_round_trip(m.msg_type);
            },
            A2AMessageV2Val::ConnectionRequestAnswerResponse(m) => {
                let fs = m.to_val()->Obj_0;
                assert(fs[0].0 == "@type"@);
                lemma_lookup_at(fs, "@type"@, 0);
                lemma_message_type_round_trip(m.msg_type);
            },
            A2AMessageV2Val::SendRemoteMessage(m) => {
                let fs = m.to_val()->Obj_0;
                assert(fs[0].0 == "@type"@);
                lemma_lookup_at(fs, "@type"@, 0);
                lemma_message_type_round_trip(MessageTypesVal::MessageTypeV2(m.msg_type));
            },
            A2AMessageV2Val::SendRemoteMessageResponse(m) => {
                let fs = m.to_val()->Obj_0;
                assert(fs[0].0 == "@type"@);
                lemma_lookup_at(fs, "@type"@, 0);
                lemma_message_type_round_trip(m.msg_type);
            },
            A2AMessageV2Val::UpdateConnection(m) => {
                let fs = m.to_val()->Obj_0;
                assert(fs[0].0 == "@type"@);
                lemma_lookup_at(fs, "@type"@, 0);
                lemma_message_type_round_trip(m.msg_type);
            },
            A2AMessageV2Val::UpdateConnectionResponse(m) => {
                let fs = m.to_val()->Obj_0;
                assert(fs[0].0 == "@type"@);
                lemma_lookup_at(fs, "@type"@, 0);
                lemma_message_type_round_trip(m.msg_type);
            },
            A2AMessageV2Val::UpdateMessageStatusByConnections(m) => {
                let fs = m.to_val()->Obj_0;
                assert(fs[0].0 == "@type"@);
                lemma_lookup_at(fs, "@type"@, 0);
                lemma_message_type_round_trip(m.msg_type);
            },
            A2AMessageV2Val::UpdateMessageStatusByConnectionsResponse(m) => {
                let fs = m.to_val()->Obj_0;
                assert(fs[0].0 == "@type"@);
                lemma_lookup_at(fs, "@type"@, 0);
                lemma_message_type_round_trip(m.msg_type);
            },
            A2AMessageV2Val::UpdateConfigs(m) => {
                let fs = m.to_val()->Obj_0;
                assert(fs[0].0 == "@type"@);
                lemma_lookup_at(fs, "@type"@, 0);
                lemma_message_type_round_trip(m.msg_type);
            },
            A2AMessageV2Val::UpdateConfigsResponse(m) => {
                let fs = m.to_val()->Obj_0;
                assert(fs[0].0 == "@type"@);
                lemma_lookup_at(fs, "@type"@, 0);
                lemma_message_type_round_trip(m.msg_type);
            },
    }
}

/// A message encoded under one protocol version never reads under the
/// other version's dispatch.
pub proof fn lemma_version_isolation(m1: A2AMessageV1Val, m2: A2AMessageV2Val)
    requires
        m1.wf(),
        m2.wf(),
    ensures
        A2AMessageV2Val::from_val(m1.to_val()) is None,
        A2AMessageV1Val::from_val(m2.to_val()) is None,
{
    lemma_v1_type_shape(m1);
    lemma_v2_type_shape(m2);
}

/// The model of [`A2AMessage`].
pub enum A2AMessageVal {
    Version1(A2AMessageV1Val),
    Version2(A2AMessageV2Val),
}

/// A message of either protocol version.
#[derive(Debug, PartialEq)]
pub enum A2AMessage {
    Version1(A2AMessageV1),
    Version2(A2AMessageV2),
}

impl View for A2AMessage {
    type V = A2AMessageVal;

    open spec fn view(&self) -> A2AMessageVal {
        match self {
            A2AMessage::Version1(m) => A2AMessageVal::Version1(m@),
            A2AMessage::Version2(m) => A2AMessageVal::Version2(m@),
        }
    }
}

impl A2AMessageVal {
    /// The wire object: the wrapped message itself, with no wrapper.
    pub open spec fn to_val(self) -> JsonVal {
        match self {
            A2AMessageVal::Version1(m) => m.to_val(),
            A2AMessageVal::Version2(m) => m.to_val(),
        }
    }

    /// Reads a message of unknown version: the `@type` shape picks the
    /// dispatch, the newer shape first.
    pub open spec fn from_val(j: JsonVal) -> Option<A2AMessageVal> {
        match j {
            JsonVal::Obj(fs) => match JsonVal::fields_lookup(fs, "@type"@) {
                Option::Some(tv) => match MessageTypesVal::from_val(tv) {
                    Option::Some(MessageTypesVal::MessageTypeV2(_)) => match A2AMessageV2Val::from_val(
                        j,
                    ) {
                        Option::Some(m) => Option::Some(A2AMessageVal::Version2(m)),
                        Option::None => Option::None,
                    },
                    Option::Some(MessageTypesVal::MessageTypeV1(_)) => match A2AMessageV1Val::from_val(
                        j,
                    ) {
                        Option::Some(m) => Option::Some(A2AMessageVal::Version1(m)),
                        Option::None => Option::None,
                    },
                    Option::None => Option::None,
                },
                Option::None => Option::None,
            },
            _ => Option::None,
        }
    }

    /// Whether the wrapped message is well formed for its own version.
    pub open spec fn wf(self) -> bool {
        match self {
            A2AMessageVal::Version1(m) => m.wf(),
            A2AMessageVal::Version2(m) => m.wf(),
        }
    }
}

/// Every well-formed message reads back to the same variant with the same
/// contents, whichever version encoded it.
pub proof fn lemma_a2a_round_trip(m: A2AMessageVal)
    requires
        m.wf(),
    ensures
        A2AMessageVal::from_val(m.to_val()) == Option::Some(m),
{
    match m {
        A2AMessageVal::Version1(m1) => {
            lemma_v1_type_shape(m1);
            lemma_a2a_v1_round_trip(m1);
        },
        A2AMessageVal::Version2(m2) => {
            lemma_v2_type_shape(m2);
            lemma_a2a_v2_round_trip(m2);
        },
    }
}

impl A2AMessageV1 {
    /// Writes the message as its wire object: the wrapped variant itself.
    pub fn to_json(&self) -> (r: Json)
        ensures
            r@ == self@.to_val(),
    {
        match self {
            A2AMessageV1::Forward(m) => m.to_json(),
            A2AMessageV1::Connect(m) => m.to_json(),
            A2AMessageV1::ConnectResponse(m) => m.to_json(),
            A2AMessageV1::SignUp(m) => m.to_json(),
            A2AMessageV1::SignUpResponse(m) => m.to_json(),
            A2AMessageV1::CreateAgent(m) => m.to_json(),
            A2AMessageV1::CreateAgentResponse(m) => m.to_json(),
            A2AMessageV1::UpdateConnectionMethod(m) => m.to_json(),
            A2AMessageV1::CreateKey(m) => m.to_json(),
            A2AMessageV1::CreateKeyResponse(m) => m.to_json(),
            A2AMessageV1::GetMessages(m) => m.to_json(),
            A2AMessageV1::GetMessagesResponse(m) => m.to_json(),
            A2AMessageV1::GetMessagesByConnections(m) => m.to_json(),
            A2AMessageV1::GetMessagesByConnectionsResponse(m) => m.to_json(),
            A2AMessageV1::CreateMessage(m) => m.to_json(),
            A2AMessageV1::MessageDetail(m) => m.to_json(),
            A2AMessageV1::MessageCreated(m) => m.to_json(),
            A2AMessageV1::MessageSent(m) => m.to_json(),
            A2AMessageV1::UpdateConnection(m) => m.to_json(),
            A2AMessageV1::UpdateConnectionResponse(m) => m.to_json(),
            A2AMessageV1::UpdateMessageStatusByConnections(m) => m.to_json(),
            A2AMessageV1::UpdateMessageStatusByConnectionsResponse(m) => m.to_json(),
            A2AMessageV1::UpdateConfigs(m) => m.to_json(),
            A2AMessageV1::UpdateConfigsResponse(m) => m.to_json(),
        }
    }

    /// Reads a message from a wire value, dispatching on its `@type`.
    #[verifier::rlimit(100)]
    pub fn from_json(j: &Json) -> (r: Option<A2AMessageV1>)
        ensures
            match r {
                Option::Some(m) => A2AMessageV1Val::from_val(j@) == Option::Some(m@),
                Option::None => A2AMessageV1Val::from_val(j@) is None,
            },
    {
        let fields = match j {
            Json::Obj(fields) => fields,
            _ => {
                return Option::None;
            },
        };
        let tv = match obj_get(fields, "@type") {
            Option::Some(tv) => tv,
            Option::None => {
                return Option::None;
            },
        };
        let mt = match MessageTypeV1::from_json(tv) {
            Option::Some(mt) => mt,
            Option::None => {
                return Option::None;
            },
        };
        let name = mt.name;
        if str_eq(name.as_str(), "FWD") {
            match Forward::from_json(j) {
                Option::Some(m) => Option::Some(A2AMessageV1::Forward(m)),
                Option::None => Option::None,
            }
        } else if str_eq(name.as_str(), "CONNECT") {
            match GenericMsg::from_json(j) {
                Option::Some(m) => Option::Some(A2AMessageV1::Connect(m)),
                Option::None => Option::None,
            }
        } else if str_eq(name.as_str(), "CONNECTED") {
            match GenericMsg::from_json(j) {
                Option::Some(m) => Option::Some(A2AMessageV1::ConnectResponse(m)),
                Option::None => Option::None,
            }
        } else if str_eq(name.as_str(), "SIGNUP") {
            match GenericMsg::from_json(j) {
                Option::Some(m) => Option::Some(A2AMessageV1::SignUp(m)),
                Option::None => Option::None,
            }
        } else if str_eq(name.as_str(), "SIGNED_UP") {
            match GenericMsg::from_json(j) {
                Option::Some(m) => Option::Some(A2AMessageV1::SignUpResponse(m)),
                Option::None => Option::None,
            }
        } else if str_eq(name.as_str(), "CREATE_AGENT") {
            match GenericMsg::from_json(j) {
                Option::Some(m) => Option::Some(A2AMessageV1::CreateAgent(m)),
                Option::None => Option::None,
            }
        } else if str_eq(name.as_str(), "AGENT_CREATED") {
            match GenericMsg::from_json(j) {
                Option::Some(m) => Option::Some(A2AMessageV1::CreateAgentResponse(m)),
                Option::None => Option::None,
            }
        } else if str_eq(name.as_str(), "UPDATE_COM_METHOD") {
            match GenericMsg::from_json(j) {
                Option::Some(m) => Option::Some(A2AMessageV1::UpdateConnectionMethod(m)),
                Option::None => Option::None,
            }
        } else if str_eq(name.as_str(), "CREATE_KEY") {
            match GenericMsg::from_json(j) {
                Option::Some(m) => Option::Some(A2AMessageV1::CreateKey(m)),
                Option::None => Option::None,
            }
        } else if str_eq(name.as_str(), "KEY_CREATED") {
            match GenericMsg::from_json(j) {
                Option::Some(m) => Option::Some(A2AMessageV1::CreateKeyResponse(m)),
                Option::None => Option::None,
            }
        } else if str_eq(name.as_str(), "GET_MSGS") {
            match GenericMsg::from_json(j) {
                Option::Some(m) => Option::Some(A2AMessageV1::GetMessages(m)),
                Option::None => Option::None,
            }
        } else if str_eq(name.as_str(), "MSGS") {
            match GenericMsg::from_json(j) {
                Option::Some(m) => Option::Some(A2AMessageV1::GetMessagesResponse(m)),
                Option::None => Option::None,
            }
        } else if str_eq(name.as_str(), "GET_MSGS_BY_CONNS") {
            match GenericMsg::from_json(j) {
                Option::Some(m) => Option::Some(A2AMessageV1::GetMessagesByConnections(m)),
                Option::None => Option::None,
            }
        } else if str_eq(name.as_str(), "MSGS_BY_CONNS") {
            match GenericMsg::from_json(j) {
                Option::Some(m) => Option::Some(A2AMessageV1::GetMessagesByConnectionsResponse(m)),
                Option::None => Option::None,
            }
        } else if str_eq(name.as_str(), "CREATE_MSG") {
            match CreateMessage::from_json(j) {
                Option::Some(m) => Option::Some(A2AMessageV1::CreateMessage(m)),
                Option::None => Option::None,
            }
        } else if str_eq(name.as_str(), "MSG_DETAIL") {
            Option::Some(A2AMessageV1::MessageDetail(MessageDetail::from_json(j)))
        } else if str_eq(name.as_str(), "MSG_CREATED") {
            match MessageCreated::from_json(j) {
                Option::Some(m) => Option::Some(A2AMessageV1::MessageCreated(m)),
                Option::None => Option::None,
            }
        } else if str_eq(name.as_str(), "MSG_SENT") || str_eq(name.as_str(), "MSGS_SENT") {
            match MessageSent::from_json(j) {
                Option::Some(m) => Option::Some(A2AMessageV1::MessageSent(m)),
                Option::None => Option::None,
            }
        } else if str_eq(name.as_str(), "UPDATE_CONN_STATUS") {
            match GenericMsg::from_json(j) {
                Option::Some(m) => Option::Some(A2AMessageV1::UpdateConnection(m)),
                Option::None => Option::None,
            }
        } else if str_eq(name.as_str(), "CONN_STATUS_UPDATED") {
            match GenericMsg::from_json(j) {
                Option::Some(m) => Option::Some(A2AMessageV1::UpdateConnectionResponse(m)),
                Option::None => Option::None,
            }
        } else if str_eq(name.as_str(), "UPDATE_MSG_STATUS_BY_CONNS") {
            match GenericMsg::from_json(j) {
                Option::Some(m) => Option::Some(A2AMessageV1::UpdateMessageStatusByConnections(m)),
                Option::None => Option::None,
            }
        } else if str_eq(name.as_str(), "MSG_STATUS_UPDATED_BY_CONNS") {
            match GenericMsg::from_json(j) {
                Option::Some(m) => Option::Some(A2AMessageV1::UpdateMessageStatusByConnectionsResponse(m)),
                Option::None => Option::None,
            }
        } else if str_eq(name.as_str(), "UPDATE_CONFIGS") {
            match GenericMsg::from_json(j) {
                Option::Some(m) => Option::Some(A2AMessageV1::UpdateConfigs(m)),
                Option::None => Option::None,
            }
        } else if str_eq(name.as_str(), "CONFIGS_UPDATED") {
            match GenericMsg::from_json(j) {
                Option::Some(m) => Option::Some(A2AMessageV1::UpdateConfigsResponse(m)),
                Option::None => Option::None,
            }
        } else {
            Option::None
        }
    }
}

impl A2AMessageV2 {
    /// Writes the message as its wire object: the wrapped variant itself.
    pub fn to_json(&self) -> (r: Json)
        ensures
            r@ == self@.to_val(),
    {
        match self {
            A2AMessageV2::Forward(m) => m.to_json(),
            A2AMessageV2::Connect(m) => m.to_json(),
            A2AMessageV2::ConnectResponse(m) => m.to_json(),
            A2AMessageV2::SignUp(m) => m.to_json(),
            A2AMessageV2::SignUpResponse(m) => m.to_json(),
            A2AMessageV2::CreateAgent(m) => m.to_json(),
            A2AMessageV2::CreateAgentResponse(m) => m.to_json(),
            A2AMessageV2::UpdateConnectionMethod(m) => m.to_json(),
            A2AMessageV2::CreateKey(m) => m.to_json(),
            A2AMessageV2::CreateKeyResponse(m) => m.to_json(),
            A2AMessageV2::GetMessages(m) => m.to_json(),
            A2AMessageV2::GetMessagesResponse(m) => m.to_json(),
            A2AMessageV2::GetMessagesByConnections(m) => m.to_json(),
            A2AMessageV2::GetMessagesByConnectionsResponse(m) => m.to_json(),
            A2AMessageV2::ConnectionRequest(m) => m.to_json(),
            A2AMessageV2::ConnectionRequestResponse(m) => m.to_json(),
            A2AMessageV2::ConnectionRequestAnswer(m) => m.to_json(),
            A2AMessageV2::ConnectionRequestAnswerResponse(m) => m.to_json(),
            A2AMessageV2::SendRemoteMessage(m) => m.to_json(),
            A2AMessageV2::SendRemoteMessageResponse(m) => m.to_json(),
            A2AMessageV2::UpdateConnection(m) => m.to_json(),
            A2AMessageV2::UpdateConnectionResponse(m) => m.to_json(),
            A2AMessageV2::UpdateMessageStatusByConnections(m) => m.to_json(),
            A2AMessageV2::UpdateMessageStatusByConnectionsResponse(m) => m.to_json(),
            A2AMessageV2::UpdateConfigs(m) => m.to_json(),
            A2AMessageV2::UpdateConfigsResponse(m) => m.to_json(),
        }
    }

    /// Reads a message from a wire value, dispatching on its `@type`.
    #[verifier::rlimit(100)]
    pub fn from_json(j: &Json) -> (r: Option<A2AMessageV2>)
        ensures
            match r {
                Option::Some(m) => A2AMessageV2Val::from_val(j@) == Option::Some(m@),
                Option::None => A2AMessageV2Val::from_val(j@) is None,
            },
    {
        let fields = match j {
            Json::Obj(fields) => fields,
            _ => {
                return Option::None;
            },
        };
        let tv = match obj_get(fields, "@type") {
            Option::Some(tv) => tv,
            Option::None => {
                return Option::None;
            },
        };
        let mt = match MessageTypeV2::from_json(tv) {
            Option::Some(mt) => mt,
            Option::None => {
                return Option::None;
            },
        };
        let name = mt.type_;
        if str_eq(name.as_str(), "FWD") {
            match Forward::from_json(j) {
                Option::Some(m) => Option::Some(A2AMessageV2::Forward(m)),
                Option::None => Option::None,
            }
        } else if str_eq(name.as_str(), "CONNECT") {
            match GenericMsg::from_json(j) {
                Option::Some(m) => Option::Some(A2AMessageV2::Connect(m)),
                Option::None => Option::None,
            }
        } else if str_eq(name.as_str(), "CONNECTED") {
            match GenericMsg::from_json(j) {
                Option::Some(m) => Option::Some(A2AMessageV2::ConnectResponse(m)),
                Option::None => Option::None,
            }
        } else if str_eq(name.as_str(), "SIGNUP") {
            match GenericMsg::from_json(j) {
                Option::Some(m) => Option::Some(A2AMessageV2::SignUp(m)),
                Option::None => Option::None,
            }
        } else if str_eq(name.as_str(), "SIGNED_UP") {
            match GenericMsg::from_json(j) {
                Option::Some(m) => Option::Some(A2AMessageV2::SignUpResponse(m)),
                Option::None => Option::None,
            }
        } else if str_eq(name.as_str(), "CREATE_AGENT") {
            match GenericMsg::from_json(j) {
                Option::Some(m) => Option::Some(A2AMessageV2::CreateAgent(m)),
                Option::None => Option::None,
            }
        } else if str_eq(name.as_str(), "AGENT_CREATED") {
            match GenericMsg::from_json(j) {
                Option::Some(m) => Option::Some(A2AMessageV2::CreateAgentResponse(m)),
                Option::None => Option::None,
            }
        } else if str_eq(name.as_str(), "UPDATE_COM_METHOD") {
            match GenericMsg::from_json(j) {
                Option::Some(m) => Option::Some(A2AMessageV2::UpdateConnectionMethod(m)),
                Option::None => Option::None,
            }
        } else if str_eq(name.as_str(), "CREATE_KEY") {
            match GenericMsg::from_json(j) {
                Option::Some(m) => Option::Some(A2AMessageV2::CreateKey(m)),
                Option::None => Option::None,
            }
        } else if str_eq(name.as_str(), "KEY_CREATED") {
            match GenericMsg::from_json(j) {
                Option::Some(m) => Option::Some(A2AMessageV2::CreateKeyResponse(m)),
                Option::None => Option::None,
            }
        } else if str_eq(name.as_str(), "GET_MSGS") {
            match GenericMsg::from_json(j) {
                Option::Some(m) => Option::Some(A2AMessageV2::GetMessages(m)),
                Option::None => Option::None,
            }
        } else if str_eq(name.as_str(), "MSGS") {
            match GenericMsg::from_json(j) {
                Option::Some(m) => Option::Some(A2AMessageV2::GetMessagesResponse(m)),
                Option::None => Option::None,
            }
        } else if str_eq(name.as_str(), "GET_MSGS_BY_CONNS") {
            match GenericMsg::from_json(j) {
                Option::Some(m) => Option::Some(A2AMessageV2::GetMessagesByConnections(m)),
                Option::None => Option::None,
            }
        } else if str_eq(name.as_str(), "MSGS_BY_CONNS") {
            match GenericMsg::from_json(j) {
                Option::Some(m) => Option::Some(A2AMessageV2::GetMessagesByConnectionsResponse(m)),
                Option::None => Option::None,
            }
        } else if str_eq(name.as_str(), "CONN_REQUEST") {
            match GenericMsg::from_json(j) {
                Option::Some(m) => Option::Some(A2AMessageV2::ConnectionRequest(m)),
                Option::None => Option::None,
            }
        } else if str_eq(name.as_str(), "CONN_REQUEST_RESP") {
            match GenericMsg::from_json(j) {
                Option::Some(m) => Option::Some(A2AMessageV2::ConnectionRequestResponse(m)),
                Option::None => Option::None,
            }
        } else if str_eq(name.as_str(), "CONN_REQUEST_ANSWER") {
            match GenericMsg::from_json(j) {
                Option::Some(m) => Option::Some(A2AMessageV2::ConnectionRequestAnswer(m)),
                Option::None => Option::None,
            }
        } else if str_eq(name.as_str(), "CONN_REQUEST_ANSWER_RESP") {
            match GenericMsg::from_json(j) {
                Option::Some(m) => Option::Some(A2AMessageV2::ConnectionRequestAnswerResponse(m)),
                Option::None => Option::None,
            }
        } else if str_eq(name.as_str(), "SEND_REMOTE_MSG") {
            match SendRemoteMessage::from_json(j) {
                Option::Some(m) => Option::Some(A2AMessageV2::SendRemoteMessage(m)),
                Option::None => Option::None,
            }
        } else if str_eq(name.as_str(), "REMOTE_MSG_SENT") {
            match SendRemoteMessageResponse::from_json(j) {
                Option::Some(m) => Option::Some(A2AMessageV2::SendRemoteMessageResponse(m)),
                Option::None => Option::None,
            }
        } else if str_eq(name.as_str(), "UPDATE_CONN_STATUS") {
            match GenericMsg::from_json(j) {
                Option::Some(m) => Option::Some(A2AMessageV2::UpdateConnection(m)),
                Option::None => Option::None,
            }
        } else if str_eq(name.as_str(), "CONN_STATUS_UPDATED") {
            match GenericMsg::from_json(j) {
                Option::Some(m) => Option::Some(A2AMessageV2::UpdateConnectionResponse(m)),
                Option::None => Option::None,
            }
        } else if str_eq(name.as_str(), "UPDATE_MSG_STATUS_BY_CONNS") {
            match GenericMsg::from_json(j) {
                Option::Some(m) => Option::Some(A2AMessageV2::UpdateMessageStatusByConnections(m)),
                Option::None => Option::None,
            }
        } else if str_eq(name.as_str(), "MSG_STATUS_UPDATED_BY_CONNS") {
            match GenericMsg::from_json(j) {
                Option::Some(m) => Option::Some(A2AMessageV2::UpdateMessageStatusByConnectionsResponse(m)),
                Option::None => Option::None,
            }
        } else if str_eq(name.as_str(), "UPDATE_CONFIGS") {
            match GenericMsg::from_json(j) {
                Option::Some(m) => Option::Some(A2AMessageV2::UpdateConfigs(m)),
                Option::None => Option::None,
            }
        } else if str_eq(name.as_str(), "CONFIGS_UPDATED") {
            match GenericMsg::from_json(j) {
                Option::Some(m) => Option::Some(A2AMessageV2::UpdateConfigsResponse(m)),
                Option::None => Option::None,
            }
        } else {
            Option::None
        }
    }
}

impl A2AMessage {
    /// Writes the message as its wire object: the wrapped message itself.
    pub fn to_json(&self) -> (r: Json)
        ensures
            r@ == self@.to_val(),
    {
        match self {
            A2AMessage::Version1(m) => m.to_json(),
            A2AMessage::Version2(m) => m.to_json(),
        }
    }

    /// Reads a message of unknown version, preferring the newer `@type`
    /// shape.
    pub fn from_json(j: &Json) -> (r: Option<A2AMessage>)
        ensures
            match r {
                Option::Some(m) => A2AMessageVal::from_val(j@) == Option::Some(m@),
                Option::None => A2AMessageVal::from_val(j@) is None,
            },
    {
        let fields = match j {
            Json::Obj(fields) => fields,
            _ => {
                return Option::None;
            },
        };
        let tv = match obj_get(fields, "@type") {
            Option::Some(tv) => tv,
            Option::None => {
                return Option::None;
            },
        };
        match MessageTypes::from_json(tv) {
            Option::Some(MessageTypes::MessageTypeV2(_)) => match A2AMessageV2::from_json(j) {
                Option::Some(m) => Option::Some(A2AMessage::Version2(m)),
                Option::None => Option::None,
            },
            Option::Some(MessageTypes::MessageTypeV1(_)) => match A2AMessageV1::from_json(j) {
                Option::Some(m) => Option::Some(A2AMessage::Version1(m)),
                Option::None => Option::None,
            },
            Option::None => Option::None,
        }
    }
}

} // verus!
