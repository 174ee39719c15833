//! String codecs for message status codes and remote message kinds.
//!
//! Both serialize as plain strings.  Status codes form a closed set and fail
//! on anything unknown; remote kinds keep unknown strings as they are, so
//! that newer peers' values survive a round trip.

use vstd::prelude::*;
use crate::error::CodecError;
use crate::json::str_eq;

verus! {

/// A message's processing state, written `MS-101` through `MS-106`.
#[derive(Clone, Copy, Debug, PartialEq, Eq, Structural)]
pub enum MessageStatusCode {
    Created,
    Sent,
    Pending,
    Accepted,
    Rejected,
    Reviewed,
}

impl MessageStatusCode {
    /// The code written on the wire.
    pub open spec fn wire_spec(self) -> Seq<char> {
        match self {
            MessageStatusCode::Created => "MS-101"@,
            MessageStatusCode::Sent => "MS-102"@,
            MessageStatusCode::Pending => "MS-103"@,
            MessageStatusCode::Accepted => "MS-104"@,
            MessageStatusCode::Rejected => "MS-105"@,
            MessageStatusCode::Reviewed => "MS-106"@,
        }
    }

    /// The status a wire code denotes, if any.
    pub open spec fn from_wire_spec(s: Seq<char>) -> Option<MessageStatusCode> {
        if s == "MS-101"@ {
            Option::Some(MessageStatusCode::Created)
        } else if s == "MS-102"@ {
            Option::Some(MessageStatusCode::Sent)
        } else if s == "MS-103"@ {
            Option::Some(MessageStatusCode::Pending)
        } else if s == "MS-104"@ {
            Option::Some(MessageStatusCode::Accepted)
        } else if s == "MS-105"@ {
            Option::Some(MessageStatusCode::Rejected)
        } else if s == "MS-106"@ {
            Option::Some(MessageStatusCode::Reviewed)
        } else {
            Option::None
        }
    }

    /// Writes the status as its wire code.
    pub fn to_wire(&self) -> (r: String)
        ensures
            r@ == self.wire_spec(),
    {
        match self {
            MessageStatusCode::Created => "MS-101".to_owned(),
            MessageStatusCode::Sent => "MS-102".to_owned(),
            MessageStatusCode::Pending => "MS-103".to_owned(),
            MessageStatusCode::Accepted => "MS-104".to_owned(),
            MessageStatusCode::Rejected => "MS-105".to_owned(),
            MessageStatusCode::Reviewed => "MS-106".to_owned(),
        }
    }

    /// Reads a status back from its wire code; unknown codes fail as
    /// ill-formed JSON.
    pub fn from_wire(s: &str) -> (r: Result<MessageStatusCode, CodecError>)
        ensures
            match r {
                Result::Ok(c) => Self::from_wire_spec(s@) == Option::Some(c),
                Result::Err(e) => Self::from_wire_spec(s@) is None && e == CodecError::InvalidJson,
            },
    {
        if str_eq(s, "MS-101") {
            Result::Ok(MessageStatusCode::Created)
        } else if str_eq(s, "MS-102") {
            Result::Ok(MessageStatusCode::Sent)
        } else if str_eq(s, "MS-103") {
            Result::Ok(MessageStatusCode::Pending)
        } else if str_eq(s, "MS-104") {
            Result::Ok(MessageStatusCode::Accepted)
        } else if str_eq(s, "MS-105") {
            Result::Ok(MessageStatusCode::Rejected)
        } else if str_eq(s, "MS-106") {
            Result::Ok(MessageStatusCode::Reviewed)
        } else {
            Result::Err(CodecError::InvalidJson)
        }
    }
}

/// Every status code survives a round trip over the wire.
pub proof fn lemma_status_round_trip(c: MessageStatusCode)
    ensures
        MessageStatusCode::from_wire_spec(c.wire_spec()) == Option::Some(c),
{
    reveal_strlit("MS-101");
    reveal_strlit("MS-102");
    reveal_strlit("MS-103");
    reveal_strlit("MS-104");
    reveal_strlit("MS-105");
    reveal_strlit("MS-106");
    assert("MS-101"@[5] == '1' && "MS-102"@[5] == '2' && "MS-103"@[5] == '3' && "MS-104"@[5]
        == '4' && "MS-105"@[5] == '5' && "MS-106"@[5] == '6');
}

/// The model of [`RemoteMessageType`].
pub enum RemoteMessageTypeVal {
    Other(Seq<char>),
    ConnReq,
    ConnReqAnswer,
    CredOffer,
    CredReq,
    Cred,
    ProofReq,
    Proof,
}

/// The kind of an application message relayed through the agency.
#[derive(Clone, Debug, PartialEq, Eq)]
pub enum RemoteMessageType {
    Other(String),
    ConnReq,
    ConnReqAnswer,
    CredOffer,
    CredReq,
    Cred,
    ProofReq,
    Proof,
}

impl View for RemoteMessageType {
    type V = RemoteMessageTypeVal;

    open spec fn view(&self) -> RemoteMessageTypeVal {
        match self {
            RemoteMessageType::Other(s) => RemoteMessageTypeVal::Other(s@),
            RemoteMessageType::ConnReq => RemoteMessageTypeVal::ConnReq,
            RemoteMessageType::ConnReqAnswer => RemoteMessageTypeVal::ConnReqAnswer,
            RemoteMessageType::CredOffer => RemoteMessageTypeVal::CredOffer,
            RemoteMessageType::CredReq => RemoteMessageTypeVal::CredReq,
            RemoteMessageType::Cred => RemoteMessageTypeVal::Cred,
            RemoteMessageType::ProofReq => RemoteMessageTypeVal::ProofReq,
            RemoteMessageType::Proof => RemoteMessageTypeVal::Proof,
        }
    }
}

impl RemoteMessageTypeVal {
    /// The kind's name on the wire.
    pub open spec fn wire_spec(self) -> Seq<char> {
        match self {
            RemoteMessageTypeVal::ConnReq => "connReq"@,
            RemoteMessageTypeVal::ConnReqAnswer => "connReqAnswer"@,
            RemoteMessageTypeVal::CredOffer => "credOffer"@,
            RemoteMessageTypeVal::CredReq => "credReq"@,
            RemoteMessageTypeVal::Cred => "cred"@,
            RemoteMessageTypeVal::ProofReq => "proofReq"@,
            RemoteMessageTypeVal::Proof => "proof"@,
            RemoteMessageTypeVal::Other(s) => s,
        }
    }

    /// The kind a wire name denotes; unrecognized names are kept as they are.
    pub open spec fn from_wire_spec(s: Seq<char>) -> RemoteMessageTypeVal {
        if s == "connReq"@ {
            RemoteMessageTypeVal::ConnReq
        } else if s == "connReqAnswer"@ {
            RemoteMessageTypeVal::ConnReqAnswer
        } else if s == "credOffer"@ {
            RemoteMessageTypeVal::CredOffer
        } else if s == "credReq"@ {
            RemoteMessageTypeVal::CredReq
        } else if s == "cred"@ {
            RemoteMessageTypeVal::Cred
        } else if s == "proofReq"@ {
            RemoteMessageTypeVal::ProofReq
        } else if s == "proof"@ {
            RemoteMessageTypeVal::Proof
        } else {
            RemoteMessageTypeVal::Other(s)
        }
    }
}

impl RemoteMessageType {
    /// Writes the kind as its wire name.
    pub fn to_wire(&self) -> (r: String)
        ensures
            r@ == self@.wire_spec(),
    {
        match self {
            RemoteMessageType::ConnReq => "connReq".to_owned(),
            RemoteMessageType::ConnReqAnswer => "connReqAnswer".to_owned(),
            RemoteMessageType::CredOffer => "credOffer".to_owned(),
            RemoteMessageType::CredReq => "credReq".to_owned(),
            RemoteMessageType::Cred => "cred".to_owned(),
            RemoteMessageType::ProofReq => "proofReq".to_owned(),
            RemoteMessageType::Proof => "proof".to_owned(),
            RemoteMessageType::Other(s) => s.clone(),
        }
    }

    /// Reads a kind from its wire name, keeping unrecognized names.
    pub fn from_wire(s: &str) -> (r: RemoteMessageType)
        ensures
            r@ == RemoteMessageTypeVal::from_wire_spec(s@),
    {
        if str_eq(s, "connReq") {
            RemoteMessageType::ConnReq
        } else if str_eq(s, "connReqAnswer") {
            RemoteMessageType::ConnReqAnswer
        } else if str_eq(s, "credOffer") {
            RemoteMessageType::CredOffer
        } else if str_eq(s, "credReq") {
            RemoteMessageType::CredReq
        } else if str_eq(s, "cred") {
            RemoteMessageType::Cred
        } else if str_eq(s, "proofReq") {
            RemoteMessageType::ProofReq
        } else if str_eq(s, "proof") {
            RemoteMessageType::Proof
        } else {
            RemoteMessageType::Other(s.to_owned())
        }
    }
}

/// Whatever string a remote kind was read from, reading its own wire form
/// back gives the same kind; in particular unrecognized strings survive as
/// `Other`.
pub proof fn lemma_remote_kind_round_trip(s: Seq<char>)
    ensures
        RemoteMessageTypeVal::from_wire_spec(
            RemoteMessageTypeVal::from_wire_spec(s).wire_spec(),
        ) == RemoteMessageTypeVal::from_wire_spec(s),
{
}

} // verus!
