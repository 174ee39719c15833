//! The inner-payload envelope for application messages.
//!
//! A payload pairs a version-tagged `@type` with the application data as a
//! string.  Under the older protocol the `@type` is `{ name, ver, fmt }`
//! with SCREAMING_SNAKE kind names; under the newer one it is the usual
//! four-field shape with kebab-case kind names.  The codec builds the
//! payload tree; the caller serializes it (MessagePack or JSON text by
//! version) and hands the bytes to the crypto provider.

use vstd::prelude::*;
use crate::error::CodecError;
use crate::field::{get_str, str_field_spec};
use crate::json::{
    Json, JsonVal, json_fields_view, lemma_json_fields_view, lemma_lookup_at, obj_get,
};
use crate::message_type::{
    MessageFamilies, MessageFamiliesVal, MessageTypeV2, MessageTypeV2Val, family_wf,
    lemma_message_type_round_trip, well_known_did, well_known_did_spec, MessageTypesVal,
};
use crate::settings::ProtocolTypes;

verus! {

/// The model of [`PayloadTypeV1`].
pub struct PayloadTypeV1Val {
    pub name: Seq<char>,
    pub ver: Seq<char>,
    pub fmt: Seq<char>,
}

/// The older protocol's payload `@type`: `{ name, ver, fmt }`.
#[derive(Clone, Debug, PartialEq, Eq)]
pub struct PayloadTypeV1 {
    pub name: String,
    pub ver: String,
    pub fmt: String,
}

impl View for PayloadTypeV1 {
    type V = PayloadTypeV1Val;

    open spec fn view(&self) -> PayloadTypeV1Val {
        PayloadTypeV1Val { name: self.name@, ver: self.ver@, fmt: self.fmt@ }
    }
}

impl PayloadTypeV1Val {
    /// The wire object of the older payload `@type`.
    pub open spec fn to_val(self) -> JsonVal {
        JsonVal::Obj(
            seq![
                ("name"@, JsonVal::Str(self.name)),
                ("ver"@, JsonVal::Str(self.ver)),
                ("fmt"@, JsonVal::Str(self.fmt)),
            ],
        )
    }

    /// Reads the older payload `@type` from a wire object.
    pub open spec fn from_val(j: JsonVal) -> Option<PayloadTypeV1Val> {
        match j {
            JsonVal::Obj(fs) => match (
                str_field_spec(fs, "name"@),
                str_field_spec(fs, "ver"@),
                str_field_spec(fs, "fmt"@),
            ) {
                (Option::Some(name), Option::Some(ver), Option::Some(fmt)) => Option::Some(
                    PayloadTypeV1Val { name, ver, fmt },
                ),
                _ => Option::None,
            },
            _ => Option::None,
        }
    }
}

/// The model of [`PayloadTypes`].
pub enum PayloadTypesVal {
    PayloadTypeV1(PayloadTypeV1Val),
    PayloadTypeV2(MessageTypeV2Val),
}

/// A payload `@type` of either protocol version.  When read off the wire,
/// the older shape is attempted first and the newer one second.
#[derive(Clone, Debug, PartialEq, Eq)]
pub enum PayloadTypes {
    PayloadTypeV1(PayloadTypeV1),
    PayloadTypeV2(MessageTypeV2),
}

impl View for PayloadTypes {
    type V = PayloadTypesVal;

    open spec fn view(&self) -> PayloadTypesVal {
        match self {
            PayloadTypes::PayloadTypeV1(t) => PayloadTypesVal::PayloadTypeV1(t@),
            PayloadTypes::PayloadTypeV2(t) => PayloadTypesVal::PayloadTypeV2(t@),
        }
    }
}

impl PayloadTypesVal {
    /// The wire object of the payload `@type`.
    pub open spec fn to_val(self) -> JsonVal {
        match self {
            PayloadTypesVal::PayloadTypeV1(t) => t.to_val(),
            PayloadTypesVal::PayloadTypeV2(t) => t.to_val(),
        }
    }

    /// Reads a payload `@type` of either shape, the older shape first.
    pub open spec fn from_val(j: JsonVal) -> Option<PayloadTypesVal> {
        match PayloadTypeV1Val::from_val(j) {
            Option::Some(t) => Option::Some(PayloadTypesVal::PayloadTypeV1(t)),
            Option::None => match MessageTypeV2Val::from_val(j) {
                Option::Some(t) => Option::Some(PayloadTypesVal::PayloadTypeV2(t)),
                Option::None => Option::None,
            },
        }
    }
}

/// The kinds of application payload the codec can label.
#[derive(Clone, Debug, PartialEq, Eq)]
pub enum PayloadKinds {
    CredOffer,
    CredReq,
    Cred,
    Proof,
    ProofRequest,
    Other(String),
}

/// The model of [`PayloadKinds`].
pub enum PayloadKindsVal {
    CredOffer,
    CredReq,
    Cred,
    Proof,
    ProofRequest,
    Other(Seq<char>),
}

impl View for PayloadKinds {
    type V = PayloadKindsVal;

    open spec fn view(&self) -> PayloadKindsVal {
        match self {
            PayloadKinds::CredOffer => PayloadKindsVal::CredOffer,
            PayloadKinds::CredReq => PayloadKindsVal::CredReq,
            PayloadKinds::Cred => PayloadKindsVal::Cred,
            PayloadKinds::Proof => PayloadKindsVal::Proof,
            PayloadKinds::ProofRequest => PayloadKindsVal::ProofRequest,
            PayloadKinds::Other(s) => PayloadKindsVal::Other(s@),
        }
    }
}

impl PayloadKindsVal {
    /// The family a payload kind belongs to.
    pub open spec fn family_spec(self) -> MessageFamiliesVal {
        match self {
            PayloadKindsVal::Other(f) => MessageFamiliesVal::Unknown(f),
            _ => MessageFamiliesVal::CredentialExchange,
        }
    }

    /// The kind's name under the given protocol version.
    pub open spec fn name_spec(self, version: ProtocolTypes) -> Seq<char> {
        match version {
            ProtocolTypes::V1 => match self {
                PayloadKindsVal::CredOffer => "CRED_OFFER"@,
                PayloadKindsVal::CredReq => "CRED_REQ"@,
                PayloadKindsVal::Cred => "CRED"@,
                PayloadKindsVal::ProofRequest => "PROOF_REQUEST"@,
                PayloadKindsVal::Proof => "PROOF"@,
                PayloadKindsVal::Other(kind) => kind,
            },
            ProtocolTypes::V2 => match self {
                PayloadKindsVal::CredOffer => "credential-offer"@,
                PayloadKindsVal::CredReq => "credential-request"@,
                PayloadKindsVal::Cred => "credential"@,
                PayloadKindsVal::ProofRequest => "presentation-request"@,
                PayloadKindsVal::Proof => "presentation"@,
                PayloadKindsVal::Other(kind) => kind,
            },
        }
    }
}

impl PayloadKinds {
    /// The family this payload kind belongs to.
    pub fn family(&self) -> (r: MessageFamilies)
        ensures
            r@ == self@.family_spec(),
    {
        match self {
            PayloadKinds::Other(f) => MessageFamilies::Unknown(f.clone()),
            _ => MessageFamilies::CredentialExchange,
        }
    }

    /// The kind's name under the given protocol version.
    pub fn name(&self, version: ProtocolTypes) -> (r: String)
        ensures
            r@ == self@.name_spec(version),
    {
        match version {
            ProtocolTypes::V1 => match self {
                PayloadKinds::CredOffer => "CRED_OFFER".to_owned(),
                PayloadKinds::CredReq => "CRED_REQ".to_owned(),
                PayloadKinds::Cred => "CRED".to_owned(),
                PayloadKinds::ProofRequest => "PROOF_REQUEST".to_owned(),
                PayloadKinds::Proof => "PROOF".to_owned(),
                PayloadKinds::Other(kind) => kind.clone(),
            },
            ProtocolTypes::V2 => match self {
                PayloadKinds::CredOffer => "credential-offer".to_owned(),
                PayloadKinds::CredReq => "credential-request".to_owned(),
                PayloadKinds::Cred => "credential".to_owned(),
                PayloadKinds::ProofRequest => "presentation-request".to_owned(),
                PayloadKinds::Proof => "presentation".to_owned(),
                PayloadKinds::Other(kind) => kind.clone(),
            },
        }
    }
}

impl PayloadTypes {
    /// Builds an older-protocol payload `@type` for `kind`, labelled with
    /// the given format.
    pub fn build_v1(kind: PayloadKinds, fmt: &str) -> (r: PayloadTypes)
        ensures
            r@ == PayloadTypesVal::PayloadTypeV1(
                PayloadTypeV1Val {
                    name: kind@.name_spec(ProtocolTypes::V1),
                    ver: "1.0"@,
                    fmt: fmt@,
                },
            ),
    {
        PayloadTypes::PayloadTypeV1(
            PayloadTypeV1 {
                name: kind.name(ProtocolTypes::V1),
                ver: "1.0".to_owned(),
                fmt: fmt.to_owned(),
            },
        )
    }

    /// Builds a newer-protocol payload `@type` for `kind`.
    pub fn build_v2(kind: PayloadKinds) -> (r: PayloadTypes)
        ensures
            r@ == PayloadTypesVal::PayloadTypeV2(
                MessageTypeV2Val {
                    did: well_known_did_spec(),
                    family: kind@.family_spec(),
                    version: "1.0"@,
                    type_: kind@.name_spec(ProtocolTypes::V2),
                },
            ),
    {
        let family = kind.family();
        let version = family.version();
        PayloadTypes::PayloadTypeV2(
            MessageTypeV2 {
                did: well_known_did(),
                family,
                version,
                type_: kind.name(ProtocolTypes::V2),
            },
        )
    }
}

/// The model of [`Payload`].
pub struct PayloadVal {
    pub type_: PayloadTypesVal,
    pub msg: Seq<char>,
}

/// An application payload: its version-tagged `@type` plus the data.
#[derive(Clone, Debug, PartialEq, Eq)]
pub struct Payload {
    pub type_: PayloadTypes,
    pub msg: String,
}

impl View for Payload {
    type V = PayloadVal;

    open spec fn view(&self) -> PayloadVal {
        PayloadVal { type_: self.type_@, msg: self.msg@ }
    }
}

impl PayloadVal {
    /// The wire object of the payload.
    pub open spec fn to_val(self) -> JsonVal {
        JsonVal::Obj(seq![("@type"@, self.type_.to_val()), ("@msg"@, JsonVal::Str(self.msg))])
    }

    /// Reads a payload from a wire object.
    pub open spec fn from_val(j: JsonVal) -> Option<PayloadVal> {
        match j {
            JsonVal::Obj(fs) => match JsonVal::fields_lookup(fs, "@type"@) {
                Option::Some(tv) => match PayloadTypesVal::from_val(tv) {
                    Option::Some(t) => match str_field_spec(fs, "@msg"@) {
                        Option::Some(msg) => Option::Some(PayloadVal { type_: t, msg }),
                        Option::None => Option::None,
                    },
                    Option::None => Option::None,
                },
                Option::None => Option::None,
            },
            _ => Option::None,
        }
    }
}

/// A payload `@type` of either shape reads back to itself, and the two
/// shapes never read as one another.
pub proof fn lemma_payload_type_round_trip(t: PayloadTypesVal)
    requires
        t is PayloadTypeV2 ==> family_wf(t->PayloadTypeV2_0.family),
    ensures
        PayloadTypesVal::from_val(t.to_val()) == Option::Some(t),
{
    reveal_strlit("name");
    reveal_strlit("ver");
    reveal_strlit("fmt");
    reveal_strlit("did");
    reveal_strlit("family");
    reveal_strlit("version");
    reveal_strlit("type");
    assert("name"@.len() == 4 && "ver"@.len() == 3 && "fmt"@.len() == 3 && "did"@.len() == 3
        && "family"@.len() == 6 && "version"@.len() == 7 && "type"@.len() == 4);
    assert("ver"@[0] == 'v' && "fmt"@[0] == 'f' && "did"@[0] == 'd' && "name"@[0] == 'n'
        && "type"@[0] == 't');
    match t {
        PayloadTypesVal::PayloadTypeV1(t1) => {
            let fs = t1.to_val()->Obj_0;
            lemma_lookup_at(fs, "name"@, 0);
            lemma_lookup_at(fs, "ver"@, 1);
            lemma_lookup_at(fs, "fmt"@, 2);
        },
        PayloadTypesVal::PayloadTypeV2(t2) => {
            lemma_message_type_round_trip(MessageTypesVal::MessageTypeV2(t2));
            assert(MessageTypeV2Val::from_val(t2.to_val()) == Option::Some(t2));
            let fs = t2.to_val()->Obj_0;
            assert(fs[0].0 == "did"@ && fs[1].0 == "family"@ && fs[2].0 == "version"@ && fs[3].0
                == "type"@);
            crate::json::lemma_lookup_none(fs, "name"@);
            assert(PayloadTypeV1Val::from_val(t2.to_val()) is None);
        },
    }
}

/// A payload reads back to itself.
pub proof fn lemma_payload_round_trip(p: PayloadVal)
    requires
        p.type_ is PayloadTypeV2 ==> family_wf(p.type_->PayloadTypeV2_0.family),
    ensures
        PayloadVal::from_val(p.to_val()) == Option::Some(p),
{
    reveal_strlit("@type");
    reveal_strlit("@msg");
    assert("@type"@.len() == 5 && "@msg"@.len() == 4);
    let fs = p.to_val()->Obj_0;
    lemma_lookup_at(fs, "@type"@, 0);
    lemma_lookup_at(fs, "@msg"@, 1);
    lemma_payload_type_round_trip(p.type_);
}

impl Payload {
    /// Writes the payload as its wire object.
    pub fn to_json(&self) -> (r: Json)
        ensures
            r@ == self@.to_val(),
    {
        let tj = match &self.type_ {
            PayloadTypes::PayloadTypeV1(t) => {
                let mut tf: Vec<(String, Json)> = Vec::new();
                crate::json::push_field(&mut tf, "name".to_owned(), Json::Str(t.name.clone()));
                crate::json::push_field(&mut tf, "ver".to_owned(), Json::Str(t.ver.clone()));
                crate::json::push_field(&mut tf, "fmt".to_owned(), Json::Str(t.fmt.clone()));
                proof {
                    assert(json_fields_view(tf@) =~= t@.to_val()->Obj_0);
                }
                Json::Obj(tf)
            },
            PayloadTypes::PayloadTypeV2(t) => t.to_json(),
        };
        let mut fields: Vec<(String, Json)> = Vec::new();
        crate::json::push_field(&mut fields, "@type".to_owned(), tj);
        crate::json::push_field(&mut fields, "@msg".to_owned(), Json::Str(self.msg.clone()));
        proof {
            assert(json_fields_view(fields@) =~= self@.to_val()->Obj_0);
        }
        Json::Obj(fields)
    }

    /// Reads a payload from a wire value.
    pub fn from_json(j: &Json) -> (r: Option<Payload>)
        ensures
            match r {
                Option::Some(p) => PayloadVal::from_val(j@) == Option::Some(p@),
                Option::None => PayloadVal::from_val(j@) is None,
            },
    {
        let fields = match j {
            Json::Obj(fields) => fields,
            _ => {
                return Option::None;
            },
        };
        let tv = match obj_get(fields, "@type") {
            Option::Some(tv) => tv,
            Option::None => {
                return Option::None;
            },
        };
        let t = match Self::type_from_json(tv) {
            Option::Some(t) => t,
            Option::None => {
                return Option::None;
            },
        };
        match get_str(fields, "@msg") {
            Option::Some(msg) => Option::Some(Payload { type_: t, msg }),
            Option::None => Option::None,
        }
    }

    /// Reads a payload `@type` of either shape, the older shape first.
    fn type_from_json(j: &Json) -> (r: Option<PayloadTypes>)
        ensures
            match r {
                Option::Some(t) => PayloadTypesVal::from_val(j@) == Option::Some(t@),
                Option::None => PayloadTypesVal::from_val(j@) is None,
            },
    {
        if let Json::Obj(fields) = j {
            let name = get_str(fields, "name");
            let ver = get_str(fields, "ver");
            let fmt = get_str(fields, "fmt");
            if let (Option::Some(name), Option::Some(ver), Option::Some(fmt)) = (name, ver, fmt) {
                return Option::Some(
                    PayloadTypes::PayloadTypeV1(PayloadTypeV1 { name, ver, fmt }),
                );
            }
        }
        match MessageTypeV2::from_json(j) {
            Option::Some(t) => Option::Some(PayloadTypes::PayloadTypeV2(t)),
            Option::None => Option::None,
        }
    }

    /// Builds the payload tree that `encrypted` serializes and encrypts for
    /// the peer: the version picks the `@type` shape, with the older one
    /// labelled as JSON-formatted.
    pub fn build(data: &str, kind: PayloadKinds, version: ProtocolTypes) -> (r: Payload)
        ensures
            r@.msg == data@,
            r@.type_ == (match version {
                ProtocolTypes::V1 => PayloadTypesVal::PayloadTypeV1(
                    PayloadTypeV1Val {
                        name: kind@.name_spec(ProtocolTypes::V1),
                        ver: "1.0"@,
                        fmt: "json"@,
                    },
                ),
                ProtocolTypes::V2 => PayloadTypesVal::PayloadTypeV2(
                    MessageTypeV2Val {
                        did: well_known_did_spec(),
                        family: kind@.family_spec(),
                        version: "1.0"@,
                        type_: kind@.name_spec(ProtocolTypes::V2),
                    },
                ),
            }),
    {
        let type_ = match version {
            ProtocolTypes::V1 => PayloadTypes::build_v1(kind, "json"),
            ProtocolTypes::V2 => PayloadTypes::build_v2(kind),
        };
        Payload { type_, msg: data.to_owned() }
    }

    /// Recovers the application data from a decrypted payload tree; a tree
    /// that is no payload fails as ill-formed MessagePack, the label the
    /// legacy decoder used for both serializations.
    pub fn decrypted_msg(j: &Json) -> (r: Result<String, CodecError>)
        ensures
            match r {
                Result::Ok(msg) => PayloadVal::from_val(j@) is Some && PayloadVal::from_val(
                    j@,
                )->Some_0.msg == msg@,
                Result::Err(e) => PayloadVal::from_val(j@) is None && e
                    == CodecError::InvalidMsgpack,
            },
    {
        match Self::from_json(j) {
            Option::Some(p) => Result::Ok(p.msg),
            Option::None => Result::Err(CodecError::InvalidMsgpack),
        }
    }
}

} // verus!
