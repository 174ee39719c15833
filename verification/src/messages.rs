//! The message structs the codec reads and writes as wire objects.
//!
//! Every message is an object carrying its own `@type` discriminator plus
//! message-specific fields.  The kinds whose fields the codec itself
//! inspects are typed structs here; every other kind's fields are carried
//! through unread, as a list of raw fields beside the `@type`.

use vstd::prelude::*;
use crate::bundle::{buf_json_spec, bytes_from_json, bytes_to_json, lemma_buf_json_reads};
use crate::field::{
    bool_field_spec, bytes_field_spec, get_bool, get_bytes, get_opt_str, get_str, get_str_list,
    opt_str_field_spec, str_field_spec, str_list_field_spec,
};
use crate::json::{
    Json, JsonVal, json_clone, json_fields_view, lemma_json_fields_view, lemma_lookup_at,
    lemma_lookup_none, lemma_lookup_concat_hit, lemma_lookup_concat_miss, obj_get, push_field,
};
use crate::message_type::{
    A2AMessageKinds, MessageTypeV1, MessageTypeV1Val, MessageTypeV2, MessageTypeV2Val,
    MessageTypes, MessageTypesVal, family_wf, lemma_message_type_round_trip,
};
use crate::settings::ProtocolTypes;
use crate::status::{RemoteMessageType, RemoteMessageTypeVal};

verus! {

/// A `@type` whose embedded family reads back to itself; every `@type` the
/// registry builds is of this shape.
pub open spec fn mts_wf(t: MessageTypesVal) -> bool {
    match t {
        MessageTypesVal::MessageTypeV2(t2) => family_wf(t2.family),
        MessageTypesVal::MessageTypeV1(_) => true,
    }
}

/// The model of [`Forward`].
pub struct ForwardVal {
    pub msg_type: MessageTypesVal,
    pub fwd: Seq<char>,
    pub msg: Seq<u8>,
}

/// An envelope handing an opaque ciphertext to a recipient for the next hop.
#[derive(Clone, Debug, PartialEq)]
pub struct Forward {
    pub msg_type: MessageTypes,
    pub fwd: String,
    pub msg: Vec<u8>,
}

impl View for Forward {
    type V = ForwardVal;

    open spec fn view(&self) -> ForwardVal {
        ForwardVal { msg_type: self.msg_type@, fwd: self.fwd@, msg: self.msg@ }
    }
}

impl ForwardVal {
    /// The wire object of a forward envelope.
    pub open spec fn to_val(self) -> JsonVal {
        JsonVal::Obj(
            seq![
                ("@type"@, self.msg_type.to_val()),
                ("@fwd"@, JsonVal::Str(self.fwd)),
                ("@msg"@, buf_json_spec(self.msg)),
            ],
        )
    }

    /// Reads a forward envelope from a wire object.
    pub open spec fn from_val(j: JsonVal) -> Option<ForwardVal> {
        match j {
            JsonVal::Obj(fs) => match JsonVal::fields_lookup(fs, "@type"@) {
                Option::Some(tv) => match MessageTypesVal::from_val(tv) {
                    Option::Some(mt) => match (
                        str_field_spec(fs, "@fwd"@),
                        bytes_field_spec(fs, "@msg"@),
                    ) {
                        (Option::Some(fwd), Option::Some(msg)) => Option::Some(
                            ForwardVal { msg_type: mt, fwd, msg },
                        ),
                        _ => Option::None,
                    },
                    Option::None => Option::None,
                },
                Option::None => Option::None,
            },
            _ => Option::None,
        }
    }
}

/// A forward envelope reads back to itself.
pub proof fn lemma_forward_round_trip(m: ForwardVal)
    requires
        mts_wf(m.msg_type),
    ensures
        ForwardVal::from_val(m.to_val()) == Option::Some(m),
{
    reveal_strlit("@type");
    reveal_strlit("@fwd");
    reveal_strlit("@msg");
    assert("@type"@.len() == 5 && "@fwd"@.len() == 4 && "@msg"@.len() == 4);
    assert("@fwd"@[1] == 'f' && "@msg"@[1] == 'm');
    let fs = m.to_val()->Obj_0;
    lemma_lookup_at(fs, "@type"@, 0);
    lemma_lookup_at(fs, "@fwd"@, 1);
    lemma_lookup_at(fs, "@msg"@, 2);
    lemma_message_type_round_trip(m.msg_type);
    lemma_buf_json_reads(m.msg);
}

impl Forward {
    /// Builds a forward envelope to `fwd` around `msg` under `version`.
    pub fn new(fwd: String, msg: Vec<u8>, version: ProtocolTypes) -> (r: Forward)
        ensures
            r@.msg_type == MessageTypes::build_spec(A2AMessageKinds::Forward, version),
            r@.fwd == fwd@,
            r@.msg == msg@,
    {
        Forward { msg_type: MessageTypes::build(A2AMessageKinds::Forward, version), fwd, msg }
    }

    /// Writes the envelope as its wire object.
    pub fn to_json(&self) -> (r: Json)
        ensures
            r@ == self@.to_val(),
    {
        let mut fields: Vec<(String, Json)> = Vec::new();
        fields.push(("@type".to_owned(), self.msg_type.to_json()));
        fields.push(("@fwd".to_owned(), Json::Str(self.fwd.clone())));
        fields.push(("@msg".to_owned(), bytes_to_json(&self.msg)));
        proof {
            lemma_json_fields_view(fields@);
            assert(json_fields_view(fields@) =~= self@.to_val()->Obj_0);
        }
        Json::Obj(fields)
    }

    /// Reads an envelope from a wire value.
    pub fn from_json(j: &Json) -> (r: Option<Forward>)
        ensures
            match r {
                Option::Some(m) => ForwardVal::from_val(j@) == Option::Some(m@),
                Option::None => ForwardVal::from_val(j@) is None,
            },
    {
        match j {
            Json::Obj(fields) => {
                let tv = match obj_get(fields, "@type") {
                    Option::Some(tv) => tv,
                    Option::None => {
                        return Option::None;
                    },
                };
                let mt = match MessageTypes::from_json(tv) {
                    Option::Some(mt) => mt,
                    Option::None => {
                        return Option::None;
                    },
                };
                let fwd = get_str(fields, "@fwd");
                let msg = get_bytes(fields, "@msg");
                match (fwd, msg) {
                    (Option::Some(fwd), Option::Some(msg)) => Option::Some(
                        Forward { msg_type: mt, fwd, msg },
                    ),
                    _ => Option::None,
                }
            },
            _ => Option::None,
        }
    }
}

/// The raw fields of a message kind the codec carries through unread, with
/// the `@type` taken out.
pub open spec fn strip_type_spec(fs: Seq<(Seq<char>, JsonVal)>) -> Seq<(Seq<char>, JsonVal)>
    decreases fs.len(),
{
    if fs.len() == 0 {
        Seq::empty()
    } else if fs[0].0 == "@type"@ {
        strip_type_spec(fs.skip(1))
    } else {
        seq![fs[0]] + strip_type_spec(fs.skip(1))
    }
}

/// Stripping leaves no `@type` behind.
pub proof fn lemma_strip_no_type(fs: Seq<(Seq<char>, JsonVal)>)
    ensures
        forall|i: int|
            0 <= i < strip_type_spec(fs).len() ==> (#[trigger] strip_type_spec(fs)[i]).0
                != "@type"@,
    decreases fs.len(),
{
    if fs.len() > 0 {
        lemma_strip_no_type(fs.skip(1));
        if fs[0].0 == "@type"@ {
            assert forall|i: int|
                0 <= i < strip_type_spec(fs).len() implies (#[trigger] strip_type_spec(fs)[i]).0
                != "@type"@ by {
                assert(strip_type_spec(fs)[i] == strip_type_spec(fs.skip(1))[i]);
            }
        } else {
            assert forall|i: int|
                0 <= i < strip_type_spec(fs).len() implies (#[trigger] strip_type_spec(fs)[i]).0
                != "@type"@ by {
                if i == 0 {
                    assert(strip_type_spec(fs)[0] == fs[0]);
                } else {
                    assert(strip_type_spec(fs)[i] == strip_type_spec(fs.skip(1))[i - 1]);
                }
            }
        }
    }
}

/// A field list without `@type` strips to itself.
pub proof fn lemma_strip_id(fs: Seq<(Seq<char>, JsonVal)>)
    requires
        forall|i: int| 0 <= i < fs.len() ==> (#[trigger] fs[i]).0 != "@type"@,
    ensures
        strip_type_spec(fs) == fs,
    decreases fs.len(),
{
    if fs.len() > 0 {
        assert forall|i: int| 0 <= i < fs.skip(1).len() implies (#[trigger] fs.skip(1)[i]).0
            != "@type"@ by {
            assert(fs.skip(1)[i] == fs[i + 1]);
        }
        lemma_strip_id(fs.skip(1));
        assert(strip_type_spec(fs) =~= fs);
    }
}

/// The model of [`GenericMsg`].
pub struct GenericMsgVal {
    pub msg_type: MessageTypesVal,
    pub body: Seq<(Seq<char>, JsonVal)>,
}

impl GenericMsgVal {
    /// A carried-through message is well formed when its raw fields hold no
    /// second `@type`.
    pub open spec fn wf(self) -> bool {
        forall|i: int| 0 <= i < self.body.len() ==> (#[trigger] self.body[i]).0 != "@type"@
    }

    /// The wire object: the `@type` first, then the raw fields.
    pub open spec fn to_val(self) -> JsonVal {
        JsonVal::Obj(seq![("@type"@, self.msg_type.to_val())] + self.body)
    }

    /// Reads a carried-through message from a wire object.
    pub open spec fn from_val(j: JsonVal) -> Option<GenericMsgVal> {
        match j {
            JsonVal::Obj(fs) => match JsonVal::fields_lookup(fs, "@type"@) {
                Option::Some(tv) => match MessageTypesVal::from_val(tv) {
                    Option::Some(mt) => Option::Some(
                        GenericMsgVal { msg_type: mt, body: strip_type_spec(fs) },
                    ),
                    Option::None => Option::None,
                },
                Option::None => Option::None,
            },
            _ => Option::None,
        }
    }
}

/// A carried-through message reads back to itself.
pub proof fn lemma_generic_round_trip(m: GenericMsgVal)
    requires
        mts_wf(m.msg_type),
        m.wf(),
    ensures
        GenericMsgVal::from_val(m.to_val()) == Option::Some(m),
{
    let head = ("@type"@, m.msg_type.to_val());
    let fs = seq![head] + m.body;
    lemma_lookup_at(fs, "@type"@, 0);
    lemma_message_type_round_trip(m.msg_type);
    assert(fs.skip(1) =~= m.body);
    assert forall|i: int| 0 <= i < m.body.len() implies (#[trigger] m.body[i]).0 != "@type"@ by {}
    lemma_strip_id(m.body);
    assert(strip_type_spec(fs) == strip_type_spec(m.body));
}

/// A message of a kind the codec does not inspect: its `@type` plus its raw
/// fields, carried through unchanged.
#[derive(Debug, PartialEq)]
pub struct GenericMsg {
    pub msg_type: MessageTypes,
    pub body: Vec<(String, Json)>,
}

impl View for GenericMsg {
    type V = GenericMsgVal;

    open spec fn view(&self) -> GenericMsgVal {
        GenericMsgVal { msg_type: self.msg_type@, body: json_fields_view(self.body@) }
    }
}

impl GenericMsg {
    /// Writes the message as its wire object.
    #[verifier::loop_isolation(false)]
    pub fn to_json(&self) -> (r: Json)
        ensures
            r@ == self@.to_val(),
    {
        let ghost bodyv = json_fields_view(self.body@);
        let ghost head = ("@type"@, self.msg_type@.to_val());
        let mut fields: Vec<(String, Json)> = Vec::new();
        push_field(&mut fields, "@type".to_owned(), self.msg_type.to_json());
        proof {
            lemma_json_fields_view(self.body@);
            assert(json_fields_view(fields@) =~= seq![head] + bodyv.take(0));
        }
        let mut idx: usize = 0;
        while idx < self.body.len()
            invariant
                idx <= self.body@.len(),
                bodyv == json_fields_view(self.body@),
                bodyv.len() == self.body@.len(),
                forall|i: int| 0 <= i < self.body@.len() ==> #[trigger] bodyv[i] == (
                    self.body@[i].0@,
                    self.body@[i].1@,
                ),
                json_fields_view(fields@) == seq![head] + bodyv.take(idx as int),
            decreases self.body@.len() - idx,
        {
            let key = self.body[idx].0.clone();
            let val = json_clone(&self.body[idx].1);
            push_field(&mut fields, key, val);
            proof {
                assert(bodyv.take(idx as int).push(bodyv[idx as int]) =~= bodyv.take(
                    idx as int + 1,
                ));
                assert((seq![head] + bodyv.take(idx as int)) + seq![bodyv[idx as int]]
                    =~= seq![head] + bodyv.take(idx as int + 1));
            }
            idx = idx + 1;
        }
        proof {
            assert(bodyv.take(bodyv.len() as int) =~= bodyv);
        }
        Json::Obj(fields)
    }

    /// Reads a message of an uninspected kind from a wire value.
    #[verifier::loop_isolation(false)]
    pub fn from_json(j: &Json) -> (r: Option<GenericMsg>)
        ensures
            match r {
                Option::Some(m) => GenericMsgVal::from_val(j@) == Option::Some(m@),
                Option::None => GenericMsgVal::from_val(j@) is None,
            },
    {
        let fields = match j {
            Json::Obj(fields) => fields,
            _ => {
                return Option::None;
            },
        };
        let tv = match obj_get(fields, "@type") {
            Option::Some(tv) => tv,
            Option::None => {
                return Option::None;
            },
        };
        let mt = match MessageTypes::from_json(tv) {
            Option::Some(mt) => mt,
            Option::None => {
                return Option::None;
            },
        };
        proof {
            lemma_json_fields_view(fields@);
            assert(json_fields_view(fields@).skip(0) =~= json_fields_view(fields@));
        }
        let ghost fsv = json_fields_view(fields@);
        let mut body: Vec<(String, Json)> = Vec::new();
        let mut idx: usize = 0;
        while idx < fields.len()
            invariant
                idx <= fields@.len(),
                fsv == json_fields_view(fields@),
                fsv.len() == fields@.len(),
                forall|i: int| 0 <= i < fields@.len() ==> #[trigger] fsv[i] == (
                    fields@[i].0@,
                    fields@[i].1@,
                ),
                json_fields_view(body@) + strip_type_spec(fsv.skip(idx as int)) == strip_type_spec(
                    fsv,
                ),
            decreases fields@.len() - idx,
        {
            proof {
                assert(fsv.skip(idx as int)[0] == fsv[idx as int]);
                assert(fsv.skip(idx as int).skip(1) =~= fsv.skip(idx as int + 1));
            }
            let keep = !crate::json::str_eq(fields[idx].0.as_str(), "@type");
            if keep {
                let ghost prev = json_fields_view(body@);
                let key = fields[idx].0.clone();
                let val = json_clone(&fields[idx].1);
                push_field(&mut body, key, val);
                proof {
                    assert(json_fields_view(body@) == prev + seq![fsv[idx as int]]);
                    assert((prev + seq![fsv[idx as int]]) + strip_type_spec(
                        fsv.skip(idx as int + 1),
                    ) =~= prev + (seq![fsv[idx as int]] + strip_type_spec(
                        fsv.skip(idx as int + 1),
                    )));
                }
            }
            idx = idx + 1;
        }
        proof {
            assert(fsv.skip(fields@.len() as int) =~= Seq::<(Seq<char>, JsonVal)>::empty());
            assert(json_fields_view(body@) + Seq::<(Seq<char>, JsonVal)>::empty()
                =~= json_fields_view(body@));
        }
        Option::Some(GenericMsg { msg_type: mt, body })
    }
}

/// The entry a skippable optional string field contributes: one binding
/// when present, nothing when absent.
pub open spec fn opt_str_entry(key: Seq<char>, v: Option<Seq<char>>) -> Seq<(Seq<char>, JsonVal)> {
    match v {
        Option::Some(s) => seq![(key, JsonVal::Str(s))],
        Option::None => Seq::empty(),
    }
}

/// The node an always-written optional string field carries: the string, or
/// null when absent.
pub open spec fn opt_str_val(v: Option<Seq<char>>) -> JsonVal {
    match v {
        Option::Some(s) => JsonVal::Str(s),
        Option::None => JsonVal::Null,
    }
}

/// The view of an optional string.
pub open spec fn opt_str_view(v: Option<String>) -> Option<Seq<char>> {
    match v {
        Option::Some(s) => Option::Some(s@),
        Option::None => Option::None,
    }
}

/// A remote kind whose wire name reads back to the kind itself; true of
/// every kind but an `Other` that spells a recognized name.
pub open spec fn remote_wf(m: RemoteMessageTypeVal) -> bool {
    RemoteMessageTypeVal::from_wire_spec(m.wire_spec()) == m
}

/// Appends a skippable optional string field.
fn push_opt_str(fields: &mut Vec<(String, Json)>, key: &str, v: &Option<String>)
    ensures
        json_fields_view(final(fields)@) == json_fields_view(old(fields)@) + opt_str_entry(
            key@,
            opt_str_view(*v),
        ),
{
    match v {
        Option::Some(s) => {
            push_field(fields, key.to_owned(), Json::Str(s.clone()));
        },
        Option::None => {
            proof {
                assert(json_fields_view(fields@) + opt_str_entry(key@, opt_str_view(*v))
                    =~= json_fields_view(fields@));
            }
        },
    }
}

/// Appends an always-written optional string field.
fn push_null_str(fields: &mut Vec<(String, Json)>, key: &str, v: &Option<String>)
    ensures
        json_fields_view(final(fields)@) == json_fields_view(old(fields)@) + seq![
            (key@, opt_str_val(opt_str_view(*v))),
        ],
{
    match v {
        Option::Some(s) => {
            push_field(fields, key.to_owned(), Json::Str(s.clone()));
        },
        Option::None => {
            push_field(fields, key.to_owned(), Json::Null);
        },
    }
}

/// The model of [`CreateMessage`].
pub struct CreateMessageVal {
    pub msg_type: MessageTypeV1Val,
    pub mtype: RemoteMessageTypeVal,
    pub send_msg: bool,
    pub uid: Option<Seq<char>>,
    pub reply_to_msg_id: Option<Seq<char>>,
}

/// An older-protocol request to create a message on the remote agent.
#[derive(Clone, Debug, PartialEq)]
pub struct CreateMessage {
    pub msg_type: MessageTypeV1,
    pub mtype: RemoteMessageType,
    pub send_msg: bool,
    pub uid: Option<String>,
    pub reply_to_msg_id: Option<String>,
}

impl View for CreateMessage {
    type V = CreateMessageVal;

    open spec fn view(&self) -> CreateMessageVal {
        CreateMessageVal {
            msg_type: self.msg_type@,
            mtype: self.mtype@,
            send_msg: self.send_msg,
            uid: opt_str_view(self.uid),
            reply_to_msg_id: opt_str_view(self.reply_to_msg_id),
        }
    }
}

impl CreateMessageVal {
    /// The wire object of the request.
    pub open spec fn to_val(self) -> JsonVal {
        JsonVal::Obj(
            seq![
                ("@type"@, self.msg_type.to_val()),
                ("mtype"@, JsonVal::Str(self.mtype.wire_spec())),
                ("sendMsg"@, JsonVal::Bool(self.send_msg)),
            ] + (opt_str_entry("uid"@, self.uid) + seq![
                ("replyToMsgId"@, opt_str_val(self.reply_to_msg_id)),
            ]),
        )
    }

    /// Reads the request from a wire object.
    pub open spec fn from_val(j: JsonVal) -> Option<CreateMessageVal> {
        match j {
            JsonVal::Obj(fs) => match JsonVal::fields_lookup(fs, "@type"@) {
                Option::Some(tv) => match MessageTypeV1Val::from_val(tv) {
                    Option::Some(mt) => match (
                        str_field_spec(fs, "mtype"@),
                        bool_field_spec(fs, "sendMsg"@),
                        opt_str_field_spec(fs, "uid"@),
                        opt_str_field_spec(fs, "replyToMsgId"@),
                    ) {
                        (
                            Option::Some(mtype),
                            Option::Some(send_msg),
                            Option::Some(uid),
                            Option::Some(reply),
                        ) => Option::Some(
                            CreateMessageVal {
                                msg_type: mt,
                                mtype: RemoteMessageTypeVal::from_wire_spec(mtype),
                                send_msg,
                                uid,
                                reply_to_msg_id: reply,
                            },
                        ),
                        _ => Option::None,
                    },
                    Option::None => Option::None,
                },
                Option::None => Option::None,
            },
            _ => Option::None,
        }
    }
}

/// A create-message request reads back to itself.
pub proof fn lemma_create_message_round_trip(m: CreateMessageVal)
    requires
        remote_wf(m.mtype),
    ensures
        CreateMessageVal::from_val(m.to_val()) == Option::Some(m),
{
    reveal_strlit("@type");
    reveal_strlit("mtype");
    reveal_strlit("sendMsg");
    reveal_strlit("uid");
    reveal_strlit("replyToMsgId");
    assert("@type"@.len() == 5 && "mtype"@.len() == 5 && "sendMsg"@.len() == 7 && "uid"@.len()
        == 3 && "replyToMsgId"@.len() == 12);
    assert("@type"@[0] == '@' && "mtype"@[0] == 'm');
    let head = seq![
        ("@type"@, m.msg_type.to_val()),
        ("mtype"@, JsonVal::Str(m.mtype.wire_spec())),
        ("sendMsg"@, JsonVal::Bool(m.send_msg)),
    ];
    let mid = opt_str_entry("uid"@, m.uid);
    let tail = seq![("replyToMsgId"@, opt_str_val(m.reply_to_msg_id))];
    let fs = head + (mid + tail);
    lemma_lookup_at(head, "@type"@, 0);
    lemma_lookup_at(head, "mtype"@, 1);
    lemma_lookup_at(head, "sendMsg"@, 2);
    lemma_lookup_concat_hit(head, mid + tail, "@type"@);
    lemma_lookup_concat_hit(head, mid + tail, "mtype"@);
    lemma_lookup_concat_hit(head, mid + tail, "sendMsg"@);
    lemma_lookup_concat_miss(head, mid + tail, "uid"@);
    lemma_lookup_concat_miss(head, mid + tail, "replyToMsgId"@);
    lemma_message_type_round_trip(MessageTypesVal::MessageTypeV1(m.msg_type));
    assert(MessageTypeV1Val::from_val(m.msg_type.to_val()) == Option::Some(m.msg_type));
    match m.uid {
        Option::Some(u) => {
            lemma_lookup_at(mid, "uid"@, 0);
            lemma_lookup_concat_hit(mid, tail, "uid"@);
            lemma_lookup_concat_miss(mid, tail, "replyToMsgId"@);
            lemma_lookup_at(tail, "replyToMsgId"@, 0);
        },
        Option::None => {
            assert(mid + tail =~= tail);
            lemma_lookup_at(tail, "replyToMsgId"@, 0);
            lemma_lookup_none(tail, "uid"@);
        },
    }
}

impl CreateMessage {
    /// Writes the request as its wire object.
    pub fn to_json(&self) -> (r: Json)
        ensures
            r@ == self@.to_val(),
    {
        let mut fields: Vec<(String, Json)> = Vec::new();
        push_field(&mut fields, "@type".to_owned(), self.msg_type.to_json());
        push_field(&mut fields, "mtype".to_owned(), Json::Str(self.mtype.to_wire()));
        push_field(&mut fields, "sendMsg".to_owned(), Json::Bool(self.send_msg));
        push_opt_str(&mut fields, "uid", &self.uid);
        push_null_str(&mut fields, "replyToMsgId", &self.reply_to_msg_id);
        proof {
            assert(json_fields_view(fields@) =~= self@.to_val()->Obj_0);
        }
        Json::Obj(fields)
    }

    /// Reads the request from a wire value.
    pub fn from_json(j: &Json) -> (r: Option<CreateMessage>)
        ensures
            match r {
                Option::Some(m) => CreateMessageVal::from_val(j@) == Option::Some(m@),
                Option::None => CreateMessageVal::from_val(j@) is None,
            },
    {
        let fields = match j {
            Json::Obj(fields) => fields,
            _ => {
                return Option::None;
            },
        };
        let tv = match obj_get(fields, "@type") {
            Option::Some(tv) => tv,
            Option::None => {
                return Option::None;
            },
        };
        let mt = match MessageTypeV1::from_json(tv) {
            Option::Some(mt) => mt,
            Option::None => {
                return Option::None;
            },
        };
        let mtype = get_str(fields, "mtype");
        let send_msg = get_bool(fields, "sendMsg");
        let uid = get_opt_str(fields, "uid");
        let reply = get_opt_str(fields, "replyToMsgId");
        match (mtype, send_msg, uid, reply) {
            (
                Option::Some(mtype),
                Option::Some(send_msg),
                Option::Some(uid),
                Option::Some(reply),
            ) => Option::Some(
                CreateMessage {
                    msg_type: mt,
                    mtype: RemoteMessageType::from_wire(mtype.as_str()),
                    send_msg,
                    uid,
                    reply_to_msg_id: reply,
                },
            ),
            _ => Option::None,
        }
    }
}

/// The node a list of strings is written as.
pub open spec fn str_list_val(ss: Seq<Seq<char>>) -> JsonVal {
    JsonVal::Arr(Seq::new(ss.len(), |i: int| JsonVal::Str(ss[i])))
}

/// A written list of strings reads back to itself.
pub proof fn lemma_str_list_reads(ss: Seq<Seq<char>>)
    ensures
        crate::field::all_str_spec(str_list_val(ss)->Arr_0),
        crate::field::str_seq_spec(str_list_val(ss)->Arr_0) == ss,
{
    let items = str_list_val(ss)->Arr_0;
    assert forall|i: int| 0 <= i < items.len() implies (#[trigger] items[i]) is Str by {
        assert(items[i] == JsonVal::Str(ss[i]));
    }
    assert forall|i: int| 0 <= i < ss.len() implies crate::field::str_seq_spec(items)[i]
        == ss[i] by {
        assert(items[i] == JsonVal::Str(ss[i]));
    }
    assert(crate::field::str_seq_spec(items) =~= ss);
}

/// Writes a list of strings as its wire node.
#[verifier::loop_isolation(false)]
fn str_list_to_json(ss: &Vec<String>) -> (r: Json)
    ensures
        r@ == str_list_val(Seq::new(ss@.len(), |i: int| ss@[i]@)),
{
    let mut items: Vec<Json> = Vec::new();
    let mut idx: usize = 0;
    while idx < ss.len()
        invariant
            idx <= ss@.len(),
            items@.len() == idx,
            forall|i: int| 0 <= i < idx ==> #[trigger] items@[i] == Json::Str(ss@[i]),
        decreases ss@.len() - idx,
    {
        items.push(Json::Str(ss[idx].clone()));
        idx = idx + 1;
    }
    proof {
        crate::json::lemma_json_seq_view(items@);
        assert forall|i: int|
            0 <= i < items@.len() implies crate::json::json_seq_view(items@)[i] == JsonVal::Str(
            ss@[i]@,
        ) by {
            assert(items@[i] == Json::Str(ss@[i]));
        }
        assert(crate::json::json_seq_view(items@) =~= str_list_val(
            Seq::new(ss@.len(), |i: int| ss@[i]@),
        )->Arr_0);
    }
    Json::Arr(items)
}

/// The model of [`GeneralMessageDetail`].
pub struct GeneralMessageDetailVal {
    pub msg_type: MessageTypeV1Val,
    pub msg: Seq<u8>,
    pub title: Option<Seq<char>>,
    pub detail: Option<Seq<char>>,
}

/// The free-form detail block of an older-protocol create-message exchange.
#[derive(Clone, Debug, PartialEq)]
pub struct GeneralMessageDetail {
    pub msg_type: MessageTypeV1,
    pub msg: Vec<u8>,
    pub title: Option<String>,
    pub detail: Option<String>,
}

impl View for GeneralMessageDetail {
    type V = GeneralMessageDetailVal;

    open spec fn view(&self) -> GeneralMessageDetailVal {
        GeneralMessageDetailVal {
            msg_type: self.msg_type@,
            msg: self.msg@,
            title: opt_str_view(self.title),
            detail: opt_str_view(self.detail),
        }
    }
}

impl GeneralMessageDetailVal {
    /// The wire object of the detail block.
    pub open spec fn to_val(self) -> JsonVal {
        JsonVal::Obj(
            seq![
                ("@type"@, self.msg_type.to_val()),
                ("@msg"@, buf_json_spec(self.msg)),
                ("title"@, opt_str_val(self.title)),
                ("detail"@, opt_str_val(self.detail)),
            ],
        )
    }

    /// Reads the detail block from a wire object.
    pub open spec fn from_val(j: JsonVal) -> Option<GeneralMessageDetailVal> {
        match j {
            JsonVal::Obj(fs) => match JsonVal::fields_lookup(fs, "@type"@) {
                Option::Some(tv) => match MessageTypeV1Val::from_val(tv) {
                    Option::Some(mt) => match (
                        bytes_field_spec(fs, "@msg"@),
                        opt_str_field_spec(fs, "title"@),
                        opt_str_field_spec(fs, "detail"@),
                    ) {
                        (Option::Some(msg), Option::Some(title), Option::Some(detail)) => Option::Some(
                            GeneralMessageDetailVal { msg_type: mt, msg, title, detail },
                        ),
                        _ => Option::None,
                    },
                    Option::None => Option::None,
                },
                Option::None => Option::None,
            },
            _ => Option::None,
        }
    }
}

/// A detail block reads back to itself.
pub proof fn lemma_general_detail_round_trip(m: GeneralMessageDetailVal)
    ensures
        GeneralMessageDetailVal::from_val(m.to_val()) == Option::Some(m),
{
    reveal_strlit("@type");
    reveal_strlit("@msg");
    reveal_strlit("title");
    reveal_strlit("detail");
    assert("@type"@.len() == 5 && "@msg"@.len() == 4 && "title"@.len() == 5 && "detail"@.len()
        == 6);
    assert("@type"@[0] == '@' && "title"@[0] == 't');
    let fs = m.to_val()->Obj_0;
    lemma_lookup_at(fs, "@type"@, 0);
    lemma_lookup_at(fs, "@msg"@, 1);
    lemma_lookup_at(fs, "title"@, 2);
    lemma_lookup_at(fs, "detail"@, 3);
    lemma_message_type_round_trip(MessageTypesVal::MessageTypeV1(m.msg_type));
    assert(MessageTypeV1Val::from_val(m.msg_type.to_val()) == Option::Some(m.msg_type));
    lemma_buf_json_reads(m.msg);
}

impl GeneralMessageDetail {
    /// Writes the detail block as its wire object.
    pub fn to_json(&self) -> (r: Json)
        ensures
            r@ == self@.to_val(),
    {
        let mut fields: Vec<(String, Json)> = Vec::new();
        push_field(&mut fields, "@type".to_owned(), self.msg_type.to_json());
        push_field(&mut fields, "@msg".to_owned(), bytes_to_json(&self.msg));
        push_null_str(&mut fields, "title", &self.title);
        push_null_str(&mut fields, "detail", &self.detail);
        proof {
            assert(json_fields_view(fields@) =~= self@.to_val()->Obj_0);
        }
        Json::Obj(fields)
    }

    /// Reads a detail block from a wire value.
    pub fn from_json(j: &Json) -> (r: Option<GeneralMessageDetail>)
        ensures
            match r {
                Option::Some(m) => GeneralMessageDetailVal::from_val(j@) == Option::Some(m@),
                Option::None => GeneralMessageDetailVal::from_val(j@) is None,
            },
    {
        let fields = match j {
            Json::Obj(fields) => fields,
            _ => {
                return Option::None;
            },
        };
        let tv = match obj_get(fields, "@type") {
            Option::Some(tv) => tv,
            Option::None => {
                return Option::None;
            },
        };
        let mt = match MessageTypeV1::from_json(tv) {
            Option::Some(mt) => mt,
            Option::None => {
                return Option::None;
            },
        };
        let msg = get_bytes(fields, "@msg");
        let title = get_opt_str(fields, "title");
        let detail = get_opt_str(fields, "detail");
        match (msg, title, detail) {
            (Option::Some(msg), Option::Some(title), Option::Some(detail)) => Option::Some(
                GeneralMessageDetail { msg_type: mt, msg, title, detail },
            ),
            _ => Option::None,
        }
    }
}

/// The model of [`MessageCreated`].
pub struct MessageCreatedVal {
    pub msg_type: MessageTypeV1Val,
    pub uid: Seq<char>,
}

/// The remote agent's acknowledgement that a message was created.
#[derive(Clone, Debug, PartialEq)]
pub struct MessageCreated {
    pub msg_type: MessageTypeV1,
    pub uid: String,
}

impl View for MessageCreated {
    type V = MessageCreatedVal;

    open spec fn view(&self) -> MessageCreatedVal {
        MessageCreatedVal { msg_type: self.msg_type@, uid: self.uid@ }
    }
}

impl MessageCreatedVal {
    /// The wire object of the acknowledgement.
    pub open spec fn to_val(self) -> JsonVal {
        JsonVal::Obj(
            seq![("@type"@, self.msg_type.to_val()), ("uid"@, JsonVal::Str(self.uid))],
        )
    }

    /// Reads the acknowledgement from a wire object.
    pub open spec fn from_val(j: JsonVal) -> Option<MessageCreatedVal> {
        match j {
            JsonVal::Obj(fs) => match JsonVal::fields_lookup(fs, "@type"@) {
                Option::Some(tv) => match MessageTypeV1Val::from_val(tv) {
                    Option::Some(mt) => match str_field_spec(fs, "uid"@) {
                        Option::Some(uid) => Option::Some(
                            MessageCreatedVal { msg_type: mt, uid },
                        ),
                        Option::None => Option::None,
                    },
                    Option::None => Option::None,
                },
                Option::None => Option::None,
            },
            _ => Option::None,
        }
    }
}

/// An acknowledgement reads back to itself.
pub proof fn lemma_message_created_round_trip(m: MessageCreatedVal)
    ensures
        MessageCreatedVal::from_val(m.to_val()) == Option::Some(m),
{
    reveal_strlit("@type");
    reveal_strlit("uid");
    assert("@type"@.len() == 5 && "uid"@.len() == 3);
    let fs = m.to_val()->Obj_0;
    lemma_lookup_at(fs, "@type"@, 0);
    lemma_lookup_at(fs, "uid"@, 1);
    lemma_message_type_round_trip(MessageTypesVal::MessageTypeV1(m.msg_type));
    assert(MessageTypeV1Val::from_val(m.msg_type.to_val()) == Option::Some(m.msg_type));
}

impl MessageCreated {
    /// Writes the acknowledgement as its wire object.
    pub fn to_json(&self) -> (r: Json)
        ensures
            r@ == self@.to_val(),
    {
        let mut fields: Vec<(String, Json)> = Vec::new();
        push_field(&mut fields, "@type".to_owned(), self.msg_type.to_json());
        push_field(&mut fields, "uid".to_owned(), Json::Str(self.uid.clone()));
        proof {
            assert(json_fields_view(fields@) =~= self@.to_val()->Obj_0);
        }
        Json::Obj(fields)
    }

    /// Reads an acknowledgement from a wire value.
    pub fn from_json(j: &Json) -> (r: Option<MessageCreated>)
        ensures
            match r {
                Option::Some(m) => MessageCreatedVal::from_val(j@) == Option::Some(m@),
                Option::None => MessageCreatedVal::from_val(j@) is None,
            },
    {
        let fields = match j {
            Json::Obj(fields) => fields,
            _ => {
                return Option::None;
            },
        };
        let tv = match obj_get(fields, "@type") {
            Option::Some(tv) => tv,
            Option::None => {
                return Option::None;
            },
        };
        let mt = match MessageTypeV1::from_json(tv) {
            Option::Some(mt) => mt,
            Option::None => {
                return Option::None;
            },
        };
        match get_str(fields, "uid") {
            Option::Some(uid) => Option::Some(MessageCreated { msg_type: mt, uid }),
            Option::None => Option::None,
        }
    }
}

/// The model of [`MessageSent`].
pub struct MessageSentVal {
    pub msg_type: MessageTypeV1Val,
    pub uid: Option<Seq<char>>,
    pub uids: Seq<Seq<char>>,
}

/// The remote agent's acknowledgement that messages went out.
#[derive(Clone, Debug, PartialEq)]
pub struct MessageSent {
    pub msg_type: MessageTypeV1,
    pub uid: Option<String>,
    pub uids: Vec<String>,
}

impl View for MessageSent {
    type V = MessageSentVal;

    open spec fn view(&self) -> MessageSentVal {
        MessageSentVal {
            msg_type: self.msg_type@,
            uid: opt_str_view(self.uid),
            uids: Seq::new(self.uids@.len(), |i: int| self.uids@[i]@),
        }
    }
}

impl MessageSentVal {
    /// The wire object of the acknowledgement.
    pub open spec fn to_val(self) -> JsonVal {
        JsonVal::Obj(
            seq![("@type"@, self.msg_type.to_val())] + (opt_str_entry("uid"@, self.uid) + seq![
                ("uids"@, str_list_val(self.uids)),
            ]),
        )
    }

    /// Reads the acknowledgement from a wire object; a missing list of
    /// message identifiers reads as empty.
    pub open spec fn from_val(j: JsonVal) -> Option<MessageSentVal> {
        match j {
            JsonVal::Obj(fs) => match JsonVal::fields_lookup(fs, "@type"@) {
                Option::Some(tv) => match MessageTypeV1Val::from_val(tv) {
                    Option::Some(mt) => match (
                        opt_str_field_spec(fs, "uid"@),
                        str_list_field_spec(fs, "uids"@),
                    ) {
                        (Option::Some(uid), Option::Some(uids)) => Option::Some(
                            MessageSentVal { msg_type: mt, uid, uids },
                        ),
                        _ => Option::None,
                    },
                    Option::None => Option::None,
                },
                Option::None => Option::None,
            },
            _ => Option::None,
        }
    }
}

/// An acknowledgement of sent messages reads back to itself.
pub proof fn lemma_message_sent_round_trip(m: MessageSentVal)
    ensures
        MessageSentVal::from_val(m.to_val()) == Option::Some(m),
{
    reveal_strlit("@type");
    reveal_strlit("uid");
    reveal_strlit("uids");
    assert("@type"@.len() == 5 && "uid"@.len() == 3 && "uids"@.len() == 4);
    let head = seq![("@type"@, m.msg_type.to_val())];
    let mid = opt_str_entry("uid"@, m.uid);
    let tail = seq![("uids"@, str_list_val(m.uids))];
    lemma_lookup_at(head, "@type"@, 0);
    lemma_lookup_concat_hit(head, mid + tail, "@type"@);
    lemma_lookup_concat_miss(head, mid + tail, "uid"@);
    lemma_lookup_concat_miss(head, mid + tail, "uids"@);
    lemma_message_type_round_trip(MessageTypesVal::MessageTypeV1(m.msg_type));
    assert(MessageTypeV1Val::from_val(m.msg_type.to_val()) == Option::Some(m.msg_type));
    lemma_str_list_reads(m.uids);
    match m.uid {
        Option::Some(u) => {
            lemma_lookup_at(mid, "uid"@, 0);
            lemma_lookup_concat_hit(mid, tail, "uid"@);
            lemma_lookup_concat_miss(mid, tail, "uids"@);
            lemma_lookup_at(tail, "uids"@, 0);
        },
        Option::None => {
            assert(mid + tail =~= tail);
            lemma_lookup_at(tail, "uids"@, 0);
            lemma_lookup_none(tail, "uid"@);
        },
    }
}

impl MessageSent {
    /// Writes the acknowledgement as its wire object.
    pub fn to_json(&self) -> (r: Json)
        ensures
            r@ == self@.to_val(),
    {
        let mut fields: Vec<(String, Json)> = Vec::new();
        push_field(&mut fields, "@type".to_owned(), self.msg_type.to_json());
        push_opt_str(&mut fields, "uid", &self.uid);
        push_field(&mut fields, "uids".to_owned(), str_list_to_json(&self.uids));
        proof {
            assert(json_fields_view(fields@) =~= self@.to_val()->Obj_0);
        }
        Json::Obj(fields)
    }

    /// Reads an acknowledgement of sent messages from a wire value.
    pub fn from_json(j: &Json) -> (r: Option<MessageSent>)
        ensures
            match r {
                Option::Some(m) => MessageSentVal::from_val(j@) == Option::Some(m@),
                Option::None => MessageSentVal::from_val(j@) is None,
            },
    {
        let fields = match j {
            Json::Obj(fields) => fields,
            _ => {
                return Option::None;
            },
        };
        let tv = match obj_get(fields, "@type") {
            Option::Some(tv) => tv,
            Option::None => {
                return Option::None;
            },
        };
        let mt = match MessageTypeV1::from_json(tv) {
            Option::Some(mt) => mt,
            Option::None => {
                return Option::None;
            },
        };
        let uid = get_opt_str(fields, "uid");
        let uids = get_str_list(fields, "uids");
        match (uid, uids) {
            (Option::Some(uid), Option::Some(uids)) => Option::Some(
                MessageSent { msg_type: mt, uid, uids },
            ),
            _ => Option::None,
        }
    }
}

/// Entries contributed by a skippable field all carry that field's key.
pub proof fn lemma_opt_entry_keys(key: Seq<char>, v: Option<Seq<char>>, k: Seq<char>)
    requires
        key != k,
    ensures
        forall|i: int|
            0 <= i < opt_str_entry(key, v).len() ==> (#[trigger] opt_str_entry(key, v)[i]).0
                != k,
{
}

/// The model of [`SendRemoteMessage`].
pub struct SendRemoteMessageVal {
    pub msg_type: MessageTypeV2Val,
    pub mtype: RemoteMessageTypeVal,
    pub reply_to_msg_id: Option<Seq<char>>,
    pub send_msg: bool,
    pub uid: Option<Seq<char>>,
    pub msg: Seq<u8>,
    pub title: Option<Seq<char>>,
    pub detail: Option<Seq<char>>,
}

/// A newer-protocol request to relay an application message.
#[derive(Clone, Debug, PartialEq)]
pub struct SendRemoteMessage {
    pub msg_type: MessageTypeV2,
    pub mtype: RemoteMessageType,
    pub reply_to_msg_id: Option<String>,
    pub send_msg: bool,
    pub uid: Option<String>,
    pub msg: Vec<u8>,
    pub title: Option<String>,
    pub detail: Option<String>,
}

impl View for SendRemoteMessage {
    type V = SendRemoteMessageVal;

    open spec fn view(&self) -> SendRemoteMessageVal {
        SendRemoteMessageVal {
            msg_type: self.msg_type@,
            mtype: self.mtype@,
            reply_to_msg_id: opt_str_view(self.reply_to_msg_id),
            send_msg: self.send_msg,
            uid: opt_str_view(self.uid),
            msg: self.msg@,
            title: opt_str_view(self.title),
            detail: opt_str_view(self.detail),
        }
    }
}

impl SendRemoteMessageVal {
    /// The wire object of the request.
    pub open spec fn to_val(self) -> JsonVal {
        JsonVal::Obj(
            seq![
                ("@type"@, self.msg_type.to_val()),
                ("mtype"@, JsonVal::Str(self.mtype.wire_spec())),
            ] + (opt_str_entry("replyToMsgId"@, self.reply_to_msg_id) + (seq![
                ("sendMsg"@, JsonVal::Bool(self.send_msg)),
            ] + (opt_str_entry("uid"@, self.uid) + (seq![("@msg"@, buf_json_spec(self.msg))] + (
            opt_str_entry("title"@, self.title) + opt_str_entry("detail"@, self.detail)))))),
        )
    }

    /// Reads the request from a wire object.
    pub open spec fn from_val(j: JsonVal) -> Option<SendRemoteMessageVal> {
        match j {
            JsonVal::Obj(fs) => match JsonVal::fields_lookup(fs, "@type"@) {
                Option::Some(tv) => match MessageTypeV2Val::from_val(tv) {
                    Option::Some(mt) => match (
                        str_field_spec(fs, "mtype"@),
                        opt_str_field_spec(fs, "replyToMsgId"@),
                        bool_field_spec(fs, "sendMsg"@),
                        opt_str_field_spec(fs, "uid"@),
                        bytes_field_spec(fs, "@msg"@),
                        opt_str_field_spec(fs, "title"@),
                        opt_str_field_spec(fs, "detail"@),
                    ) {
                        (
                            Option::Some(mtype),
                            Option::Some(reply),
                            Option::Some(send_msg),
                            Option::Some(uid),
                            Option::Some(msg),
                            Option::Some(title),
                            Option::Some(detail),
                        ) => Option::Some(
                            SendRemoteMessageVal {
                                msg_type: mt,
                                mtype: RemoteMessageTypeVal::from_wire_spec(mtype),
                                reply_to_msg_id: reply,
                                send_msg,
                                uid,
                                msg,
                                title,
                                detail,
                            },
                        ),
                        _ => Option::None,
                    },
                    Option::None => Option::None,
                },
                Option::None => Option::None,
            },
            _ => Option::None,
        }
    }
}

/// A relay request reads back to itself.
#[verifier::rlimit(30)]
pub proof fn lemma_send_remote_round_trip(m: SendRemoteMessageVal)
    requires
        remote_wf(m.mtype),
        family_wf(m.msg_type.family),
    ensures
        SendRemoteMessageVal::from_val(m.to_val()) == Option::Some(m),
{
    reveal_strlit("@type");
    reveal_strlit("mtype");
    reveal_strlit("replyToMsgId");
    reveal_strlit("sendMsg");
    reveal_strlit("uid");
    reveal_strlit("@msg");
    reveal_strlit("title");
    reveal_strlit("detail");
    assert("@type"@.len() == 5 && "mtype"@.len() == 5 && "replyToMsgId"@.len() == 12
        && "sendMsg"@.len() == 7 && "uid"@.len() == 3 && "@msg"@.len() == 4 && "title"@.len() == 5
        && "detail"@.len() == 6);
    assert("@type"@[0] == '@' && "mtype"@[0] == 'm' && "title"@[0] == 't');
    let s0 = seq![
        ("@type"@, m.msg_type.to_val()),
        ("mtype"@, JsonVal::Str(m.mtype.wire_spec())),
    ];
    let s1 = opt_str_entry("replyToMsgId"@, m.reply_to_msg_id);
    let s2 = seq![("sendMsg"@, JsonVal::Bool(m.send_msg))];
    let s3 = opt_str_entry("uid"@, m.uid);
    let s4 = seq![("@msg"@, buf_json_spec(m.msg))];
    let s5 = opt_str_entry("title"@, m.title);
    let s6 = opt_str_entry("detail"@, m.detail);
    let r5 = s5 + s6;
    let r4 = s4 + r5;
    let r3 = s3 + r4;
    let r2 = s2 + r3;
    let r1 = s1 + r2;
    let fs = s0 + r1;
    lemma_message_type_round_trip(MessageTypesVal::MessageTypeV2(m.msg_type));
    assert(MessageTypeV2Val::from_val(m.msg_type.to_val()) == Option::Some(
        m.msg_type,
    ));
    lemma_buf_json_reads(m.msg);
    // @type and mtype sit in the head segment
    lemma_lookup_at(s0, "@type"@, 0);
    lemma_lookup_at(s0, "mtype"@, 1);
    lemma_lookup_concat_hit(s0, r1, "@type"@);
    lemma_lookup_concat_hit(s0, r1, "mtype"@);
    // sendMsg
    lemma_lookup_concat_miss(s0, r1, "sendMsg"@);
    lemma_opt_entry_keys("replyToMsgId"@, m.reply_to_msg_id, "sendMsg"@);
    lemma_lookup_concat_miss(s1, r2, "sendMsg"@);
    lemma_lookup_at(s2, "sendMsg"@, 0);
    lemma_lookup_concat_hit(s2, r3, "sendMsg"@);
    // @msg
    lemma_lookup_concat_miss(s0, r1, "@msg"@);
    lemma_opt_entry_keys("replyToMsgId"@, m.reply_to_msg_id, "@msg"@);
    lemma_lookup_concat_miss(s1, r2, "@msg"@);
    lemma_lookup_concat_miss(s2, r3, "@msg"@);
    lemma_opt_entry_keys("uid"@, m.uid, "@msg"@);
    lemma_lookup_concat_miss(s3, r4, "@msg"@);
    lemma_lookup_at(s4, "@msg"@, 0);
    lemma_lookup_concat_hit(s4, r5, "@msg"@);
    // replyToMsgId
    lemma_lookup_concat_miss(s0, r1, "replyToMsgId"@);
    match m.reply_to_msg_id {
        Option::Some(v) => {
            lemma_lookup_at(s1, "replyToMsgId"@, 0);
            lemma_lookup_concat_hit(s1, r2, "replyToMsgId"@);
        },
        Option::None => {
            assert(s1 + r2 =~= r2);
            lemma_lookup_concat_miss(s2, r3, "replyToMsgId"@);
            lemma_opt_entry_keys("uid"@, m.uid, "replyToMsgId"@);
            lemma_lookup_concat_miss(s3, r4, "replyToMsgId"@);
            lemma_lookup_concat_miss(s4, r5, "replyToMsgId"@);
            lemma_opt_entry_keys("title"@, m.title, "replyToMsgId"@);
            lemma_lookup_concat_miss(s5, s6, "replyToMsgId"@);
            lemma_opt_entry_keys("detail"@, m.detail, "replyToMsgId"@);
            lemma_lookup_none(s6, "replyToMsgId"@);
        },
    }
    // uid
    lemma_lookup_concat_miss(s0, r1, "uid"@);
    lemma_opt_entry_keys("replyToMsgId"@, m.reply_to_msg_id, "uid"@);
    lemma_lookup_concat_miss(s1, r2, "uid"@);
    lemma_lookup_concat_miss(s2, r3, "uid"@);
    match m.uid {
        Option::Some(v) => {
            lemma_lookup_at(s3, "uid"@, 0);
            lemma_lookup_concat_hit(s3, r4, "uid"@);
        },
        Option::None => {
            assert(s3 + r4 =~= r4);
            lemma_lookup_concat_miss(s4, r5, "uid"@);
            lemma_opt_entry_keys("title"@, m.title, "uid"@);
            lemma_lookup_concat_miss(s5, s6, "uid"@);
            lemma_opt_entry_keys("detail"@, m.detail, "uid"@);
            lemma_lookup_none(s6, "uid"@);
        },
    }
    // title
    lemma_lookup_concat_miss(s0, r1, "title"@);
    lemma_opt_entry_keys("replyToMsgId"@, m.reply_to_msg_id, "title"@);
    lemma_lookup_concat_miss(s1, r2, "title"@);
    lemma_lookup_concat_miss(s2, r3, "title"@);
    lemma_opt_entry_keys("uid"@, m.uid, "title"@);
    lemma_lookup_concat_miss(s3, r4, "title"@);
    lemma_lookup_concat_miss(s4, r5, "title"@);
    match m.title {
        Option::Some(v) => {
            lemma_lookup_at(s5, "title"@, 0);
            lemma_lookup_concat_hit(s5, s6, "title"@);
        },
        Option::None => {
            assert(s5 + s6 =~= s6);
            lemma_opt_entry_keys("detail"@, m.detail, "title"@);
            lemma_lookup_none(s6, "title"@);
        },
    }
    // detail
    lemma_lookup_concat_miss(s0, r1, "detail"@);
    lemma_opt_entry_keys("replyToMsgId"@, m.reply_to_msg_id, "detail"@);
    lemma_lookup_concat_miss(s1, r2, "detail"@);
    lemma_lookup_concat_miss(s2, r3, "detail"@);
    lemma_opt_entry_keys("uid"@, m.uid, "detail"@);
    lemma_lookup_concat_miss(s3, r4, "detail"@);
    lemma_lookup_concat_miss(s4, r5, "detail"@);
    lemma_opt_entry_keys("title"@, m.title, "detail"@);
    lemma_lookup_concat_miss(s5, s6, "detail"@);
    match m.detail {
        Option::Some(v) => {
            lemma_lookup_at(s6, "detail"@, 0);
        },
        Option::None => {
            lemma_lookup_none(s6, "detail"@);
        },
    }
}

impl SendRemoteMessage {
    /// Writes the request as its wire object.
    pub fn to_json(&self) -> (r: Json)
        ensures
            r@ == self@.to_val(),
    {
        let mut fields: Vec<(String, Json)> = Vec::new();
        push_field(&mut fields, "@type".to_owned(), self.msg_type.to_json());
        push_field(&mut fields, "mtype".to_owned(), Json::Str(self.mtype.to_wire()));
        push_opt_str(&mut fields, "replyToMsgId", &self.reply_to_msg_id);
        push_field(&mut fields, "sendMsg".to_owned(), Json::Bool(self.send_msg));
        push_opt_str(&mut fields, "uid", &self.uid);
        push_field(&mut fields, "@msg".to_owned(), bytes_to_json(&self.msg));
        push_opt_str(&mut fields, "title", &self.title);
        push_opt_str(&mut fields, "detail", &self.detail);
        proof {
            assert(json_fields_view(fields@) =~= self@.to_val()->Obj_0);
        }
        Json::Obj(fields)
    }

    /// Reads the request from a wire value.
    pub fn from_json(j: &Json) -> (r: Option<SendRemoteMessage>)
        ensures
            match r {
                Option::Some(m) => SendRemoteMessageVal::from_val(j@) == Option::Some(m@),
                Option::None => SendRemoteMessageVal::from_val(j@) is None,
            },
    {
        let fields = match j {
            Json::Obj(fields) => fields,
            _ => {
                return Option::None;
            },
        };
        let tv = match obj_get(fields, "@type") {
            Option::Some(tv) => tv,
            Option::None => {
                return Option::None;
            },
        };
        let mt = match MessageTypeV2::from_json(tv) {
            Option::Some(mt) => mt,
            Option::None => {
                return Option::None;
            },
        };
        let mtype = get_str(fields, "mtype");
        let reply = get_opt_str(fields, "replyToMsgId");
        let send_msg = get_bool(fields, "sendMsg");
        let uid = get_opt_str(fields, "uid");
        let msg = get_bytes(fields, "@msg");
        let title = get_opt_str(fields, "title");
        let detail = get_opt_str(fields, "detail");
        match (mtype, reply, send_msg, uid, msg, title, detail) {
            (
                Option::Some(mtype),
                Option::Some(reply),
                Option::Some(send_msg),
                Option::Some(uid),
                Option::Some(msg),
                Option::Some(title),
                Option::Some(detail),
            ) => Option::Some(
                SendRemoteMessage {
                    msg_type: mt,
                    mtype: RemoteMessageType::from_wire(mtype.as_str()),
                    reply_to_msg_id: reply,
                    send_msg,
                    uid,
                    msg,
                    title,
                    detail,
                },
            ),
            _ => Option::None,
        }
    }
}

/// The model of [`SendRemoteMessageResponse`].
pub struct SendRemoteMessageResponseVal {
    pub msg_type: MessageTypesVal,
    pub uid: Seq<char>,
    pub sent: bool,
}

/// The remote agent's answer to a relay request.
#[derive(Clone, Debug, PartialEq)]
pub struct SendRemoteMessageResponse {
    pub msg_type: MessageTypes,
    pub uid: String,
    pub sent: bool,
}

impl View for SendRemoteMessageResponse {
    type V = SendRemoteMessageResponseVal;

    open spec fn view(&self) -> SendRemoteMessageResponseVal {
        SendRemoteMessageResponseVal {
            msg_type: self.msg_type@,
            uid: self.uid@,
            sent: self.sent,
        }
    }
}

impl SendRemoteMessageResponseVal {
    /// The wire object of the answer.
    pub open spec fn to_val(self) -> JsonVal {
        JsonVal::Obj(
            seq![
                ("@type"@, self.msg_type.to_val()),
                ("uid"@, JsonVal::Str(self.uid)),
                ("sent"@, JsonVal::Bool(self.sent)),
            ],
        )
    }

    /// Reads the answer from a wire object.
    pub open spec fn from_val(j: JsonVal) -> Option<SendRemoteMessageResponseVal> {
        match j {
            JsonVal::Obj(fs) => match JsonVal::fields_lookup(fs, "@type"@) {
                Option::Some(tv) => match MessageTypesVal::from_val(tv) {
                    Option::Some(mt) => match (
                        str_field_spec(fs, "uid"@),
                        bool_field_spec(fs, "sent"@),
                    ) {
                        (Option::Some(uid), Option::Some(sent)) => Option::Some(
                            SendRemoteMessageResponseVal { msg_type: mt, uid, sent },
                        ),
                        _ => Option::None,
                    },
                    Option::None => Option::None,
                },
                Option::None => Option::None,
            },
            _ => Option::None,
        }
    }
}

/// A relay answer reads back to itself.
pub proof fn lemma_send_remote_response_round_trip(m: SendRemoteMessageResponseVal)
    requires
        mts_wf(m.msg_type),
    ensures
        SendRemoteMessageResponseVal::from_val(m.to_val()) == Option::Some(m),
{
    reveal_strlit("@type");
    reveal_strlit("uid");
    reveal_strlit("sent");
    assert("@type"@.len() == 5 && "uid"@.len() == 3 && "sent"@.len() == 4);
    let fs = m.to_val()->Obj_0;
    lemma_lookup_at(fs, "@type"@, 0);
    lemma_lookup_at(fs, "uid"@, 1);
    lemma_lookup_at(fs, "sent"@, 2);
    lemma_message_type_round_trip(m.msg_type);
}

impl SendRemoteMessageResponse {
    /// Writes the answer as its wire object.
    pub fn to_json(&self) -> (r: Json)
        ensures
            r@ == self@.to_val(),
    {
        let mut fields: Vec<(String, Json)> = Vec::new();
        push_field(&mut fields, "@type".to_owned(), self.msg_type.to_json());
        push_field(&mut fields, "uid".to_owned(), Json::Str(self.uid.clone()));
        push_field(&mut fields, "sent".to_owned(), Json::Bool(self.sent));
        proof {
            assert(json_fields_view(fields@) =~= self@.to_val()->Obj_0);
        }
        Json::Obj(fields)
    }

    /// Reads an answer from a wire value.
    pub fn from_json(j: &Json) -> (r: Option<SendRemoteMessageResponse>)
        ensures
            match r {
                Option::Some(m) => SendRemoteMessageResponseVal::from_val(j@) == Option::Some(
                    m@,
                ),
                Option::None => SendRemoteMessageResponseVal::from_val(j@) is None,
            },
    {
        let fields = match j {
            Json::Obj(fields) => fields,
            _ => {
                return Option::None;
            },
        };
        let tv = match obj_get(fields, "@type") {
            Option::Some(tv) => tv,
            Option::None => {
                return Option::None;
            },
        };
        let mt = match MessageTypes::from_json(tv) {
            Option::Some(mt) => mt,
            Option::None => {
                return Option::None;
            },
        };
        let uid = get_str(fields, "uid");
        let sent = get_bool(fields, "sent");
        match (uid, sent) {
            (Option::Some(uid), Option::Some(sent)) => Option::Some(
                SendRemoteMessageResponse { msg_type: mt, uid, sent },
            ),
            _ => Option::None,
        }
    }
}

/// The model of [`MessageDetail`].
pub enum MessageDetailVal {
    General(GeneralMessageDetailVal),
    Other(JsonVal),
}

/// The detail block of a create-message exchange.  A block in the general
/// shape is read as such; any other tree is carried through unchanged.
#[derive(Debug, PartialEq)]
pub enum MessageDetail {
    General(GeneralMessageDetail),
    Other(Json),
}

impl View for MessageDetail {
    type V = MessageDetailVal;

    open spec fn view(&self) -> MessageDetailVal {
        match self {
            MessageDetail::General(g) => MessageDetailVal::General(g@),
            MessageDetail::Other(j) => MessageDetailVal::Other(j@),
        }
    }
}

impl MessageDetailVal {
    /// A carried-through detail is well formed when it is not itself in the
    /// general shape, so that reading makes the same choice again.
    pub open spec fn wf(self) -> bool {
        match self {
            MessageDetailVal::General(_) => true,
            MessageDetailVal::Other(j) => GeneralMessageDetailVal::from_val(j) is None,
        }
    }

    /// The wire value of the detail block.
    pub open spec fn to_val(self) -> JsonVal {
        match self {
            MessageDetailVal::General(g) => g.to_val(),
            MessageDetailVal::Other(j) => j,
        }
    }

    /// Reads a detail block, preferring the general shape.
    pub open spec fn from_val(j: JsonVal) -> MessageDetailVal {
        match GeneralMessageDetailVal::from_val(j) {
            Option::Some(g) => MessageDetailVal::General(g),
            Option::None => MessageDetailVal::Other(j),
        }
    }
}

/// A detail block reads back to itself.
pub proof fn lemma_message_detail_round_trip(m: MessageDetailVal)
    requires
        m.wf(),
    ensures
        MessageDetailVal::from_val(m.to_val()) == m,
{
    match m {
        MessageDetailVal::General(g) => {
            lemma_general_detail_round_trip(g);
        },
        MessageDetailVal::Other(_) => {
        },
    }
}

impl MessageDetail {
    /// Writes the detail block as its wire value.
    pub fn to_json(&self) -> (r: Json)
        ensures
            r@ == self@.to_val(),
    {
        match self {
            MessageDetail::General(g) => g.to_json(),
            MessageDetail::Other(j) => json_clone(j),
        }
    }

    /// Reads a detail block from a wire value, preferring the general shape.
    pub fn from_json(j: &Json) -> (r: MessageDetail)
        ensures
            r@ == MessageDetailVal::from_val(j@),
    {
        match GeneralMessageDetail::from_json(j) {
            Option::Some(g) => MessageDetail::General(g),
            Option::None => MessageDetail::Other(json_clone(j)),
        }
    }
}

/// A conversation thread marker carried inside domain messages; the codec
/// treats it opaquely.
#[derive(Clone, Debug, PartialEq)]
pub struct Thread {
    pub thid: String,
    pub pthid: Option<String>,
    pub sender_order: u32,
    pub received_orders: Option<Vec<(String, u32)>>,
}

} // verus!
