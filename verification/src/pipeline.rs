//! The envelope pipeline: preparing messages for the agency and the paired
//! agent, and reading the agency's responses.
//!
//! Between every two computation steps below stands a call into the crypto
//! provider or a serialization of a tree to bytes.  Neither runs here: the
//! caller performs those outside steps and hands their results back, and
//! every decision and every tree built between them is verified.  An
//! outbound request runs: encode the message, encrypt it for the agent,
//! wrap the ciphertext in a forward envelope for the next hop, encode and
//! encrypt again for the agency.  Inbound responses run the inverse chain.

use vstd::prelude::*;
use crate::a2a::{A2AMessage, A2AMessageVal};
use crate::bundle::{bundle_json_spec, bundle_to_json};
use crate::error::CodecError;
use crate::json::{Json, JsonVal};
use crate::messages::{Forward, ForwardVal};
use crate::message_type::{A2AMessageKinds, MessageTypes};
use crate::field::str_field_spec;
use crate::settings::{ProtocolTypes, Settings};

verus! {

/// The keys an outbound hop to the agency is encrypted under.
#[derive(Clone, Debug, PartialEq, Eq)]
pub struct AgencyKeys {
    /// This client's key, the sender of the authenticated inner hop.
    pub my_vk: String,
    /// The remote agent's key, the recipient of the inner hop.
    pub agent_vk: String,
}

/// Reads the two keys the agency hop needs, the agent's first, as the
/// legacy path did.
pub fn agency_keys(settings: &Settings) -> (r: Result<AgencyKeys, CodecError>)
    ensures
        match r {
            Result::Ok(k) => settings.remote_to_sdk_verkey is Some && settings.sdk_to_remote_verkey
                is Some && k.agent_vk@ == settings.remote_to_sdk_verkey->Some_0@ && k.my_vk@
                == settings.sdk_to_remote_verkey->Some_0@,
            Result::Err(e) => (settings.remote_to_sdk_verkey is None
                || settings.sdk_to_remote_verkey is None) && e == CodecError::InvalidConfiguration,
        },
{
    let agent_vk = match settings.get_remote_to_sdk_verkey() {
        Result::Ok(v) => v,
        Result::Err(e) => {
            return Result::Err(e);
        },
    };
    let my_vk = match settings.get_sdk_to_remote_verkey() {
        Result::Ok(v) => v,
        Result::Err(e) => {
            return Result::Err(e);
        },
    };
    Result::Ok(AgencyKeys { my_vk, agent_vk })
}

/// Wraps one serialized message in the older protocol's outer container.
pub fn bundle_single(message: &Vec<u8>) -> (r: Json)
    ensures
        r@ == bundle_json_spec(seq![message@]),
{
    let mut bufs: Vec<Vec<u8>> = Vec::new();
    bufs.push(message.clone());
    let r = bundle_to_json(&bufs);
    proof {
        assert(Seq::new(bufs@.len(), |i: int| bufs@[i]@) =~= seq![message@]);
    }
    r
}

/// Builds the forward envelope that routes `message` to `fwd_did`: the next
/// hop needs only the recipient and the opaque ciphertext.
pub fn prepare_forward_message(message: Vec<u8>, fwd_did: &str, version: ProtocolTypes) -> (r:
    Forward)
    ensures
        r@.fwd == fwd_did@,
        r@.msg == message@,
        r@.msg_type == MessageTypes::build_spec(A2AMessageKinds::Forward, version),
{
    Forward::new(fwd_did.to_owned(), message, version)
}

/// Picks the single message the newer protocol sends to the agent: that
/// path carries one message per envelope, and an empty list cannot be
/// serialized.
pub fn first_message_for_agent(messages: &Vec<A2AMessage>) -> (r: Result<
    &A2AMessage,
    CodecError,
>)
    ensures
        match r {
            Result::Ok(m) => messages@.len() > 0 && *m == messages@[0],
            Result::Err(e) => messages@.len() == 0 && e == CodecError::SerializationError,
        },
{
    if messages.len() == 0 {
        Result::Err(CodecError::SerializationError)
    } else {
        Result::Ok(&messages[0])
    }
}

/// Reads the nested message text out of an unpacked envelope: the provider
/// hands back an object whose `message` field holds the inner message as a
/// string; anything else is ill-formed JSON.
pub fn extract_message_field(j: &Json) -> (r: Result<String, CodecError>)
    ensures
        match r {
            Result::Ok(s) => j@ is Obj && str_field_spec(j@->Obj_0, "message"@) == Option::Some(
                s@,
            ),
            Result::Err(e) => (!(j@ is Obj) || str_field_spec(j@->Obj_0, "message"@) is None) && e
                == CodecError::InvalidJson,
        },
{
    match j {
        Json::Obj(fields) => match crate::field::get_str(fields, "message") {
            Option::Some(s) => Result::Ok(s),
            Option::None => Result::Err(CodecError::InvalidJson),
        },
        _ => Result::Err(CodecError::InvalidJson),
    }
}

/// Reads one response message; a tree that decodes under neither version's
/// dispatch is reported as ill-formed JSON, the label the legacy reader
/// used even for the MessagePack container.
pub fn decode_response_message(j: &Json) -> (r: Result<A2AMessage, CodecError>)
    ensures
        match r {
            Result::Ok(m) => A2AMessageVal::from_val(j@) == Option::Some(m@),
            Result::Err(e) => A2AMessageVal::from_val(j@) is None && e == CodecError::InvalidJson,
        },
{
    match A2AMessage::from_json(j) {
        Option::Some(m) => Result::Ok(m),
        Option::None => Result::Err(CodecError::InvalidJson),
    }
}

/// Reads every element of an older-protocol response bundle; a single
/// failing element fails the whole response.
#[verifier::loop_isolation(false)]
pub fn decode_response_messages(elements: &Vec<Json>) -> (r: Result<Vec<A2AMessage>, CodecError>)
    ensures
        match r {
            Result::Ok(out) => out@.len() == elements@.len() && forall|i: int|
                0 <= i < elements@.len() ==> A2AMessageVal::from_val(#[trigger] elements@[i]@)
                    == Option::Some(out@[i]@),
            Result::Err(e) => (exists|i: int|
                0 <= i < elements@.len() && A2AMessageVal::from_val(#[trigger] elements@[i]@)
                    is None) && e == CodecError::InvalidJson,
        },
{
    let mut out: Vec<A2AMessage> = Vec::new();
    let mut idx: usize = 0;
    while idx < elements.len()
        invariant
            idx <= elements@.len(),
            out@.len() == idx,
            forall|i: int|
                0 <= i < idx ==> A2AMessageVal::from_val(#[trigger] elements@[i]@) == Option::Some(
                    out@[i]@,
                ),
        decreases elements@.len() - idx,
    {
        match A2AMessage::from_json(&elements[idx]) {
            Option::Some(m) => {
                out.push(m);
            },
            Option::None => {
                return Result::Err(CodecError::InvalidJson);
            },
        }
        idx = idx + 1;
    }
    Result::Ok(out)
}

/// Wrapping twice forwards hop by hop: the inner envelope names the first
/// hop and carries the original ciphertext; the outer envelope names the
/// second hop and carries whatever bytes the inner envelope was sealed
/// into.
pub proof fn lemma_forward_wrap_hops(
    ciphertext: Seq<u8>,
    hop1: Seq<char>,
    sealed_inner: Seq<u8>,
    hop2: Seq<char>,
    inner: ForwardVal,
    outer: ForwardVal,
    version: ProtocolTypes,
)
    requires
        inner.fwd == hop1,
        inner.msg == ciphertext,
        inner.msg_type == MessageTypes::build_spec(A2AMessageKinds::Forward, version),
        outer.fwd == hop2,
        outer.msg == sealed_inner,
        outer.msg_type == MessageTypes::build_spec(A2AMessageKinds::Forward, version),
    ensures
        ForwardVal::from_val(inner.to_val()) == Option::Some(inner),
        ForwardVal::from_val(outer.to_val()) == Option::Some(outer),
        ForwardVal::from_val(outer.to_val())->Some_0.fwd == hop2,
        ForwardVal::from_val(outer.to_val())->Some_0.msg == sealed_inner,
        ForwardVal::from_val(inner.to_val())->Some_0.fwd == hop1,
        ForwardVal::from_val(inner.to_val())->Some_0.msg == ciphertext,
{
    reveal_strlit("routing");
    crate::messages::lemma_forward_round_trip(inner);
    crate::messages::lemma_forward_round_trip(outer);
}

} // verus!
