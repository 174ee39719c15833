//! The older protocol's outer container: a bundle of byte strings.
//!
//! On the wire a bundle is a map `{ bundled: [bytes, ...] }`.  Historical
//! peers wrote the byte strings against signed byte types, so a reader must
//! tolerate both encodings: a bundle is first read with every element taken
//! as a signed byte, and only if that fails with every element taken as an
//! unsigned byte.  Outbound bundles always use the unsigned form.

use vstd::prelude::*;
use crate::error::CodecError;
use crate::json::{Json, JsonVal, json_seq_view, json_fields_view, lemma_json_seq_view,
    lemma_json_fields_view, obj_get};

verus! {

/// A list of values wrapped for the older protocol's outer frame.
#[derive(Clone, Debug, PartialEq)]
pub struct Bundled<T> {
    pub bundled: Vec<T>,
}

impl<T> Bundled<T> {
    /// Wraps a single value, the only shape outbound paths produce.
    pub fn create(bundled: T) -> (r: Bundled<T>)
        ensures
            r.bundled@.len() == 1,
            r.bundled@[0] == bundled,
    {
        let mut one: Vec<T> = Vec::new();
        one.push(bundled);
        Bundled { bundled: one }
    }
}

impl Bundled<Vec<u8>> {
    /// Writes the bundle as its wire tree, in the unsigned form.
    pub fn to_json(&self) -> (r: Json)
        ensures
            r@ == bundle_json_spec(Seq::new(self.bundled@.len(), |i: int| self.bundled@[i]@)),
    {
        bundle_to_json(&self.bundled)
    }
}

/// A signed byte reinterpreted as unsigned, modulo 256.
pub open spec fn u8_of_i8_spec(b: i8) -> u8 {
    if b >= 0 {
        b as u8
    } else {
        (b + 256) as u8
    }
}

/// An unsigned byte reinterpreted as signed, modulo 256.
pub open spec fn i8_of_u8_spec(b: u8) -> i8 {
    if b <= 127 {
        b as i8
    } else {
        (b - 256) as i8
    }
}

/// The two reinterpretations undo one another on every byte.
pub proof fn lemma_i8_u8_symmetry(u: u8, s: i8)
    ensures
        u8_of_i8_spec(i8_of_u8_spec(u)) == u,
        i8_of_u8_spec(u8_of_i8_spec(s)) == s,
{
}

/// Reinterprets every signed byte as unsigned.
#[verifier::loop_isolation(false)]
pub fn to_u8(bytes: &Vec<i8>) -> (r: Vec<u8>)
    ensures
        r@.len() == bytes@.len(),
        forall|i: int| 0 <= i < bytes@.len() ==> r@[i] == u8_of_i8_spec(bytes@[i]),
{
    let mut out: Vec<u8> = Vec::new();
    let mut idx: usize = 0;
    while idx < bytes.len()
        invariant
            idx <= bytes@.len(),
            out@.len() == idx,
            forall|i: int| 0 <= i < idx ==> out@[i] == u8_of_i8_spec(bytes@[i]),
        decreases bytes@.len() - idx,
    {
        let b = bytes[idx];
        if b >= 0 {
            out.push(b as u8);
        } else {
            out.push(((b as i16) + 256) as u8);
        }
        idx = idx + 1;
    }
    out
}

/// Reinterprets every unsigned byte as signed.
#[verifier::loop_isolation(false)]
pub fn to_i8(bytes: &Vec<u8>) -> (r: Vec<i8>)
    ensures
        r@.len() == bytes@.len(),
        forall|i: int| 0 <= i < bytes@.len() ==> r@[i] == i8_of_u8_spec(bytes@[i]),
{
    let mut out: Vec<i8> = Vec::new();
    let mut idx: usize = 0;
    while idx < bytes.len()
        invariant
            idx <= bytes@.len(),
            out@.len() == idx,
            forall|i: int| 0 <= i < idx ==> out@[i] == i8_of_u8_spec(bytes@[i]),
        decreases bytes@.len() - idx,
    {
        let b = bytes[idx];
        if b <= 127 {
            out.push(b as i8);
        } else {
            out.push(((b as i16) - 256) as i8);
        }
        idx = idx + 1;
    }
    out
}

/// The byte a tree node denotes when elements are read as signed bytes.
pub open spec fn byte_i8_spec(v: JsonVal) -> Option<u8> {
    match v {
        JsonVal::UInt(n) => if n <= 127 {
            Option::Some(n as u8)
        } else {
            Option::None
        },
        JsonVal::Int(m) => if -128 <= m && m <= 127 {
            Option::Some(u8_of_i8_spec(m as i8))
        } else {
            Option::None
        },
        _ => Option::None,
    }
}

/// The byte a tree node denotes when elements are read as unsigned bytes.
pub open spec fn byte_u8_spec(v: JsonVal) -> Option<u8> {
    match v {
        JsonVal::UInt(n) => if n <= 255 {
            Option::Some(n as u8)
        } else {
            Option::None
        },
        _ => Option::None,
    }
}

/// The byte a tree node denotes under the chosen reading.
pub open spec fn byte_spec(v: JsonVal, signed: bool) -> Option<u8> {
    if signed {
        byte_i8_spec(v)
    } else {
        byte_u8_spec(v)
    }
}

/// Whether every node of `items` denotes a byte under `signed` reading.
pub open spec fn buf_ok_spec(v: JsonVal, signed: bool) -> bool {
    match v {
        JsonVal::Arr(items) => forall|i: int|
            0 <= i < items.len() ==> (#[trigger] byte_spec(items[i], signed)) is Some,
        _ => false,
    }
}

/// The bytes `v` denotes, element by element, under `signed` reading.
pub open spec fn buf_val_spec(v: JsonVal, signed: bool) -> Seq<u8> {
    match v {
        JsonVal::Arr(items) => Seq::new(items.len(), |i: int| byte_spec(items[i], signed)->Some_0),
        _ => Seq::empty(),
    }
}

/// Whether `j` is a bundle whose every byte string reads under `signed`.
pub open spec fn bundle_ok_spec(j: JsonVal, signed: bool) -> bool {
    match j.obj_lookup("bundled"@) {
        Option::Some(JsonVal::Arr(items)) => forall|i: int|
            0 <= i < items.len() ==> #[trigger] buf_ok_spec(items[i], signed),
        _ => false,
    }
}

/// The byte strings of the bundle `j` under `signed` reading.
pub open spec fn bundle_val_spec(j: JsonVal, signed: bool) -> Seq<Seq<u8>> {
    match j.obj_lookup("bundled"@) {
        Option::Some(JsonVal::Arr(items)) => Seq::new(
            items.len(),
            |i: int| buf_val_spec(items[i], signed),
        ),
        _ => Seq::empty(),
    }
}

/// Reads one byte string under the chosen reading.
#[verifier::loop_isolation(false)]
fn buf_from_json(v: &Json, signed: bool) -> (r: Option<Vec<u8>>)
    ensures
        match r {
            Option::Some(buf) => buf_ok_spec(v@, signed) && buf@ == buf_val_spec(v@, signed),
            Option::None => !buf_ok_spec(v@, signed),
        },
{
    match v {
        Json::Arr(items) => {
            proof {
                lemma_json_seq_view(items@);
            }
            let mut out: Vec<u8> = Vec::new();
            let mut idx: usize = 0;
            while idx < items.len()
                invariant
                    idx <= items@.len(),
                    out@.len() == idx,
                    json_seq_view(items@).len() == items@.len(),
                    forall|i: int|
                        0 <= i < items@.len() ==> json_seq_view(items@)[i] == items@[i]@,
                    forall|i: int|
                        0 <= i < idx ==> #[trigger] byte_spec(items@[i]@, signed)
                            == Option::Some(out@[i]),
                decreases items@.len() - idx,
            {
                let b: Option<u8> = match &items[idx] {
                    Json::UInt(n) => {
                        if signed {
                            if *n <= 127 {
                                Option::Some(*n as u8)
                            } else {
                                Option::None
                            }
                        } else {
                            if *n <= 255 {
                                Option::Some(*n as u8)
                            } else {
                                Option::None
                            }
                        }
                    },
                    Json::Int(m) => {
                        if signed && 0 <= *m && *m <= 127 {
                            Option::Some(*m as u8)
                        } else if signed && -128 <= *m && *m < 0 {
                            Option::Some(((*m as i16) + 256) as u8)
                        } else {
                            Option::None
                        }
                    },
                    _ => Option::None,
                };
                proof {
                    assert(json_seq_view(items@)[idx as int] == items@[idx as int]@);
                    assert(byte_spec(items@[idx as int]@, signed) == b);
                }
                match b {
                    Option::Some(byte) => {
                        out.push(byte);
                    },
                    Option::None => {
                        return Option::None;
                    },
                }
                idx = idx + 1;
            }
            proof {
                assert forall|i: int| 0 <= i < json_seq_view(items@).len() implies (#[trigger] byte_spec(
                    json_seq_view(items@)[i],
                    signed,
                )) is Some by {
                    assert(json_seq_view(items@)[i] == items@[i]@);
                    assert(byte_spec(items@[i]@, signed) == Option::Some(out@[i]));
                }
                assert(buf_ok_spec(v@, signed));
                assert(buf_val_spec(v@, signed) =~= out@);
            }
            Option::Some(out)
        },
        _ => Option::None,
    }
}

/// Reads every byte string of a bundle under the chosen reading.
#[verifier::loop_isolation(false)]
fn bufs_from_json(j: &Json, signed: bool) -> (r: Option<Vec<Vec<u8>>>)
    ensures
        match r {
            Option::Some(bufs) => bundle_ok_spec(j@, signed) && bufs@.len() == bundle_val_spec(
                j@,
                signed,
            ).len() && forall|i: int|
                0 <= i < bufs@.len() ==> bufs@[i]@ == bundle_val_spec(j@, signed)[i],
            Option::None => !bundle_ok_spec(j@, signed),
        },
{
    let fields = match j {
        Json::Obj(fields) => fields,
        _ => {
            return Option::None;
        },
    };
    let inner = match obj_get(fields, "bundled") {
        Option::Some(inner) => inner,
        Option::None => {
            return Option::None;
        },
    };
    let items = match inner {
        Json::Arr(items) => items,
        _ => {
            return Option::None;
        },
    };
    proof {
        lemma_json_seq_view(items@);
    }
    let mut out: Vec<Vec<u8>> = Vec::new();
    let mut idx: usize = 0;
    while idx < items.len()
        invariant
            idx <= items@.len(),
            out@.len() == idx,
            json_seq_view(items@).len() == items@.len(),
            forall|i: int| 0 <= i < items@.len() ==> json_seq_view(items@)[i] == items@[i]@,
            j@.obj_lookup("bundled"@) == Option::Some(JsonVal::Arr(json_seq_view(items@))),
            forall|i: int| 0 <= i < idx ==> buf_ok_spec(#[trigger] items@[i]@, signed),
            forall|i: int|
                0 <= i < idx ==> (#[trigger] out@[i])@ == buf_val_spec(items@[i]@, signed),
        decreases items@.len() - idx,
    {
        match buf_from_json(&items[idx], signed) {
            Option::Some(buf) => {
                let ghost prev = out@;
                let ghost bufv = buf@;
                out.push(buf);
                proof {
                    assert(out@ == prev.push(buf));
                    assert forall|i: int| 0 <= i < idx + 1 implies (#[trigger] out@[i])@
                        == buf_val_spec(items@[i]@, signed) by {
                        if i < idx {
                            assert(out@[i] == prev[i]);
                        } else {
                            assert(out@[i]@ == bufv);
                        }
                    }
                }
            },
            Option::None => {
                proof {
                    assert(json_seq_view(items@)[idx as int] == items@[idx as int]@);
                    assert(!buf_ok_spec(json_seq_view(items@)[idx as int], signed));
                    let ghost lk = j@.obj_lookup("bundled"@);
                    assert(lk == Option::Some(JsonVal::Arr(json_seq_view(items@))));
                    assert(lk->Some_0 == JsonVal::Arr(json_seq_view(items@)));
                    assert(lk->Some_0->Arr_0 == json_seq_view(items@));
                    assert(bundle_ok_spec(j@, signed) ==> buf_ok_spec(
                        json_seq_view(items@)[idx as int],
                        signed,
                    ));
                    assert(!bundle_ok_spec(j@, signed));
                }
                return Option::None;
            },
        }
        idx = idx + 1;
    }
    proof {
        assert forall|i: int| 0 <= i < json_seq_view(items@).len() implies buf_ok_spec(
            json_seq_view(items@)[i],
            signed,
        ) by {
            assert(json_seq_view(items@)[i] == items@[i]@);
        }
        assert(bundle_ok_spec(j@, signed));
        assert forall|i: int| 0 <= i < out@.len() implies out@[i]@ == bundle_val_spec(j@, signed)[i] by {
            assert(json_seq_view(items@)[i] == items@[i]@);
        }
    }
    Option::Some(out)
}

/// Reads a bundle taking every element as a signed byte, reinterpreted
/// unsigned.
pub fn try_i8_bundle(j: &Json) -> (r: Result<Vec<Vec<u8>>, CodecError>)
    ensures
        match r {
            Result::Ok(bufs) => bundle_ok_spec(j@, true) && bufs@.len() == bundle_val_spec(
                j@,
                true,
            ).len() && forall|i: int|
                0 <= i < bufs@.len() ==> bufs@[i]@ == bundle_val_spec(j@, true)[i],
            Result::Err(e) => !bundle_ok_spec(j@, true) && e == CodecError::InvalidMsgpack,
        },
{
    match bufs_from_json(j, true) {
        Option::Some(bufs) => Result::Ok(bufs),
        Option::None => Result::Err(CodecError::InvalidMsgpack),
    }
}

/// Reads a bundle of byte strings, first with the signed-byte tolerance and
/// then, if that fails, in the plain unsigned form.
pub fn bundle_from_u8(j: &Json) -> (r: Result<Vec<Vec<u8>>, CodecError>)
    ensures
        match r {
            Result::Ok(bufs) => {
                let signed = bundle_ok_spec(j@, true);
                let chosen = if signed {
                    bundle_val_spec(j@, true)
                } else {
                    bundle_val_spec(j@, false)
                };
                (signed || bundle_ok_spec(j@, false)) && bufs@.len() == chosen.len()
                    && forall|i: int| 0 <= i < bufs@.len() ==> bufs@[i]@ == chosen[i]
            },
            Result::Err(e) => !bundle_ok_spec(j@, true) && !bundle_ok_spec(j@, false) && e
                == CodecError::InvalidMsgpack,
        },
{
    match try_i8_bundle(j) {
        Result::Ok(bufs) => Result::Ok(bufs),
        Result::Err(_) => match bufs_from_json(j, false) {
            Option::Some(bufs) => Result::Ok(bufs),
            Option::None => Result::Err(CodecError::InvalidMsgpack),
        },
    }
}

/// Writes one byte string as an array of unsigned byte nodes.
#[verifier::loop_isolation(false)]
pub fn bytes_to_json(src: &Vec<u8>) -> (r: Json)
    ensures
        r@ == buf_json_spec(src@),
{
    let mut bytes: Vec<Json> = Vec::new();
    let mut k: usize = 0;
    while k < src.len()
        invariant
            k <= src@.len(),
            bytes@.len() == k,
            forall|i: int| 0 <= i < k ==> bytes@[i] == Json::UInt(src@[i] as u64),
        decreases src@.len() - k,
    {
        bytes.push(Json::UInt(src[k] as u64));
        k = k + 1;
    }
    proof {
        lemma_json_seq_view(bytes@);
        assert forall|i: int| 0 <= i < bytes@.len() implies json_seq_view(bytes@)[i]
            == byte_json_spec(src@[i]) by {
            assert(bytes@[i] == Json::UInt(src@[i] as u64));
        }
        assert(json_seq_view(bytes@) =~= buf_json_spec(src@)->Arr_0);
        assert(Json::Arr(bytes)@ == buf_json_spec(src@));
    }
    Json::Arr(bytes)
}

/// Reads one byte string written as an array of unsigned byte nodes.
pub fn bytes_from_json(v: &Json) -> (r: Option<Vec<u8>>)
    ensures
        match r {
            Option::Some(buf) => buf_ok_spec(v@, false) && buf@ == buf_val_spec(v@, false),
            Option::None => !buf_ok_spec(v@, false),
        },
{
    buf_from_json(v, false)
}

/// A byte string written in the unsigned form reads back to itself.
pub proof fn lemma_buf_json_reads(buf: Seq<u8>)
    ensures
        buf_ok_spec(buf_json_spec(buf), false),
        buf_val_spec(buf_json_spec(buf), false) == buf,
{
    assert forall|k: int| 0 <= k < buf.len() implies (#[trigger] byte_spec(
        buf_json_spec(buf)->Arr_0[k],
        false,
    )) is Some by {
        assert(buf_json_spec(buf)->Arr_0[k] == JsonVal::UInt(buf[k] as u64));
    }
    assert(buf_ok_spec(buf_json_spec(buf), false));
    assert forall|k: int| 0 <= k < buf.len() implies buf_val_spec(buf_json_spec(buf), false)[k]
        == buf[k] by {
        assert(buf_json_spec(buf)->Arr_0[k] == JsonVal::UInt(buf[k] as u64));
    }
    assert(buf_val_spec(buf_json_spec(buf), false) =~= buf);
}

/// Writes byte strings as a bundle in the unsigned form.
#[verifier::loop_isolation(false)]
pub fn bundle_to_json(bufs: &Vec<Vec<u8>>) -> (r: Json)
    ensures
        r@ == bundle_json_spec(Seq::new(bufs@.len(), |i: int| bufs@[i]@)),
{
    let ghost content = Seq::new(bufs@.len(), |i: int| bufs@[i]@);
    let mut items: Vec<Json> = Vec::new();
    let mut idx: usize = 0;
    while idx < bufs.len()
        invariant
            idx <= bufs@.len(),
            items@.len() == idx,
            forall|i: int| 0 <= i < idx ==> #[trigger] items@[i]@ == buf_json_spec(bufs@[i]@),
        decreases bufs@.len() - idx,
    {
        let elem = bytes_to_json(&bufs[idx]);
        items.push(elem);
        idx = idx + 1;
    }
    let mut fields: Vec<(String, Json)> = Vec::new();
    fields.push(("bundled".to_owned(), Json::Arr(items)));
    proof {
        lemma_json_fields_view(fields@);
        lemma_json_seq_view(items@);
        assert forall|i: int| 0 <= i < items@.len() implies json_seq_view(items@)[i]
            == bundle_arr_spec(content)[i] by {
            assert(items@[i]@ == buf_json_spec(bufs@[i]@));
        }
        assert(json_seq_view(items@) =~= bundle_arr_spec(content));
        assert(json_fields_view(fields@)[0] == ("bundled"@, JsonVal::Arr(bundle_arr_spec(content))));
        assert(json_fields_view(fields@) =~= seq![
            ("bundled"@, JsonVal::Arr(bundle_arr_spec(content))),
        ]);
        assert(Json::Obj(fields)@ == bundle_json_spec(content));
    }
    Json::Obj(fields)
}

/// The tree node an unsigned byte is written as.
pub open spec fn byte_json_spec(b: u8) -> JsonVal {
    JsonVal::UInt(b as u64)
}

/// The tree a byte string is written as in the unsigned form.
pub open spec fn buf_json_spec(buf: Seq<u8>) -> JsonVal {
    JsonVal::Arr(Seq::new(buf.len(), |k: int| byte_json_spec(buf[k])))
}

/// The array of byte-string trees of an unsigned-form bundle.
pub open spec fn bundle_arr_spec(content: Seq<Seq<u8>>) -> Seq<JsonVal> {
    Seq::new(content.len(), |i: int| buf_json_spec(content[i]))
}

/// The tree a list of byte strings is written as in the unsigned form.
pub open spec fn bundle_json_spec(content: Seq<Seq<u8>>) -> JsonVal {
    JsonVal::Obj(seq![("bundled"@, JsonVal::Arr(bundle_arr_spec(content)))])
}

/// The tree a byte string was written as by peers using signed bytes.
pub open spec fn buf_signed_json_spec(buf: Seq<i8>) -> JsonVal {
    JsonVal::Arr(Seq::new(buf.len(), |k: int| JsonVal::Int(buf[k] as i64)))
}

/// The array of byte-string trees of a signed-form bundle.
pub open spec fn bundle_signed_arr_spec(content: Seq<Seq<i8>>) -> Seq<JsonVal> {
    Seq::new(content.len(), |i: int| buf_signed_json_spec(content[i]))
}

/// The tree a list of byte strings was written as by peers using signed
/// bytes.
pub open spec fn bundle_signed_json_spec(content: Seq<Seq<i8>>) -> JsonVal {
    JsonVal::Obj(seq![("bundled"@, JsonVal::Arr(bundle_signed_arr_spec(content)))])
}

/// Every bundle written in the unsigned form reads back to its own byte
/// strings: the unsigned reading always succeeds with the original contents,
/// and whenever the signed reading happens to succeed as well it yields the
/// same contents, so the two-step fallback always returns them.
pub proof fn lemma_bundle_fallback_unsigned(content: Seq<Seq<u8>>)
    ensures
        bundle_ok_spec(bundle_json_spec(content), false),
        bundle_val_spec(bundle_json_spec(content), false) == content,
        bundle_ok_spec(bundle_json_spec(content), true) ==> bundle_val_spec(
            bundle_json_spec(content),
            true,
        ) == content,
{
    let j = bundle_json_spec(content);
    let arr = bundle_arr_spec(content);
    let fields = seq![("bundled"@, JsonVal::Arr(arr))];
    assert(fields[0].0 == "bundled"@);
    assert(JsonVal::fields_lookup(fields, "bundled"@) == Option::Some(JsonVal::Arr(arr)));
    assert(j.obj_lookup("bundled"@) == Option::Some(JsonVal::Arr(arr)));
    assert forall|i: int| 0 <= i < arr.len() implies #[trigger] buf_ok_spec(arr[i], false) by {
        assert(arr[i] == buf_json_spec(content[i]));
        assert forall|k: int| 0 <= k < content[i].len() implies (#[trigger] byte_spec(
            buf_json_spec(content[i])->Arr_0[k],
            false,
        )) is Some by {
            assert(buf_json_spec(content[i])->Arr_0[k] == JsonVal::UInt(content[i][k] as u64));
        }
    }
    assert(bundle_ok_spec(j, false));
    assert forall|i: int| 0 <= i < content.len() implies bundle_val_spec(j, false)[i]
        =~= content[i] by {
        assert(arr[i] == buf_json_spec(content[i]));
        assert forall|k: int| 0 <= k < content[i].len() implies buf_val_spec(arr[i], false)[k]
            == content[i][k] by {
            assert(buf_json_spec(content[i])->Arr_0[k] == JsonVal::UInt(content[i][k] as u64));
        }
    }
    assert(bundle_val_spec(j, false) =~~= content);
    if bundle_ok_spec(j, true) {
        let ghost lk = j.obj_lookup("bundled"@);
        assert(lk->Some_0->Arr_0 == arr);
        assert forall|i: int| 0 <= i < content.len() implies bundle_val_spec(j, true)[i]
            =~= content[i] by {
            assert(buf_ok_spec(arr[i], true));
            assert(arr[i] == buf_json_spec(content[i]));
            assert forall|k: int| 0 <= k < content[i].len() implies buf_val_spec(arr[i], true)[k]
                == content[i][k] by {
                assert(buf_json_spec(content[i])->Arr_0[k] == JsonVal::UInt(content[i][k] as u64));
                assert(byte_spec(arr[i]->Arr_0[k], true) is Some);
            }
        }
        assert(bundle_val_spec(j, true) =~~= content);
    }
}

/// Every bundle written against signed bytes reads back through the
/// signed-byte tolerance, yielding the unsigned reinterpretation of its
/// contents.
pub proof fn lemma_bundle_fallback_signed(content: Seq<Seq<i8>>)
    ensures
        bundle_ok_spec(bundle_signed_json_spec(content), true),
        bundle_val_spec(bundle_signed_json_spec(content), true) == Seq::new(
            content.len(),
            |i: int| Seq::new(content[i].len(), |k: int| u8_of_i8_spec(content[i][k])),
        ),
{
    let j = bundle_signed_json_spec(content);
    let arr = bundle_signed_arr_spec(content);
    let fields = seq![("bundled"@, JsonVal::Arr(arr))];
    assert(fields[0].0 == "bundled"@);
    assert(JsonVal::fields_lookup(fields, "bundled"@) == Option::Some(JsonVal::Arr(arr)));
    assert(j.obj_lookup("bundled"@) == Option::Some(JsonVal::Arr(arr)));
    assert forall|i: int| 0 <= i < arr.len() implies #[trigger] buf_ok_spec(arr[i], true) by {
        assert(arr[i] == buf_signed_json_spec(content[i]));
        assert forall|k: int| 0 <= k < content[i].len() implies (#[trigger] byte_spec(
            buf_signed_json_spec(content[i])->Arr_0[k],
            true,
        )) is Some by {
            assert(buf_signed_json_spec(content[i])->Arr_0[k] == JsonVal::Int(
                content[i][k] as i64,
            ));
        }
    }
    assert(bundle_ok_spec(j, true));
    let expected = Seq::new(
        content.len(),
        |i: int| Seq::new(content[i].len(), |k: int| u8_of_i8_spec(content[i][k])),
    );
    assert forall|i: int| 0 <= i < content.len() implies bundle_val_spec(j, true)[i]
        =~= expected[i] by {
        assert(arr[i] == buf_signed_json_spec(content[i]));
        assert forall|k: int| 0 <= k < content[i].len() implies buf_val_spec(arr[i], true)[k]
            == expected[i][k] by {
            assert(buf_signed_json_spec(content[i])->Arr_0[k] == JsonVal::Int(
                content[i][k] as i64,
            ));
        }
    }
    assert(bundle_val_spec(j, true) =~~= expected);
}

} // verus!
