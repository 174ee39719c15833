//! Typed readers for the fields of a wire object.
//!
//! Each reader mirrors how a field of the given Rust type is read from a
//! generic value tree: a missing optional field or an explicit null stands
//! for absence, a field of the wrong shape is an error.

use vstd::prelude::*;
use crate::json::{Json, JsonVal, json_fields_view, json_seq_view, lemma_json_seq_view, obj_get};
use crate::bundle::{buf_ok_spec, buf_val_spec, bytes_from_json};

verus! {

/// A required string field: present and a string, or an error.
pub open spec fn str_field_spec(fs: Seq<(Seq<char>, JsonVal)>, key: Seq<char>) -> Option<
    Seq<char>,
> {
    match JsonVal::fields_lookup(fs, key) {
        Option::Some(JsonVal::Str(s)) => Option::Some(s),
        _ => Option::None,
    }
}

/// An optional string field: absent or null reads as nothing, a string as
/// itself, anything else is an error (the outer option).
pub open spec fn opt_str_field_spec(fs: Seq<(Seq<char>, JsonVal)>, key: Seq<char>) -> Option<
    Option<Seq<char>>,
> {
    match JsonVal::fields_lookup(fs, key) {
        Option::None => Option::Some(Option::None),
        Option::Some(JsonVal::Null) => Option::Some(Option::None),
        Option::Some(JsonVal::Str(s)) => Option::Some(Option::Some(s)),
        Option::Some(_) => Option::None,
    }
}

/// A required boolean field.
pub open spec fn bool_field_spec(fs: Seq<(Seq<char>, JsonVal)>, key: Seq<char>) -> Option<bool> {
    match JsonVal::fields_lookup(fs, key) {
        Option::Some(JsonVal::Bool(b)) => Option::Some(b),
        _ => Option::None,
    }
}

/// A required byte-string field, written as an array of unsigned bytes.
pub open spec fn bytes_field_spec(fs: Seq<(Seq<char>, JsonVal)>, key: Seq<char>) -> Option<
    Seq<u8>,
> {
    match JsonVal::fields_lookup(fs, key) {
        Option::Some(v) => if buf_ok_spec(v, false) {
            Option::Some(buf_val_spec(v, false))
        } else {
            Option::None
        },
        Option::None => Option::None,
    }
}

/// Reads a required string field.
pub fn get_str(fields: &Vec<(String, Json)>, key: &str) -> (r: Option<String>)
    ensures
        match r {
            Option::Some(s) => str_field_spec(json_fields_view(fields@), key@) == Option::Some(
                s@,
            ),
            Option::None => str_field_spec(json_fields_view(fields@), key@) is None,
        },
{
    match obj_get(fields, key) {
        Option::Some(Json::Str(s)) => Option::Some(s.clone()),
        _ => Option::None,
    }
}

/// Reads an optional string field.
pub fn get_opt_str(fields: &Vec<(String, Json)>, key: &str) -> (r: Option<Option<String>>)
    ensures
        match r {
            Option::Some(Option::Some(s)) => opt_str_field_spec(json_fields_view(fields@), key@)
                == Option::Some(Option::Some(s@)),
            Option::Some(Option::None) => opt_str_field_spec(json_fields_view(fields@), key@)
                == Option::Some(Option::None::<Seq<char>>),
            Option::None => opt_str_field_spec(json_fields_view(fields@), key@) is None,
        },
{
    match obj_get(fields, key) {
        Option::None => Option::Some(Option::None),
        Option::Some(Json::Null) => Option::Some(Option::None),
        Option::Some(Json::Str(s)) => Option::Some(Option::Some(s.clone())),
        Option::Some(_) => Option::None,
    }
}

/// Reads a required boolean field.
pub fn get_bool(fields: &Vec<(String, Json)>, key: &str) -> (r: Option<bool>)
    ensures
        match r {
            Option::Some(b) => bool_field_spec(json_fields_view(fields@), key@) == Option::Some(
                b,
            ),
            Option::None => bool_field_spec(json_fields_view(fields@), key@) is None,
        },
{
    match obj_get(fields, key) {
        Option::Some(Json::Bool(b)) => Option::Some(*b),
        _ => Option::None,
    }
}

/// Reads a required byte-string field.
pub fn get_bytes(fields: &Vec<(String, Json)>, key: &str) -> (r: Option<Vec<u8>>)
    ensures
        match r {
            Option::Some(buf) => bytes_field_spec(json_fields_view(fields@), key@) == Option::Some(
                buf@,
            ),
            Option::None => bytes_field_spec(json_fields_view(fields@), key@) is None,
        },
{
    match obj_get(fields, key) {
        Option::Some(v) => bytes_from_json(v),
        Option::None => Option::None,
    }
}

/// Whether every node of a sequence is a string.
pub open spec fn all_str_spec(items: Seq<JsonVal>) -> bool {
    forall|i: int| 0 <= i < items.len() ==> (#[trigger] items[i]) is Str
}

/// The characters of each node of an all-string sequence.
pub open spec fn str_seq_spec(items: Seq<JsonVal>) -> Seq<Seq<char>> {
    Seq::new(items.len(), |i: int| items[i]->Str_0)
}

/// A defaulted list-of-strings field: absent reads as empty, an array of
/// strings as itself, anything else is an error.
pub open spec fn str_list_field_spec(fs: Seq<(Seq<char>, JsonVal)>, key: Seq<char>) -> Option<
    Seq<Seq<char>>,
> {
    match JsonVal::fields_lookup(fs, key) {
        Option::None => Option::Some(Seq::empty()),
        Option::Some(JsonVal::Arr(items)) => if all_str_spec(items) {
            Option::Some(str_seq_spec(items))
        } else {
            Option::None
        },
        Option::Some(_) => Option::None,
    }
}

/// Reads a defaulted list-of-strings field.
#[verifier::loop_isolation(false)]
pub fn get_str_list(fields: &Vec<(String, Json)>, key: &str) -> (r: Option<Vec<String>>)
    ensures
        match r {
            Option::Some(out) => str_list_field_spec(json_fields_view(fields@), key@)
                == Option::Some(Seq::new(out@.len(), |i: int| out@[i]@)),
            Option::None => str_list_field_spec(json_fields_view(fields@), key@) is None,
        },
{
    match obj_get(fields, key) {
        Option::None => {
            proof {
                assert(Seq::new(0, |i: int| Seq::<char>::empty()) =~= Seq::<Seq<char>>::empty());
            }
            Option::Some(Vec::new())
        },
        Option::Some(Json::Arr(items)) => {
            proof {
                lemma_json_seq_view(items@);
            }
            let mut out: Vec<String> = Vec::new();
            let mut idx: usize = 0;
            while idx < items.len()
                invariant
                    idx <= items@.len(),
                    out@.len() == idx,
                    forall|i: int| 0 <= i < idx ==> (#[trigger] items@[i]@) is Str,
                    forall|i: int| 0 <= i < idx ==> (#[trigger] out@[i])@ == items@[i]@->Str_0,
                decreases items@.len() - idx,
            {
                match &items[idx] {
                    Json::Str(s) => {
                        out.push(s.clone());
                    },
                    _ => {
                        proof {
                            assert(json_seq_view(items@)[idx as int] == items@[idx as int]@);
                        }
                        return Option::None;
                    },
                }
                idx = idx + 1;
            }
            proof {
                assert forall|i: int| 0 <= i < json_seq_view(items@).len() implies (
                #[trigger] json_seq_view(items@)[i]) is Str by {
                    assert(json_seq_view(items@)[i] == items@[i]@);
                }
                assert(all_str_spec(json_seq_view(items@)));
                assert forall|i: int|
                    0 <= i < out@.len() implies str_seq_spec(json_seq_view(items@))[i] == Seq::new(
                    out@.len(),
                    |k: int| out@[k]@,
                )[i] by {
                    assert(json_seq_view(items@)[i] == items@[i]@);
                }
                assert(str_seq_spec(json_seq_view(items@)) =~= Seq::new(
                    out@.len(),
                    |i: int| out@[i]@,
                ));
            }
            Option::Some(out)
        },
        Option::Some(_) => Option::None,
    }
}

} // verus!
