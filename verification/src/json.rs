//! A generic JSON-like value tree.
//!
//! The codec's wire shapes (JSON objects under the newer protocol, MessagePack
//! maps under the older one) are both built from maps with string keys,
//! arrays, strings, booleans and integers.  This module holds the library's
//! own value type for such trees, together with its mathematical model.
//! Numbers are split into an unsigned and a signed constructor so that the
//! historical signed-byte encodings of byte strings can be represented
//! exactly.

use vstd::prelude::*;

verus! {

/// The mathematical model of a [`Json`] tree.
#[verifier::ext_equal]
pub enum JsonVal {
    Null,
    Bool(bool),
    UInt(u64),
    Int(i64),
    Str(Seq<char>),
    Arr(Seq<JsonVal>),
    Obj(Seq<(Seq<char>, JsonVal)>),
}

/// A generic value tree as it travels between the codec and the wire.
#[derive(Debug, PartialEq)]
pub enum Json {
    Null,
    Bool(bool),
    UInt(u64),
    Int(i64),
    Str(String),
    Arr(Vec<Json>),
    Obj(Vec<(String, Json)>),
}

/// The model of one tree.
pub open spec fn json_view(j: Json) -> JsonVal
    decreases j,
{
    match j {
        Json::Null => JsonVal::Null,
        Json::Bool(b) => JsonVal::Bool(b),
        Json::UInt(n) => JsonVal::UInt(n),
        Json::Int(n) => JsonVal::Int(n),
        Json::Str(s) => JsonVal::Str(s@),
        Json::Arr(items) => JsonVal::Arr(json_seq_view(items@)),
        Json::Obj(fields) => JsonVal::Obj(json_fields_view(fields@)),
    }
}

/// The models of the elements of an array, in order.
pub open spec fn json_seq_view(s: Seq<Json>) -> Seq<JsonVal>
    decreases s,
{
    if s.len() == 0 {
        Seq::empty()
    } else {
        seq![json_view(s[0])] + json_seq_view(s.skip(1))
    }
}

/// The models of the fields of an object, in order.
pub open spec fn json_fields_view(s: Seq<(String, Json)>) -> Seq<(Seq<char>, JsonVal)>
    decreases s,
{
    if s.len() == 0 {
        Seq::empty()
    } else {
        seq![(s[0].0@, json_view(s[0].1))] + json_fields_view(s.skip(1))
    }
}

impl View for Json {
    type V = JsonVal;

    open spec fn view(&self) -> JsonVal {
        json_view(*self)
    }
}

/// An array's model has one element per entry, each the entry's model.
pub broadcast proof fn lemma_json_seq_view(s: Seq<Json>)
    ensures
        #[trigger] json_seq_view(s).len() == s.len(),
        forall|i: int| 0 <= i < s.len() ==> json_seq_view(s)[i] == json_view(s[i]),
    decreases s.len(),
{
    if s.len() > 0 {
        lemma_json_seq_view(s.skip(1));
    }
}

/// An object's model has one field per entry, keeping keys and order.
pub broadcast proof fn lemma_json_fields_view(s: Seq<(String, Json)>)
    ensures
        #[trigger] json_fields_view(s).len() == s.len(),
        forall|i: int|
            0 <= i < s.len() ==> json_fields_view(s)[i] == (s[i].0@, json_view(s[i].1)),
    decreases s.len(),
{
    if s.len() > 0 {
        lemma_json_fields_view(s.skip(1));
    }
}

impl JsonVal {
    /// The value bound to `key` in an object, read front to back.
    pub open spec fn obj_lookup(self, key: Seq<char>) -> Option<JsonVal> {
        match self {
            JsonVal::Obj(fields) => Self::fields_lookup(fields, key),
            _ => Option::None,
        }
    }

    /// The first binding of `key` in a field list.
    pub open spec fn fields_lookup(fields: Seq<(Seq<char>, JsonVal)>, key: Seq<char>) -> Option<
        JsonVal,
    >
        decreases fields.len(),
    {
        if fields.len() == 0 {
            Option::None
        } else if fields[0].0 == key {
            Option::Some(fields[0].1)
        } else {
            Self::fields_lookup(fields.skip(1), key)
        }
    }
}

/// Looks `key` up in an object's field list, returning the first match.
pub fn obj_get<'a>(fields: &'a Vec<(String, Json)>, key: &str) -> (r: Option<&'a Json>)
    ensures
        match r {
            Option::Some(j) => JsonVal::fields_lookup(json_fields_view(fields@), key@)
                == Option::Some(j@),
            Option::None => JsonVal::fields_lookup(json_fields_view(fields@), key@) is None,
        },
{
    proof {
        lemma_json_fields_view(fields@);
        assert(json_fields_view(fields@).skip(0) =~= json_fields_view(fields@));
    }
    let ghost all = json_fields_view(fields@);
    let key_owned: String = key.to_owned();
    let mut idx: usize = 0;
    while idx < fields.len()
        invariant
            idx <= fields@.len(),
            all == json_fields_view(fields@),
            all.len() == fields@.len(),
            forall|i: int| 0 <= i < fields@.len() ==> all[i] == (fields@[i].0@, json_view(
                fields@[i].1,
            )),
            key_owned@ == key@,
            JsonVal::fields_lookup(all, key@) == JsonVal::fields_lookup(
                all.skip(idx as int),
                key@,
            ),
        decreases fields@.len() - idx,
    {
        proof {
            assert(all.skip(idx as int)[0] == all[idx as int]);
        }
        if fields[idx].0.eq(&key_owned) {
            return Option::Some(&fields[idx].1);
        }
        proof {
            assert(all.skip(idx as int).skip(1) =~= all.skip(idx as int + 1));
        }
        idx = idx + 1;
    }
    Option::None
}

/// Compares two string slices by their characters.
pub fn str_eq(a: &str, b: &str) -> (r: bool)
    ensures
        r == (a@ == b@),
{
    a.to_owned().eq(&b.to_owned())
}

/// If `k` first occurs at position `i`, the lookup returns that binding.
pub proof fn lemma_lookup_at(fs: Seq<(Seq<char>, JsonVal)>, k: Seq<char>, i: int)
    requires
        0 <= i < fs.len(),
        fs[i].0 == k,
        forall|j: int| 0 <= j < i ==> fs[j].0 != k,
    ensures
        JsonVal::fields_lookup(fs, k) == Option::Some(fs[i].1),
    decreases i,
{
    if i > 0 {
        assert forall|j: int| 0 <= j < i - 1 implies fs.skip(1)[j].0 != k by {
            assert(fs.skip(1)[j] == fs[j + 1]);
        }
        assert(fs.skip(1)[i - 1] == fs[i]);
        lemma_lookup_at(fs.skip(1), k, i - 1);
    }
}

/// If no field is named `k`, the lookup fails.
pub proof fn lemma_lookup_none(fs: Seq<(Seq<char>, JsonVal)>, k: Seq<char>)
    requires
        forall|j: int| 0 <= j < fs.len() ==> fs[j].0 != k,
    ensures
        JsonVal::fields_lookup(fs, k) is None,
    decreases fs.len(),
{
    if fs.len() > 0 {
        assert forall|j: int| 0 <= j < fs.len() - 1 implies fs.skip(1)[j].0 != k by {
            assert(fs.skip(1)[j] == fs[j + 1]);
        }
        lemma_lookup_none(fs.skip(1), k);
    }
}

/// Copies a tree.
#[verifier::loop_isolation(false)]
pub fn json_clone(v: &Json) -> (r: Json)
    ensures
        r@ == v@,
    decreases v,
{
    match v {
        Json::Null => Json::Null,
        Json::Bool(b) => Json::Bool(*b),
        Json::UInt(n) => Json::UInt(*n),
        Json::Int(m) => Json::Int(*m),
        Json::Str(s) => Json::Str(s.clone()),
        Json::Arr(items) => {
            let mut out: Vec<Json> = Vec::new();
            let mut idx: usize = 0;
            while idx < items.len()
                invariant
                    idx <= items@.len(),
                    out@.len() == idx,
                    forall|i: int| 0 <= i < idx ==> (#[trigger] out@[i])@ == items@[i]@,
                decreases items@.len() - idx,
            {
                let c = json_clone(&items[idx]);
                out.push(c);
                idx = idx + 1;
            }
            proof {
                lemma_json_seq_view(out@);
                lemma_json_seq_view(items@);
                assert(json_seq_view(out@) =~= json_seq_view(items@));
            }
            Json::Arr(out)
        },
        Json::Obj(fields) => {
            let mut out: Vec<(String, Json)> = Vec::new();
            let mut idx: usize = 0;
            while idx < fields.len()
                invariant
                    idx <= fields@.len(),
                    out@.len() == idx,
                    forall|i: int|
                        0 <= i < idx ==> (#[trigger] out@[i]).0@ == fields@[i].0@ && out@[i].1@
                            == fields@[i].1@,
                decreases fields@.len() - idx,
            {
                let key = fields[idx].0.clone();
                let c = json_clone(&fields[idx].1);
                out.push((key, c));
                idx = idx + 1;
            }
            proof {
                lemma_json_fields_view(out@);
                lemma_json_fields_view(fields@);
                assert(json_fields_view(out@) =~= json_fields_view(fields@));
            }
            Json::Obj(out)
        },
    }
}

/// Appending one entry appends its model.
pub proof fn lemma_json_fields_view_push(s: Seq<(String, Json)>, x: (String, Json))
    ensures
        json_fields_view(s.push(x)) == json_fields_view(s) + seq![(x.0@, json_view(x.1))],
    decreases s.len(),
{
    if s.len() == 0 {
        let t = s.push(x);
        assert(t.len() == 1);
        assert(t[0] == x);
        assert(t.skip(1) =~= Seq::<(String, Json)>::empty());
        assert(json_fields_view(t.skip(1)) =~= Seq::<(Seq<char>, JsonVal)>::empty());
        assert(json_fields_view(t) == seq![(t[0].0@, json_view(t[0].1))] + json_fields_view(
            t.skip(1),
        ));
        assert(json_fields_view(s) =~= Seq::<(Seq<char>, JsonVal)>::empty());
        assert(json_fields_view(t) =~= json_fields_view(s) + seq![(x.0@, json_view(x.1))]);
    } else {
        let t = s.push(x);
        let entry = (x.0@, json_view(x.1));
        let head = (s[0].0@, json_view(s[0].1));
        assert(t[0] == s[0]);
        assert(t.skip(1) =~= s.skip(1).push(x));
        lemma_json_fields_view_push(s.skip(1), x);
        assert(json_fields_view(t) == seq![head] + json_fields_view(t.skip(1)));
        assert(json_fields_view(t.skip(1)) == json_fields_view(s.skip(1)) + seq![entry]);
        assert(json_fields_view(s) == seq![head] + json_fields_view(s.skip(1)));
        assert(json_fields_view(t) =~= json_fields_view(s) + seq![entry]);
    }
}

/// Appends a field to an object under construction.
pub fn push_field(fields: &mut Vec<(String, Json)>, key: String, val: Json)
    ensures
        json_fields_view(final(fields)@) == json_fields_view(old(fields)@) + seq![
            (key@, val@),
        ],
{
    let ghost prev = fields@;
    let ghost entry = (key@, val@);
    fields.push((key, val));
    proof {
        lemma_json_fields_view_push(prev, fields@[prev.len() as int]);
    }
}

/// Looking up past a prefix free of `k` reads from the rest.
pub proof fn lemma_lookup_concat_miss(
    a: Seq<(Seq<char>, JsonVal)>,
    b: Seq<(Seq<char>, JsonVal)>,
    k: Seq<char>,
)
    requires
        forall|i: int| 0 <= i < a.len() ==> (#[trigger] a[i]).0 != k,
    ensures
        JsonVal::fields_lookup(a + b, k) == JsonVal::fields_lookup(b, k),
    decreases a.len(),
{
    if a.len() == 0 {
        assert(a + b =~= b);
    } else {
        assert((a + b)[0] == a[0]);
        assert((a + b).skip(1) =~= a.skip(1) + b);
        assert forall|i: int| 0 <= i < a.skip(1).len() implies (#[trigger] a.skip(1)[i]).0
            != k by {
            assert(a.skip(1)[i] == a[i + 1]);
        }
        lemma_lookup_concat_miss(a.skip(1), b, k);
    }
}

/// A lookup that succeeds in a prefix ignores the rest.
pub proof fn lemma_lookup_concat_hit(
    a: Seq<(Seq<char>, JsonVal)>,
    b: Seq<(Seq<char>, JsonVal)>,
    k: Seq<char>,
)
    requires
        JsonVal::fields_lookup(a, k) is Some,
    ensures
        JsonVal::fields_lookup(a + b, k) == JsonVal::fields_lookup(a, k),
    decreases a.len(),
{
    if a.len() > 0 {
        assert((a + b)[0] == a[0]);
        assert((a + b).skip(1) =~= a.skip(1) + b);
        if a[0].0 != k {
            lemma_lookup_concat_hit(a.skip(1), b, k);
        }
    }
}

} // verus!
