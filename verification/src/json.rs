//! A JSON tree of plain values, with verified field accessors.
//!
//! Parsing the wire text is delegated to `serde_json`; the parsed tree is
//! converted into this type so that the codec's logic over it can be
//! verified.  A JSON number is kept only as far as it fits a `u64`, which is
//! all the protocol reads.

use vstd::prelude::*;

verus! {

/// A parsed JSON document.
#[derive(Debug)]
pub enum JsonValue {
    Null,
    Bool(bool),
    /// `Some(n)` when the number is an unsigned integer fitting 64 bits.
    Num(Option<u64>),
    Str(String),
    Arr(Vec<JsonValue>),
    Obj(Vec<(String, JsonValue)>),
}

/// First entry with the given key, if any.
pub open spec fn jlookup(es: Seq<(String, JsonValue)>, key: Seq<char>) -> Option<JsonValue>
    decreases es.len(),
{
    if es.len() == 0 {
        None
    } else if es[0].0@ == key {
        Some(es[0].1)
    } else {
        jlookup(es.drop_first(), key)
    }
}

/// The value of field `key`, when `v` is an object that has it.
pub open spec fn jget(v: JsonValue, key: Seq<char>) -> Option<JsonValue> {
    match v {
        JsonValue::Obj(es) => jlookup(es@, key),
        _ => None,
    }
}

/// Field of a field: `v[k1][k2]`.
pub open spec fn jget2(v: JsonValue, k1: Seq<char>, k2: Seq<char>) -> Option<JsonValue> {
    match jget(v, k1) {
        Some(w) => jget(w, k2),
        None => None,
    }
}

/// Field at depth three: `v[k1][k2][k3]`.
pub open spec fn jget3(v: JsonValue, k1: Seq<char>, k2: Seq<char>, k3: Seq<char>) -> Option<
    JsonValue,
> {
    match jget2(v, k1, k2) {
        Some(w) => jget(w, k3),
        None => None,
    }
}

/// The characters of `v`, when it is a string.
pub open spec fn jstr(v: JsonValue) -> Option<Seq<char>> {
    match v {
        JsonValue::Str(s) => Some(s@),
        _ => None,
    }
}

/// The elements of `v`, when it is an array.
pub open spec fn jarr(v: JsonValue) -> Option<Seq<JsonValue>> {
    match v {
        JsonValue::Arr(a) => Some(a@),
        _ => None,
    }
}

/// The value of `v`, when it is a number fitting a `u64`.
pub open spec fn ju64(v: JsonValue) -> Option<u64> {
    match v {
        JsonValue::Num(n) => n,
        _ => None,
    }
}

/// The value of `v`, when it is a boolean.
pub open spec fn jbool(v: JsonValue) -> Option<bool> {
    match v {
        JsonValue::Bool(b) => Some(b),
        _ => None,
    }
}

/// String field `key` of `v`, or `or` when absent or not a string.
pub open spec fn jstr_field(v: JsonValue, key: Seq<char>, or: Seq<char>) -> Seq<char> {
    match jget(v, key) {
        Some(w) => match jstr(w) {
            Some(s) => s,
            None => or,
        },
        None => or,
    }
}

impl JsonValue {
    /// The value of field `key`, when `self` is an object that has it.
    pub fn get<'a>(&'a self, key: &str) -> (r: Option<&'a JsonValue>)
        ensures
            match r {
                Some(w) => jget(*self, key@) == Some(*w),
                None => jget(*self, key@) is None,
            },
    {
        match self {
            JsonValue::Obj(es) => {
                let ghost all = es@;
                proof {
                    assert(all.skip(0) =~= all);
                }
                let mut i: usize = 0;
                while i < es.len()
                    invariant
                        *self is Obj,
                        self->Obj_0@ == all,
                        es@ == all,
                        i <= all.len(),
                        jlookup(all, key@) == jlookup(all.skip(i as int), key@),
                    decreases all.len() - i,
                {
                    proof {
                        assert(all.skip(i as int)[0] == all[i as int]);
                        assert(all.skip(i as int).drop_first() =~= all.skip(i + 1));
                    }
                    if crate::strutil::str_eq(es[i].0.as_str(), key) {
                        proof {
                            assert(jlookup(all.skip(i as int), key@) == Some(all[i as int].1));
                        }
                        return Some(&es[i].1);
                    }
                    i = i + 1;
                }
                proof {
                    assert(all.skip(all.len() as int) =~= Seq::<(String, JsonValue)>::empty());
                }
                None
            },
            _ => None,
        }
    }

    /// Field of a field: `self[k1][k2]`.
    pub fn get2<'a>(&'a self, k1: &str, k2: &str) -> (r: Option<&'a JsonValue>)
        ensures
            match r {
                Some(w) => jget2(*self, k1@, k2@) == Some(*w),
                None => jget2(*self, k1@, k2@) is None,
            },
    {
        match self.get(k1) {
            Some(w) => w.get(k2),
            None => None,
        }
    }

    /// Field at depth three: `self[k1][k2][k3]`.
    pub fn get3<'a>(&'a self, k1: &str, k2: &str, k3: &str) -> (r: Option<&'a JsonValue>)
        ensures
            match r {
                Some(w) => jget3(*self, k1@, k2@, k3@) == Some(*w),
                None => jget3(*self, k1@, k2@, k3@) is None,
            },
    {
        match self.get2(k1, k2) {
            Some(w) => w.get(k3),
            None => None,
        }
    }

    /// The string inside `self`, if it is one.
    pub fn as_str<'a>(&'a self) -> (r: Option<&'a String>)
        ensures
            match r {
                Some(s) => jstr(*self) == Some(s@),
                None => jstr(*self) is None,
            },
    {
        match self {
            JsonValue::Str(s) => Some(s),
            _ => None,
        }
    }

    /// The elements of `self`, if it is an array.
    pub fn as_arr<'a>(&'a self) -> (r: Option<&'a Vec<JsonValue>>)
        ensures
            match r {
                Some(a) => jarr(*self) == Some(a@),
                None => jarr(*self) is None,
            },
    {
        match self {
            JsonValue::Arr(a) => Some(a),
            _ => None,
        }
    }

    /// The number inside `self`, if it is one that fits a `u64`.
    pub fn as_u64(&self) -> (r: Option<u64>)
        ensures
            r == ju64(*self),
    {
        match self {
            JsonValue::Num(n) => *n,
            _ => None,
        }
    }

    /// The boolean inside `self`, if it is one.
    pub fn as_bool(&self) -> (r: Option<bool>)
        ensures
            r == jbool(*self),
    {
        match self {
            JsonValue::Bool(b) => Some(*b),
            _ => None,
        }
    }
}

/// What parsing a JSON text yields: `None` on malformed input, otherwise the
/// tree; a deterministic function of the characters alone.
pub uninterp spec fn json_of(s: Seq<char>) -> Option<JsonValue>;

#[verifier::external_type_specification]
#[verifier::external_body]
pub struct ExValue(serde_json::Value);

/// Relies on `serde_json::Value`'s variants: each arm moves one variant's
/// contents into the matching variant here; `Number::as_u64` keeps a number
/// only when it is an unsigned 64-bit integer, as the protocol expects.
#[verifier::external_body]
fn from_serde(v: &serde_json::Value) -> JsonValue {
    match v {
        serde_json::Value::Null => JsonValue::Null,
        serde_json::Value::Bool(b) => JsonValue::Bool(*b),
        serde_json::Value::Number(n) => JsonValue::Num(n.as_u64()),
        serde_json::Value::String(s) => JsonValue::Str(s.clone()),
        serde_json::Value::Array(a) => JsonValue::Arr(a.iter().map(from_serde).collect()),
        serde_json::Value::Object(o) => JsonValue::Obj(
            o.iter().map(|(k, w)| (k.clone(), from_serde(w))).collect(),
        ),
    }
}

/// Relies on `serde_json::from_str`: parsing is a deterministic function of
/// the input text, returning `Err` exactly on malformed JSON.
#[verifier::external_body]
pub fn parse_json(s: &str) -> (r: Option<JsonValue>)
    ensures
        r == json_of(s@),
{
    match serde_json::from_str::<serde_json::Value>(s) {
        Ok(v) => Some(from_serde(&v)),
        Err(_) => None,
    }
}

} // verus!
