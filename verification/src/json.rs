//! JSON documents: the tree the protocol layers read and build, and the
//! text form that `serde_json` parses and prints.

use serde_json::{Number, Value};
use vstd::prelude::*;

verus! {

/// A JSON document as a mathematical tree. An object keeps its members in
/// document order.
pub enum JsonValue {
    Null,
    Bool(bool),
    Int(int),
    Real(Seq<char>),
    Text(Seq<char>),
    Array(Seq<JsonValue>),
    Object(Seq<(Seq<char>, JsonValue)>),
}

/// A JSON document held in memory.
///
/// Whole numbers are `Unsigned` or `Signed`; any other number is carried
/// through as its decimal text in `Real`.
#[derive(Debug)]
pub enum Json {
    Null,
    Bool(bool),
    Unsigned(u64),
    Signed(i64),
    Real(String),
    Text(String),
    Array(Vec<Json>),
    Object(Vec<(String, Json)>),
}

/// The mathematical tree that a document in memory stands for.
pub open spec fn tree_of(doc: Json) -> JsonValue
    decreases doc,
{
    match doc {
        Json::Null => JsonValue::Null,
        Json::Bool(b) => JsonValue::Bool(b),
        Json::Unsigned(n) => JsonValue::Int(n as int),
        Json::Signed(n) => JsonValue::Int(n as int),
        Json::Real(t) => JsonValue::Real(t@),
        Json::Text(t) => JsonValue::Text(t@),
        Json::Array(items) => JsonValue::Array(
            Seq::new(
                items@.len(),
                |i: int|
                    if 0 <= i < items@.len() {
                        tree_of(items@[i])
                    } else {
                        JsonValue::Null
                    },
            ),
        ),
        Json::Object(members) => JsonValue::Object(
            Seq::new(
                members@.len(),
                |i: int|
                    if 0 <= i < members@.len() {
                        (members@[i].0@, tree_of(members@[i].1))
                    } else {
                        (Seq::empty(), JsonValue::Null)
                    },
            ),
        ),
    }
}

impl View for Json {
    type V = JsonValue;

    open spec fn view(&self) -> JsonValue {
        tree_of(*self)
    }
}

/// The value of the first member named `key`, searching from index `from`.
pub open spec fn lookup_from(members: Seq<(Seq<char>, JsonValue)>, key: Seq<char>, from: int) -> Option<JsonValue>
    decreases members.len() - from,
{
    if from < 0 || from >= members.len() {
        None
    } else if members[from].0 == key {
        Some(members[from].1)
    } else {
        lookup_from(members, key, from + 1)
    }
}

impl JsonValue {
    /// The value of the first member named `key`, if this is an object that
    /// has one.
    pub open spec fn member(self, key: Seq<char>) -> Option<JsonValue> {
        match self {
            JsonValue::Object(members) => lookup_from(members, key, 0),
            _ => None,
        }
    }

    /// The member named `key`, where a missing member reads as `null`.
    pub open spec fn member_or_null(self, key: Seq<char>) -> JsonValue {
        match self.member(key) {
            Some(v) => v,
            None => JsonValue::Null,
        }
    }
}

/// An array's view lists the views of its items.
pub proof fn lemma_array_view(doc: Json)
    requires
        doc is Array,
    ensures
        doc@ is Array,
        doc@->Array_0.len() == doc->Array_0@.len(),
        forall|k: int| 0 <= k < doc->Array_0@.len() ==> (#[trigger] doc@->Array_0[k]) == doc->Array_0@[k]@,
{
}

/// An object's view lists its members' names and the views of their values.
pub proof fn lemma_object_view(doc: Json)
    requires
        doc is Object,
    ensures
        doc@ is Object,
        doc@->Object_0.len() == doc->Object_0@.len(),
        forall|k: int|
            0 <= k < doc->Object_0@.len() ==> (#[trigger] doc@->Object_0[k]) == (
                doc->Object_0@[k].0@,
                doc->Object_0@[k].1@,
            ),
{
}

/// Whether an owned string holds exactly the characters of `literal`.
pub fn text_is(s: &String, literal: &str) -> (r: bool)
    ensures
        r == (s@ == literal@),
{
    let other = String::from_str(literal);
    *s == other
}

impl Clone for Json {
    fn clone(&self) -> (r: Json)
        ensures
            r@ == self@,
        decreases self,
    {
        match self {
            Json::Null => Json::Null,
            Json::Bool(b) => Json::Bool(*b),
            Json::Unsigned(n) => Json::Unsigned(*n),
            Json::Signed(n) => Json::Signed(*n),
            Json::Real(t) => Json::Real(t.clone()),
            Json::Text(t) => Json::Text(t.clone()),
            Json::Array(items) => {
                let mut out: Vec<Json> = Vec::new();
                let mut i: usize = 0;
                while i < items.len()
                    invariant
                        *self == Json::Array(*items),
                        i <= items@.len(),
                        out@.len() == i,
                        forall|k: int| 0 <= k < i ==> (#[trigger] out@[k])@ == items@[k]@,
                    decreases items@.len() - i,
                {
                    proof {
                        assert(self->Array_0 == *items);
                        assert(decreases_to!(*self => self->Array_0));
                        assert(decreases_to!(*items => items@[i as int]));
                        assert(decreases_to!(*self => items@[i as int]));
                    }
                    out.push(items[i].clone());
                    i += 1;
                }
                let r = Json::Array(out);
                proof {
                    lemma_array_view(r);
                    lemma_array_view(*self);
                    assert(r@->Array_0 =~= self@->Array_0);
                }
                r
            },
            Json::Object(members) => {
                let mut out: Vec<(String, Json)> = Vec::new();
                let mut i: usize = 0;
                while i < members.len()
                    invariant
                        *self == Json::Object(*members),
                        i <= members@.len(),
                        out@.len() == i,
                        forall|k: int|
                            0 <= k < i ==> (#[trigger] out@[k]).0@ == members@[k].0@ && out@[k].1@
                                == members@[k].1@,
                    decreases members@.len() - i,
                {
                    proof {
                        assert(self->Object_0 == *members);
                        assert(decreases_to!(*self => self->Object_0));
                        assert(decreases_to!(*members => members@[i as int]));
                        assert(decreases_to!(members@[i as int] => members@[i as int].1));
                        assert(decreases_to!(*self => members@[i as int].1));
                    }
                    out.push((members[i].0.clone(), members[i].1.clone()));
                    i += 1;
                }
                let r = Json::Object(out);
                proof {
                    lemma_object_view(r);
                    lemma_object_view(*self);
                    assert(r@->Object_0 =~= self@->Object_0);
                }
                r
            },
        }
    }
}

impl Json {
    /// Whether two documents in memory stand for the same tree.
    pub fn same(&self, other: &Json) -> (r: bool)
        ensures
            r == (self@ == other@),
        decreases self,
    {
        match (self, other) {
            (Json::Null, Json::Null) => true,
            (Json::Bool(a), Json::Bool(b)) => *a == *b,
            (Json::Unsigned(a), Json::Unsigned(b)) => *a == *b,
            (Json::Signed(a), Json::Signed(b)) => *a == *b,
            (Json::Unsigned(a), Json::Signed(b)) => *b >= 0 && *b as u64 == *a,
            (Json::Signed(a), Json::Unsigned(b)) => *a >= 0 && *a as u64 == *b,
            (Json::Real(a), Json::Real(b)) => *a == *b,
            (Json::Text(a), Json::Text(b)) => *a == *b,
            (Json::Array(a), Json::Array(b)) => {
                proof {
                    lemma_array_view(*self);
                    lemma_array_view(*other);
                }
                if a.len() != b.len() {
                    return false;
                }
                let mut i: usize = 0;
                while i < a.len()
                    invariant
                        *self == Json::Array(*a),
                        *other == Json::Array(*b),
                        a@.len() == b@.len(),
                        i <= a@.len(),
                        forall|k: int| 0 <= k < i ==> (#[trigger] a@[k])@ == b@[k]@,
                    decreases a@.len() - i,
                {
                    proof {
                        assert(self->Array_0 == *a);
                        assert(decreases_to!(*self => self->Array_0));
                        assert(decreases_to!(*a => a@[i as int]));
                    }
                    if !a[i].same(&b[i]) {
                        proof {
                            lemma_array_view(*self);
                            lemma_array_view(*other);
                            assert(self@->Array_0[i as int] != other@->Array_0[i as int]);
                        }
                        return false;
                    }
                    i += 1;
                }
                proof {
                    assert(self@->Array_0 =~= other@->Array_0);
                }
                true
            },
            (Json::Object(a), Json::Object(b)) => {
                proof {
                    lemma_object_view(*self);
                    lemma_object_view(*other);
                }
                if a.len() != b.len() {
                    return false;
                }
                let mut i: usize = 0;
                while i < a.len()
                    invariant
                        *self == Json::Object(*a),
                        *other == Json::Object(*b),
                        a@.len() == b@.len(),
                        i <= a@.len(),
                        forall|k: int|
                            0 <= k < i ==> (#[trigger] a@[k]).0@ == b@[k].0@ && a@[k].1@ == b@[k].1@,
                    decreases a@.len() - i,
                {
                    proof {
                        assert(self->Object_0 == *a);
                        assert(decreases_to!(*self => self->Object_0));
                        assert(decreases_to!(*a => a@[i as int]));
                        assert(decreases_to!(a@[i as int] => a@[i as int].1));
                    }
                    if !(a[i].0 == b[i].0 && a[i].1.same(&b[i].1)) {
                        proof {
                            lemma_object_view(*self);
                            lemma_object_view(*other);
                            assert(self@->Object_0[i as int] != other@->Object_0[i as int]);
                        }
                        return false;
                    }
                    i += 1;
                }
                proof {
                    assert(self@->Object_0 =~= other@->Object_0);
                }
                true
            },
            _ => false,
        }
    }

    /// The value of the first member named `key`, if this is an object that
    /// has one.
    pub fn member(&self, key: &str) -> (r: Option<&Json>)
        ensures
            match r {
                Some(v) => self@.member(key@) == Some(v@),
                None => self@.member(key@).is_none(),
            },
    {
        match self {
            Json::Object(members) => {
                proof {
                    lemma_object_view(*self);
                }
                let mut i: usize = 0;
                while i < members.len()
                    invariant
                        i <= members@.len(),
                        self@ == JsonValue::Object(self@->Object_0),
                        self@->Object_0.len() == members@.len(),
                        forall|k: int|
                            0 <= k < members@.len() ==> (#[trigger] self@->Object_0[k]) == (
                                members@[k].0@,
                                members@[k].1@,
                            ),
                        lookup_from(self@->Object_0, key@, 0) == lookup_from(self@->Object_0, key@, i as int),
                    decreases members@.len() - i,
                {
                    if text_is(&members[i].0, key) {
                        return Some(&members[i].1);
                    }
                    i += 1;
                }
                None
            },
            _ => None,
        }
    }
}

/// What `serde_json::from_str` makes of a text: the document it holds, or
/// `None` where the text is not one JSON document.
pub uninterp spec fn parsed_json(text: Seq<char>) -> Option<JsonValue>;

/// What `serde_json::to_string` makes of a document: the compact text it
/// prints, or `None` where it prints none.
pub uninterp spec fn rendered_json(doc: JsonValue) -> Option<Seq<char>>;

#[verifier::external_type_specification]
#[verifier::external_body]
pub struct ExValue(serde_json::Value);

#[verifier::external_type_specification]
#[verifier::external_body]
pub struct ExError(serde_json::Error);

/// Copies a `serde_json::Value` into a [`Json`], variant by variant; a
/// number goes by what `Number::as_u64` and `Number::as_i64` give, and by
/// its text where they give nothing. Nothing is claimed of the copy.
#[verifier::external_body]
fn import_value(v: &Value) -> (j: Json) {
    match v {
        Value::Null => Json::Null,
        Value::Bool(b) => Json::Bool(*b),
        Value::Number(n) => match (n.as_u64(), n.as_i64()) {
            (Some(u), _) => Json::Unsigned(u),
            (None, Some(i)) => Json::Signed(i),
            _ => Json::Real(n.to_string()),
        },
        Value::String(s) => Json::Text(s.clone()),
        Value::Array(a) => Json::Array(a.iter().map(import_value).collect()),
        Value::Object(m) => Json::Object(
            m.iter().map(|(k, x)| (k.clone(), import_value(x))).collect(),
        ),
    }
}

/// Copies a [`Json`] into a `serde_json::Value`, variant by variant; the
/// text of a `Real` is read as a `serde_json::Number`, and becomes `null`
/// where it is none. Nothing is claimed of the copy.
#[verifier::external_body]
fn export_value(j: &Json) -> (v: Value) {
    match j {
        Json::Null => Value::Null,
        Json::Bool(b) => Value::Bool(*b),
        Json::Unsigned(u) => Value::from(*u),
        Json::Signed(i) => Value::from(*i),
        Json::Real(t) => match t.parse::<Number>() {
            Ok(n) => Value::Number(n),
            Err(_) => Value::Null,
        },
        Json::Text(s) => Value::String(s.clone()),
        Json::Array(a) => Value::Array(a.iter().map(export_value).collect()),
        Json::Object(m) => Value::Object(
            m.iter().map(|(k, x)| (k.clone(), export_value(x))).collect(),
        ),
    }
}

/// Calls `serde_json::from_str` for a `serde_json::Value`. The contract
/// gives the outcome its name, [`parsed_json`]: the same text always parses
/// to the same document, or always fails.
#[verifier::external_body]
pub(crate) fn parse_json(text: &str) -> (r: Result<Json, serde_json::Error>)
    ensures
        match r {
            Ok(j) => parsed_json(text@) == Some(j@),
            Err(_) => parsed_json(text@).is_none(),
        },
{
    match serde_json::from_str::<Value>(text) {
        Ok(v) => Ok(import_value(&v)),
        Err(e) => Err(e),
    }
}

/// Calls `serde_json::to_string` on the document. The contract gives the
/// outcome its name, [`rendered_json`]: the same document always prints to
/// the same text, or always fails. It does not promise that printing
/// succeeds.
#[verifier::external_body]
pub(crate) fn render_json(doc: &Json) -> (r: Result<String, serde_json::Error>)
    ensures
        match r {
            Ok(text) => rendered_json(doc@) == Some(text@),
            Err(_) => rendered_json(doc@).is_none(),
        },
{
    serde_json::to_string(&export_value(doc))
}

} // verus!
