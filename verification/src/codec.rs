//! How each payload is written as a JSON document and read back from one.
//!
//! A payload is an object whose members carry the field names verbatim; an
//! enum is the bare name of its variant. Reading ignores members it does not
//! know, and takes the first of two members with one name.

use vstd::prelude::*;
use crate::json::{Json, JsonValue, lemma_array_view, lemma_object_view, lookup_from, text_is};
use crate::schema::{
    AuthAccountInstruction, AuthAccountInstructionModel, AuthAccountResponse,
    AuthAccountResponseModel, AuthMethod, AuthMethodModel, AuthResult, Field, FieldModel,
    FieldType, InitDataInstruction, InitDataModel, KeepaliveInstruction, ProtocolData,
    ProtocolDataModel, Version,
};

verus! {

// ---------------------------------------------------------------------
// Scalars
// ---------------------------------------------------------------------

/// The 32-bit integer that a document is, if it is a whole number in range.
pub open spec fn i32_of(doc: JsonValue) -> Option<i32> {
    match doc {
        JsonValue::Int(n) => if i32::MIN <= n <= i32::MAX {
            Some(n as i32)
        } else {
            None
        },
        _ => None,
    }
}

/// The unsigned 64-bit integer that a document is, if it is a whole number
/// in range.
pub open spec fn u64_of(doc: JsonValue) -> Option<u64> {
    match doc {
        JsonValue::Int(n) => if 0 <= n <= u64::MAX {
            Some(n as u64)
        } else {
            None
        },
        _ => None,
    }
}

/// The truth value that a document is, if it is one.
pub open spec fn bool_of(doc: JsonValue) -> Option<bool> {
    match doc {
        JsonValue::Bool(b) => Some(b),
        _ => None,
    }
}

/// The text that a document is, if it is one.
pub open spec fn text_of(doc: JsonValue) -> Option<Seq<char>> {
    match doc {
        JsonValue::Text(t) => Some(t),
        _ => None,
    }
}

/// A text that may be absent: `null` reads as absent.
pub open spec fn optional_text_of(doc: JsonValue) -> Option<Option<Seq<char>>> {
    match doc {
        JsonValue::Null => Some(None),
        JsonValue::Text(t) => Some(Some(t)),
        _ => None,
    }
}

/// The member named `key`, where a missing member, or any member of what is
/// no object, reads as `null`.
pub open spec fn member_of(doc: JsonValue, key: Seq<char>) -> JsonValue {
    doc.member_or_null(key)
}

/// The view of a text that may be absent.
pub open spec fn text_view(t: Option<String>) -> Option<Seq<char>> {
    match t {
        Some(s) => Some(s@),
        None => None,
    }
}

/// Reads a 32-bit integer.
pub fn read_i32(doc: &Json) -> (r: Option<i32>)
    ensures
        r == i32_of(doc@),
{
    match doc {
        Json::Unsigned(n) => if *n <= 2147483647 {
            Some(*n as i32)
        } else {
            None
        },
        Json::Signed(n) => if -2147483648 <= *n && *n <= 2147483647 {
            Some(*n as i32)
        } else {
            None
        },
        _ => None,
    }
}

/// Reads an unsigned 64-bit integer.
pub fn read_u64(doc: &Json) -> (r: Option<u64>)
    ensures
        r == u64_of(doc@),
{
    match doc {
        Json::Unsigned(n) => Some(*n),
        Json::Signed(n) => if *n >= 0 {
            Some(*n as u64)
        } else {
            None
        },
        _ => None,
    }
}

/// Reads a truth value.
pub fn read_bool(doc: &Json) -> (r: Option<bool>)
    ensures
        r == bool_of(doc@),
{
    match doc {
        Json::Bool(b) => Some(*b),
        _ => None,
    }
}

/// Reads a text.
pub fn read_text(doc: &Json) -> (r: Option<String>)
    ensures
        text_view(r) == text_of(doc@),
{
    match doc {
        Json::Text(t) => Some(t.clone()),
        _ => None,
    }
}

/// The member named `key`, or `null` where the document has none.
pub fn member_or_null<'a>(doc: &'a Json, key: &str, null: &'a Json) -> (r: &'a Json)
    requires
        null@ == JsonValue::Null,
    ensures
        r@ == member_of(doc@, key@),
{
    match doc.member(key) {
        Some(v) => v,
        None => null,
    }
}

/// An object with the given members, in their order.
pub fn object_of(members: Vec<(String, Json)>) -> (r: Json)
    ensures
        r@ == JsonValue::Object(members@.map_values(|m: (String, Json)| (m.0@, m.1@))),
{
    let ghost ms = members@;
    let r = Json::Object(members);
    proof {
        lemma_object_view(r);
        assert(r@->Object_0 =~= ms.map_values(|m: (String, Json)| (m.0@, m.1@)));
    }
    r
}

/// An array with the given items, in their order.
pub fn array_of(items: Vec<Json>) -> (r: Json)
    ensures
        r@ == JsonValue::Array(items@.map_values(|j: Json| j@)),
{
    let ghost is = items@;
    let r = Json::Array(items);
    proof {
        lemma_array_view(r);
        assert(r@->Array_0 =~= is.map_values(|j: Json| j@));
    }
    r
}

/// The document of a text.
pub fn text_json(text: &String) -> (r: Json)
    ensures
        r@ == JsonValue::Text(text@),
{
    Json::Text(text.clone())
}

/// The document of a 32-bit integer.
pub fn i32_json(n: i32) -> (r: Json)
    ensures
        r@ == JsonValue::Int(n as int),
{
    Json::Signed(n as i64)
}

// ---------------------------------------------------------------------
// Keepalive
// ---------------------------------------------------------------------

/// The document of a keepalive.
pub open spec fn keepalive_json(k: KeepaliveInstruction) -> JsonValue {
    JsonValue::Object(seq![("id"@, JsonValue::Int(k.id as int))])
}

/// The keepalive that a document reads as.
pub open spec fn keepalive_of_json(doc: JsonValue) -> Option<KeepaliveInstruction> {
    match u64_of(member_of(doc, "id"@)) {
        Some(id) => Some(KeepaliveInstruction { id }),
        None => None,
    }
}

impl KeepaliveInstruction {
    pub fn to_json(&self) -> (r: Json)
        ensures
            r@ == keepalive_json(*self),
    {
        let mut members: Vec<(String, Json)> = Vec::new();
        members.push((String::from_str("id"), Json::Unsigned(self.id)));
        let r = object_of(members);
        proof {
            assert(r@->Object_0 =~= keepalive_json(*self)->Object_0);
        }
        r
    }

    pub fn from_json(doc: &Json) -> (r: Option<KeepaliveInstruction>)
        ensures
            r == keepalive_of_json(doc@),
    {
        let null = Json::Null;
        match read_u64(member_or_null(doc, "id", &null)) {
            Some(id) => Some(KeepaliveInstruction { id }),
            None => None,
        }
    }
}

/// Reading a written keepalive gives the keepalive back.
pub proof fn lemma_keepalive_round_trip(k: KeepaliveInstruction)
    ensures
        keepalive_of_json(keepalive_json(k)) == Some(k),
{
    reveal_with_fuel(lookup_from, 2);
}

// ---------------------------------------------------------------------
// Version
// ---------------------------------------------------------------------

/// The document of a version.
pub open spec fn version_json(v: Version) -> JsonValue {
    JsonValue::Object(
        seq![
            ("major"@, JsonValue::Int(v.major as int)),
            ("minor"@, JsonValue::Int(v.minor as int)),
            ("patch"@, JsonValue::Int(v.patch as int)),
        ],
    )
}

/// The version that a document reads as.
pub open spec fn version_of_json(doc: JsonValue) -> Option<Version> {
    match (
        i32_of(member_of(doc, "major"@)),
        i32_of(member_of(doc, "minor"@)),
        i32_of(member_of(doc, "patch"@)),
    ) {
        (Some(major), Some(minor), Some(patch)) => Some(Version { major, minor, patch }),
        _ => None,
    }
}

impl Version {
    pub fn to_json(&self) -> (r: Json)
        ensures
            r@ == version_json(*self),
    {
        let mut members: Vec<(String, Json)> = Vec::new();
        members.push((String::from_str("major"), i32_json(self.major)));
        members.push((String::from_str("minor"), i32_json(self.minor)));
        members.push((String::from_str("patch"), i32_json(self.patch)));
        let r = object_of(members);
        proof {
            assert(r@->Object_0 =~= version_json(*self)->Object_0);
        }
        r
    }

    pub fn from_json(doc: &Json) -> (r: Option<Version>)
        ensures
            r == version_of_json(doc@),
    {
        let null = Json::Null;
        let major = read_i32(member_or_null(doc, "major", &null));
        let minor = read_i32(member_or_null(doc, "minor", &null));
        let patch = read_i32(member_or_null(doc, "patch", &null));
        match (major, minor, patch) {
            (Some(major), Some(minor), Some(patch)) => Some(Version { major, minor, patch }),
            _ => None,
        }
    }
}

/// Reading a written version gives the version back.
pub proof fn lemma_version_round_trip(v: Version)
    ensures
        version_of_json(version_json(v)) == Some(v),
{
    reveal_with_fuel(lookup_from, 4);
    reveal_strlit("major");
    reveal_strlit("minor");
    reveal_strlit("patch");
    assert("major"@[1] != "minor"@[1]);
    assert("major"@[0] != "patch"@[0]);
    assert("minor"@[0] != "patch"@[0]);
}

// ---------------------------------------------------------------------
// Enums: the bare name of the variant
// ---------------------------------------------------------------------

/// The name of a field type on the wire.
pub open spec fn field_type_name(t: FieldType) -> Seq<char> {
    match t {
        FieldType::Integer => "Integer"@,
        FieldType::String => "String"@,
        FieldType::Url => "Url"@,
    }
}

/// The field type that a document reads as.
pub open spec fn field_type_of_json(doc: JsonValue) -> Option<FieldType> {
    match doc {
        JsonValue::Text(t) => if t == "Integer"@ {
            Some(FieldType::Integer)
        } else if t == "String"@ {
            Some(FieldType::String)
        } else if t == "Url"@ {
            Some(FieldType::Url)
        } else {
            None
        },
        _ => None,
    }
}

/// The name of an authentication result on the wire.
pub open spec fn auth_result_name(t: AuthResult) -> Seq<char> {
    match t {
        AuthResult::Success => "Success"@,
        AuthResult::FailRejected => "FailRejected"@,
        AuthResult::FailConnectionError => "FailConnectionError"@,
        AuthResult::Connecting => "Connecting"@,
    }
}

/// The authentication result that a document reads as.
pub open spec fn auth_result_of_json(doc: JsonValue) -> Option<AuthResult> {
    match doc {
        JsonValue::Text(t) => if t == "Success"@ {
            Some(AuthResult::Success)
        } else if t == "FailRejected"@ {
            Some(AuthResult::FailRejected)
        } else if t == "FailConnectionError"@ {
            Some(AuthResult::FailConnectionError)
        } else if t == "Connecting"@ {
            Some(AuthResult::Connecting)
        } else {
            None
        },
        _ => None,
    }
}

impl FieldType {
    pub fn to_json(&self) -> (r: Json)
        ensures
            r@ == JsonValue::Text(field_type_name(*self)),
    {
        match self {
            FieldType::Integer => Json::Text(String::from_str("Integer")),
            FieldType::String => Json::Text(String::from_str("String")),
            FieldType::Url => Json::Text(String::from_str("Url")),
        }
    }

    pub fn from_json(doc: &Json) -> (r: Option<FieldType>)
        ensures
            r == field_type_of_json(doc@),
    {
        match doc {
            Json::Text(t) => if text_is(t, "Integer") {
                Some(FieldType::Integer)
            } else if text_is(t, "String") {
                Some(FieldType::String)
            } else if text_is(t, "Url") {
                Some(FieldType::Url)
            } else {
                None
            },
            _ => None,
        }
    }
}

impl AuthResult {
    pub fn to_json(&self) -> (r: Json)
        ensures
            r@ == JsonValue::Text(auth_result_name(*self)),
    {
        match self {
            AuthResult::Success => Json::Text(String::from_str("Success")),
            AuthResult::FailRejected => Json::Text(String::from_str("FailRejected")),
            AuthResult::FailConnectionError => Json::Text(String::from_str("FailConnectionError")),
            AuthResult::Connecting => Json::Text(String::from_str("Connecting")),
        }
    }

    pub fn from_json(doc: &Json) -> (r: Option<AuthResult>)
        ensures
            r == auth_result_of_json(doc@),
    {
        match doc {
            Json::Text(t) => if text_is(t, "Success") {
                Some(AuthResult::Success)
            } else if text_is(t, "FailRejected") {
                Some(AuthResult::FailRejected)
            } else if text_is(t, "FailConnectionError") {
                Some(AuthResult::FailConnectionError)
            } else if text_is(t, "Connecting") {
                Some(AuthResult::Connecting)
            } else {
                None
            },
            _ => None,
        }
    }
}

/// Reading a written field type gives the field type back.
pub proof fn lemma_field_type_round_trip(t: FieldType)
    ensures
        field_type_of_json(JsonValue::Text(field_type_name(t))) == Some(t),
{
    reveal_strlit("Integer");
    reveal_strlit("String");
    reveal_strlit("Url");
    assert("Integer"@.len() == 7);
    assert("String"@.len() == 6);
    assert("Url"@.len() == 3);
}

/// Reading a written authentication result gives the result back.
pub proof fn lemma_auth_result_round_trip(t: AuthResult)
    ensures
        auth_result_of_json(JsonValue::Text(auth_result_name(t))) == Some(t),
{
    reveal_strlit("Success");
    reveal_strlit("FailRejected");
    reveal_strlit("FailConnectionError");
    reveal_strlit("Connecting");
    assert("Success"@.len() == 7);
    assert("FailRejected"@.len() == 12);
    assert("FailConnectionError"@.len() == 19);
    assert("Connecting"@.len() == 10);
}

// ---------------------------------------------------------------------
// Field
// ---------------------------------------------------------------------

/// The document of a text that may be absent: `null` for an absent one.
pub open spec fn optional_text_json(t: Option<Seq<char>>) -> JsonValue {
    match t {
        Some(s) => JsonValue::Text(s),
        None => JsonValue::Null,
    }
}

/// The document of a field.
pub open spec fn field_json(f: FieldModel) -> JsonValue {
    JsonValue::Object(
        seq![
            ("name"@, JsonValue::Text(f.name)),
            ("field_type"@, JsonValue::Text(field_type_name(f.field_type))),
            ("value"@, optional_text_json(f.value)),
            ("required"@, JsonValue::Bool(f.required)),
            ("sensitive"@, JsonValue::Bool(f.sensitive)),
        ],
    )
}

/// The field that a document reads as. A missing `value` reads as absent.
pub open spec fn field_of_json(doc: JsonValue) -> Option<FieldModel> {
    match (
        text_of(member_of(doc, "name"@)),
        field_type_of_json(member_of(doc, "field_type"@)),
        optional_text_of(member_of(doc, "value"@)),
        bool_of(member_of(doc, "required"@)),
        bool_of(member_of(doc, "sensitive"@)),
    ) {
        (Some(name), Some(field_type), Some(value), Some(required), Some(sensitive)) => Some(
            FieldModel { name, field_type, value, required, sensitive },
        ),
        _ => None,
    }
}

/// Reads a text that may be absent; the outer `None` is a document that is
/// neither a text nor `null`.
pub fn read_optional_text(doc: &Json) -> (r: Option<Option<String>>)
    ensures
        match r {
            Some(t) => optional_text_of(doc@) == Some(text_view(t)),
            None => optional_text_of(doc@).is_none(),
        },
{
    match doc {
        Json::Null => Some(None),
        Json::Text(t) => Some(Some(t.clone())),
        _ => None,
    }
}

impl Field {
    pub fn to_json(&self) -> (r: Json)
        ensures
            r@ == field_json(self@),
    {
        let value = match &self.value {
            Some(v) => text_json(v),
            None => Json::Null,
        };
        let mut members: Vec<(String, Json)> = Vec::new();
        members.push((String::from_str("name"), text_json(&self.name)));
        members.push((String::from_str("field_type"), self.field_type.to_json()));
        members.push((String::from_str("value"), value));
        members.push((String::from_str("required"), Json::Bool(self.required)));
        members.push((String::from_str("sensitive"), Json::Bool(self.sensitive)));
        let r = object_of(members);
        proof {
            assert(r@->Object_0 =~= field_json(self@)->Object_0);
        }
        r
    }

    pub fn from_json(doc: &Json) -> (r: Option<Field>)
        ensures
            match r {
                Some(f) => field_of_json(doc@) == Some(f@),
                None => field_of_json(doc@).is_none(),
            },
    {
        let null = Json::Null;
        let name = read_text(member_or_null(doc, "name", &null));
        let field_type = FieldType::from_json(member_or_null(doc, "field_type", &null));
        let value = read_optional_text(member_or_null(doc, "value", &null));
        let required = read_bool(member_or_null(doc, "required", &null));
        let sensitive = read_bool(member_or_null(doc, "sensitive", &null));
        match (name, field_type, value, required, sensitive) {
            (Some(name), Some(field_type), Some(value), Some(required), Some(sensitive)) => Some(
                Field { name, field_type, value, required, sensitive },
            ),
            _ => None,
        }
    }
}

/// Reading a written field gives the field back.
pub proof fn lemma_field_round_trip(f: FieldModel)
    ensures
        field_of_json(field_json(f)) == Some(f),
{
    reveal_with_fuel(lookup_from, 6);
    reveal_strlit("name");
    reveal_strlit("field_type");
    reveal_strlit("value");
    reveal_strlit("required");
    reveal_strlit("sensitive");
    assert("name"@.len() == 4);
    assert("field_type"@.len() == 10);
    assert("value"@.len() == 5);
    assert("required"@.len() == 8);
    assert("sensitive"@.len() == 9);
    lemma_field_type_round_trip(f.field_type);
}

/// A list of documents read item by item: every item must read.
pub open spec fn fields_of_json(doc: JsonValue) -> Option<Seq<FieldModel>> {
    match doc {
        JsonValue::Array(items) => if forall|i: int|
            0 <= i < items.len() ==> field_of_json(#[trigger] items[i]).is_some() {
            Some(items.map_values(|j: JsonValue| field_of_json(j).unwrap()))
        } else {
            None
        },
        _ => None,
    }
}

/// The document of a list of fields.
pub open spec fn fields_json(fields: Seq<FieldModel>) -> JsonValue {
    JsonValue::Array(fields.map_values(|f: FieldModel| field_json(f)))
}

/// Writes a list of fields.
pub fn write_fields(fields: &Vec<Field>) -> (r: Json)
    ensures
        r@ == fields_json(fields@.map_values(|f: Field| f@)),
{
    let mut items: Vec<Json> = Vec::new();
    let mut i: usize = 0;
    while i < fields.len()
        invariant
            i <= fields@.len(),
            items@.len() == i,
            forall|k: int| 0 <= k < i ==> (#[trigger] items@[k])@ == field_json(fields@[k]@),
        decreases fields@.len() - i,
    {
        items.push(fields[i].to_json());
        i += 1;
    }
    let r = array_of(items);
    proof {
        assert(r@->Array_0 =~= fields_json(fields@.map_values(|f: Field| f@))->Array_0);
    }
    r
}

/// Reads a list of fields.
pub fn read_fields(doc: &Json) -> (r: Option<Vec<Field>>)
    ensures
        match r {
            Some(v) => fields_of_json(doc@) == Some(v@.map_values(|f: Field| f@)),
            None => fields_of_json(doc@).is_none(),
        },
{
    match doc {
        Json::Array(items) => {
            proof {
                lemma_array_view(*doc);
            }
            let mut out: Vec<Field> = Vec::new();
            let mut i: usize = 0;
            while i < items.len()
                invariant
                    i <= items@.len(),
                    out@.len() == i,
                    doc@ is Array,
                    doc@->Array_0.len() == items@.len(),
                    forall|k: int| 0 <= k < items@.len() ==> (#[trigger] doc@->Array_0[k]) == items@[k]@,
                    forall|k: int|
                        0 <= k < i ==> field_of_json(#[trigger] doc@->Array_0[k]) == Some(out@[k]@),
                decreases items@.len() - i,
            {
                match Field::from_json(&items[i]) {
                    Some(f) => {
                        out.push(f);
                    },
                    None => {
                        assert(field_of_json(doc@->Array_0[i as int]).is_none());
                        return None;
                    },
                }
                i += 1;
            }
            proof {
                assert(out@.map_values(|f: Field| f@) =~= doc@->Array_0.map_values(
                    |j: JsonValue| field_of_json(j).unwrap(),
                ));
            }
            Some(out)
        },
        _ => None,
    }
}

/// Reading a written list of fields gives the list back.
pub proof fn lemma_fields_round_trip(fields: Seq<FieldModel>)
    ensures
        fields_of_json(fields_json(fields)) == Some(fields),
{
    let items = fields.map_values(|f: FieldModel| field_json(f));
    assert forall|i: int| 0 <= i < items.len() implies field_of_json(#[trigger] items[i]) == Some(
        fields[i],
    ) by {
        lemma_field_round_trip(fields[i]);
    }
    assert(items.map_values(|j: JsonValue| field_of_json(j).unwrap()) =~= fields);
}

// ---------------------------------------------------------------------
// AuthMethod
// ---------------------------------------------------------------------

/// The document of a login method.
pub open spec fn auth_method_json(m: AuthMethodModel) -> JsonValue {
    JsonValue::Object(seq![("name"@, JsonValue::Text(m.name)), ("fields"@, fields_json(m.fields))])
}

/// The login method that a document reads as.
pub open spec fn auth_method_of_json(doc: JsonValue) -> Option<AuthMethodModel> {
    match (text_of(member_of(doc, "name"@)), fields_of_json(member_of(doc, "fields"@))) {
        (Some(name), Some(fields)) => Some(AuthMethodModel { name, fields }),
        _ => None,
    }
}

impl AuthMethod {
    pub fn to_json(&self) -> (r: Json)
        ensures
            r@ == auth_method_json(self@),
    {
        let mut members: Vec<(String, Json)> = Vec::new();
        members.push((String::from_str("name"), text_json(&self.name)));
        members.push((String::from_str("fields"), write_fields(&self.fields)));
        let r = object_of(members);
        proof {
            assert(r@->Object_0 =~= auth_method_json(self@)->Object_0);
        }
        r
    }

    pub fn from_json(doc: &Json) -> (r: Option<AuthMethod>)
        ensures
            match r {
                Some(m) => auth_method_of_json(doc@) == Some(m@),
                None => auth_method_of_json(doc@).is_none(),
            },
    {
        let null = Json::Null;
        let name = read_text(member_or_null(doc, "name", &null));
        let fields = read_fields(member_or_null(doc, "fields", &null));
        match (name, fields) {
            (Some(name), Some(fields)) => Some(AuthMethod { name, fields }),
            _ => None,
        }
    }
}

/// Reading a written login method gives the method back.
pub proof fn lemma_auth_method_round_trip(m: AuthMethodModel)
    ensures
        auth_method_of_json(auth_method_json(m)) == Some(m),
{
    reveal_with_fuel(lookup_from, 3);
    reveal_strlit("name");
    reveal_strlit("fields");
    assert("name"@.len() == 4);
    assert("fields"@.len() == 6);
    lemma_fields_round_trip(m.fields);
}

/// A list of login methods read item by item: every item must read.
pub open spec fn auth_methods_of_json(doc: JsonValue) -> Option<Seq<AuthMethodModel>> {
    match doc {
        JsonValue::Array(items) => if forall|i: int|
            0 <= i < items.len() ==> auth_method_of_json(#[trigger] items[i]).is_some() {
            Some(items.map_values(|j: JsonValue| auth_method_of_json(j).unwrap()))
        } else {
            None
        },
        _ => None,
    }
}

/// The document of a list of login methods.
pub open spec fn auth_methods_json(methods: Seq<AuthMethodModel>) -> JsonValue {
    JsonValue::Array(methods.map_values(|m: AuthMethodModel| auth_method_json(m)))
}

/// Writes a list of login methods.
pub fn write_auth_methods(methods: &Vec<AuthMethod>) -> (r: Json)
    ensures
        r@ == auth_methods_json(methods@.map_values(|m: AuthMethod| m@)),
{
    let mut items: Vec<Json> = Vec::new();
    let mut i: usize = 0;
    while i < methods.len()
        invariant
            i <= methods@.len(),
            items@.len() == i,
            forall|k: int| 0 <= k < i ==> (#[trigger] items@[k])@ == auth_method_json(methods@[k]@),
        decreases methods@.len() - i,
    {
        items.push(methods[i].to_json());
        i += 1;
    }
    let r = array_of(items);
    proof {
        assert(r@->Array_0 =~= auth_methods_json(methods@.map_values(|m: AuthMethod| m@))->Array_0);
    }
    r
}

/// Reads a list of login methods.
pub fn read_auth_methods(doc: &Json) -> (r: Option<Vec<AuthMethod>>)
    ensures
        match r {
            Some(v) => auth_methods_of_json(doc@) == Some(v@.map_values(|m: AuthMethod| m@)),
            None => auth_methods_of_json(doc@).is_none(),
        },
{
    match doc {
        Json::Array(items) => {
            proof {
                lemma_array_view(*doc);
            }
            let mut out: Vec<AuthMethod> = Vec::new();
            let mut i: usize = 0;
            while i < items.len()
                invariant
                    i <= items@.len(),
                    out@.len() == i,
                    doc@ is Array,
                    doc@->Array_0.len() == items@.len(),
                    forall|k: int| 0 <= k < items@.len() ==> (#[trigger] doc@->Array_0[k]) == items@[k]@,
                    forall|k: int|
                        0 <= k < i ==> auth_method_of_json(#[trigger] doc@->Array_0[k]) == Some(
                            out@[k]@,
                        ),
                decreases items@.len() - i,
            {
                match AuthMethod::from_json(&items[i]) {
                    Some(m) => {
                        out.push(m);
                    },
                    None => {
                        assert(auth_method_of_json(doc@->Array_0[i as int]).is_none());
                        return None;
                    },
                }
                i += 1;
            }
            proof {
                assert(out@.map_values(|m: AuthMethod| m@) =~= doc@->Array_0.map_values(
                    |j: JsonValue| auth_method_of_json(j).unwrap(),
                ));
            }
            Some(out)
        },
        _ => None,
    }
}

/// Reading a written list of login methods gives the list back.
pub proof fn lemma_auth_methods_round_trip(methods: Seq<AuthMethodModel>)
    ensures
        auth_methods_of_json(auth_methods_json(methods)) == Some(methods),
{
    let items = methods.map_values(|m: AuthMethodModel| auth_method_json(m));
    assert forall|i: int| 0 <= i < items.len() implies auth_method_of_json(#[trigger] items[i])
        == Some(methods[i]) by {
        lemma_auth_method_round_trip(methods[i]);
    }
    assert(items.map_values(|j: JsonValue| auth_method_of_json(j).unwrap()) =~= methods);
}

// ---------------------------------------------------------------------
// ProtocolData and Init
// ---------------------------------------------------------------------

/// The document of protocol data.
pub open spec fn protocol_data_json(p: ProtocolDataModel) -> JsonValue {
    JsonValue::Object(
        seq![
            ("protocol_service_name"@, JsonValue::Text(p.protocol_service_name)),
            ("auth_methods"@, auth_methods_json(p.auth_methods)),
        ],
    )
}

/// The protocol data that a document reads as.
pub open spec fn protocol_data_of_json(doc: JsonValue) -> Option<ProtocolDataModel> {
    match (
        text_of(member_of(doc, "protocol_service_name"@)),
        auth_methods_of_json(member_of(doc, "auth_methods"@)),
    ) {
        (Some(protocol_service_name), Some(auth_methods)) => Some(
            ProtocolDataModel { protocol_service_name, auth_methods },
        ),
        _ => None,
    }
}

impl ProtocolData {
    pub fn to_json(&self) -> (r: Json)
        ensures
            r@ == protocol_data_json(self@),
    {
        let mut members: Vec<(String, Json)> = Vec::new();
        members.push(
            (String::from_str("protocol_service_name"), text_json(&self.protocol_service_name)),
        );
        members.push((String::from_str("auth_methods"), write_auth_methods(&self.auth_methods)));
        let r = object_of(members);
        proof {
            assert(r@->Object_0 =~= protocol_data_json(self@)->Object_0);
        }
        r
    }

    pub fn from_json(doc: &Json) -> (r: Option<ProtocolData>)
        ensures
            match r {
                Some(p) => protocol_data_of_json(doc@) == Some(p@),
                None => protocol_data_of_json(doc@).is_none(),
            },
    {
        let null = Json::Null;
        let name = read_text(member_or_null(doc, "protocol_service_name", &null));
        let methods = read_auth_methods(member_or_null(doc, "auth_methods", &null));
        match (name, methods) {
            (Some(protocol_service_name), Some(auth_methods)) => Some(
                ProtocolData { protocol_service_name, auth_methods },
            ),
            _ => None,
        }
    }
}

/// Reading written protocol data gives the protocol data back.
pub proof fn lemma_protocol_data_round_trip(p: ProtocolDataModel)
    ensures
        protocol_data_of_json(protocol_data_json(p)) == Some(p),
{
    reveal_with_fuel(lookup_from, 3);
    reveal_strlit("protocol_service_name");
    reveal_strlit("auth_methods");
    assert("protocol_service_name"@.len() == 21);
    assert("auth_methods"@.len() == 12);
    lemma_auth_methods_round_trip(p.auth_methods);
}

/// The document of an init payload.
pub open spec fn init_json(d: InitDataModel) -> JsonValue {
    JsonValue::Object(
        seq![
            ("api_version"@, version_json(d.api_version)),
            ("plugin_version"@, version_json(d.plugin_version)),
            ("protocol_data"@, protocol_data_json(d.protocol_data)),
        ],
    )
}

/// The init payload that a document reads as.
pub open spec fn init_of_json(doc: JsonValue) -> Option<InitDataModel> {
    match (
        version_of_json(member_of(doc, "api_version"@)),
        version_of_json(member_of(doc, "plugin_version"@)),
        protocol_data_of_json(member_of(doc, "protocol_data"@)),
    ) {
        (Some(api_version), Some(plugin_version), Some(protocol_data)) => Some(
            InitDataModel { api_version, plugin_version, protocol_data },
        ),
        _ => None,
    }
}

impl InitDataInstruction {
    pub fn to_json(&self) -> (r: Json)
        ensures
            r@ == init_json(self@),
    {
        let mut members: Vec<(String, Json)> = Vec::new();
        members.push((String::from_str("api_version"), self.api_version.to_json()));
        members.push((String::from_str("plugin_version"), self.plugin_version.to_json()));
        members.push((String::from_str("protocol_data"), self.protocol_data.to_json()));
        let r = object_of(members);
        proof {
            assert(r@->Object_0 =~= init_json(self@)->Object_0);
        }
        r
    }

    pub fn from_json(doc: &Json) -> (r: Option<InitDataInstruction>)
        ensures
            match r {
                Some(d) => init_of_json(doc@) == Some(d@),
                None => init_of_json(doc@).is_none(),
            },
    {
        let null = Json::Null;
        let api_version = Version::from_json(member_or_null(doc, "api_version", &null));
        let plugin_version = Version::from_json(member_or_null(doc, "plugin_version", &null));
        let protocol_data = ProtocolData::from_json(member_or_null(doc, "protocol_data", &null));
        match (api_version, plugin_version, protocol_data) {
            (Some(api_version), Some(plugin_version), Some(protocol_data)) => Some(
                InitDataInstruction { api_version, plugin_version, protocol_data },
            ),
            _ => None,
        }
    }
}

/// Reading a written init payload gives the payload back.
pub proof fn lemma_init_round_trip(d: InitDataModel)
    ensures
        init_of_json(init_json(d)) == Some(d),
{
    reveal_with_fuel(lookup_from, 4);
    reveal_strlit("api_version");
    reveal_strlit("plugin_version");
    reveal_strlit("protocol_data");
    assert("api_version"@.len() == 11);
    assert("plugin_version"@.len() == 14);
    assert("protocol_data"@.len() == 13);
    lemma_version_round_trip(d.api_version);
    lemma_version_round_trip(d.plugin_version);
    lemma_protocol_data_round_trip(d.protocol_data);
}

// ---------------------------------------------------------------------
// Account authentication
// ---------------------------------------------------------------------

/// The document of an authentication request.
pub open spec fn auth_account_json(a: AuthAccountInstructionModel) -> JsonValue {
    JsonValue::Object(seq![("used_authmethod"@, auth_method_json(a.used_authmethod))])
}

/// The authentication request that a document reads as.
pub open spec fn auth_account_of_json(doc: JsonValue) -> Option<AuthAccountInstructionModel> {
    match auth_method_of_json(member_of(doc, "used_authmethod"@)) {
        Some(used_authmethod) => Some(AuthAccountInstructionModel { used_authmethod }),
        None => None,
    }
}

impl AuthAccountInstruction {
    pub fn to_json(&self) -> (r: Json)
        ensures
            r@ == auth_account_json(self@),
    {
        let mut members: Vec<(String, Json)> = Vec::new();
        members.push((String::from_str("used_authmethod"), self.used_authmethod.to_json()));
        let r = object_of(members);
        proof {
            assert(r@->Object_0 =~= auth_account_json(self@)->Object_0);
        }
        r
    }

    pub fn from_json(doc: &Json) -> (r: Option<AuthAccountInstruction>)
        ensures
            match r {
                Some(a) => auth_account_of_json(doc@) == Some(a@),
                None => auth_account_of_json(doc@).is_none(),
            },
    {
        let null = Json::Null;
        match AuthMethod::from_json(member_or_null(doc, "used_authmethod", &null)) {
            Some(used_authmethod) => Some(AuthAccountInstruction { used_authmethod }),
            None => None,
        }
    }
}

/// Reading a written authentication request gives the request back.
pub proof fn lemma_auth_account_round_trip(a: AuthAccountInstructionModel)
    ensures
        auth_account_of_json(auth_account_json(a)) == Some(a),
{
    reveal_with_fuel(lookup_from, 2);
    lemma_auth_method_round_trip(a.used_authmethod);
}

/// The document of an authentication response.
pub open spec fn auth_response_json(a: AuthAccountResponseModel) -> JsonValue {
    JsonValue::Object(
        seq![
            ("result"@, JsonValue::Text(auth_result_name(a.result))),
            ("details"@, JsonValue::Text(a.details)),
        ],
    )
}

/// The authentication response that a document reads as.
pub open spec fn auth_response_of_json(doc: JsonValue) -> Option<AuthAccountResponseModel> {
    match (auth_result_of_json(member_of(doc, "result"@)), text_of(member_of(doc, "details"@))) {
        (Some(result), Some(details)) => Some(AuthAccountResponseModel { result, details }),
        _ => None,
    }
}

impl AuthAccountResponse {
    pub fn to_json(&self) -> (r: Json)
        ensures
            r@ == auth_response_json(self@),
    {
        let mut members: Vec<(String, Json)> = Vec::new();
        members.push((String::from_str("result"), self.result.to_json()));
        members.push((String::from_str("details"), text_json(&self.details)));
        let r = object_of(members);
        proof {
            assert(r@->Object_0 =~= auth_response_json(self@)->Object_0);
        }
        r
    }

    pub fn from_json(doc: &Json) -> (r: Option<AuthAccountResponse>)
        ensures
            match r {
                Some(a) => auth_response_of_json(doc@) == Some(a@),
                None => auth_response_of_json(doc@).is_none(),
            },
    {
        let null = Json::Null;
        let result = AuthResult::from_json(member_or_null(doc, "result", &null));
        let details = read_text(member_or_null(doc, "details", &null));
        match (result, details) {
            (Some(result), Some(details)) => Some(AuthAccountResponse { result, details }),
            _ => None,
        }
    }
}

/// Reading a written authentication response gives the response back.
pub proof fn lemma_auth_response_round_trip(a: AuthAccountResponseModel)
    ensures
        auth_response_of_json(auth_response_json(a)) == Some(a),
{
    reveal_with_fuel(lookup_from, 3);
    reveal_strlit("result");
    reveal_strlit("details");
    assert("result"@.len() == 6);
    assert("details"@.len() == 7);
    lemma_auth_result_round_trip(a.result);
}

} // verus!
