//! The instruction envelope: a kind and a payload that stays an untyped
//! document until it is dispatched. On the wire an envelope is one line of
//! JSON, `{"instruction_type":"<Kind>","payload":<document>}`, ended by a
//! single newline.

use vstd::prelude::*;
use crate::json::{Json, JsonValue, lookup_from, parse_json, parsed_json, render_json, rendered_json};
use crate::codec::object_of;
use crate::schema::{CoreInstructionType, PluginInstructionType};

verus! {

/// A text that could not be read as the value asked for. It keeps the text.
#[derive(Debug)]
pub struct DecodeError {
    pub text: String,
}

/// A value that could not be printed.
#[derive(Debug)]
pub struct EncodeError {}

/// Why nothing was received from a line handed up by the transport.
#[derive(Debug)]
pub enum RecvError {
    /// The peer closed before the line was complete; the text is what came.
    Incomplete { text: String },
    /// The line was complete, and is no envelope.
    Decode { text: String },
}

/// A value that can be written as a JSON document.
pub trait Encode {
    /// The document that stands for the value.
    spec fn json_form(&self) -> JsonValue;

    fn encode_json(&self) -> (r: Json)
        ensures
            r@ == self.json_form(),
    ;
}

/// A value that can be read from a JSON document.
pub trait Decode: Sized {
    /// Whether the document reads as a value of this type.
    spec fn decodes(doc: JsonValue) -> bool;

    /// Whether `self` is the value that the document reads as.
    spec fn decoded_from(&self, doc: JsonValue) -> bool;

    fn decode_json(doc: &Json) -> (r: Option<Self>)
        ensures
            match r {
                Some(v) => Self::decodes(doc@) && v.decoded_from(doc@),
                None => !Self::decodes(doc@),
            },
    ;
}

impl Encode for Json {
    open spec fn json_form(&self) -> JsonValue {
        self@
    }

    fn encode_json(&self) -> (r: Json) {
        self.clone()
    }
}

impl Decode for Json {
    open spec fn decodes(doc: JsonValue) -> bool {
        true
    }

    open spec fn decoded_from(&self, doc: JsonValue) -> bool {
        self@ == doc
    }

    fn decode_json(doc: &Json) -> (r: Option<Self>) {
        Some(doc.clone())
    }
}

/// An instruction that was sent from a plugin to the core.
#[derive(Debug)]
pub struct DeserializableCoreInstr {
    pub instruction_type: CoreInstructionType,
    pub payload: Json,
}

/// An instruction that was sent from the core to a plugin.
#[derive(Debug)]
pub struct DeserializablePluginInstr {
    pub instruction_type: PluginInstructionType,
    pub payload: Json,
}

/// An instruction to be sent from a plugin to the core.
#[derive(Debug)]
pub struct SerializableCoreInstr<P> {
    pub instruction_type: CoreInstructionType,
    pub payload: P,
}

/// An instruction to be sent from the core to a plugin.
#[derive(Debug)]
pub struct SerializablePluginInstr<P> {
    pub instruction_type: PluginInstructionType,
    pub payload: P,
}

/// The document of an envelope with the given kind name and payload.
pub open spec fn envelope_json(kind_name: Seq<char>, payload: JsonValue) -> JsonValue {
    JsonValue::Object(seq![("instruction_type"@, JsonValue::Text(kind_name)), ("payload"@, payload)])
}

/// The kind name and the payload of a document that has the shape of an
/// envelope: an object with a text `instruction_type` and a `payload`.
pub open spec fn envelope_parts(doc: JsonValue) -> Option<(Seq<char>, JsonValue)> {
    match (doc.member("instruction_type"@), doc.member("payload"@)) {
        (Some(JsonValue::Text(name)), Some(payload)) => Some((name, payload)),
        _ => None,
    }
}

/// The core-bound envelope that a document reads as.
pub open spec fn core_envelope_of_json(doc: JsonValue) -> Option<(CoreInstructionType, JsonValue)> {
    match envelope_parts(doc) {
        Some((name, payload)) => match CoreInstructionType::of_wire_name(name) {
            Some(kind) => Some((kind, payload)),
            None => None,
        },
        None => None,
    }
}

/// The plugin-bound envelope that a document reads as.
pub open spec fn plugin_envelope_of_json(doc: JsonValue) -> Option<
    (PluginInstructionType, JsonValue),
> {
    match envelope_parts(doc) {
        Some((name, payload)) => match PluginInstructionType::of_wire_name(name) {
            Some(kind) => Some((kind, payload)),
            None => None,
        },
        None => None,
    }
}

/// Splits the document of an envelope into its kind name and its payload.
pub fn read_envelope_parts(doc: &Json) -> (r: Option<(String, Json)>)
    ensures
        match r {
            Some((name, payload)) => envelope_parts(doc@) == Some((name@, payload@)),
            None => envelope_parts(doc@).is_none(),
        },
{
    match (doc.member("instruction_type"), doc.member("payload")) {
        (Some(Json::Text(name)), Some(payload)) => Some((name.clone(), payload.clone())),
        _ => None,
    }
}

/// Builds the document of an envelope.
pub fn write_envelope(kind_name: &str, payload: Json) -> (r: Json)
    ensures
        r@ == envelope_json(kind_name@, payload@),
{
    let mut members: Vec<(String, Json)> = Vec::new();
    members.push((String::from_str("instruction_type"), Json::Text(String::from_str(kind_name))));
    members.push((String::from_str("payload"), payload));
    let r = object_of(members);
    proof {
        assert(r@->Object_0 =~= envelope_json(kind_name@, payload@)->Object_0);
    }
    r
}

impl Decode for DeserializableCoreInstr {
    open spec fn decodes(doc: JsonValue) -> bool {
        core_envelope_of_json(doc).is_some()
    }

    open spec fn decoded_from(&self, doc: JsonValue) -> bool {
        core_envelope_of_json(doc) == Some((self.instruction_type, self.payload@))
    }

    fn decode_json(doc: &Json) -> (r: Option<Self>) {
        match read_envelope_parts(doc) {
            Some((name, payload)) => match CoreInstructionType::from_name(&name) {
                Some(instruction_type) => Some(DeserializableCoreInstr { instruction_type, payload }),
                None => None,
            },
            None => None,
        }
    }
}

impl Decode for DeserializablePluginInstr {
    open spec fn decodes(doc: JsonValue) -> bool {
        plugin_envelope_of_json(doc).is_some()
    }

    open spec fn decoded_from(&self, doc: JsonValue) -> bool {
        plugin_envelope_of_json(doc) == Some((self.instruction_type, self.payload@))
    }

    fn decode_json(doc: &Json) -> (r: Option<Self>) {
        match read_envelope_parts(doc) {
            Some((name, payload)) => match PluginInstructionType::from_name(&name) {
                Some(instruction_type) => Some(
                    DeserializablePluginInstr { instruction_type, payload },
                ),
                None => None,
            },
            None => None,
        }
    }
}

impl<P: Encode> Encode for SerializableCoreInstr<P> {
    open spec fn json_form(&self) -> JsonValue {
        envelope_json(self.instruction_type.wire_name(), self.payload.json_form())
    }

    fn encode_json(&self) -> (r: Json) {
        write_envelope(self.instruction_type.name(), self.payload.encode_json())
    }
}

impl<P: Encode> Encode for SerializablePluginInstr<P> {
    open spec fn json_form(&self) -> JsonValue {
        envelope_json(self.instruction_type.wire_name(), self.payload.json_form())
    }

    fn encode_json(&self) -> (r: Json) {
        write_envelope(self.instruction_type.name(), self.payload.encode_json())
    }
}

impl Encode for DeserializableCoreInstr {
    open spec fn json_form(&self) -> JsonValue {
        envelope_json(self.instruction_type.wire_name(), self.payload@)
    }

    fn encode_json(&self) -> (r: Json) {
        write_envelope(self.instruction_type.name(), self.payload.clone())
    }
}

impl Encode for DeserializablePluginInstr {
    open spec fn json_form(&self) -> JsonValue {
        envelope_json(self.instruction_type.wire_name(), self.payload@)
    }

    fn encode_json(&self) -> (r: Json) {
        write_envelope(self.instruction_type.name(), self.payload.clone())
    }
}

impl Clone for DeserializableCoreInstr {
    fn clone(&self) -> (r: Self)
        ensures
            r.instruction_type == self.instruction_type,
            r.payload@ == self.payload@,
    {
        DeserializableCoreInstr {
            instruction_type: self.instruction_type,
            payload: self.payload.clone(),
        }
    }
}

impl Clone for DeserializablePluginInstr {
    fn clone(&self) -> (r: Self)
        ensures
            r.instruction_type == self.instruction_type,
            r.payload@ == self.payload@,
    {
        DeserializablePluginInstr {
            instruction_type: self.instruction_type,
            payload: self.payload.clone(),
        }
    }
}

/// Reading the document of a core-bound envelope gives back its kind and its
/// payload, whatever the payload is.
pub proof fn lemma_core_envelope_round_trip(kind: CoreInstructionType, payload: JsonValue)
    ensures
        core_envelope_of_json(envelope_json(kind.wire_name(), payload)) == Some((kind, payload)),
{
    lemma_envelope_parts(kind.wire_name(), payload);
    kind.lemma_name_round_trip();
}

/// Reading the document of a plugin-bound envelope gives back its kind and
/// its payload, whatever the payload is.
pub proof fn lemma_plugin_envelope_round_trip(kind: PluginInstructionType, payload: JsonValue)
    ensures
        plugin_envelope_of_json(envelope_json(kind.wire_name(), payload)) == Some((kind, payload)),
{
    lemma_envelope_parts(kind.wire_name(), payload);
    kind.lemma_name_round_trip();
}

/// The parts of a built envelope are the parts it was built from.
pub proof fn lemma_envelope_parts(kind_name: Seq<char>, payload: JsonValue)
    ensures
        envelope_parts(envelope_json(kind_name, payload)) == Some((kind_name, payload)),
{
    reveal_with_fuel(lookup_from, 3);
    reveal_strlit("instruction_type");
    reveal_strlit("payload");
    assert("instruction_type"@.len() == 16);
    assert("payload"@.len() == 7);
}

// ---------------------------------------------------------------------
// Text
// ---------------------------------------------------------------------

/// Decides what a parse gave: the value that the document reads as, or the
/// error that keeps the text.
pub fn value_of_parsed<T: Decode>(parsed: Option<Json>, text: &String) -> (r: Result<T, DecodeError>)
    ensures
        match r {
            Ok(v) => parsed matches Some(doc) && T::decodes(doc@) && v.decoded_from(doc@),
            Err(e) => e.text@ == text@ && (parsed matches Some(doc) ==> !T::decodes(doc@)),
        },
{
    match parsed {
        Some(doc) => match T::decode_json(&doc) {
            Some(v) => Ok(v),
            None => Err(DecodeError { text: text.clone() }),
        },
        None => Err(DecodeError { text: text.clone() }),
    }
}

/// Reads a value from its JSON text. The text must be one JSON document, and
/// the document must read as a `T`; otherwise the error keeps the text.
pub fn convert_str_to_struct<T: Decode>(data: &String) -> (r: Result<T, DecodeError>)
    ensures
        match r {
            Ok(v) => parsed_json(data@) matches Some(doc) && T::decodes(doc) && v.decoded_from(doc),
            Err(e) => e.text@ == data@ && (parsed_json(data@) matches Some(doc) ==> !T::decodes(
                doc,
            )),
        },
{
    let parsed = match parse_json(data.as_str()) {
        Ok(doc) => Some(doc),
        Err(_) => None,
    };
    value_of_parsed(parsed, data)
}

/// Decides what a print gave: the text, or the error.
pub fn text_of_rendered(rendered: Option<String>) -> (r: Result<String, EncodeError>)
    ensures
        match r {
            Ok(t) => rendered matches Some(s) && t@ == s@,
            Err(_) => rendered.is_none(),
        },
{
    match rendered {
        Some(s) => Ok(s),
        None => Err(EncodeError {  }),
    }
}

/// Prints a value as compact JSON text: the text that the printer makes of
/// the value's document, and the error exactly where the printer makes none.
pub fn convert_struct_to_str<T: Encode>(msg: &T) -> (r: Result<String, EncodeError>)
    ensures
        match r {
            Ok(t) => rendered_json(msg.json_form()) == Some(t@),
            Err(_) => rendered_json(msg.json_form()).is_none(),
        },
{
    let doc = msg.encode_json();
    let rendered = match render_json(&doc) {
        Ok(s) => Some(s),
        Err(_) => None,
    };
    text_of_rendered(rendered)
}

// ---------------------------------------------------------------------
// Lines
// ---------------------------------------------------------------------

/// A body with its line terminator.
pub open spec fn framed(body: Seq<char>) -> Seq<char> {
    body.push('\n')
}

/// The body of a complete line: the line without its final newline. A text
/// that does not end in a newline is no complete line.
pub open spec fn unframed(line: Seq<char>) -> Option<Seq<char>> {
    if line.len() > 0 && line.last() == '\n' {
        Some(line.drop_last())
    } else {
        None
    }
}

/// Taking the terminator off a framed body gives the body back.
pub proof fn lemma_frame_round_trip(body: Seq<char>)
    ensures
        unframed(framed(body)) == Some(body),
{
    assert(framed(body).drop_last() =~= body);
}

/// Ends a body with the line terminator.
pub fn frame_line(body: String) -> (r: String)
    ensures
        r@ == framed(body@),
{
    let r = body.concat("\n");
    proof {
        reveal_strlit("\n");
        assert(r@ =~= framed(body@));
    }
    r
}

/// Takes the terminator off a line; `None` where the line has none.
pub fn strip_terminator(line: &String) -> (r: Option<String>)
    ensures
        match r {
            Some(body) => unframed(line@) == Some(body@),
            None => unframed(line@).is_none(),
        },
{
    let n = line.as_str().unicode_len();
    if n == 0 {
        return None;
    }
    if line.as_str().get_char(n - 1) != '\n' {
        return None;
    }
    let body = line.as_str().substring_char(0, n - 1);
    proof {
        assert(body@ =~= line@.drop_last());
    }
    Some(String::from_str(body))
}

/// The line that carries a document: its printed text and a newline. There
/// is none where the document does not print.
pub open spec fn line_of(doc: JsonValue) -> Option<Seq<char>> {
    match rendered_json(doc) {
        Some(text) => Some(framed(text)),
        None => None,
    }
}

/// The line that carries a value: its compact JSON text and a newline, and
/// the error exactly where the value's document does not print.
pub fn encode_line<T: Encode>(msg: &T) -> (r: Result<String, EncodeError>)
    ensures
        match r {
            Ok(line) => line_of(msg.json_form()) == Some(line@),
            Err(_) => line_of(msg.json_form()).is_none(),
        },
{
    match convert_struct_to_str(msg) {
        Ok(body) => Ok(frame_line(body)),
        Err(e) => Err(e),
    }
}

/// Reads the value that a received line carries.
///
/// A line that does not end in a newline was cut short by the peer closing:
/// it is reported as incomplete and never decoded, so a partial line cannot
/// pass for an envelope.
pub fn decode_line<T: Decode>(line: &String) -> (r: Result<T, RecvError>)
    ensures
        match r {
            Ok(v) => unframed(line@) matches Some(body) && parsed_json(body) matches Some(doc)
                && T::decodes(doc) && v.decoded_from(doc),
            Err(RecvError::Incomplete { text }) => unframed(line@).is_none() && text@ == line@,
            Err(RecvError::Decode { text }) => unframed(line@) matches Some(body) && text@ == body
                && (parsed_json(body) matches Some(doc) ==> !T::decodes(doc)),
        },
{
    match strip_terminator(line) {
        None => Err(RecvError::Incomplete { text: line.clone() }),
        Some(body) => match convert_str_to_struct::<T>(&body) {
            Ok(v) => Ok(v),
            Err(e) => Err(RecvError::Decode { text: e.text }),
        },
    }
}

/// Whether a text, read back, is the document it is meant to carry.
pub fn reads_back_as(text: &String, doc: &Json) -> (r: bool)
    ensures
        r == (parsed_json(text@) == Some(doc@)),
{
    match parse_json(text.as_str()) {
        Ok(back) => back.same(doc),
        Err(_) => false,
    }
}

/// The line that carries a document and is known to read back: the
/// document's line, where its printed text parses to the document again.
/// There is none where the document does not print, or prints to a text
/// that reads as something else.
pub open spec fn checked_line_of(doc: JsonValue) -> Option<Seq<char>> {
    match rendered_json(doc) {
        Some(text) => if parsed_json(text) == Some(doc) {
            Some(framed(text))
        } else {
            None
        },
        None => None,
    }
}

/// The line that carries a value, handed out only after its text was read
/// back and found to be the value's document: whoever reads a line that
/// this function handed out reads that document. The error comes exactly
/// where the document does not print or does not read back.
pub fn encode_line_checked<T: Encode>(msg: &T) -> (r: Result<String, EncodeError>)
    ensures
        match r {
            Ok(line) => checked_line_of(msg.json_form()) == Some(line@),
            Err(_) => checked_line_of(msg.json_form()).is_none(),
        },
{
    let doc = msg.encode_json();
    let rendered = match render_json(&doc) {
        Ok(s) => Some(s),
        Err(_) => None,
    };
    match text_of_rendered(rendered) {
        Ok(body) => {
            if reads_back_as(&body, &doc) {
                Ok(frame_line(body))
            } else {
                Err(EncodeError {  })
            }
        },
        Err(e) => Err(e),
    }
}

/// Whether a line is received as the core-bound envelope of the given kind
/// and payload.
pub open spec fn core_line_reads_as(
    line: Seq<char>,
    kind: CoreInstructionType,
    payload: JsonValue,
) -> bool {
    unframed(line) matches Some(body) && parsed_json(body) matches Some(doc)
        && core_envelope_of_json(doc) == Some((kind, payload))
}

/// Whether a line is received as the plugin-bound envelope of the given kind
/// and payload.
pub open spec fn plugin_line_reads_as(
    line: Seq<char>,
    kind: PluginInstructionType,
    payload: JsonValue,
) -> bool {
    unframed(line) matches Some(body) && parsed_json(body) matches Some(doc)
        && plugin_envelope_of_json(doc) == Some((kind, payload))
}

impl<P: Encode> SerializableCoreInstr<P> {
    /// The line of the instruction, handed out only if it reads back: it is
    /// the checked line of the instruction's envelope, and every line that
    /// comes out is received with the kind and the payload of this
    /// instruction. The error comes exactly where the envelope has no
    /// checked line.
    pub fn to_checked_line(&self) -> (r: Result<String, EncodeError>)
        ensures
            match r {
                Ok(line) => checked_line_of(self.json_form()) == Some(line@) && core_line_reads_as(
                    line@,
                    self.instruction_type,
                    self.payload.json_form(),
                ),
                Err(_) => checked_line_of(self.json_form()).is_none(),
            },
    {
        let r = encode_line_checked(self);
        proof {
            lemma_core_envelope_round_trip(self.instruction_type, self.payload.json_form());
            if rendered_json(self.json_form()) is Some {
                lemma_frame_round_trip(rendered_json(self.json_form())->Some_0);
            }
        }
        r
    }
}

impl<P: Encode> SerializablePluginInstr<P> {
    /// The line of the instruction, handed out only if it reads back: it is
    /// the checked line of the instruction's envelope, and every line that
    /// comes out is received with the kind and the payload of this
    /// instruction. The error comes exactly where the envelope has no
    /// checked line.
    pub fn to_checked_line(&self) -> (r: Result<String, EncodeError>)
        ensures
            match r {
                Ok(line) => checked_line_of(self.json_form()) == Some(line@)
                    && plugin_line_reads_as(
                    line@,
                    self.instruction_type,
                    self.payload.json_form(),
                ),
                Err(_) => checked_line_of(self.json_form()).is_none(),
            },
    {
        let r = encode_line_checked(self);
        proof {
            lemma_plugin_envelope_round_trip(self.instruction_type, self.payload.json_form());
            if rendered_json(self.json_form()) is Some {
                lemma_frame_round_trip(rendered_json(self.json_form())->Some_0);
            }
        }
        r
    }
}

// ---------------------------------------------------------------------
// Equality and conversion
// ---------------------------------------------------------------------

/// Whether two documents both print, and print to the same text.
pub open spec fn print_alike(first: JsonValue, second: JsonValue) -> bool {
    rendered_json(first).is_some() && rendered_json(first) == rendered_json(second)
}

/// Decides whether two instructions to be sent are equal, from whether their
/// kinds are equal and what printing their payloads gave: the kinds must be
/// equal, both payloads must print, and the two texts must be the same.
pub fn same_instruction(
    kinds_equal: bool,
    first: Result<String, EncodeError>,
    second: Result<String, EncodeError>,
) -> (r: bool)
    ensures
        r == match (first, second) {
            (Ok(a), Ok(b)) => kinds_equal && a@ == b@,
            _ => false,
        },
{
    match (first, second) {
        (Ok(a), Ok(b)) => kinds_equal && a == b,
        _ => false,
    }
}

impl<P: Encode> SerializableCoreInstr<P> {
    /// Whether two instructions are equal: the same kind, and payloads that
    /// print to the same text. A payload that does not print equals nothing.
    pub fn eq(&self, other: &Self) -> (r: bool)
        ensures
            r == (self.instruction_type == other.instruction_type && print_alike(
                self.payload.json_form(),
                other.payload.json_form(),
            )),
    {
        let first = convert_struct_to_str(&self.payload);
        let second = convert_struct_to_str(&other.payload);
        same_instruction(self.instruction_type == other.instruction_type, first, second)
    }
}

impl<P: Encode> SerializablePluginInstr<P> {
    /// Whether two instructions are equal: the same kind, and payloads that
    /// print to the same text. A payload that does not print equals nothing.
    pub fn eq(&self, other: &Self) -> (r: bool)
        ensures
            r == (self.instruction_type == other.instruction_type && print_alike(
                self.payload.json_form(),
                other.payload.json_form(),
            )),
    {
        let first = convert_struct_to_str(&self.payload);
        let second = convert_struct_to_str(&other.payload);
        same_instruction(self.instruction_type == other.instruction_type, first, second)
    }
}

impl From<DeserializableCoreInstr> for SerializableCoreInstr<Json> {
    fn from(value: DeserializableCoreInstr) -> (r: Self) {
        SerializableCoreInstr { instruction_type: value.instruction_type, payload: value.payload }
    }
}

impl vstd::std_specs::convert::FromSpecImpl<DeserializableCoreInstr> for SerializableCoreInstr<Json> {
    open spec fn obeys_from_spec() -> bool {
        true
    }

    open spec fn from_spec(value: DeserializableCoreInstr) -> Self {
        SerializableCoreInstr { instruction_type: value.instruction_type, payload: value.payload }
    }
}

impl From<DeserializablePluginInstr> for SerializablePluginInstr<Json> {
    fn from(value: DeserializablePluginInstr) -> (r: Self) {
        SerializablePluginInstr { instruction_type: value.instruction_type, payload: value.payload }
    }
}

impl vstd::std_specs::convert::FromSpecImpl<DeserializablePluginInstr> for SerializablePluginInstr<Json> {
    open spec fn obeys_from_spec() -> bool {
        true
    }

    open spec fn from_spec(value: DeserializablePluginInstr) -> Self {
        SerializablePluginInstr { instruction_type: value.instruction_type, payload: value.payload }
    }
}

} // verus!
