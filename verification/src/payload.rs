//! The payloads as values that can be written to and read from JSON text.

use vstd::prelude::*;
use crate::codec::{
    auth_account_json, auth_account_of_json, auth_method_json, auth_method_of_json,
    auth_response_json, auth_response_of_json, field_json, field_of_json, init_json, init_of_json,
    keepalive_json, keepalive_of_json, protocol_data_json, protocol_data_of_json, version_json,
    version_of_json,
};
use crate::envelope::{Decode, Encode};
use crate::json::{Json, JsonValue};
use crate::schema::{
    AuthAccountInstruction, AuthAccountResponse, AuthMethod, Field, InitDataInstruction,
    KeepaliveInstruction, ProtocolData, Version,
};

verus! {

impl Encode for KeepaliveInstruction {
    open spec fn json_form(&self) -> JsonValue {
        keepalive_json(*self)
    }

    fn encode_json(&self) -> (r: Json) {
        self.to_json()
    }
}

impl Decode for KeepaliveInstruction {
    open spec fn decodes(doc: JsonValue) -> bool {
        keepalive_of_json(doc).is_some()
    }

    open spec fn decoded_from(&self, doc: JsonValue) -> bool {
        keepalive_of_json(doc) == Some(*self)
    }

    fn decode_json(doc: &Json) -> (r: Option<Self>) {
        KeepaliveInstruction::from_json(doc)
    }
}

impl Encode for Version {
    open spec fn json_form(&self) -> JsonValue {
        version_json(*self)
    }

    fn encode_json(&self) -> (r: Json) {
        self.to_json()
    }
}

impl Decode for Version {
    open spec fn decodes(doc: JsonValue) -> bool {
        version_of_json(doc).is_some()
    }

    open spec fn decoded_from(&self, doc: JsonValue) -> bool {
        version_of_json(doc) == Some(*self)
    }

    fn decode_json(doc: &Json) -> (r: Option<Self>) {
        Version::from_json(doc)
    }
}

impl Encode for Field {
    open spec fn json_form(&self) -> JsonValue {
        field_json(self@)
    }

    fn encode_json(&self) -> (r: Json) {
        self.to_json()
    }
}

impl Decode for Field {
    open spec fn decodes(doc: JsonValue) -> bool {
        field_of_json(doc).is_some()
    }

    open spec fn decoded_from(&self, doc: JsonValue) -> bool {
        field_of_json(doc) == Some(self@)
    }

    fn decode_json(doc: &Json) -> (r: Option<Self>) {
        Field::from_json(doc)
    }
}

impl Encode for AuthMethod {
    open spec fn json_form(&self) -> JsonValue {
        auth_method_json(self@)
    }

    fn encode_json(&self) -> (r: Json) {
        self.to_json()
    }
}

impl Decode for AuthMethod {
    open spec fn decodes(doc: JsonValue) -> bool {
        auth_method_of_json(doc).is_some()
    }

    open spec fn decoded_from(&self, doc: JsonValue) -> bool {
        auth_method_of_json(doc) == Some(self@)
    }

    fn decode_json(doc: &Json) -> (r: Option<Self>) {
        AuthMethod::from_json(doc)
    }
}

impl Encode for ProtocolData {
    open spec fn json_form(&self) -> JsonValue {
        protocol_data_json(self@)
    }

    fn encode_json(&self) -> (r: Json) {
        self.to_json()
    }
}

impl Decode for ProtocolData {
    open spec fn decodes(doc: JsonValue) -> bool {
        protocol_data_of_json(doc).is_some()
    }

    open spec fn decoded_from(&self, doc: JsonValue) -> bool {
        protocol_data_of_json(doc) == Some(self@)
    }

    fn decode_json(doc: &Json) -> (r: Option<Self>) {
        ProtocolData::from_json(doc)
    }
}

impl Encode for InitDataInstruction {
    open spec fn json_form(&self) -> JsonValue {
        init_json(self@)
    }

    fn encode_json(&self) -> (r: Json) {
        self.to_json()
    }
}

impl Decode for InitDataInstruction {
    open spec fn decodes(doc: JsonValue) -> bool {
        init_of_json(doc).is_some()
    }

    open spec fn decoded_from(&self, doc: JsonValue) -> bool {
        init_of_json(doc) == Some(self@)
    }

    fn decode_json(doc: &Json) -> (r: Option<Self>) {
        InitDataInstruction::from_json(doc)
    }
}

impl Encode for AuthAccountInstruction {
    open spec fn json_form(&self) -> JsonValue {
        auth_account_json(self@)
    }

    fn encode_json(&self) -> (r: Json) {
        self.to_json()
    }
}

impl Decode for AuthAccountInstruction {
    open spec fn decodes(doc: JsonValue) -> bool {
        auth_account_of_json(doc).is_some()
    }

    open spec fn decoded_from(&self, doc: JsonValue) -> bool {
        auth_account_of_json(doc) == Some(self@)
    }

    fn decode_json(doc: &Json) -> (r: Option<Self>) {
        AuthAccountInstruction::from_json(doc)
    }
}

impl Encode for AuthAccountResponse {
    open spec fn json_form(&self) -> JsonValue {
        auth_response_json(self@)
    }

    fn encode_json(&self) -> (r: Json) {
        self.to_json()
    }
}

impl Decode for AuthAccountResponse {
    open spec fn decodes(doc: JsonValue) -> bool {
        auth_response_of_json(doc).is_some()
    }

    open spec fn decoded_from(&self, doc: JsonValue) -> bool {
        auth_response_of_json(doc) == Some(self@)
    }

    fn decode_json(doc: &Json) -> (r: Option<Self>) {
        AuthAccountResponse::from_json(doc)
    }
}

} // verus!
