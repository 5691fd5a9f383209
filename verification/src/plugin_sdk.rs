//! The plugin's side of the start: which endpoint it was given, and the
//! instruction it sends first.

use vstd::prelude::*;
use crate::envelope::{
    DeserializablePluginInstr, Encode, EncodeError, RecvError, SerializableCoreInstr, decode_line,
    encode_line, line_of, plugin_envelope_of_json, unframed,
};
use crate::json::parsed_json;
use crate::schema::{
    CoreInstructionType, InitDataInstruction, InitDataModel, ProtocolData, ProtocolDataModel,
    Version,
};

verus! {

/// The endpoint name among the arguments that follow the program's name: a
/// plugin is started with the endpoint name as its only argument.
pub fn endpoint_argument(args: &Vec<String>) -> (r: Option<String>)
    ensures
        match r {
            Some(name) => args@.len() == 1 && name@ == args@[0]@,
            None => args@.len() != 1,
        },
{
    if args.len() == 1 {
        Some(args[0].clone())
    } else {
        None
    }
}

/// The init payload of the example plugin.
pub open spec fn example_init_model() -> InitDataModel {
    InitDataModel {
        api_version: Version { major: 0, minor: 1, patch: 0 },
        plugin_version: Version { major: 0, minor: 1, patch: 0 },
        protocol_data: ProtocolDataModel {
            protocol_service_name: "example_protocol"@,
            auth_methods: Seq::empty(),
        },
    }
}

pub fn example_init_data() -> (r: InitDataInstruction)
    ensures
        r@ == example_init_model(),
{
    let r = InitDataInstruction {
        api_version: Version { major: 0, minor: 1, patch: 0 },
        plugin_version: Version { major: 0, minor: 1, patch: 0 },
        protocol_data: ProtocolData {
            protocol_service_name: String::from_str("example_protocol"),
            auth_methods: Vec::new(),
        },
    };
    proof {
        assert(r@.protocol_data.auth_methods =~= Seq::empty());
    }
    r
}

/// The instruction that a plugin sends first: `Init`, with its init payload.
pub fn init_instruction(payload: InitDataInstruction) -> (r: SerializableCoreInstr<
    InitDataInstruction,
>)
    ensures
        r.instruction_type == CoreInstructionType::Init,
        r.payload == payload,
{
    SerializableCoreInstr { instruction_type: CoreInstructionType::Init, payload }
}

/// The line to write for an instruction to the core.
pub fn send_core_instruction<P: Encode>(msg: &SerializableCoreInstr<P>) -> (r: Result<
    String,
    EncodeError,
>)
    ensures
        match r {
            Ok(line) => line_of(msg.json_form()) == Some(line@),
            Err(_) => line_of(msg.json_form()).is_none(),
        },
{
    encode_line(msg)
}

/// The instruction that a line read from the core carries.
pub fn recv_plugin_instruction(line: &String) -> (r: Result<DeserializablePluginInstr, RecvError>)
    ensures
        match r {
            Ok(v) => unframed(line@) matches Some(body) && parsed_json(body) matches Some(doc)
                && plugin_envelope_of_json(doc) == Some((v.instruction_type, v.payload@)),
            Err(RecvError::Incomplete { text }) => unframed(line@).is_none() && text@ == line@,
            Err(RecvError::Decode { text }) => unframed(line@) matches Some(body) && text@ == body
                && (parsed_json(body) matches Some(doc) ==> plugin_envelope_of_json(
                doc,
            ).is_none()),
        },
{
    decode_line::<DeserializablePluginInstr>(line)
}

} // verus!
