//! Dispatch of plugin-bound instructions to the plugin's handler.

use vstd::prelude::*;
use crate::codec::{
    auth_account_json, auth_account_of_json, keepalive_json, keepalive_of_json,
    lemma_auth_account_round_trip, lemma_keepalive_round_trip,
};
use crate::envelope::DeserializablePluginInstr;
use crate::json::JsonValue;
use crate::schema::{
    AuthAccountInstruction, AuthAccountInstructionModel, KeepaliveInstruction,
    PluginInstructionType,
};

verus! {

/// Implemented by a plugin for the instructions that the core sends.
pub trait PluginInstructionHandler {
    fn on_keepalive(&self, data: KeepaliveInstruction);

    fn on_auth_account(&self, data: AuthAccountInstruction);
}

/// A payload that does not have the shape its kind asks for.
#[derive(Debug)]
pub struct PluginPayloadError {
    pub kind: PluginInstructionType,
}

impl PluginPayloadError {
    pub open spec fn message(&self) -> Seq<char> {
        "Invalid data for instruction type "@ + self.kind.wire_name() + "."@
    }

    pub fn to_string(&self) -> (r: String)
        ensures
            r@ == self.message(),
    {
        String::from_str("Invalid data for instruction type ").concat(self.kind.name()).concat(".")
    }
}

/// One call on a [`PluginInstructionHandler`], with its argument.
#[derive(Debug)]
pub enum PluginCall {
    Keepalive(KeepaliveInstruction),
    AuthAccount(AuthAccountInstruction),
}

pub enum PluginCallModel {
    Keepalive(KeepaliveInstruction),
    AuthAccount(AuthAccountInstructionModel),
}

impl View for PluginCall {
    type V = PluginCallModel;

    open spec fn view(&self) -> PluginCallModel {
        match self {
            PluginCall::Keepalive(data) => PluginCallModel::Keepalive(*data),
            PluginCall::AuthAccount(data) => PluginCallModel::AuthAccount(data@),
        }
    }
}

/// The call that an envelope asks for: the callback of its kind, on the
/// value that its payload reads as under the schema of that kind. There is
/// none where the payload does not fit the schema.
pub open spec fn plugin_call_of(kind: PluginInstructionType, payload: JsonValue) -> Option<
    PluginCallModel,
> {
    match kind {
        PluginInstructionType::Keepalive => match keepalive_of_json(payload) {
            Some(data) => Some(PluginCallModel::Keepalive(data)),
            None => None,
        },
        PluginInstructionType::AuthAccount => match auth_account_of_json(payload) {
            Some(data) => Some(PluginCallModel::AuthAccount(data)),
            None => None,
        },
    }
}

impl PluginCall {
    /// Binds the payload of an envelope to the schema of its kind.
    ///
    /// Gives the call to make where the payload fits, and otherwise the
    /// error that names the kind.
    pub fn of_instruction(instr: &DeserializablePluginInstr) -> (r: Result<
        PluginCall,
        PluginPayloadError,
    >)
        ensures
            match r {
                Ok(call) => plugin_call_of(instr.instruction_type, instr.payload@) == Some(call@),
                Err(e) => e.kind == instr.instruction_type && plugin_call_of(
                    instr.instruction_type,
                    instr.payload@,
                ).is_none(),
            },
    {
        let kind = instr.instruction_type;
        match kind {
            PluginInstructionType::Keepalive => match KeepaliveInstruction::from_json(
                &instr.payload,
            ) {
                Some(data) => Ok(PluginCall::Keepalive(data)),
                None => Err(PluginPayloadError { kind }),
            },
            PluginInstructionType::AuthAccount => match AuthAccountInstruction::from_json(
                &instr.payload,
            ) {
                Some(data) => Ok(PluginCall::AuthAccount(data)),
                None => Err(PluginPayloadError { kind }),
            },
        }
    }
}

/// The way to a handler. It makes each call it is given on the handler, and
/// knows the sequence of calls it has made.
pub struct PluginDispatcher<'a, H: PluginInstructionHandler + ?Sized> {
    interface: &'a H,
    log: Ghost<Seq<PluginCallModel>>,
}

impl<'a, H: PluginInstructionHandler + ?Sized> PluginDispatcher<'a, H> {
    /// The calls made so far, oldest first.
    pub closed spec fn calls(&self) -> Seq<PluginCallModel> {
        self.log@
    }

    pub fn new(interface: &'a H) -> (r: PluginDispatcher<'a, H>)
        ensures
            r.calls() == Seq::<PluginCallModel>::empty(),
    {
        PluginDispatcher { interface, log: Ghost(Seq::empty()) }
    }

    /// Makes one call on the handler.
    pub fn deliver(&mut self, call: PluginCall)
        ensures
            final(self).calls() == old(self).calls().push(call@),
    {
        let ghost made = call@;
        match call {
            PluginCall::Keepalive(data) => self.interface.on_keepalive(data),
            PluginCall::AuthAccount(data) => self.interface.on_auth_account(data),
        }
        self.log = Ghost(self.log@.push(made));
    }
}

/// Finishes the processing of a received instruction: reads its payload as
/// the kind asks and hands it to the matching function of the handler.
///
/// Where the payload fits the schema of the kind, the handler gets exactly
/// the one call that the envelope asks for, and the result is success. Where
/// it does not, the handler gets no call, and the error names the kind.
pub fn call_core_handler<H: PluginInstructionHandler + ?Sized>(
    unprocessed_instr: &DeserializablePluginInstr,
    interface: &mut PluginDispatcher<'_, H>,
) -> (r: Result<(), PluginPayloadError>)
    ensures
        match plugin_call_of(unprocessed_instr.instruction_type, unprocessed_instr.payload@) {
            Some(call) => r.is_ok() && final(interface).calls() == old(interface).calls().push(
                call,
            ),
            None => r matches Err(e) && e.kind == unprocessed_instr.instruction_type && final(interface).calls() == old(interface).calls(),
        },
{
    match PluginCall::of_instruction(unprocessed_instr) {
        Ok(call) => {
            interface.deliver(call);
            Ok(())
        },
        Err(e) => Err(e),
    }
}

/// An envelope that carries the written form of a payload of its kind's
/// schema asks for the callback of that kind, on the payload that was
/// written.
pub proof fn lemma_written_payload_is_dispatched(call: PluginCallModel)
    ensures
        match call {
            PluginCallModel::Keepalive(data) => plugin_call_of(
                PluginInstructionType::Keepalive,
                keepalive_json(data),
            ) == Some(call),
            PluginCallModel::AuthAccount(data) => plugin_call_of(
                PluginInstructionType::AuthAccount,
                auth_account_json(data),
            ) == Some(call),
        },
{
    match call {
        PluginCallModel::Keepalive(data) => lemma_keepalive_round_trip(data),
        PluginCallModel::AuthAccount(data) => lemma_auth_account_round_trip(data),
    }
}

} // verus!
