//! Dispatch of core-bound instructions to the core's handler.

use vstd::prelude::*;
use crate::codec::{
    auth_response_json, auth_response_of_json, init_json, init_of_json, keepalive_json,
    keepalive_of_json, lemma_auth_response_round_trip, lemma_init_round_trip,
    lemma_keepalive_round_trip,
};
use crate::envelope::DeserializableCoreInstr;
use crate::json::JsonValue;
use crate::schema::{
    AuthAccountResponse, AuthAccountResponseModel, CoreInstructionType, InitDataInstruction,
    InitDataModel, KeepaliveInstruction,
};

verus! {

/// Implemented by the core for the instructions that plugins send.
pub trait CoreInstructionHandler {
    fn on_init(&self, data: InitDataInstruction);

    fn on_keepalive_response(&self, response: KeepaliveInstruction);

    fn on_auth_account_response(&self, response: AuthAccountResponse);
}

/// A payload that does not have the shape its kind asks for.
#[derive(Debug)]
pub struct CorePayloadError {
    pub kind: CoreInstructionType,
}

impl CorePayloadError {
    pub open spec fn message(&self) -> Seq<char> {
        "Invalid data for instruction type "@ + self.kind.wire_name() + "."@
    }

    pub fn to_string(&self) -> (r: String)
        ensures
            r@ == self.message(),
    {
        String::from_str("Invalid data for instruction type ").concat(self.kind.name()).concat(".")
    }
}

/// One call on a [`CoreInstructionHandler`], with its argument.
#[derive(Debug)]
pub enum CoreCall {
    Init(InitDataInstruction),
    KeepaliveResponse(KeepaliveInstruction),
    AuthAccountResponse(AuthAccountResponse),
}

pub enum CoreCallModel {
    Init(InitDataModel),
    KeepaliveResponse(KeepaliveInstruction),
    AuthAccountResponse(AuthAccountResponseModel),
}

impl View for CoreCall {
    type V = CoreCallModel;

    open spec fn view(&self) -> CoreCallModel {
        match self {
            CoreCall::Init(data) => CoreCallModel::Init(data@),
            CoreCall::KeepaliveResponse(data) => CoreCallModel::KeepaliveResponse(*data),
            CoreCall::AuthAccountResponse(data) => CoreCallModel::AuthAccountResponse(data@),
        }
    }
}

/// The call that an envelope asks for: the callback of its kind, on the
/// value that its payload reads as under the schema of that kind. There is
/// none where the payload does not fit the schema.
pub open spec fn core_call_of(kind: CoreInstructionType, payload: JsonValue) -> Option<
    CoreCallModel,
> {
    match kind {
        CoreInstructionType::Init => match init_of_json(payload) {
            Some(data) => Some(CoreCallModel::Init(data)),
            None => None,
        },
        CoreInstructionType::KeepaliveResponse => match keepalive_of_json(payload) {
            Some(data) => Some(CoreCallModel::KeepaliveResponse(data)),
            None => None,
        },
        CoreInstructionType::AuthAccountResponse => match auth_response_of_json(payload) {
            Some(data) => Some(CoreCallModel::AuthAccountResponse(data)),
            None => None,
        },
    }
}

impl CoreCall {
    /// Binds the payload of an envelope to the schema of its kind.
    ///
    /// Gives the call to make where the payload fits, and otherwise the
    /// error that names the kind.
    pub fn of_instruction(instr: &DeserializableCoreInstr) -> (r: Result<CoreCall, CorePayloadError>)
        ensures
            match r {
                Ok(call) => core_call_of(instr.instruction_type, instr.payload@) == Some(call@),
                Err(e) => e.kind == instr.instruction_type && core_call_of(
                    instr.instruction_type,
                    instr.payload@,
                ).is_none(),
            },
    {
        let kind = instr.instruction_type;
        match kind {
            CoreInstructionType::Init => match InitDataInstruction::from_json(&instr.payload) {
                Some(data) => Ok(CoreCall::Init(data)),
                None => Err(CorePayloadError { kind }),
            },
            CoreInstructionType::KeepaliveResponse => match KeepaliveInstruction::from_json(
                &instr.payload,
            ) {
                Some(data) => Ok(CoreCall::KeepaliveResponse(data)),
                None => Err(CorePayloadError { kind }),
            },
            CoreInstructionType::AuthAccountResponse => match AuthAccountResponse::from_json(
                &instr.payload,
            ) {
                Some(data) => Ok(CoreCall::AuthAccountResponse(data)),
                None => Err(CorePayloadError { kind }),
            },
        }
    }
}

/// The way to a handler. It makes each call it is given on the handler, and
/// knows the sequence of calls it has made.
pub struct CoreDispatcher<'a, H: CoreInstructionHandler + ?Sized> {
    interface: &'a H,
    log: Ghost<Seq<CoreCallModel>>,
}

impl<'a, H: CoreInstructionHandler + ?Sized> CoreDispatcher<'a, H> {
    /// The calls made so far, oldest first.
    pub closed spec fn calls(&self) -> Seq<CoreCallModel> {
        self.log@
    }

    pub fn new(interface: &'a H) -> (r: CoreDispatcher<'a, H>)
        ensures
            r.calls() == Seq::<CoreCallModel>::empty(),
    {
        CoreDispatcher { interface, log: Ghost(Seq::empty()) }
    }

    /// Makes one call on the handler.
    pub fn deliver(&mut self, call: CoreCall)
        ensures
            final(self).calls() == old(self).calls().push(call@),
    {
        let ghost made = call@;
        match call {
            CoreCall::Init(data) => self.interface.on_init(data),
            CoreCall::KeepaliveResponse(data) => self.interface.on_keepalive_response(data),
            CoreCall::AuthAccountResponse(data) => self.interface.on_auth_account_response(data),
        }
        self.log = Ghost(self.log@.push(made));
    }
}

/// Finishes the processing of a received instruction: reads its payload as
/// the kind asks and hands it to the matching function of the handler.
///
/// Where the payload fits the schema of the kind, the handler gets exactly
/// the one call that the envelope asks for, and the result is success. Where
/// it does not, the handler gets no call, and the error names the kind.
pub fn call_core_handler<H: CoreInstructionHandler + ?Sized>(
    unprocessed_instr: &DeserializableCoreInstr,
    interface: &mut CoreDispatcher<'_, H>,
) -> (r: Result<(), CorePayloadError>)
    ensures
        match core_call_of(unprocessed_instr.instruction_type, unprocessed_instr.payload@) {
            Some(call) => r.is_ok() && final(interface).calls() == old(interface).calls().push(
                call,
            ),
            None => r matches Err(e) && e.kind == unprocessed_instr.instruction_type && final(interface).calls() == old(interface).calls(),
        },
{
    match CoreCall::of_instruction(unprocessed_instr) {
        Ok(call) => {
            interface.deliver(call);
            Ok(())
        },
        Err(e) => Err(e),
    }
}

/// An envelope that carries the written form of a payload of its kind's
/// schema asks for the callback of that kind, on the payload that was
/// written.
pub proof fn lemma_written_payload_is_dispatched(call: CoreCallModel)
    ensures
        match call {
            CoreCallModel::Init(data) => core_call_of(CoreInstructionType::Init, init_json(data))
                == Some(call),
            CoreCallModel::KeepaliveResponse(data) => core_call_of(
                CoreInstructionType::KeepaliveResponse,
                keepalive_json(data),
            ) == Some(call),
            CoreCallModel::AuthAccountResponse(data) => core_call_of(
                CoreInstructionType::AuthAccountResponse,
                auth_response_json(data),
            ) == Some(call),
        },
{
    match call {
        CoreCallModel::Init(data) => lemma_init_round_trip(data),
        CoreCallModel::KeepaliveResponse(data) => lemma_keepalive_round_trip(data),
        CoreCallModel::AuthAccountResponse(data) => lemma_auth_response_round_trip(data),
    }
}

} // verus!
