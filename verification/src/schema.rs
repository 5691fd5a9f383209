//! The instruction kinds and the payload carried with each kind.

use vstd::prelude::*;

verus! {

/// Every instruction that a plugin can send to the core.
#[derive(Clone, Copy, Debug, PartialEq, Eq, Structural)]
pub enum CoreInstructionType {
    Init,
    KeepaliveResponse,
    AuthAccountResponse,
}

/// Every instruction that the core can send to a plugin.
#[derive(Clone, Copy, Debug, PartialEq, Eq, Structural)]
pub enum PluginInstructionType {
    Keepalive,
    AuthAccount,
}

impl CoreInstructionType {
    /// The name of the kind on the wire: the bare variant name.
    pub open spec fn wire_name(self) -> Seq<char> {
        match self {
            CoreInstructionType::Init => "Init"@,
            CoreInstructionType::KeepaliveResponse => "KeepaliveResponse"@,
            CoreInstructionType::AuthAccountResponse => "AuthAccountResponse"@,
        }
    }

    /// The kind that a wire name stands for.
    pub open spec fn of_wire_name(name: Seq<char>) -> Option<CoreInstructionType> {
        if name == "Init"@ {
            Some(CoreInstructionType::Init)
        } else if name == "KeepaliveResponse"@ {
            Some(CoreInstructionType::KeepaliveResponse)
        } else if name == "AuthAccountResponse"@ {
            Some(CoreInstructionType::AuthAccountResponse)
        } else {
            None
        }
    }

    pub fn name(&self) -> (r: &'static str)
        ensures
            r@ == self.wire_name(),
    {
        match self {
            CoreInstructionType::Init => "Init",
            CoreInstructionType::KeepaliveResponse => "KeepaliveResponse",
            CoreInstructionType::AuthAccountResponse => "AuthAccountResponse",
        }
    }

    /// The text shown for the kind in messages and endpoint names.
    pub fn to_string(&self) -> (r: String)
        ensures
            r@ == self.wire_name(),
    {
        String::from_str(self.name())
    }

    /// Reads a wire name; an unknown name is no kind.
    pub fn from_name(name: &String) -> (r: Option<CoreInstructionType>)
        ensures
            r == Self::of_wire_name(name@),
    {
        if *name == String::from_str("Init") {
            Some(CoreInstructionType::Init)
        } else if *name == String::from_str("KeepaliveResponse") {
            Some(CoreInstructionType::KeepaliveResponse)
        } else if *name == String::from_str("AuthAccountResponse") {
            Some(CoreInstructionType::AuthAccountResponse)
        } else {
            None
        }
    }

    /// Reading the wire name of a kind gives the kind back.
    pub proof fn lemma_name_round_trip(self)
        ensures
            Self::of_wire_name(self.wire_name()) == Some(self),
    {
        reveal_strlit("Init");
        reveal_strlit("KeepaliveResponse");
        reveal_strlit("AuthAccountResponse");
        assert("Init"@.len() == 4);
        assert("KeepaliveResponse"@.len() == 17);
        assert("AuthAccountResponse"@.len() == 19);
    }
}

impl PluginInstructionType {
    /// The name of the kind on the wire: the bare variant name.
    pub open spec fn wire_name(self) -> Seq<char> {
        match self {
            PluginInstructionType::Keepalive => "Keepalive"@,
            PluginInstructionType::AuthAccount => "AuthAccount"@,
        }
    }

    /// The kind that a wire name stands for.
    pub open spec fn of_wire_name(name: Seq<char>) -> Option<PluginInstructionType> {
        if name == "Keepalive"@ {
            Some(PluginInstructionType::Keepalive)
        } else if name == "AuthAccount"@ {
            Some(PluginInstructionType::AuthAccount)
        } else {
            None
        }
    }

    /// The text shown for the kind, which differs from the wire name in the
    /// case of one letter of `KeepAlive`.
    pub open spec fn display_name(self) -> Seq<char> {
        match self {
            PluginInstructionType::Keepalive => "KeepAlive"@,
            PluginInstructionType::AuthAccount => "AuthAccount"@,
        }
    }

    pub fn name(&self) -> (r: &'static str)
        ensures
            r@ == self.wire_name(),
    {
        match self {
            PluginInstructionType::Keepalive => "Keepalive",
            PluginInstructionType::AuthAccount => "AuthAccount",
        }
    }

    /// The text shown for the kind in messages and endpoint names.
    pub fn to_string(&self) -> (r: String)
        ensures
            r@ == self.display_name(),
    {
        match self {
            PluginInstructionType::Keepalive => String::from_str("KeepAlive"),
            PluginInstructionType::AuthAccount => String::from_str("AuthAccount"),
        }
    }

    /// Reads a wire name; an unknown name is no kind.
    pub fn from_name(name: &String) -> (r: Option<PluginInstructionType>)
        ensures
            r == Self::of_wire_name(name@),
    {
        if *name == String::from_str("Keepalive") {
            Some(PluginInstructionType::Keepalive)
        } else if *name == String::from_str("AuthAccount") {
            Some(PluginInstructionType::AuthAccount)
        } else {
            None
        }
    }

    /// Reading the wire name of a kind gives the kind back.
    pub proof fn lemma_name_round_trip(self)
        ensures
            Self::of_wire_name(self.wire_name()) == Some(self),
    {
        reveal_strlit("Keepalive");
        reveal_strlit("AuthAccount");
        assert("Keepalive"@.len() == 9);
        assert("AuthAccount"@.len() == 11);
    }
}

/// A keepalive ping, and the answer to one.
#[derive(Clone, Copy, Debug, PartialEq, Eq, Structural)]
pub struct KeepaliveInstruction {
    pub id: u64,
}

#[derive(Clone, Copy, Debug, PartialEq, Eq, Structural)]
pub struct Version {
    pub major: i32,
    pub minor: i32,
    pub patch: i32,
}

/// The kind of input a login field takes.
#[derive(Clone, Copy, Debug, PartialEq, Eq, Structural)]
pub enum FieldType {
    Integer,
    String,
    Url,
}

/// The outcome of an attempt to authenticate an account.
#[derive(Clone, Copy, Debug, PartialEq, Eq, Structural)]
pub enum AuthResult {
    Success,
    FailRejected,
    FailConnectionError,
    Connecting,
}

/// A field in a login method.
#[derive(Debug, PartialEq, Eq)]
pub struct Field {
    pub name: String,
    pub field_type: FieldType,
    pub value: Option<String>,
    pub required: bool,
    /// Sensitive fields have their value hidden.
    pub sensitive: bool,
}

pub struct FieldModel {
    pub name: Seq<char>,
    pub field_type: FieldType,
    pub value: Option<Seq<char>>,
    pub required: bool,
    pub sensitive: bool,
}

impl View for Field {
    type V = FieldModel;

    open spec fn view(&self) -> FieldModel {
        FieldModel {
            name: self.name@,
            field_type: self.field_type,
            value: match self.value {
                Some(v) => Some(v@),
                None => None,
            },
            required: self.required,
            sensitive: self.sensitive,
        }
    }
}

/// A way in which the user may log in.
#[derive(Debug, PartialEq, Eq)]
pub struct AuthMethod {
    pub name: String,
    /// The fields the user can or must fill in; empty for anonymous use.
    pub fields: Vec<Field>,
}

pub struct AuthMethodModel {
    pub name: Seq<char>,
    pub fields: Seq<FieldModel>,
}

impl View for AuthMethod {
    type V = AuthMethodModel;

    open spec fn view(&self) -> AuthMethodModel {
        AuthMethodModel { name: self.name@, fields: self.fields@.map_values(|f: Field| f@) }
    }
}

#[derive(Debug, PartialEq, Eq)]
pub struct ProtocolData {
    /// The well known name of the service that the plugin is written for.
    pub protocol_service_name: String,
    /// All of the supported ways to authenticate an account.
    pub auth_methods: Vec<AuthMethod>,
}

pub struct ProtocolDataModel {
    pub protocol_service_name: Seq<char>,
    pub auth_methods: Seq<AuthMethodModel>,
}

impl View for ProtocolData {
    type V = ProtocolDataModel;

    open spec fn view(&self) -> ProtocolDataModel {
        ProtocolDataModel {
            protocol_service_name: self.protocol_service_name@,
            auth_methods: self.auth_methods@.map_values(|m: AuthMethod| m@),
        }
    }
}

/// What a plugin sends to the core once it has started. Until then the
/// plugin counts as loading.
#[derive(Debug, PartialEq, Eq)]
pub struct InitDataInstruction {
    /// The version of the API the plugin is written for.
    pub api_version: Version,
    pub plugin_version: Version,
    pub protocol_data: ProtocolData,
}

pub struct InitDataModel {
    pub api_version: Version,
    pub plugin_version: Version,
    pub protocol_data: ProtocolDataModel,
}

impl View for InitDataInstruction {
    type V = InitDataModel;

    open spec fn view(&self) -> InitDataModel {
        InitDataModel {
            api_version: self.api_version,
            plugin_version: self.plugin_version,
            protocol_data: self.protocol_data@,
        }
    }
}

#[derive(Debug, PartialEq, Eq)]
pub struct AuthAccountInstruction {
    pub used_authmethod: AuthMethod,
}

pub struct AuthAccountInstructionModel {
    pub used_authmethod: AuthMethodModel,
}

impl View for AuthAccountInstruction {
    type V = AuthAccountInstructionModel;

    open spec fn view(&self) -> AuthAccountInstructionModel {
        AuthAccountInstructionModel { used_authmethod: self.used_authmethod@ }
    }
}

#[derive(Debug, PartialEq, Eq)]
pub struct AuthAccountResponse {
    pub result: AuthResult,
    pub details: String,
}

pub struct AuthAccountResponseModel {
    pub result: AuthResult,
    pub details: Seq<char>,
}

impl View for AuthAccountResponse {
    type V = AuthAccountResponseModel;

    open spec fn view(&self) -> AuthAccountResponseModel {
        AuthAccountResponseModel { result: self.result, details: self.details@ }
    }
}

} // verus!
