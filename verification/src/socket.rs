//! Endpoint names, the socket names they resolve to, and the bookkeeping of
//! an endpoint server: the one connection it accepts and what it must clean
//! up when it goes away.

use vstd::prelude::*;
use crate::envelope::{
    DeserializableCoreInstr, Encode, EncodeError, RecvError, SerializablePluginInstr,
    core_envelope_of_json, decode_line, encode_line, line_of, unframed,
};
use crate::json::parsed_json;

verus! {

/// The length of an endpoint name.
pub const ENDPOINT_ID_LEN: usize = 7;

/// Which kinds of local socket name the platform can use.
#[derive(Clone, Copy, Debug, PartialEq, Eq, Structural)]
pub enum NameSupport {
    /// Only filesystem paths.
    OnlyPaths,
    /// Only names in a namespace of their own.
    OnlyNamespaced,
    /// Both.
    Both,
}

impl NameSupport {
    /// Whether sockets are named by filesystem paths, which is the choice
    /// wherever paths can be used at all.
    pub open spec fn uses_paths(self) -> bool {
        self != NameSupport::OnlyNamespaced
    }

    pub fn names_by_path(&self) -> (r: bool)
        ensures
            r == self.uses_paths(),
    {
        match self {
            NameSupport::OnlyNamespaced => false,
            _ => true,
        }
    }
}

/// Asks `interprocess::local_socket::NameTypeSupport::query` what the
/// platform supports. The answer belongs to the machine, so nothing is
/// claimed of it.
#[verifier::external_body]
fn query_name_support() -> (r: NameSupport) {
    match interprocess::local_socket::NameTypeSupport::query() {
        interprocess::local_socket::NameTypeSupport::OnlyPaths => NameSupport::OnlyPaths,
        interprocess::local_socket::NameTypeSupport::OnlyNamespaced => NameSupport::OnlyNamespaced,
        interprocess::local_socket::NameTypeSupport::Both => NameSupport::Both,
    }
}

/// The socket name that an endpoint name resolves to: `/tmp/<name>.sock`
/// where paths can be used, `@<name>.sock` where only the namespace can.
pub open spec fn socket_name_for(name: Seq<char>, support: NameSupport) -> Seq<char> {
    if support.uses_paths() {
        "/tmp/"@ + name + ".sock"@
    } else {
        "@"@ + name + ".sock"@
    }
}

/// Resolves an endpoint name for a platform with the given support.
pub fn socket_name_with(name: &str, support: NameSupport) -> (r: String)
    ensures
        r@ == socket_name_for(name@, support),
{
    if support.names_by_path() {
        String::from_str("/tmp/").concat(name).concat(".sock")
    } else {
        String::from_str("@").concat(name).concat(".sock")
    }
}

/// Resolves an endpoint name for this platform. Whatever the platform
/// supports, the result is one of the two forms.
pub fn get_socket_name(name: &str) -> (r: String)
    ensures
        r@ == socket_name_for(name@, NameSupport::OnlyPaths) || r@ == socket_name_for(
            name@,
            NameSupport::OnlyNamespaced,
        ),
{
    let support = query_name_support();
    socket_name_with(name, support)
}

/// On one platform, two endpoint names that resolve to the same socket name
/// are the same endpoint name: every endpoint has a socket name of its own.
pub proof fn lemma_socket_name_injective(a: Seq<char>, b: Seq<char>, support: NameSupport)
    requires
        socket_name_for(a, support) == socket_name_for(b, support),
    ensures
        a == b,
{
    let prefix = if support.uses_paths() {
        "/tmp/"@
    } else {
        "@"@
    };
    let left = prefix + a + ".sock"@;
    let right = prefix + b + ".sock"@;
    assert(left == right);
    assert(left.len() == prefix.len() + a.len() + ".sock"@.len());
    assert(right.len() == prefix.len() + b.len() + ".sock"@.len());
    assert forall|i: int| 0 <= i < a.len() implies a[i] == b[i] by {
        assert(left[prefix.len() + i] == a[i]);
        assert(right[prefix.len() + i] == b[i]);
    }
    assert(a =~= b);
}

/// On one platform an endpoint name resolves to exactly one socket name, and
/// that name holds the endpoint name between a fixed prefix and `.sock`.
pub proof fn lemma_socket_name_shape(name: Seq<char>, support: NameSupport)
    ensures
        socket_name_for(name, support).len() == name.len() + if support.uses_paths() {
            10int
        } else {
            6int
        },
        socket_name_for(name, support).subrange(
            socket_name_for(name, support).len() - 5,
            socket_name_for(name, support).len() as int,
        ) == ".sock"@,
{
    reveal_strlit("/tmp/");
    reveal_strlit("@");
    reveal_strlit(".sock");
    let full = socket_name_for(name, support);
    assert(full.subrange(full.len() - 5, full.len() as int) =~= ".sock"@);
}

/// An ASCII letter or digit.
pub open spec fn is_alphanumeric(c: char) -> bool {
    ('0' as u32 <= c as u32 <= '9' as u32) || ('a' as u32 <= c as u32 <= 'z' as u32) || ('A' as u32
        <= c as u32 <= 'Z' as u32)
}

/// An endpoint name: seven ASCII letters and digits.
pub open spec fn is_endpoint_id(name: Seq<char>) -> bool {
    name.len() == ENDPOINT_ID_LEN && forall|i: int| 0 <= i < name.len() ==> is_alphanumeric(#[trigger] name[i])
}

pub fn is_alphanumeric_char(c: char) -> (r: bool)
    ensures
        r == is_alphanumeric(c),
{
    let n = c as u32;
    ('0' as u32 <= n && n <= '9' as u32) || ('a' as u32 <= n && n <= 'z' as u32) || ('A' as u32 <= n
        && n <= 'Z' as u32)
}

/// Whether a text is an endpoint name.
pub fn is_valid_endpoint_id(name: &str) -> (r: bool)
    ensures
        r == is_endpoint_id(name@),
{
    let n = name.unicode_len();
    if n != ENDPOINT_ID_LEN {
        return false;
    }
    let mut i: usize = 0;
    while i < n
        invariant
            n == name@.len(),
            i <= n,
            forall|k: int| 0 <= k < i ==> is_alphanumeric(#[trigger] name@[k]),
        decreases n - i,
    {
        if !is_alphanumeric_char(name.get_char(i)) {
            return false;
        }
        i += 1;
    }
    true
}

/// Draws `len` characters from `rand::distributions::Alphanumeric` with the
/// thread's generator, `rand::thread_rng`. Which characters come is left
/// open; the contract states what the distribution documents of every draw:
/// ASCII letters and digits only, and as many as were taken. The generator
/// panics if the system gives it no seed on its first use in a thread; no
/// argument can rule that out.
#[verifier::external_body]
fn random_alphanumeric(len: usize) -> (r: String)
    ensures
        r@.len() == len,
        forall|i: int| 0 <= i < r@.len() ==> is_alphanumeric(#[trigger] r@[i]),
{
    rand::Rng::sample_iter(rand::thread_rng(), &rand::distributions::Alphanumeric)
        .take(len)
        .map(char::from)
        .collect()
}

/// Mints a fresh endpoint name.
pub fn generate_random_ipc_id() -> (r: String)
    ensures
        is_endpoint_id(r@),
{
    random_alphanumeric(ENDPOINT_ID_LEN)
}

/// What an endpoint server does before it sends or receives.
#[derive(Clone, Copy, Debug, PartialEq, Eq, Structural)]
pub enum AttachStep {
    /// No connection yet: accept one, split it and keep both halves.
    AcceptAndSplit,
    /// Use the halves that are kept.
    UseCached,
}

/// The bookkeeping of an endpoint server: its resolved socket name and
/// whether it holds the two halves of its one connection.
#[derive(Debug)]
pub struct SocketHandler {
    endpoint_name: String,
    socket_name: String,
    support: NameSupport,
    attached: bool,
    accepted: u8,
}

impl SocketHandler {
    /// An endpoint never holds more than the one connection it accepted.
    pub closed spec fn well_formed(&self) -> bool {
        self.accepted == if self.attached {
            1u8
        } else {
            0u8
        }
    }

    /// The socket name that the endpoint name resolved to.
    pub closed spec fn name(&self) -> Seq<char> {
        self.socket_name@
    }

    /// What the platform supports, as the server found it when it was made.
    pub closed spec fn platform(&self) -> NameSupport {
        self.support
    }

    /// The endpoint name that the server was made for.
    pub closed spec fn endpoint(&self) -> Seq<char> {
        self.endpoint_name@
    }

    pub closed spec fn is_attached(&self) -> bool {
        self.attached
    }

    /// How many connections the endpoint has accepted.
    pub closed spec fn accepted_count(&self) -> nat {
        self.accepted as nat
    }

    /// The bookkeeping of a server bound to the name that `socket_name`
    /// resolves to on this platform; nothing is accepted yet.
    pub fn new(socket_name: &str) -> (r: SocketHandler)
        ensures
            r.well_formed(),
            !r.is_attached(),
            r.accepted_count() == 0,
            r.endpoint() == socket_name@,
            r.name() == socket_name_for(socket_name@, r.platform()),
    {
        SocketHandler::with_support(socket_name, query_name_support())
    }

    /// As [`SocketHandler::new`], for a platform with the given support.
    pub fn with_support(socket_name: &str, support: NameSupport) -> (r: SocketHandler)
        ensures
            r.well_formed(),
            !r.is_attached(),
            r.accepted_count() == 0,
            r.endpoint() == socket_name@,
            r.platform() == support,
            r.name() == socket_name_for(socket_name@, support),
    {
        SocketHandler {
            endpoint_name: String::from_str(socket_name),
            socket_name: socket_name_with(socket_name, support),
            support,
            attached: false,
            accepted: 0,
        }
    }

    pub fn get_support(&self) -> (r: NameSupport)
        ensures
            r == self.platform(),
    {
        self.support
    }

    pub fn get_socket_name(&self) -> (r: &String)
        ensures
            r@ == self.name(),
    {
        &self.socket_name
    }

    /// The arguments that the child is started with: the endpoint name, and
    /// nothing else.
    pub fn child_arguments(&self) -> (r: Vec<String>)
        ensures
            r@.len() == 1,
            r@[0]@ == self.endpoint(),
    {
        let mut args: Vec<String> = Vec::new();
        args.push(self.endpoint_name.clone());
        args
    }

    /// The line to write for an instruction to the plugin.
    pub fn send_plugin_instruction<P: Encode>(&self, inst: &SerializablePluginInstr<P>) -> (r: Result<
        String,
        EncodeError,
    >)
        ensures
            match r {
                Ok(line) => line_of(inst.json_form()) == Some(line@),
                Err(_) => line_of(inst.json_form()).is_none(),
            },
    {
        encode_line(inst)
    }

    /// The instruction that a line read from the plugin carries.
    pub fn get_instruction(&self, line: &String) -> (r: Result<DeserializableCoreInstr, RecvError>)
        ensures
            match r {
                Ok(v) => unframed(line@) matches Some(body) && parsed_json(body) matches Some(doc)
                    && core_envelope_of_json(doc) == Some((v.instruction_type, v.payload@)),
                Err(RecvError::Incomplete { text }) => unframed(line@).is_none() && text@ == line@,
                Err(RecvError::Decode { text }) => unframed(line@) matches Some(body) && text@
                    == body && (parsed_json(body) matches Some(doc) ==> core_envelope_of_json(
                    doc,
                ).is_none()),
            },
    {
        decode_line::<DeserializableCoreInstr>(line)
    }

    pub fn attached(&self) -> (r: bool)
        ensures
            r == self.is_attached(),
    {
        self.attached
    }

    /// What to do before a send or a receive: accept only while no
    /// connection is held.
    pub fn update_owned_split(&self) -> (r: AttachStep)
        ensures
            r == if self.is_attached() {
                AttachStep::UseCached
            } else {
                AttachStep::AcceptAndSplit
            },
    {
        if self.attached {
            AttachStep::UseCached
        } else {
            AttachStep::AcceptAndSplit
        }
    }

    /// Records how an accept went. A failed accept leaves the endpoint
    /// without a connection, so that the next send or receive tries again.
    pub fn get_connection(&mut self, accepted: bool)
        requires
            old(self).well_formed(),
            !old(self).is_attached(),
        ensures
            final(self).well_formed(),
            final(self).is_attached() == accepted,
            final(self).name() == old(self).name(),
            final(self).endpoint() == old(self).endpoint(),
            final(self).platform() == old(self).platform(),
            final(self).accepted_count() == old(self).accepted_count() + if accepted {
                1nat
            } else {
                0nat
            },
    {
        if accepted {
            self.attached = true;
            self.accepted = 1;
        }
    }

    /// Whether the socket's file is to be removed when the server goes
    /// away: only where sockets are named by paths, and only if it exists.
    pub fn remove_on_drop(&self, exists: bool) -> (r: bool)
        ensures
            r == (self.platform().uses_paths() && exists),
    {
        self.support.names_by_path() && exists
    }

    /// An endpoint accepts at most one connection in its life.
    pub proof fn lemma_at_most_one_attach(&self)
        requires
            self.well_formed(),
        ensures
            self.accepted_count() <= 1,
            self.is_attached() <==> self.accepted_count() == 1,
    {
    }
}

} // verus!
