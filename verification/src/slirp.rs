//! The user-mode network helper: how it is started, when it counts as
//! ready, what the port-forward requests to it say and what its replies
//! mean, and how it is shut down.

use vstd::prelude::*;
use vstd::string::StringExecFns;
use crate::error::SandboxError;
use crate::error::UsageError;
use crate::json::json_document;
use crate::json::member;
use crate::json::parse_document;
use crate::sandbox::Signal;
use crate::text::chars_of;
use crate::text::decimal;
use crate::text::is_digit;
use crate::text::lemma_decimal_reads_back;
use crate::text::lemma_find_runs_out;
use crate::text::lemma_find_stops_at;
use crate::text::lemma_parse_decimal;
use crate::text::first_piece;
use crate::text::parse_unsigned;
use crate::text::push_decimal;
use crate::text::push_signed_decimal;
use crate::text::read_unsigned;
use crate::text::same_text;
use crate::text::second_piece;
use crate::text::signed_decimal;
use crate::text::split_two;
use crate::text::string_of;

verus! {

/// How long the helper is given to announce that it is ready, in
/// milliseconds.
pub const READY_TIMEOUT_MS: i32 = 1000;

/// The signal by which the helper is asked to terminate.
pub const HELPER_EXIT_SIGNAL: Signal = Signal::Terminate;

/// The byte by which the helper announces that it is ready.
pub const READY_SIGNAL: u8 = 49;

/// A transport protocol whose ports can be forwarded.
#[derive(Clone, Copy, Debug, PartialEq, Eq, Structural)]
pub enum Protocol {
    Tcp,
    Udp,
}

/// A port on the host that leads to a port in the sandbox.
#[derive(Clone, Copy, Debug, PartialEq, Eq, Structural)]
pub struct PortMapping {
    /// The protocol.
    pub proto: Protocol,
    /// The port on the host.
    pub host_port: u16,
    /// The port in the sandbox.
    pub guest_port: u16,
}

/// The name of a protocol.
pub open spec fn protocol_name(proto: Protocol) -> Seq<char> {
    match proto {
        Protocol::Tcp => "tcp"@,
        Protocol::Udp => "udp"@,
    }
}

/// The protocol of that name, if there is one.
pub open spec fn protocol_named(name: Seq<char>) -> Option<Protocol> {
    if name == "tcp"@ {
        Some(Protocol::Tcp)
    } else if name == "udp"@ {
        Some(Protocol::Udp)
    } else {
        None
    }
}

/// What a mapping written as `HOST:GUEST/PROTO` stands for.
///
/// The text is cut at its slashes: the first piece holds the ports, the
/// second the protocol. The ports are cut at their colons: the first piece
/// is the host port, the second the guest port. Further pieces are
/// ignored. The protocol is `tcp` or `udp`; a port is a decimal numeral of
/// at most 65535, which may have a `+` in front. Of several faults the one
/// listed first in `UsageError` is reported.
pub open spec fn parse_mapping(text: Seq<char>) -> Result<PortMapping, UsageError> {
    let ports = first_piece(text, '/');
    match second_piece(text, '/') {
        None => Err(UsageError::MissingProtocol),
        Some(proto) => match second_piece(ports, ':') {
            None => Err(UsageError::MissingGuestPort),
            Some(guest) => match protocol_named(proto) {
                None => Err(UsageError::InvalidProtocol),
                Some(proto) => match parse_unsigned(first_piece(ports, ':'), 65535) {
                    None => Err(UsageError::InvalidHostPort),
                    Some(host_port) => match parse_unsigned(guest, 65535) {
                        None => Err(UsageError::InvalidGuestPort),
                        Some(guest_port) => Ok(
                            PortMapping {
                                proto,
                                host_port: host_port as u16,
                                guest_port: guest_port as u16,
                            },
                        ),
                    },
                },
            },
        },
    }
}

/// The request that asks the helper to forward a port: one JSON object,
/// without any white space.
pub open spec fn request_text(mapping: PortMapping) -> Seq<char> {
    "{\"execute\":\"add_hostfwd\",\"arguments\":{\"proto\":\""@ + protocol_name(mapping.proto)
        + "\",\"host_port\":"@ + decimal(mapping.host_port as nat) + ",\"guest_port\":"@ + decimal(
        mapping.guest_port as nat,
    ) + "}}"@
}

impl Protocol {
    /// The name of the protocol.
    pub fn name(self) -> (name: &'static str)
        ensures
            name@ == protocol_name(self),
    {
        match self {
            Protocol::Tcp => "tcp",
            Protocol::Udp => "udp",
        }
    }

    /// The protocol of that name, if there is one.
    pub fn named(name: &str) -> (proto: Option<Protocol>)
        ensures
            proto == protocol_named(name@),
    {
        if same_text(name, "tcp") {
            Some(Protocol::Tcp)
        } else if same_text(name, "udp") {
            Some(Protocol::Udp)
        } else {
            None
        }
    }
}

/// Reads `chars` as a port number.
fn read_port(chars: &Vec<char>) -> (port: Option<u16>)
    ensures
        match port {
            Some(port) => parse_unsigned(chars@, 65535) == Some(port as nat),
            None => parse_unsigned(chars@, 65535) is None,
        },
{
    match read_unsigned(chars.as_slice(), 65535) {
        Some(value) => Some(value as u16),
        None => None,
    }
}

impl PortMapping {
    /// Reads a mapping written as `HOST:GUEST/PROTO`, such as
    /// `8080:80/tcp`.
    pub fn parse(mapping: &str) -> (parsed: Result<PortMapping, UsageError>)
        ensures
            parsed == parse_mapping(mapping@),
    {
        let chars = chars_of(mapping);
        let (ports, proto) = split_two(chars.as_slice(), '/');
        let proto = match proto {
            None => {
                return Err(UsageError::MissingProtocol);
            },
            Some(proto) => proto,
        };
        let (host, guest) = split_two(ports.as_slice(), ':');
        let guest = match guest {
            None => {
                return Err(UsageError::MissingGuestPort);
            },
            Some(guest) => guest,
        };
        let name = string_of(proto.as_slice(), 0, proto.len());
        assert(name@ == proto@);
        let proto = match Protocol::named(name.as_str()) {
            None => {
                return Err(UsageError::InvalidProtocol);
            },
            Some(proto) => proto,
        };
        let host_port = match read_port(&host) {
            None => {
                return Err(UsageError::InvalidHostPort);
            },
            Some(port) => port,
        };
        let guest_port = match read_port(&guest) {
            None => {
                return Err(UsageError::InvalidGuestPort);
            },
            Some(port) => port,
        };
        Ok(PortMapping { proto, host_port, guest_port })
    }

    /// Reads a mapping that is known to be well formed.
    pub fn from_str(mapping: &str) -> (parsed: PortMapping)
        requires
            parse_mapping(mapping@) is Ok,
        ensures
            parse_mapping(mapping@) == Ok::<PortMapping, UsageError>(parsed),
    {
        match PortMapping::parse(mapping) {
            Ok(parsed) => parsed,
            Err(_) => vstd::pervasive::unreached(),
        }
    }

    /// The request that asks the helper to forward this port.
    pub fn request(&self) -> (text: String)
        ensures
            text@ == request_text(*self),
    {
        let mut text = String::from_str("{\"execute\":\"add_hostfwd\",\"arguments\":{\"proto\":\"");
        text.append(self.proto.name());
        text.append("\",\"host_port\":");
        push_decimal(&mut text, self.host_port as u64);
        text.append(",\"guest_port\":");
        push_decimal(&mut text, self.guest_port as u64);
        text.append("}}");
        text
    }
}

/// What the helper's reply to a request means, given its `return` and
/// `error` members: a reply with a `return` member accepts, whatever else it
/// holds; one with an `error` member and no `return` refuses, for the reason
/// that the member gives: a string as it is, anything else as its compact
/// JSON text; any other reply says neither.
pub open spec fn reply_meaning(accepted: bool, refusal: Option<Seq<char>>) -> Result<
    (),
    ReplyFault,
> {
    if accepted {
        Ok(())
    } else {
        match refusal {
            Some(reason) => Err(ReplyFault::Refused { reason }),
            None => Err(ReplyFault::Unintelligible),
        }
    }
}

/// What a reply means, given the members it parses to.
pub open spec fn document_meaning(document: Option<Map<Seq<char>, Seq<char>>>) -> Result<
    (),
    ReplyFault,
> {
    match document {
        None => Err(ReplyFault::Unintelligible),
        Some(members) => reply_meaning(
            members.contains_key("return"@),
            if members.contains_key("error"@) {
                Some(members["error"@])
            } else {
                None
            },
        ),
    }
}

/// Why a reply is no acceptance.
pub enum ReplyFault {
    /// The helper refused, for this reason.
    Refused { reason: Seq<char> },
    /// The reply is no JSON document, or one with neither a `return` nor an
    /// `error` member.
    Unintelligible,
}

/// Whether `error` is what the fault amounts to.
pub open spec fn reports_fault(error: SandboxError, fault: ReplyFault) -> bool {
    match fault {
        ReplyFault::Refused { reason } => error matches SandboxError::PortRefused { reason: given }
            && given@ == reason,
        ReplyFault::Unintelligible => error == SandboxError::BadReply,
    }
}

/// Whether `verdict` is what `meaning` asks for.
pub open spec fn renders(verdict: Result<(), SandboxError>, meaning: Result<(), ReplyFault>) -> bool {
    match meaning {
        Ok(()) => verdict is Ok,
        Err(fault) => verdict matches Err(error) && reports_fault(error, fault),
    }
}

/// The view of an optional text.
pub open spec fn reason_view(text: Option<String>) -> Option<Seq<char>> {
    match text {
        Some(text) => Some(text@),
        None => None,
    }
}

/// Decides on a reply from its two members: whether it has a `return`
/// member, and the text of its `error` member if it has one.
pub fn reply_verdict(accepted: bool, refusal: Option<String>) -> (verdict: Result<
    (),
    SandboxError,
>)
    ensures
        renders(verdict, reply_meaning(accepted, reason_view(refusal))),
        verdict is Ok <==> accepted,
{
    if accepted {
        Ok(())
    } else {
        match refusal {
            Some(reason) => Err(SandboxError::PortRefused { reason }),
            None => Err(SandboxError::BadReply),
        }
    }
}

/// The readiness that the helper is owed: fine when its ready descriptor
/// became readable within `READY_TIMEOUT_MS`, a timeout error otherwise.
pub open spec fn readiness(readable: bool) -> Result<(), SandboxError> {
    if readable {
        Ok(())
    } else {
        Err(SandboxError::NetworkTimeout { millis: READY_TIMEOUT_MS })
    }
}

/// The paths of the user and the network namespace of a process.
pub open spec fn ns_paths(pid: int) -> (Seq<char>, Seq<char>) {
    (
        "/proc/"@ + signed_decimal(pid) + "/ns/user"@,
        "/proc/"@ + signed_decimal(pid) + "/ns/net"@,
    )
}

/// The arguments that the helper is started with.
pub open spec fn helper_arguments(pid: int, ready_fd: int, socket_path: Seq<char>) -> Seq<
    Seq<char>,
> {
    seq![
        "--configure"@,
        "--disable-host-loopback"@,
        "--ready-fd="@ + signed_decimal(ready_fd),
        "--userns-path"@,
        ns_paths(pid).0,
        "--netns-type=path"@,
        ns_paths(pid).1,
        "--api-socket="@ + socket_path,
        "tap0"@,
    ]
}

/// One step of shutting the helper down.
#[derive(Clone, Copy, Debug, PartialEq, Eq, Structural)]
pub enum ExitStep {
    /// Ask the helper to terminate, with `HELPER_EXIT_SIGNAL`.
    Terminate,
    /// Wait for the helper to exit.
    Reap,
}

/// What the library knows of a running network helper.
#[derive(Clone, Debug, PartialEq, Eq)]
pub struct SlirpHelper {
    /// Where the helper listens for requests.
    pub socket_path: String,
    /// A shutdown of the helper has been handed out. The flag is a record:
    /// no decision rests on it.
    pub terminated: bool,
}

/// The steps of a shutdown: a helper that still runs is asked to
/// terminate; in any case it is reaped.
pub open spec fn exit_steps(still_running: bool) -> Seq<ExitStep> {
    if still_running {
        seq![ExitStep::Terminate, ExitStep::Reap]
    } else {
        seq![ExitStep::Reap]
    }
}

impl SlirpHelper {
    /// The name of the helper's program.
    pub fn program() -> (name: &'static str)
        ensures
            name@ == "slirp4netns"@,
    {
        "slirp4netns"
    }

    /// The paths of the user and the network namespace of the sandbox.
    pub fn get_ns_paths(sandbox_pid: i32) -> (paths: (String, String))
        ensures
            paths.0@ == ns_paths(sandbox_pid as int).0,
            paths.1@ == ns_paths(sandbox_pid as int).1,
    {
        let mut proc_ns = String::from_str("/proc/");
        push_signed_decimal(&mut proc_ns, sandbox_pid as i64);
        let mut user = proc_ns.clone();
        user.append("/ns/user");
        let mut net = proc_ns;
        net.append("/ns/net");
        (user, net)
    }

    /// Starts a helper for the sandbox with process id `sandbox_pid`: the
    /// handle, and the arguments to run the helper's program with. The
    /// helper writes its ready signal to the descriptor `ready_fd` and
    /// listens at `socket_path`. It is not yet ready when this returns.
    pub fn spawn(sandbox_pid: i32, ready_fd: i32, socket_path: &str) -> (started: (
        SlirpHelper,
        Vec<String>,
    ))
        ensures
            started.0.socket_path@ == socket_path@,
            !started.0.terminated,
            started.1.deep_view() == helper_arguments(
                sandbox_pid as int,
                ready_fd as int,
                socket_path@,
            ),
    {
        let (userns_path, netns_path) = SlirpHelper::get_ns_paths(sandbox_pid);
        let mut ready = String::from_str("--ready-fd=");
        push_signed_decimal(&mut ready, ready_fd as i64);
        let mut api = String::from_str("--api-socket=");
        api.append(socket_path);
        let mut args: Vec<String> = Vec::new();
        args.push(String::from_str("--configure"));
        args.push(String::from_str("--disable-host-loopback"));
        args.push(ready);
        args.push(String::from_str("--userns-path"));
        args.push(userns_path);
        args.push(String::from_str("--netns-type=path"));
        args.push(netns_path);
        args.push(api);
        args.push(String::from_str("tap0"));
        assert(args.deep_view() =~= helper_arguments(
            sandbox_pid as int,
            ready_fd as int,
            socket_path@,
        ));
        (SlirpHelper { socket_path: String::from_str(socket_path), terminated: false }, args)
    }

    /// Judges the wait for the helper's ready signal, given whether its
    /// ready descriptor became readable within `READY_TIMEOUT_MS`.
    pub fn wait_until_ready(&self, readable: bool) -> (ready: Result<(), SandboxError>)
        ensures
            ready == readiness(readable),
            ready is Ok <==> readable,
    {
        if readable {
            Ok(())
        } else {
            Err(SandboxError::NetworkTimeout { millis: READY_TIMEOUT_MS })
        }
    }

    /// Whether `byte` is the ready signal. Any other byte is worth a
    /// warning, and no more: the helper counts as ready all the same.
    pub fn is_ready_signal(byte: u8) -> (expected: bool)
        ensures
            expected == (byte == READY_SIGNAL),
    {
        byte == READY_SIGNAL
    }

    /// Judges the helper's reply to a port-forward request.
    pub fn expose_port(&self, reply: &str) -> (verdict: Result<(), SandboxError>)
        ensures
            renders(verdict, document_meaning(json_document(reply@))),
    {
        match parse_document(reply) {
            None => Err(SandboxError::BadReply),
            Some(document) => {
                let accepted = member(&document, "return").is_some();
                let refusal = member(&document, "error");
                reply_verdict(accepted, refusal)
            },
        }
    }

    /// Shuts the helper down, given whether it still runs: the steps to
    /// take, in order. A helper that still runs is asked to terminate,
    /// whatever was done before; one that has exited is only reaped, so a
    /// call after a shutdown that went through sends no signal.
    pub fn notify_exit_and_wait(&mut self, still_running: bool) -> (steps: Vec<ExitStep>)
        ensures
            steps@ == exit_steps(still_running),
            final(self).terminated,
            final(self).socket_path == old(self).socket_path,
    {
        let mut steps: Vec<ExitStep> = Vec::new();
        if still_running {
            steps.push(ExitStep::Terminate);
        }
        steps.push(ExitStep::Reap);
        self.terminated = true;
        steps
    }
}

/// A helper is asked to terminate exactly when it still runs, and it is
/// always reaped, as the last step.
pub proof fn lemma_shutdown_always_reaps(still_running: bool)
    ensures
        exit_steps(still_running).last() == ExitStep::Reap,
        exit_steps(still_running).contains(ExitStep::Terminate) <==> still_running,
        still_running ==> exit_steps(still_running)[0] == ExitStep::Terminate,
{
    let steps = exit_steps(still_running);
    if still_running {
        assert(steps[0] == ExitStep::Terminate);
    }
}

/// The text of a mapping: `HOST:GUEST/PROTO`, with the shortest numerals.
pub open spec fn mapping_text(mapping: PortMapping) -> Seq<char> {
    decimal(mapping.host_port as nat) + seq![':'] + decimal(mapping.guest_port as nat) + seq!['/']
        + protocol_name(mapping.proto)
}

impl PortMapping {
    /// The mapping, written as `HOST:GUEST/PROTO`.
    pub fn text(&self) -> (text: String)
        ensures
            text@ == mapping_text(*self),
    {
        let mut text = String::new();
        push_decimal(&mut text, self.host_port as u64);
        text.push(':');
        push_decimal(&mut text, self.guest_port as u64);
        text.push('/');
        text.append(self.proto.name());
        assert(text@ =~= mapping_text(*self));
        text
    }
}

/// A mapping is accepted exactly when it has a protocol and a guest port,
/// the protocol is `tcp` or `udp`, and both ports are numerals of at most
/// 65535.
pub proof fn lemma_mapping_accepted_iff(text: Seq<char>)
    ensures
        parse_mapping(text) is Ok <==> {
            let ports = first_piece(text, '/');
            &&& second_piece(text, '/') is Some
            &&& second_piece(ports, ':') is Some
            &&& protocol_named(second_piece(text, '/')->0) is Some
            &&& parse_unsigned(first_piece(ports, ':'), 65535) is Some
            &&& parse_unsigned(second_piece(ports, ':')->0, 65535) is Some
        },
        parse_mapping(text) matches Ok(mapping) ==> {
            let ports = first_piece(text, '/');
            &&& Some(mapping.proto) == protocol_named(second_piece(text, '/')->0)
            &&& Some(mapping.host_port as nat) == parse_unsigned(first_piece(ports, ':'), 65535)
            &&& Some(mapping.guest_port as nat) == parse_unsigned(
                second_piece(ports, ':')->0,
                65535,
            )
        },
{
}

/// The name of a protocol names that protocol, and holds no slash.
pub proof fn lemma_protocol_round_trip(proto: Protocol)
    ensures
        protocol_named(protocol_name(proto)) == Some(proto),
        protocol_name(proto).len() == 3,
        forall|i: int| 0 <= i < 3 ==> protocol_name(proto)[i] != '/',
{
    reveal_strlit("tcp");
    reveal_strlit("udp");
    assert("tcp"@[0] == 't');
    assert("udp"@[0] == 'u');
}

/// Reading undoes writing: every mapping is what its text stands for.
pub proof fn lemma_mapping_round_trip(mapping: PortMapping)
    ensures
        parse_mapping(mapping_text(mapping)) == Ok::<PortMapping, UsageError>(mapping),
{
    let host = decimal(mapping.host_port as nat);
    let guest = decimal(mapping.guest_port as nat);
    let name = protocol_name(mapping.proto);
    let ports = host + seq![':'] + guest;
    let text = mapping_text(mapping);
    lemma_decimal_reads_back(mapping.host_port as nat);
    lemma_decimal_reads_back(mapping.guest_port as nat);
    lemma_parse_decimal(mapping.host_port as nat, 65535);
    lemma_parse_decimal(mapping.guest_port as nat, 65535);
    lemma_protocol_round_trip(mapping.proto);
    let colon = host.len() as int;
    let slash = ports.len() as int;
    assert(text =~= ports + seq!['/'] + name);
    assert(text.len() == slash + 4);
    assert forall|i: int| 0 <= i < slash implies text[i] != '/' by {
        if i < colon {
            assert(text[i] == host[i]);
            assert(is_digit(host[i]));
        } else if i > colon {
            assert(text[i] == guest[i - colon - 1]);
            assert(is_digit(guest[i - colon - 1]));
        }
    }
    assert(text[slash] == '/');
    lemma_find_stops_at(text, '/', 0, slash);
    assert forall|i: int| slash + 1 <= i < text.len() implies text[i] != '/' by {
        assert(text[i] == name[i - slash - 1]);
    }
    lemma_find_runs_out(text, '/', slash + 1);
    assert(first_piece(text, '/') =~= ports);
    assert(text.subrange(slash + 1, text.len() as int) =~= name);
    assert(second_piece(text, '/') == Some(name));
    assert forall|i: int| 0 <= i < colon implies ports[i] != ':' by {
        assert(ports[i] == host[i]);
        assert(is_digit(host[i]));
    }
    assert(ports[colon] == ':');
    lemma_find_stops_at(ports, ':', 0, colon);
    assert forall|i: int| colon + 1 <= i < ports.len() implies ports[i] != ':' by {
        assert(ports[i] == guest[i - colon - 1]);
        assert(is_digit(guest[i - colon - 1]));
    }
    lemma_find_runs_out(ports, ':', colon + 1);
    assert(first_piece(ports, ':') =~= host);
    assert(ports.subrange(colon + 1, ports.len() as int) =~= guest);
    assert(second_piece(ports, ':') == Some(guest));
}

} // verus!
