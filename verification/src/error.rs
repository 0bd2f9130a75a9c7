//! What can go wrong while a sandbox is built.

use vstd::prelude::*;

verus! {

/// The external program that installs an id map.
#[derive(Clone, Copy, Debug, PartialEq, Eq, Structural)]
pub enum MapCmd {
    /// Installs the uid map.
    UidMap,
    /// Installs the gid map.
    GidMap,
}

/// The step of the parent's work at which building the sandbox failed.
#[derive(Clone, Copy, Debug, PartialEq, Eq, Structural)]
pub enum Stage {
    /// Creating the channel, the cgroup directory or the child itself.
    Spawn,
    /// Writing the limits or attaching the child.
    CGroup,
    /// Installing the uid and gid maps.
    UidGid,
    /// Starting the network helper, waiting for it, or forwarding a port.
    Network,
    /// The child's own setup, after the parent had done its part.
    ChildSetup,
}

/// An error that ends the construction of a sandbox.
#[derive(Clone, Debug, PartialEq, Eq)]
pub enum SandboxError {
    /// A kernel call or a cgroup file write failed with this errno.
    SetupKernel { errno: i32 },
    /// The child reported that its setup failed.
    ChildProtocol,
    /// An id-map helper ended with a non-zero status, or was killed by a
    /// signal (`status` is then `None`).
    HelperStatus { helper: MapCmd, status: Option<i32> },
    /// An id-map helper could not be started; the attempt failed with
    /// this errno.
    HelperNotStarted { helper: MapCmd, errno: i32 },
    /// The network helper did not announce readiness within this many
    /// milliseconds.
    NetworkTimeout { millis: i32 },
    /// The network helper refused a port forward and gave this reason.
    PortRefused { reason: String },
    /// The network helper answered with something that is neither an
    /// acceptance nor a refusal.
    BadReply,
}

/// Why a port mapping, written as `HOST:GUEST/PROTO`, is not accepted.
#[derive(Clone, Copy, Debug, PartialEq, Eq, Structural)]
pub enum UsageError {
    /// There is no `/`, so no protocol.
    MissingProtocol,
    /// There is no `:` before the `/`, so no guest port.
    MissingGuestPort,
    /// The protocol is neither `tcp` nor `udp`.
    InvalidProtocol,
    /// The host port is no number of 16 bits.
    InvalidHostPort,
    /// The guest port is no number of 16 bits.
    InvalidGuestPort,
}

/// The broad kind of an error.
#[derive(Clone, Copy, Debug, PartialEq, Eq, Structural)]
pub enum ErrorKind {
    /// A kernel call failed.
    SetupKernel,
    /// The child gave up.
    ChildProtocol,
    /// An external helper failed, timed out or refused.
    HelperProcess,
}

impl SandboxError {
    /// The kind of this error.
    pub open spec fn kind_of(self) -> ErrorKind {
        match self {
            SandboxError::SetupKernel { .. } => ErrorKind::SetupKernel,
            SandboxError::ChildProtocol => ErrorKind::ChildProtocol,
            _ => ErrorKind::HelperProcess,
        }
    }

    /// The kind of this error.
    pub fn kind(&self) -> (kind: ErrorKind)
        ensures
            kind == self.kind_of(),
    {
        match self {
            SandboxError::SetupKernel { .. } => ErrorKind::SetupKernel,
            SandboxError::ChildProtocol => ErrorKind::ChildProtocol,
            _ => ErrorKind::HelperProcess,
        }
    }
}

/// What is wrong with a mapping, in words.
pub open spec fn usage_text(error: UsageError) -> Seq<char> {
    match error {
        UsageError::MissingProtocol => "no protocol passed"@,
        UsageError::MissingGuestPort => "no guest port"@,
        UsageError::InvalidProtocol => "invalid protocol"@,
        UsageError::InvalidHostPort => "host port is no 16-bit number"@,
        UsageError::InvalidGuestPort => "guest port is no 16-bit number"@,
    }
}

impl UsageError {
    /// What is wrong with the mapping, in words.
    pub fn message(self) -> (text: &'static str)
        ensures
            text@ == usage_text(self),
    {
        match self {
            UsageError::MissingProtocol => "no protocol passed",
            UsageError::MissingGuestPort => "no guest port",
            UsageError::InvalidProtocol => "invalid protocol",
            UsageError::InvalidHostPort => "host port is no 16-bit number",
            UsageError::InvalidGuestPort => "guest port is no 16-bit number",
        }
    }
}

} // verus!
