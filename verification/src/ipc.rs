//! The handshake alphabet: one byte per event, in each direction.
//!
//! Events sent by the child are coded below 128 and events sent by the
//! parent from 128 upwards, so a byte read from the wrong pipe never decodes.

use vstd::prelude::*;

verus! {

/// An event reported by the sandboxed child.
#[derive(Clone, Copy, Debug, PartialEq, Eq, Structural)]
pub enum ChildEvent {
    /// Setting up the sandbox failed; the child is about to exit.
    InitFailed,
    /// The sandbox is set up; the payload starts next.
    InitSuccess,
}

/// An event reported by the parent.
#[derive(Clone, Copy, Debug, PartialEq, Eq, Structural)]
pub enum ParentEvent {
    /// The network helper could not be brought up.
    SlirpFailure,
    /// The uid and gid maps could not be installed.
    UidGidMapFailure,
    /// Everything the parent owes is in place; the child may proceed.
    InitSuccess,
    /// The resource limits could not be enforced.
    CGroupFailure,
}

/// The first code that belongs to the parent; every code below it belongs
/// to the child.
pub const PARENT_BASE: u8 = 128;

impl ChildEvent {
    /// The byte that stands for this event on the wire.
    pub open spec fn wire(self) -> u8 {
        match self {
            ChildEvent::InitFailed => 0,
            ChildEvent::InitSuccess => 1,
        }
    }

    /// The event that a byte stands for, if any.
    pub open spec fn of_wire(byte: u8) -> Option<ChildEvent> {
        if byte == 0 {
            Some(ChildEvent::InitFailed)
        } else if byte == 1 {
            Some(ChildEvent::InitSuccess)
        } else {
            None
        }
    }

    /// The byte that stands for this event.
    pub fn code(self) -> (byte: u8)
        ensures
            byte == self.wire(),
            byte < PARENT_BASE,
    {
        match self {
            ChildEvent::InitFailed => 0,
            ChildEvent::InitSuccess => 1,
        }
    }

    /// Decodes a byte; `None` for a byte that no child event is coded as.
    pub fn from_code(byte: u8) -> (event: Option<ChildEvent>)
        ensures
            event == ChildEvent::of_wire(byte),
            event matches Some(e) ==> e.wire() == byte,
            event is None <==> byte >= 2,
    {
        match byte {
            0 => Some(ChildEvent::InitFailed),
            1 => Some(ChildEvent::InitSuccess),
            _ => None,
        }
    }

    /// The one-byte message that carries this event.
    pub fn encode(self) -> (frame: [u8; 1])
        ensures
            frame@ == seq![self.wire()],
    {
        [self.code()]
    }

    /// Reads the event out of a one-byte message.
    pub fn decode(frame: [u8; 1]) -> (event: Option<ChildEvent>)
        ensures
            event == ChildEvent::of_wire(frame@[0]),
    {
        ChildEvent::from_code(frame[0])
    }
}

impl ParentEvent {
    /// The byte that stands for this event on the wire.
    pub open spec fn wire(self) -> u8 {
        match self {
            ParentEvent::SlirpFailure => 128,
            ParentEvent::UidGidMapFailure => 129,
            ParentEvent::InitSuccess => 130,
            ParentEvent::CGroupFailure => 131,
        }
    }

    /// The event that a byte stands for, if any.
    pub open spec fn of_wire(byte: u8) -> Option<ParentEvent> {
        if byte == 128 {
            Some(ParentEvent::SlirpFailure)
        } else if byte == 129 {
            Some(ParentEvent::UidGidMapFailure)
        } else if byte == 130 {
            Some(ParentEvent::InitSuccess)
        } else if byte == 131 {
            Some(ParentEvent::CGroupFailure)
        } else {
            None
        }
    }

    /// Whether this event tells the child to give up.
    pub open spec fn is_failure(self) -> bool {
        self != ParentEvent::InitSuccess
    }

    /// The byte that stands for this event.
    pub fn code(self) -> (byte: u8)
        ensures
            byte == self.wire(),
            byte >= PARENT_BASE,
    {
        match self {
            ParentEvent::SlirpFailure => 128,
            ParentEvent::UidGidMapFailure => 129,
            ParentEvent::InitSuccess => 130,
            ParentEvent::CGroupFailure => 131,
        }
    }

    /// Decodes a byte; `None` for a byte that no parent event is coded as.
    pub fn from_code(byte: u8) -> (event: Option<ParentEvent>)
        ensures
            event == ParentEvent::of_wire(byte),
            event matches Some(e) ==> e.wire() == byte,
            event is None <==> (byte < 128 || byte > 131),
    {
        match byte {
            128 => Some(ParentEvent::SlirpFailure),
            129 => Some(ParentEvent::UidGidMapFailure),
            130 => Some(ParentEvent::InitSuccess),
            131 => Some(ParentEvent::CGroupFailure),
            _ => None,
        }
    }

    /// The one-byte message that carries this event.
    pub fn encode(self) -> (frame: [u8; 1])
        ensures
            frame@ == seq![self.wire()],
    {
        [self.code()]
    }

    /// Reads the event out of a one-byte message.
    pub fn decode(frame: [u8; 1]) -> (event: Option<ParentEvent>)
        ensures
            event == ParentEvent::of_wire(frame@[0]),
    {
        ParentEvent::from_code(frame[0])
    }

    /// Whether this event tells the child to give up.
    pub fn reports_failure(self) -> (failed: bool)
        ensures
            failed == self.is_failure(),
    {
        match self {
            ParentEvent::InitSuccess => false,
            _ => true,
        }
    }
}

/// One of the two processes that share a channel.
#[derive(Clone, Copy, Debug, PartialEq, Eq, Structural)]
pub enum Side {
    Parent,
    Child,
}

/// The two descriptors of a pipe.
#[derive(Clone, Copy, Debug, PartialEq, Eq, Structural)]
pub struct Pipe {
    /// The end to read from.
    pub read: i32,
    /// The end to write to.
    pub write: i32,
}

/// The descriptors of a channel: two pipes, one for each direction.
#[derive(Clone, Copy, Debug, PartialEq, Eq, Structural)]
pub struct Ipc {
    /// The pipe that carries the parent's events to the child.
    pub parent_pipe: Pipe,
    /// The pipe that carries the child's events to the parent.
    pub child_pipe: Pipe,
}

impl Ipc {
    /// The descriptor that `side` sends on: the write end of its own pipe.
    pub open spec fn sender(self, side: Side) -> i32 {
        match side {
            Side::Parent => self.parent_pipe.write,
            Side::Child => self.child_pipe.write,
        }
    }

    /// The descriptor that `side` receives on: the read end of the other
    /// side's pipe.
    pub open spec fn receiver(self, side: Side) -> i32 {
        match side {
            Side::Parent => self.child_pipe.read,
            Side::Child => self.parent_pipe.read,
        }
    }

    /// The descriptors that `side` has no use for once the child exists:
    /// the read end of its own pipe and the write end of the other one.
    pub open spec fn idle(self, side: Side) -> (i32, i32) {
        match side {
            Side::Parent => (self.parent_pipe.read, self.child_pipe.write),
            Side::Child => (self.child_pipe.read, self.parent_pipe.write),
        }
    }

    /// The channel made of these two pipes.
    pub fn new(parent_pipe: Pipe, child_pipe: Pipe) -> (channel: Ipc)
        ensures
            channel.parent_pipe == parent_pipe,
            channel.child_pipe == child_pipe,
    {
        Ipc { parent_pipe, child_pipe }
    }

    /// The descriptor that `side` sends on.
    pub fn send_fd(&self, side: Side) -> (fd: i32)
        ensures
            fd == self.sender(side),
    {
        match side {
            Side::Parent => self.parent_pipe.write,
            Side::Child => self.child_pipe.write,
        }
    }

    /// The descriptor that `side` receives on.
    pub fn recv_fd(&self, side: Side) -> (fd: i32)
        ensures
            fd == self.receiver(side),
    {
        match side {
            Side::Parent => self.child_pipe.read,
            Side::Child => self.parent_pipe.read,
        }
    }

    /// What the parent writes to tell the child of `event`: the descriptor
    /// to write to, and the one byte to write.
    pub fn send_from_parent(&self, event: ParentEvent) -> (message: (i32, [u8; 1]))
        ensures
            message.0 == self.sender(Side::Parent),
            message.1@ == seq![event.wire()],
    {
        (self.send_fd(Side::Parent), event.encode())
    }

    /// What the child writes to tell the parent of `event`: the descriptor
    /// to write to, and the one byte to write.
    pub fn send_from_child(&self, event: ChildEvent) -> (message: (i32, [u8; 1]))
        ensures
            message.0 == self.sender(Side::Child),
            message.1@ == seq![event.wire()],
    {
        (self.send_fd(Side::Child), event.encode())
    }

    /// The event that the parent has received, given the one byte that it
    /// read from `recv_fd(Side::Parent)`. A byte that is no event of the
    /// child is a fault in the program, not an event: `ChildEvent::decode`
    /// tells the two apart, and only the first may be handed in.
    pub fn recv_in_parent(&self, frame: [u8; 1]) -> (event: ChildEvent)
        requires
            ChildEvent::of_wire(frame@[0]) is Some,
        ensures
            ChildEvent::of_wire(frame@[0]) == Some(event),
            event.wire() == frame@[0],
    {
        match frame[0] {
            0 => ChildEvent::InitFailed,
            _ => ChildEvent::InitSuccess,
        }
    }

    /// The event that the child has received, given the one byte that it
    /// read from `recv_fd(Side::Child)`. A byte that is no event of the
    /// parent is a fault in the program, not an event: `ParentEvent::decode`
    /// tells the two apart, and only the first may be handed in.
    pub fn recv_in_child(&self, frame: [u8; 1]) -> (event: ParentEvent)
        requires
            ParentEvent::of_wire(frame@[0]) is Some,
        ensures
            ParentEvent::of_wire(frame@[0]) == Some(event),
            event.wire() == frame@[0],
    {
        match frame[0] {
            128 => ParentEvent::SlirpFailure,
            129 => ParentEvent::UidGidMapFailure,
            130 => ParentEvent::InitSuccess,
            _ => ParentEvent::CGroupFailure,
        }
    }

    /// The descriptors for `side` to close once the child exists.
    pub fn unused(&self, side: Side) -> (fds: [i32; 2])
        ensures
            fds@ == seq![self.idle(side).0, self.idle(side).1],
    {
        match side {
            Side::Parent => [self.parent_pipe.read, self.child_pipe.write],
            Side::Child => [self.child_pipe.read, self.parent_pipe.write],
        }
    }

    /// The descriptors for `side` to keep open once the child exists.
    pub fn used(&self, side: Side) -> (fds: [i32; 2])
        ensures
            fds@ == seq![self.receiver(side), self.sender(side)],
    {
        [self.recv_fd(side), self.send_fd(side)]
    }
}

/// The sides are wired to each other: what one side sends on and the other
/// receives on are the two ends of one pipe, and what is idle on one side is
/// exactly what the other side uses.
pub proof fn lemma_channel_is_crossed(channel: Ipc)
    ensures
        channel.parent_pipe == (Pipe {
            read: channel.receiver(Side::Child),
            write: channel.sender(Side::Parent),
        }),
        channel.child_pipe == (Pipe {
            read: channel.receiver(Side::Parent),
            write: channel.sender(Side::Child),
        }),
        channel.idle(Side::Parent) == (channel.receiver(Side::Child), channel.sender(Side::Child)),
        channel.idle(Side::Child) == (channel.receiver(Side::Parent), channel.sender(Side::Parent)),
{
}

impl From<ChildEvent> for u8 {
    fn from(event: ChildEvent) -> (byte: u8) {
        event.code()
    }
}

impl vstd::std_specs::convert::FromSpecImpl<ChildEvent> for u8 {
    open spec fn obeys_from_spec() -> bool {
        true
    }

    open spec fn from_spec(event: ChildEvent) -> u8 {
        event.wire()
    }
}

impl From<ParentEvent> for u8 {
    fn from(event: ParentEvent) -> (byte: u8) {
        event.code()
    }
}

impl vstd::std_specs::convert::FromSpecImpl<ParentEvent> for u8 {
    open spec fn obeys_from_spec() -> bool {
        true
    }

    open spec fn from_spec(event: ParentEvent) -> u8 {
        event.wire()
    }
}

/// Decoding undoes encoding, for both alphabets.
pub proof fn lemma_code_round_trip(child: ChildEvent, parent: ParentEvent)
    ensures
        ChildEvent::of_wire(child.wire()) == Some(child),
        ParentEvent::of_wire(parent.wire()) == Some(parent),
{
}

/// A byte that decodes is the code of what it decodes to, so encoding is
/// one-to-one.
pub proof fn lemma_decode_is_exact(byte: u8)
    ensures
        ChildEvent::of_wire(byte) matches Some(e) ==> e.wire() == byte,
        ParentEvent::of_wire(byte) matches Some(e) ==> e.wire() == byte,
{
}

/// The two alphabets share no byte: child codes lie below the parent base,
/// parent codes at or above it, and no byte decodes on both sides.
pub proof fn lemma_alphabets_disjoint(byte: u8)
    ensures
        ChildEvent::of_wire(byte) is Some ==> byte < PARENT_BASE,
        ParentEvent::of_wire(byte) is Some ==> byte >= PARENT_BASE,
        !(ChildEvent::of_wire(byte) is Some && ParentEvent::of_wire(byte) is Some),
{
}

} // verus!
