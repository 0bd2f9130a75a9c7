//! The parent's side of building a sandbox, as an explicit state machine.
//!
//! The machine never performs a system call. It names the one action that is
//! due, is told how that action ended, and moves on. Whoever drives it owns
//! the pipes, the cgroup directory and the processes; the machine keeps the
//! books on them, so that what is held at every point is a proved fact.

use vstd::prelude::*;
use vstd::string::StringExecFns;
use crate::error::SandboxError;
use crate::error::Stage;
use crate::ipc::ChildEvent;
use crate::ipc::ParentEvent;
use crate::idmap_helper::program;
use crate::idmap_helper::program_name;
use crate::text::push_signed_decimal;
use crate::text::signed_decimal;

verus! {

/// A kind of namespace that the child is created in.
#[derive(Clone, Copy, Debug, PartialEq, Eq, Structural)]
pub enum Namespace {
    Mount,
    User,
    Pid,
    Net,
    Ipc,
    Uts,
    Cgroup,
}

/// A signal that the runtime asks for by name.
#[derive(Clone, Copy, Debug, PartialEq, Eq, Structural)]
pub enum Signal {
    /// `SIGCHLD`: a child has stopped or exited.
    Child,
    /// `SIGKILL`: die at once.
    Kill,
    /// `SIGTERM`: wind down and exit.
    Terminate,
}

/// The signal that the parent gets when the child exits, as it would for
/// a child made by `fork`. `ParentAction::CloneChild` asks for it.
pub const CLONE_EXIT_SIGNAL: Signal = Signal::Child;

/// Where the parent stands in the protocol.
#[derive(Clone, Copy, Debug, PartialEq, Eq, Structural)]
pub enum ParentState {
    /// No child yet: the channel, the cgroup directory and the child itself
    /// are being created.
    PreSpawn,
    /// The child exists and waits; the limits are being enforced on it.
    Cloned,
    /// The limits hold; the id maps are being installed.
    MapsInstalled,
    /// The maps are in; the network helper is being started and awaited.
    NetReady,
    /// The network is up; the requested ports are being forwarded.
    PortsForwarded,
    /// The parent has nothing more to set up: the child is told to proceed
    /// and its answer is awaited.
    Signalled,
    /// The child reported success: a handle exists.
    Handle,
    /// Something failed: the child is told and reaped, and what was acquired
    /// is being released.
    Aborting,
    /// The failure has been unwound: nothing is held any more.
    Error,
}

/// One thing for the driver to do on the parent's behalf.
#[derive(Clone, Copy, Debug, PartialEq, Eq, Structural)]
pub enum ParentAction {
    /// Create the two pipes of the channel.
    OpenChannel,
    /// Create the cgroup directory.
    CreateCGroup,
    /// Create the child in all of `namespaces()`, with `CLONE_EXIT_SIGNAL`
    /// for its exit.
    CloneChild,
    /// Write the limits, then attach the child.
    EnforceLimits { pid: i32 },
    /// Install the uid and gid maps of the child.
    InstallMaps { pid: i32 },
    /// Start the network helper for the child's namespaces.
    StartNetwork { pid: i32 },
    /// Wait until the network helper announces readiness.
    AwaitNetwork,
    /// Forward the requested port with this index.
    ExposePort { index: usize },
    /// Send this event to the child.
    Notify(ParentEvent),
    /// Receive the child's event.
    AwaitChild,
    /// Wait for the child to exit.
    ReapChild { pid: i32 },
    /// Terminate and reap the network helper.
    StopNetwork,
    /// Remove the cgroup directory.
    RemoveCGroup,
    /// Close the parent's ends of the channel.
    CloseChannel,
}

/// How an action ended.
#[derive(Clone, Debug, PartialEq, Eq)]
pub enum ParentReply {
    /// The action was carried out.
    Done,
    /// The action failed.
    Failed(SandboxError),
    /// The child was created with this process id.
    Cloned(i32),
    /// This event arrived from the child.
    Heard(ChildEvent),
}

/// Whether `action` gives back something that the run holds. Giving back
/// is best effort: a failure is worth a warning and changes nothing else.
pub open spec fn is_release(action: ParentAction) -> bool {
    action is StopNetwork || action is RemoveCGroup || action is CloseChannel
}

/// Whether `reply` is a possible end of `action`.
///
/// Sending an event and reaping the child cannot be refused: a channel or
/// a child that is out of reach is not something to recover from.
pub open spec fn answers(action: ParentAction, reply: ParentReply) -> bool {
    match action {
        ParentAction::CloneChild => reply is Cloned || reply is Failed,
        ParentAction::AwaitChild => reply is Heard,
        ParentAction::Notify(_) | ParentAction::ReapChild { .. } => reply is Done,
        _ => reply is Done || reply is Failed,
    }
}

/// The stage that an action belongs to.
pub open spec fn stage_of(action: ParentAction) -> Stage {
    match action {
        ParentAction::CreateCGroup | ParentAction::EnforceLimits { .. } => Stage::CGroup,
        ParentAction::InstallMaps { .. } => Stage::UidGid,
        ParentAction::StartNetwork { .. } | ParentAction::AwaitNetwork | ParentAction::ExposePort {
            ..
        } => Stage::Network,
        ParentAction::AwaitChild => Stage::ChildSetup,
        _ => Stage::Spawn,
    }
}

/// The event that tells the child which stage failed.
pub open spec fn failure_event(stage: Stage) -> ParentEvent {
    match stage {
        Stage::CGroup => ParentEvent::CGroupFailure,
        Stage::UidGid => ParentEvent::UidGidMapFailure,
        _ => ParentEvent::SlirpFailure,
    }
}

/// Whether `event` is the one that reports a failure at `stage` to a child
/// that is still waiting.
pub open spec fn names_failure(event: ParentEvent, stage: Option<Stage>) -> bool {
    match stage {
        Some(stage) => event == failure_event(stage) && stage != Stage::Spawn && stage
            != Stage::ChildSetup,
        None => false,
    }
}

/// The next thing to give back, in the order child, network helper, cgroup
/// directory, channel; `None` when nothing is held.
pub open spec fn release_next(
    child: bool,
    network: bool,
    cgroup: bool,
    channel: bool,
    pid: i32,
) -> Option<ParentAction> {
    if child {
        Some(ParentAction::ReapChild { pid })
    } else if network {
        Some(ParentAction::StopNetwork)
    } else if cgroup {
        Some(ParentAction::RemoveCGroup)
    } else if channel {
        Some(ParentAction::CloseChannel)
    } else {
        None
    }
}

/// The parent's protocol run.
#[derive(Clone, Debug, PartialEq, Eq)]
pub struct Spawn {
    /// The action that is due; `None` once the run has ended.
    pub pending: Option<ParentAction>,
    /// How many port forwards were requested.
    pub ports: usize,
    /// The child's process id, once it exists.
    pub pid: i32,
    /// The channel's pipes are open.
    pub channel: bool,
    /// The cgroup directory exists.
    pub cgroup: bool,
    /// The child exists and has not been reaped.
    pub child: bool,
    /// The network helper runs.
    pub network: bool,
    /// A child was created at some point.
    pub cloned: bool,
    /// The limits are written and the child is attached.
    pub limits_enforced: bool,
    /// The uid and gid maps are installed.
    pub maps_installed: bool,
    /// The network helper announced readiness.
    pub network_ready: bool,
    /// How many of the requested ports are forwarded.
    pub forwarded: usize,
    /// The one event sent to the child, once sent.
    pub notified: Option<ParentEvent>,
    /// The one event received from the child, once received.
    pub heard: Option<ChildEvent>,
    /// Why the run is being, or has been, abandoned.
    pub failure: Option<SandboxError>,
    /// The stage that failed.
    pub stage: Option<Stage>,
}

impl Spawn {
    /// The state of a run that has not begun.
    pub open spec fn initial(ports: usize) -> Spawn {
        Spawn {
            pending: Some(ParentAction::OpenChannel),
            ports,
            pid: 0,
            channel: false,
            cgroup: false,
            child: false,
            network: false,
            cloned: false,
            limits_enforced: false,
            maps_installed: false,
            network_ready: false,
            forwarded: 0,
            notified: None,
            heard: None,
            failure: None,
            stage: None,
        }
    }

    /// The coarse state that the run is in.
    pub open spec fn state(self) -> ParentState {
        if self.failure is Some {
            if self.pending is Some {
                ParentState::Aborting
            } else {
                ParentState::Error
            }
        } else {
            match self.pending {
                None => ParentState::Handle,
                Some(ParentAction::EnforceLimits { .. }) => ParentState::Cloned,
                Some(ParentAction::InstallMaps { .. }) => ParentState::MapsInstalled,
                Some(ParentAction::StartNetwork { .. }) | Some(ParentAction::AwaitNetwork) =>
                    ParentState::NetReady,
                Some(ParentAction::ExposePort { .. }) => ParentState::PortsForwarded,
                Some(ParentAction::Notify(_)) | Some(ParentAction::AwaitChild) | Some(
                    ParentAction::CloseChannel,
                ) => ParentState::Signalled,
                Some(_) => ParentState::PreSpawn,
            }
        }
    }

    /// What is known of a run at every point: what is held, how far the
    /// setup got, and what was said on the channel, for each action that can
    /// be due.
    pub open spec fn wf(self) -> bool {
        &&& self.forwarded <= self.ports
        &&& (self.failure is Some <==> self.stage is Some)
        &&& (self.child ==> self.cloned)
        &&& (self.cloned ==> self.child || self.notified is Some)
        &&& (self.limits_enforced ==> self.cloned)
        &&& (self.maps_installed ==> self.limits_enforced)
        &&& (self.network_ready ==> self.maps_installed)
        &&& (self.forwarded > 0 ==> self.network_ready)
        &&& (self.notified == Some(ParentEvent::InitSuccess) ==> self.network_ready
            && self.forwarded == self.ports)
        &&& (self.notified is Some && self.notified->0.is_failure() ==> names_failure(
            self.notified->0,
            self.stage,
        ))
        &&& (self.heard is Some ==> self.notified == Some(ParentEvent::InitSuccess))
        &&& (self.heard == Some(ChildEvent::InitFailed) <==> self.stage == Some(Stage::ChildSetup))
        &&& (self.stage == Some(Stage::ChildSetup) ==> self.failure == Some(
            SandboxError::ChildProtocol,
        ))
        &&& (self.stage == Some(Stage::Spawn) ==> !self.cloned)
        &&& (self.stage == Some(Stage::CGroup) ==> !self.limits_enforced)
        &&& (self.stage == Some(Stage::UidGid) ==> !self.maps_installed)
        &&& (self.network ==> self.maps_installed)
        &&& (self.network_ready ==> self.network || self.failure is Some)
        &&& if self.failure is None {
            match self.pending {
                Some(ParentAction::OpenChannel) => self == Spawn::initial(self.ports),
                Some(ParentAction::CreateCGroup) => self.channel && !self.cgroup && !self.cloned,
                Some(ParentAction::CloneChild) => self.channel && self.cgroup && !self.cloned,
                Some(ParentAction::EnforceLimits { pid }) => self.holds_all_but_network() && pid
                    == self.pid && !self.limits_enforced && self.notified is None,
                Some(ParentAction::InstallMaps { pid }) => self.holds_all_but_network() && pid
                    == self.pid && self.limits_enforced && !self.maps_installed && self.notified
                    is None,
                Some(ParentAction::StartNetwork { pid }) => self.holds_all_but_network() && pid
                    == self.pid && self.maps_installed && self.notified is None,
                Some(ParentAction::AwaitNetwork) => self.holds_all() && !self.network_ready
                    && self.notified is None,
                Some(ParentAction::ExposePort { index }) => self.holds_all() && self.network_ready
                    && index == self.forwarded && index < self.ports && self.notified is None,
                Some(ParentAction::Notify(event)) => self.holds_all() && self.network_ready
                    && self.forwarded == self.ports && event == ParentEvent::InitSuccess
                    && self.notified is None,
                Some(ParentAction::AwaitChild) => self.holds_all() && self.notified == Some(
                    ParentEvent::InitSuccess,
                ) && self.heard is None,
                Some(ParentAction::CloseChannel) => self.holds_all() && self.heard == Some(
                    ChildEvent::InitSuccess,
                ),
                None => self.child && self.cgroup && self.network && !self.channel && self.heard
                    == Some(ChildEvent::InitSuccess),
                Some(_) => false,
            }
        } else {
            match self.pending {
                Some(ParentAction::Notify(event)) => self.child && self.notified is None
                    && names_failure(event, self.stage),
                Some(ParentAction::ReapChild { pid }) => self.child && pid == self.pid
                    && self.notified is Some,
                Some(ParentAction::StopNetwork) => !self.child && self.network,
                Some(ParentAction::RemoveCGroup) => !self.child && !self.network && self.cgroup,
                Some(ParentAction::CloseChannel) => !self.child && !self.network && !self.cgroup
                    && self.channel,
                None => !self.child && !self.network && !self.cgroup && !self.channel,
                Some(_) => false,
            }
        }
    }

    /// The channel, the cgroup directory and the child are held, the network
    /// helper is not.
    pub open spec fn holds_all_but_network(self) -> bool {
        self.channel && self.cgroup && self.child && self.cloned && !self.network
    }

    /// The channel, the cgroup directory, the child and the network helper
    /// are all held.
    pub open spec fn holds_all(self) -> bool {
        self.channel && self.cgroup && self.child && self.cloned && self.network
    }

    /// The run after the due action failed with `error`: the child, if there
    /// is one, is told which stage failed; then everything is given back.
    pub open spec fn abandon(self, action: ParentAction, error: SandboxError) -> Spawn {
        let stage = stage_of(action);
        Spawn {
            pending: if self.child {
                Some(ParentAction::Notify(failure_event(stage)))
            } else {
                release_next(false, self.network, self.cgroup, self.channel, self.pid)
            },
            failure: Some(error),
            stage: Some(stage),
            ..self
        }
    }

    /// The run after the due action ended with `reply`. A run that has
    /// ended stays as it is, and a reply that does not answer the due action
    /// changes nothing: the action stays due.
    pub open spec fn next(self, reply: ParentReply) -> Spawn {
        match self.pending {
            None => self,
            Some(action) => if !answers(action, reply) {
                self
            } else {
                self.answered(action, reply)
            },
        }
    }

    /// The run after `action` ended with a `reply` that answers it.
    pub open spec fn answered(self, action: ParentAction, reply: ParentReply) -> Spawn {
        match reply {
            ParentReply::Failed(error) => if is_release(action) {
                self.proceed(action)
            } else {
                self.abandon(action, error)
            },
            ParentReply::Cloned(pid) => Spawn {
                pending: Some(ParentAction::EnforceLimits { pid }),
                pid,
                child: true,
                cloned: true,
                ..self
            },
            ParentReply::Heard(ChildEvent::InitSuccess) => Spawn {
                pending: Some(ParentAction::CloseChannel),
                heard: Some(ChildEvent::InitSuccess),
                ..self
            },
            ParentReply::Heard(ChildEvent::InitFailed) => Spawn {
                pending: Some(ParentAction::ReapChild { pid: self.pid }),
                heard: Some(ChildEvent::InitFailed),
                failure: Some(SandboxError::ChildProtocol),
                stage: Some(Stage::ChildSetup),
                ..self
            },
            ParentReply::Done => self.proceed(action),
        }
    }

    /// The run after the due action was carried out.
    pub open spec fn proceed(self, action: ParentAction) -> Spawn {
        match action {
            ParentAction::OpenChannel => Spawn {
                pending: Some(ParentAction::CreateCGroup),
                channel: true,
                ..self
            },
            ParentAction::CreateCGroup => Spawn {
                pending: Some(ParentAction::CloneChild),
                cgroup: true,
                ..self
            },
            ParentAction::CloneChild => self,
            ParentAction::EnforceLimits { pid } => Spawn {
                pending: Some(ParentAction::InstallMaps { pid }),
                limits_enforced: true,
                ..self
            },
            ParentAction::InstallMaps { pid } => Spawn {
                pending: Some(ParentAction::StartNetwork { pid }),
                maps_installed: true,
                ..self
            },
            ParentAction::StartNetwork { .. } => Spawn {
                pending: Some(ParentAction::AwaitNetwork),
                network: true,
                ..self
            },
            ParentAction::AwaitNetwork => Spawn {
                pending: Some(self.after_port(0)),
                network_ready: true,
                ..self
            },
            ParentAction::ExposePort { index } => Spawn {
                pending: Some(self.after_port((index + 1) as usize)),
                forwarded: (index + 1) as usize,
                ..self
            },
            ParentAction::Notify(event) => Spawn {
                pending: if event == ParentEvent::InitSuccess {
                    Some(ParentAction::AwaitChild)
                } else {
                    Some(ParentAction::ReapChild { pid: self.pid })
                },
                notified: Some(event),
                ..self
            },
            ParentAction::AwaitChild => self,
            ParentAction::ReapChild { .. } => Spawn {
                pending: release_next(false, self.network, self.cgroup, self.channel, self.pid),
                child: false,
                ..self
            },
            ParentAction::StopNetwork => Spawn {
                pending: release_next(self.child, false, self.cgroup, self.channel, self.pid),
                network: false,
                ..self
            },
            ParentAction::RemoveCGroup => Spawn {
                pending: release_next(self.child, self.network, false, self.channel, self.pid),
                cgroup: false,
                ..self
            },
            ParentAction::CloseChannel => Spawn {
                pending: if self.failure is Some {
                    release_next(self.child, self.network, self.cgroup, false, self.pid)
                } else {
                    None
                },
                channel: false,
                ..self
            },
        }
    }

    /// What is due once `forwarded` ports are forwarded: the next port, or
    /// the go-ahead for the child when none is left.
    pub open spec fn after_port(self, forwarded: usize) -> ParentAction {
        if forwarded < self.ports {
            ParentAction::ExposePort { index: forwarded }
        } else {
            ParentAction::Notify(ParentEvent::InitSuccess)
        }
    }
}

impl Spawn {
    /// A run that has not begun, for `ports` requested port forwards.
    pub fn new(ports: usize) -> (run: Spawn)
        ensures
            run == Spawn::initial(ports),
            run.wf(),
            run.state() == ParentState::PreSpawn,
    {
        Spawn {
            pending: Some(ParentAction::OpenChannel),
            ports,
            pid: 0,
            channel: false,
            cgroup: false,
            child: false,
            network: false,
            cloned: false,
            limits_enforced: false,
            maps_installed: false,
            network_ready: false,
            forwarded: 0,
            notified: None,
            heard: None,
            failure: None,
            stage: None,
        }
    }

    /// The action that is due, or `None` once the run has ended.
    pub fn action(&self) -> (due: Option<ParentAction>)
        ensures
            due == self.pending,
    {
        self.pending
    }

    /// The coarse state of the run.
    pub fn current(&self) -> (state: ParentState)
        ensures
            state == self.state(),
    {
        if self.failure.is_some() {
            if self.pending.is_some() {
                ParentState::Aborting
            } else {
                ParentState::Error
            }
        } else {
            match self.pending {
                None => ParentState::Handle,
                Some(ParentAction::EnforceLimits { .. }) => ParentState::Cloned,
                Some(ParentAction::InstallMaps { .. }) => ParentState::MapsInstalled,
                Some(ParentAction::StartNetwork { .. }) | Some(ParentAction::AwaitNetwork) =>
                    ParentState::NetReady,
                Some(ParentAction::ExposePort { .. }) => ParentState::PortsForwarded,
                Some(ParentAction::Notify(_)) | Some(ParentAction::AwaitChild) | Some(
                    ParentAction::CloseChannel,
                ) => ParentState::Signalled,
                Some(_) => ParentState::PreSpawn,
            }
        }
    }

    /// Takes note of how the due action ended and moves to what is due next.
    pub fn advance(&mut self, reply: ParentReply)
        requires
            old(self).wf(),
        ensures
            *final(self) == old(self).next(reply),
            final(self).wf(),
    {
        let action = match self.pending {
            None => {
                return ;
            },
            Some(action) => action,
        };
        if !fits(action, &reply) {
            return ;
        }
        match reply {
            ParentReply::Failed(error) => if releases(action) {
                self.carry_on(action);
            } else {
                let stage = stage_at(action);
                self.pending = if self.child {
                    Some(ParentAction::Notify(event_for(stage)))
                } else {
                    release(false, self.network, self.cgroup, self.channel, self.pid)
                };
                self.failure = Some(error);
                self.stage = Some(stage);
            },
            ParentReply::Cloned(pid) => {
                self.pending = Some(ParentAction::EnforceLimits { pid });
                self.pid = pid;
                self.child = true;
                self.cloned = true;
            },
            ParentReply::Heard(ChildEvent::InitSuccess) => {
                self.pending = Some(ParentAction::CloseChannel);
                self.heard = Some(ChildEvent::InitSuccess);
            },
            ParentReply::Heard(ChildEvent::InitFailed) => {
                self.pending = Some(ParentAction::ReapChild { pid: self.pid });
                self.heard = Some(ChildEvent::InitFailed);
                self.failure = Some(SandboxError::ChildProtocol);
                self.stage = Some(Stage::ChildSetup);
            },
            ParentReply::Done => {
                self.carry_on(action);
            },
        }
    }

    /// Moves on after `action` was carried out.
    fn carry_on(&mut self, action: ParentAction)
        requires
            old(self).wf(),
            old(self).pending == Some(action),
            answers(action, ParentReply::Done) || is_release(action),
        ensures
            *final(self) == old(self).proceed(action),
            final(self).wf(),
    {
        match action {
            ParentAction::OpenChannel => {
                self.pending = Some(ParentAction::CreateCGroup);
                self.channel = true;
            },
            ParentAction::CreateCGroup => {
                self.pending = Some(ParentAction::CloneChild);
                self.cgroup = true;
            },
            ParentAction::CloneChild => {},
            ParentAction::EnforceLimits { pid } => {
                self.pending = Some(ParentAction::InstallMaps { pid });
                self.limits_enforced = true;
            },
            ParentAction::InstallMaps { pid } => {
                self.pending = Some(ParentAction::StartNetwork { pid });
                self.maps_installed = true;
            },
            ParentAction::StartNetwork { .. } => {
                self.pending = Some(ParentAction::AwaitNetwork);
                self.network = true;
            },
            ParentAction::AwaitNetwork => {
                self.pending = Some(self.port_or_go_ahead(0));
                self.network_ready = true;
            },
            ParentAction::ExposePort { index } => {
                self.pending = Some(self.port_or_go_ahead(index + 1));
                self.forwarded = index + 1;
            },
            ParentAction::Notify(event) => {
                self.pending = match event {
                    ParentEvent::InitSuccess => Some(ParentAction::AwaitChild),
                    _ => Some(ParentAction::ReapChild { pid: self.pid }),
                };
                self.notified = Some(event);
            },
            ParentAction::AwaitChild => {},
            ParentAction::ReapChild { .. } => {
                self.pending = release(false, self.network, self.cgroup, self.channel, self.pid);
                self.child = false;
            },
            ParentAction::StopNetwork => {
                self.pending = release(self.child, false, self.cgroup, self.channel, self.pid);
                self.network = false;
            },
            ParentAction::RemoveCGroup => {
                self.pending = release(self.child, self.network, false, self.channel, self.pid);
                self.cgroup = false;
            },
            ParentAction::CloseChannel => {
                self.pending = if self.failure.is_some() {
                    release(self.child, self.network, self.cgroup, false, self.pid)
                } else {
                    None
                };
                self.channel = false;
            },
        }
    }

    /// What is due once `forwarded` ports are forwarded.
    fn port_or_go_ahead(&self, forwarded: usize) -> (due: ParentAction)
        ensures
            due == self.after_port(forwarded),
    {
        if forwarded < self.ports {
            ParentAction::ExposePort { index: forwarded }
        } else {
            ParentAction::Notify(ParentEvent::InitSuccess)
        }
    }
}

/// Whether `action` gives back something that the run holds.
pub fn releases(action: ParentAction) -> (release: bool)
    ensures
        release == is_release(action),
{
    match action {
        ParentAction::StopNetwork | ParentAction::RemoveCGroup | ParentAction::CloseChannel => true,
        _ => false,
    }
}

/// Whether `reply` is a possible end of `action`.
pub fn fits(action: ParentAction, reply: &ParentReply) -> (ok: bool)
    ensures
        ok == answers(action, *reply),
{
    match action {
        ParentAction::CloneChild => match reply {
            ParentReply::Cloned(_) | ParentReply::Failed(_) => true,
            _ => false,
        },
        ParentAction::AwaitChild => match reply {
            ParentReply::Heard(_) => true,
            _ => false,
        },
        ParentAction::Notify(_) | ParentAction::ReapChild { .. } => match reply {
            ParentReply::Done => true,
            _ => false,
        },
        _ => match reply {
            ParentReply::Done | ParentReply::Failed(_) => true,
            _ => false,
        },
    }
}

/// The stage that an action belongs to.
pub fn stage_at(action: ParentAction) -> (stage: Stage)
    ensures
        stage == stage_of(action),
{
    match action {
        ParentAction::CreateCGroup | ParentAction::EnforceLimits { .. } => Stage::CGroup,
        ParentAction::InstallMaps { .. } => Stage::UidGid,
        ParentAction::StartNetwork { .. } | ParentAction::AwaitNetwork | ParentAction::ExposePort {
            ..
        } => Stage::Network,
        ParentAction::AwaitChild => Stage::ChildSetup,
        _ => Stage::Spawn,
    }
}

/// The event that tells the child which stage failed.
pub fn event_for(stage: Stage) -> (event: ParentEvent)
    ensures
        event == failure_event(stage),
{
    match stage {
        Stage::CGroup => ParentEvent::CGroupFailure,
        Stage::UidGid => ParentEvent::UidGidMapFailure,
        _ => ParentEvent::SlirpFailure,
    }
}

/// The next thing to give back: the child first, then the network helper,
/// the cgroup directory and the channel.
pub fn release(child: bool, network: bool, cgroup: bool, channel: bool, pid: i32) -> (due: Option<
    ParentAction,
>)
    ensures
        due == release_next(child, network, cgroup, channel, pid),
{
    if child {
        Some(ParentAction::ReapChild { pid })
    } else if network {
        Some(ParentAction::StopNetwork)
    } else if cgroup {
        Some(ParentAction::RemoveCGroup)
    } else if channel {
        Some(ParentAction::CloseChannel)
    } else {
        None
    }
}

/// The handle on a sandbox whose child has finished its setup. It is what
/// `Spawn::finish` gives for a run that ended in `ParentState::Handle`.
#[derive(Debug, PartialEq, Eq)]
pub struct Sandbox {
    /// The child's process id.
    pub pid: i32,
    /// How many port forwards the network helper holds for the sandbox.
    pub ports: usize,
}

impl Sandbox {
    /// Begins to build a sandbox with `ports` port forwards: the run that
    /// ends in a handle, or in an error with nothing left behind.
    pub fn spawn(ports: usize) -> (run: Spawn)
        ensures
            run == Spawn::initial(ports),
            run.wf(),
    {
        Spawn::new(ports)
    }

    /// What joining the sandbox consists of, in order: wait for the child,
    /// terminate and reap the network helper, remove the cgroup directory.
    pub open spec fn teardown(self) -> Seq<ParentAction> {
        seq![
            ParentAction::ReapChild { pid: self.pid },
            ParentAction::StopNetwork,
            ParentAction::RemoveCGroup,
        ]
    }

    /// What discarding the handle without joining consists of, in order:
    /// terminate and reap the network helper, then reap the child, then
    /// remove the cgroup directory.
    pub open spec fn discarding(self) -> Seq<ParentAction> {
        seq![
            ParentAction::StopNetwork,
            ParentAction::ReapChild { pid: self.pid },
            ParentAction::RemoveCGroup,
        ]
    }

    /// Gives the sandbox up without joining it: the actions that a handle
    /// calls for when it is dropped. The helper goes first, as it hangs on
    /// the child's namespaces; the child is still reaped, and the cgroup
    /// directory goes last, when it is empty.
    pub fn discard(self) -> (plan: Vec<ParentAction>)
        ensures
            plan@ == self.discarding(),
    {
        let mut plan: Vec<ParentAction> = Vec::new();
        plan.push(ParentAction::StopNetwork);
        plan.push(ParentAction::ReapChild { pid: self.pid });
        plan.push(ParentAction::RemoveCGroup);
        plan
    }

    /// Ends the sandbox's life: the actions that join the child and give
    /// back what the handle owns.
    pub fn wait(self) -> (plan: Vec<ParentAction>)
        ensures
            plan@ == self.teardown(),
    {
        let mut plan: Vec<ParentAction> = Vec::new();
        plan.push(ParentAction::ReapChild { pid: self.pid });
        plan.push(ParentAction::StopNetwork);
        plan.push(ParentAction::RemoveCGroup);
        plan
    }
}

impl Spawn {
    /// What a run that has ended amounts to.
    pub open spec fn verdict(self) -> Option<Result<Sandbox, SandboxError>> {
        if self.pending is Some {
            None
        } else {
            match self.failure {
                Some(error) => Some(Err(error)),
                None => Some(Ok(Sandbox { pid: self.pid, ports: self.ports })),
            }
        }
    }

    /// Closes the run: `None` while an action is still due, the handle
    /// after a run that ended in `Handle`, and otherwise the error that the
    /// run was abandoned for.
    pub fn finish(self) -> (end: Option<Result<Sandbox, SandboxError>>)
        requires
            self.wf(),
        ensures
            end == self.verdict(),
            end is None <==> self.pending is Some,
            end matches Some(Ok(sandbox)) ==> self.state() == ParentState::Handle && sandbox.pid
                == self.pid && sandbox.ports == self.ports,
            end matches Some(Err(error)) ==> self.state() == ParentState::Error && self.failure
                == Some(error),
    {
        if self.pending.is_some() {
            return None;
        }
        match self.failure {
            Some(error) => Some(Err(error)),
            None => Some(Ok(Sandbox { pid: self.pid, ports: self.ports })),
        }
    }

    /// The run that `replies` lead to, one after the other, from the start.
    pub open spec fn after(ports: usize, replies: Seq<ParentReply>) -> Spawn
        decreases replies.len(),
    {
        if replies.len() == 0 {
            Spawn::initial(ports)
        } else {
            Spawn::after(ports, replies.drop_last()).next(replies.last())
        }
    }

    /// An upper bound on the number of answering replies that the run
    /// still takes.
    pub open spec fn remaining(self) -> nat {
        match self.pending {
            None => 0,
            Some(action) => if self.failure is Some {
                let told: nat = if action is Notify { 1 } else { 0 };
                let child: nat = if self.child { 1 } else { 0 };
                let network: nat = if self.network { 1 } else { 0 };
                let cgroup: nat = if self.cgroup { 1 } else { 0 };
                let channel: nat = if self.channel { 1 } else { 0 };
                told + child + network + cgroup + channel
            } else {
                match action {
                    ParentAction::OpenChannel => (self.ports + 16) as nat,
                    ParentAction::CreateCGroup => (self.ports + 15) as nat,
                    ParentAction::CloneChild => (self.ports + 14) as nat,
                    ParentAction::EnforceLimits { .. } => (self.ports + 13) as nat,
                    ParentAction::InstallMaps { .. } => (self.ports + 12) as nat,
                    ParentAction::StartNetwork { .. } => (self.ports + 11) as nat,
                    ParentAction::AwaitNetwork => (self.ports + 10) as nat,
                    ParentAction::ExposePort { index } => (self.ports - index + 8) as nat,
                    ParentAction::Notify(_) => 7,
                    ParentAction::AwaitChild => 6,
                    _ => 1,
                }
            },
        }
    }
}

/// The namespaces that the child is created in, each once.
pub open spec fn all_namespaces() -> Seq<Namespace> {
    seq![
        Namespace::Mount,
        Namespace::User,
        Namespace::Pid,
        Namespace::Net,
        Namespace::Ipc,
        Namespace::Uts,
        Namespace::Cgroup,
    ]
}

/// The namespaces to create the child in.
pub fn namespaces() -> (list: Vec<Namespace>)
    ensures
        list@ == all_namespaces(),
{
    let mut list: Vec<Namespace> = Vec::new();
    list.push(Namespace::Mount);
    list.push(Namespace::User);
    list.push(Namespace::Pid);
    list.push(Namespace::Net);
    list.push(Namespace::Ipc);
    list.push(Namespace::Uts);
    list.push(Namespace::Cgroup);
    list
}

/// The child gets every kind of namespace there is, and none twice: the
/// list holds seven entries, any kind occurs in it, and no two entries are
/// the same.
pub proof fn lemma_namespaces_are_all_seven(kind: Namespace)
    ensures
        all_namespaces().len() == 7,
        all_namespaces().contains(kind),
        all_namespaces().no_duplicates(),
{
    let list = all_namespaces();
    match kind {
        Namespace::Mount => assert(list[0] == kind),
        Namespace::User => assert(list[1] == kind),
        Namespace::Pid => assert(list[2] == kind),
        Namespace::Net => assert(list[3] == kind),
        Namespace::Ipc => assert(list[4] == kind),
        Namespace::Uts => assert(list[5] == kind),
        Namespace::Cgroup => assert(list[6] == kind),
    }
}

/// A step keeps what is known of a run.
pub proof fn lemma_step_keeps_wf(run: Spawn, reply: ParentReply)
    requires
        run.wf(),
    ensures
        run.next(reply).wf(),
{
}

/// Whatever the replies, the run they lead to is well formed.
pub proof fn lemma_every_run_wf(ports: usize, replies: Seq<ParentReply>)
    ensures
        Spawn::after(ports, replies).wf(),
    decreases replies.len(),
{
    if replies.len() > 0 {
        lemma_every_run_wf(ports, replies.drop_last());
        lemma_step_keeps_wf(Spawn::after(ports, replies.drop_last()), replies.last());
    }
}

/// A handle exists only after the whole setup: whatever the replies, a run
/// that ends in `Handle` has enforced the limits, installed the maps,
/// brought the network up, forwarded every requested port, sent the
/// go-ahead and heard the child report success. It holds the child, the
/// cgroup directory and the network helper, and the channel is closed.
pub proof fn lemma_handle_means_setup_passed(ports: usize, replies: Seq<ParentReply>)
    requires
        Spawn::after(ports, replies).state() == ParentState::Handle,
    ensures
        ({
            let run = Spawn::after(ports, replies);
            &&& run.limits_enforced && run.maps_installed && run.network_ready
            &&& run.forwarded == ports
            &&& run.notified == Some(ParentEvent::InitSuccess)
            &&& run.heard == Some(ChildEvent::InitSuccess)
            &&& run.child && run.cgroup && run.network && !run.channel
            &&& run.verdict() matches Some(Ok(sandbox)) && sandbox.pid == run.pid
        }),
{
    lemma_every_run_wf(ports, replies);
    lemma_ports_never_change(ports, replies);
}

/// A failed run leaves nothing behind: whatever the replies, a run that
/// ends in `Error` holds no child, no network helper, no cgroup directory
/// and no open channel, and a child that was created has been told why.
pub proof fn lemma_error_holds_nothing(ports: usize, replies: Seq<ParentReply>)
    requires
        Spawn::after(ports, replies).state() == ParentState::Error,
    ensures
        ({
            let run = Spawn::after(ports, replies);
            &&& !run.child && !run.network && !run.cgroup && !run.channel
            &&& run.cloned ==> run.notified is Some
            &&& run.verdict() == Some(Err::<Sandbox, SandboxError>(run.failure->0))
        }),
{
    lemma_every_run_wf(ports, replies);
}

/// The number of requested ports is fixed for the whole run.
pub proof fn lemma_ports_never_change(ports: usize, replies: Seq<ParentReply>)
    ensures
        Spawn::after(ports, replies).ports == ports,
    decreases replies.len(),
{
    if replies.len() > 0 {
        lemma_ports_never_change(ports, replies.drop_last());
    }
}

/// The child is attached and confined before it is let go: at every point
/// of every run, a go-ahead that was sent, or is about to be sent, comes
/// after the limits, the maps, the network and all the ports.
pub proof fn lemma_go_ahead_comes_last(run: Spawn)
    requires
        run.wf(),
        run.notified == Some(ParentEvent::InitSuccess) || run.pending == Some(
            ParentAction::Notify(ParentEvent::InitSuccess),
        ),
    ensures
        run.limits_enforced,
        run.maps_installed,
        run.network_ready,
        run.forwarded == run.ports,
{
}

/// One event goes to the child, and one comes back: once an event is
/// sent it stays the event that was sent, and likewise for the event
/// received; an event is only ever due for sending while none was sent.
pub proof fn lemma_one_event_each_way(run: Spawn, reply: ParentReply)
    requires
        run.wf(),
    ensures
        run.notified is Some ==> run.next(reply).notified == run.notified,
        run.heard is Some ==> run.next(reply).heard == run.heard,
        run.pending matches Some(ParentAction::Notify(_)) ==> run.notified is None,
        run.pending == Some(ParentAction::AwaitChild) ==> run.heard is None,
{
}

/// A failure is answered by the event of its stage: when an action fails
/// while the child waits, the next action is to send the child the event
/// that names the stage; without a child, releasing starts at once.
pub proof fn lemma_failure_is_reported(run: Spawn, error: SandboxError)
    requires
        run.wf(),
        run.pending matches Some(action) && answers(action, ParentReply::Failed(error))
            && !is_release(action),
    ensures
        ({
            let next = run.next(ParentReply::Failed(error));
            let stage = stage_of(run.pending->0);
            &&& next.failure == Some(error)
            &&& next.stage == Some(stage)
            &&& run.child ==> next.pending == Some(ParentAction::Notify(failure_event(stage)))
            &&& !run.child ==> next.pending == release_next(
                false,
                run.network,
                run.cgroup,
                run.channel,
                run.pid,
            )
        }),
{
}

/// Giving back is best effort: a release that fails moves the run on as
/// one that succeeds, and leaves the verdict as it was.
pub proof fn lemma_release_failure_is_no_error(run: Spawn, error: SandboxError)
    requires
        run.wf(),
        run.pending matches Some(action) && is_release(action),
    ensures
        run.next(ParentReply::Failed(error)) == run.next(ParentReply::Done),
        run.next(ParentReply::Failed(error)).failure == run.failure,
{
}

/// Every run ends: a reply that answers the due action brings the end
/// strictly closer, and at most `ports + 16` such replies are ever needed.
pub proof fn lemma_run_ends(run: Spawn, reply: ParentReply)
    requires
        run.wf(),
        run.pending matches Some(action) && answers(action, reply),
    ensures
        run.next(reply).remaining() < run.remaining(),
        run.remaining() <= run.ports + 16,
        run.remaining() == 0 <==> run.pending is None,
{
}

/// The name of a stage, as a user reads it.
pub open spec fn stage_name(stage: Stage) -> Seq<char> {
    match stage {
        Stage::Spawn => "payload-spawn"@,
        Stage::CGroup => "cgroup"@,
        Stage::UidGid => "uid-gid"@,
        Stage::Network => "network"@,
        Stage::ChildSetup => "child-setup"@,
    }
}

/// What an error says, with the errno or the helper's status where there
/// is one.
pub open spec fn error_detail(error: SandboxError) -> Seq<char> {
    match error {
        SandboxError::SetupKernel { errno } => "errno "@ + signed_decimal(errno as int),
        SandboxError::ChildProtocol => "the child could not set itself up"@,
        SandboxError::HelperStatus { helper, status: Some(status) } => program_name(helper)
            + " exited with status "@ + signed_decimal(status as int),
        SandboxError::HelperStatus { helper, status: None } => program_name(helper)
            + " was killed by a signal"@,
        SandboxError::HelperNotStarted { helper, errno } => program_name(helper)
            + " could not be started: errno "@ + signed_decimal(errno as int),
        SandboxError::NetworkTimeout { millis } => "no ready signal after "@ + signed_decimal(
            millis as int,
        ) + " ms"@,
        SandboxError::PortRefused { reason } => "port forward refused: "@ + reason@,
        SandboxError::BadReply => "unintelligible reply to a port forward"@,
    }
}

/// The one line that tells a user why no sandbox was built: the stage,
/// a colon, and what went wrong.
pub open spec fn failure_text(stage: Stage, error: SandboxError) -> Seq<char> {
    stage_name(stage) + ": "@ + error_detail(error)
}

/// The one line that tells a user why no sandbox was built.
pub fn failure_line(stage: Stage, error: &SandboxError) -> (line: String)
    ensures
        line@ == failure_text(stage, *error),
{
    let mut line = String::from_str(
        match stage {
            Stage::Spawn => "payload-spawn",
            Stage::CGroup => "cgroup",
            Stage::UidGid => "uid-gid",
            Stage::Network => "network",
            Stage::ChildSetup => "child-setup",
        },
    );
    line.append(": ");
    let ghost head = line@;
    match error {
        SandboxError::SetupKernel { errno } => {
            line.append("errno ");
            push_signed_decimal(&mut line, *errno as i64);
        },
        SandboxError::ChildProtocol => {
            line.append("the child could not set itself up");
        },
        SandboxError::HelperStatus { helper, status: Some(status) } => {
            line.append(program(*helper));
            line.append(" exited with status ");
            push_signed_decimal(&mut line, *status as i64);
        },
        SandboxError::HelperStatus { helper, status: None } => {
            line.append(program(*helper));
            line.append(" was killed by a signal");
        },
        SandboxError::HelperNotStarted { helper, errno } => {
            line.append(program(*helper));
            line.append(" could not be started: errno ");
            push_signed_decimal(&mut line, *errno as i64);
        },
        SandboxError::NetworkTimeout { millis } => {
            line.append("no ready signal after ");
            push_signed_decimal(&mut line, *millis as i64);
            line.append(" ms");
        },
        SandboxError::PortRefused { reason } => {
            line.append("port forward refused: ");
            line.append(reason.as_str());
        },
        SandboxError::BadReply => {
            line.append("unintelligible reply to a port forward");
        },
    }
    assert(line@ =~= head + error_detail(*error));
    line
}

impl Spawn {
    /// The line that reports the failure of a run that was abandoned, or
    /// `None` for a run that was not.
    pub fn report(&self) -> (line: Option<String>)
        requires
            self.wf(),
        ensures
            self.failure is None ==> line is None,
            self.failure is Some ==> line is Some && line->0@ == failure_text(
                self.stage->0,
                self.failure->0,
            ),
    {
        match (&self.stage, &self.failure) {
            (Some(stage), Some(error)) => Some(failure_line(*stage, error)),
            _ => None,
        }
    }
}

} // verus!
