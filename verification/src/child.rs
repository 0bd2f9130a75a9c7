//! The child's side of building a sandbox: what it sets up, in which
//! order, and when it reports back.
//!
//! Like the parent's side this is a state machine that performs nothing
//! itself: it names the action that is due and is told how it ended.

use vstd::prelude::*;
use vstd::string::StringExecFns;
use crate::ipc::ChildEvent;
use crate::ipc::ParentEvent;
use crate::mount_helper::image_plan;
use crate::mount_helper::mount_image;
use crate::mount_helper::mounts;
use crate::mount_helper::mounts_plan;
use crate::mount_helper::FsAction;
use crate::mount_helper::FsActionView;
use crate::sandbox::Signal;

verus! {

/// The number of the capability that allows mounting and unmounting.
pub const CAP_SYS_ADMIN: u32 = 21;

/// The signal that the child asks to be sent when its parent dies, so that
/// it never outlives it. `ChildAction::DieWithParent` asks for it.
pub const PARENT_DEATH_SIGNAL: Signal = Signal::Kill;

/// The status that a child exits with when the sandbox could not be built.
pub const EXIT_FAILURE: i32 = 1;

/// One step of the child's setup.
#[derive(Clone, Debug, PartialEq, Eq)]
pub enum SetupStep {
    /// Set the host name of the new UTS namespace.
    SetHostname { name: String },
    /// Carry out one step of the mount plan.
    Fs(FsAction),
    /// Start a new session, away from the caller's terminal.
    NewSession,
    /// Forbid gaining privileges through set-user-id programs.
    NoNewPrivileges,
    /// Drop a capability from the bounding set.
    DropCapability { capability: u32 },
    /// Close every inherited descriptor that is not kept.
    CloseInheritedFds,
}

/// What a `SetupStep` says, with its texts as character sequences.
pub enum SetupStepView {
    SetHostname { name: Seq<char> },
    Fs(FsActionView),
    NewSession,
    NoNewPrivileges,
    DropCapability { capability: u32 },
    CloseInheritedFds,
}

impl View for SetupStep {
    type V = SetupStepView;

    open spec fn view(&self) -> SetupStepView {
        match *self {
            SetupStep::SetHostname { name } => SetupStepView::SetHostname { name: name@ },
            SetupStep::Fs(action) => SetupStepView::Fs(action@),
            SetupStep::NewSession => SetupStepView::NewSession,
            SetupStep::NoNewPrivileges => SetupStepView::NoNewPrivileges,
            SetupStep::DropCapability { capability } => SetupStepView::DropCapability {
                capability,
            },
            SetupStep::CloseInheritedFds => SetupStepView::CloseInheritedFds,
        }
    }
}

impl DeepView for SetupStep {
    type V = SetupStepView;

    open spec fn deep_view(&self) -> SetupStepView {
        self.view()
    }
}

/// The child's setup, first step to last: the host name, the mount dance
/// into the new root, a new session, no new privileges, no capability to
/// mount or unmount, and no stray descriptor.
pub open spec fn setup_steps(root_fs: Seq<char>) -> Seq<SetupStepView> {
    seq![SetupStepView::SetHostname { name: "container"@ }] + fs_steps(mounts_plan(root_fs))
        + seq![
        SetupStepView::NewSession,
        SetupStepView::NoNewPrivileges,
        SetupStepView::DropCapability { capability: CAP_SYS_ADMIN },
        SetupStepView::CloseInheritedFds,
    ]
}

/// Appends one step to a plan.
fn push_step(plan: &mut Vec<SetupStep>, step: SetupStep)
    ensures
        final(plan).deep_view() == old(plan).deep_view().push(step@),
{
    plan.push(step);
    assert(plan.deep_view() =~= old(plan).deep_view().push(step@));
}

/// The child's setup for the root filesystem at `root_fs`.
pub fn setup_plan(root_fs: &str) -> (plan: Vec<SetupStep>)
    ensures
        plan.deep_view() == setup_steps(root_fs@),
{
    let mut plan: Vec<SetupStep> = Vec::new();
    push_step(&mut plan, SetupStep::SetHostname { name: String::from_str("container") });
    push_fs_steps(&mut plan, mounts(root_fs));
    push_step(&mut plan, SetupStep::NewSession);
    push_step(&mut plan, SetupStep::NoNewPrivileges);
    push_step(&mut plan, SetupStep::DropCapability { capability: CAP_SYS_ADMIN });
    push_step(&mut plan, SetupStep::CloseInheritedFds);
    assert(plan.deep_view() =~= setup_steps(root_fs@));
    plan
}

/// The plan `actions` as setup steps.
pub open spec fn fs_steps(actions: Seq<FsActionView>) -> Seq<SetupStepView> {
    actions.map_values(|action: FsActionView| SetupStepView::Fs(action))
}

/// The child's setup for a root that is yet to be composed from `layers`
/// at `merged`: the setup for the root at `merged`, with the overlay
/// mounted right after propagation is blocked, so that blocking stays the
/// first mount.
pub open spec fn image_setup_steps(layers: Seq<Seq<char>>, merged: Seq<char>) -> Seq<
    SetupStepView,
> {
    setup_steps(merged).take(2) + fs_steps(image_plan(layers, merged)) + setup_steps(merged).skip(2)
}

/// Appends the actions of `actions` to `plan`, as setup steps.
fn push_fs_steps(plan: &mut Vec<SetupStep>, actions: Vec<FsAction>)
    ensures
        final(plan).deep_view() == old(plan).deep_view() + fs_steps(actions.deep_view()),
{
    let ghost added = actions.deep_view();
    let ghost head = plan.deep_view();
    for action in it: actions.into_iter()
        invariant
            it.seq().len() == added.len(),
            forall|k: int| 0 <= k < added.len() ==> (#[trigger] it.seq()[k])@ == added[k],
            plan.deep_view() == head + fs_steps(added.take(it.index() as int)),
    {
        let ghost index = it.index() as int;
        push_step(plan, SetupStep::Fs(action));
        assert(plan.deep_view() =~= head + fs_steps(added.take(index + 1)));
    }
    assert(added.take(added.len() as int) == added);
}

/// The child's setup for a root that is composed from `layers`, base layer
/// first, at `merged`.
pub fn setup_plan_with_image(layers: &[String], merged: &str) -> (plan: Vec<SetupStep>)
    ensures
        plan.deep_view() == image_setup_steps(layers.deep_view(), merged@),
{
    let whole = setup_plan(merged);
    let ghost steps = whole.deep_view();
    proof {
        lemma_setup_drops_mount_capability(merged@);
    }
    let mut plan: Vec<SetupStep> = Vec::new();
    let mut rest: Vec<SetupStep> = Vec::new();
    let mut at: usize = 0;
    for step in it: whole.into_iter()
        invariant
            at == it.index(),
            it.seq().len() == steps.len(),
            steps.len() == 41,
            forall|k: int| 0 <= k < steps.len() ==> (#[trigger] it.seq()[k])@ == steps[k],
            at <= 2 ==> plan.deep_view() == steps.take(at as int) && rest.deep_view()
                == Seq::<SetupStepView>::empty(),
            at > 2 ==> plan.deep_view() == steps.take(2) && rest.deep_view() == steps.subrange(
                2,
                at as int,
            ),
    {
        if at < 2 {
            push_step(&mut plan, step);
            assert(plan.deep_view() =~= steps.take(at + 1));
        } else {
            push_step(&mut rest, step);
            assert(rest.deep_view() =~= steps.subrange(2, at + 1));
        }
        at += 1;
    }
    assert(steps.subrange(2, 41) =~= steps.skip(2));
    push_fs_steps(&mut plan, mount_image(layers, merged));
    let ghost middle = plan.deep_view();
    let ghost tail = rest.deep_view();
    plan.append(&mut rest);
    assert(plan.deep_view() =~= middle + tail);
    plan
}

/// Where the child stands in the protocol.
#[derive(Clone, Copy, Debug, PartialEq, Eq, Structural)]
pub enum ChildState {
    /// Nothing has happened yet.
    PreStart,
    /// The child waits for the parent's event.
    WaitingForParent,
    /// The child works through its setup.
    Configuring,
    /// The setup failed; the failure is being reported.
    SendInitFailed,
    /// The setup is complete; success is being reported.
    SendInitSuccess,
    /// The payload runs.
    RunningPayload,
    /// The child exits without having run the payload.
    ExitFail,
    /// The payload has ended; the child exits with its status.
    Exit,
}

/// One thing for the driver to do on the child's behalf.
#[derive(Clone, Copy, Debug, PartialEq, Eq, Structural)]
pub enum ChildAction {
    /// Arrange to be sent `PARENT_DEATH_SIGNAL` when the parent dies.
    DieWithParent,
    /// Receive the parent's event.
    AwaitParent,
    /// Carry out the setup step with this index.
    Setup { index: usize },
    /// Send this event to the parent.
    Notify(ChildEvent),
    /// Run the payload.
    RunPayload,
}

/// How a child's action ended.
#[derive(Clone, Copy, Debug, PartialEq, Eq, Structural)]
pub enum ChildReply {
    /// The action was carried out.
    Done,
    /// The action failed.
    Failed,
    /// This event arrived from the parent.
    Told(ParentEvent),
    /// The payload ended with this status.
    Exited(i32),
}

/// Whether `reply` is a possible end of `action`.
pub open spec fn child_answers(action: ChildAction, reply: ChildReply) -> bool {
    match action {
        ChildAction::AwaitParent => reply is Told,
        ChildAction::Notify(_) => reply is Done,
        ChildAction::RunPayload => reply is Exited,
        _ => reply is Done || reply is Failed,
    }
}

/// The child's protocol run.
#[derive(Clone, Copy, Debug, PartialEq, Eq, Structural)]
pub struct Child {
    /// The action that is due; `None` once the child is to exit.
    pub pending: Option<ChildAction>,
    /// How many steps the setup has.
    pub steps: usize,
    /// How many of them are done.
    pub done: usize,
    /// The child will be killed when the parent dies.
    pub armed: bool,
    /// Something the child had to do has failed.
    pub failed: bool,
    /// The one event received from the parent, once received.
    pub told: Option<ParentEvent>,
    /// The one event sent to the parent, once sent.
    pub reported: Option<ChildEvent>,
    /// The status to exit with, once the run has ended.
    pub status: Option<i32>,
}

impl Child {
    /// The state of a run that has not begun.
    pub open spec fn initial(steps: usize) -> Child {
        Child {
            pending: Some(ChildAction::DieWithParent),
            steps,
            done: 0,
            armed: false,
            failed: false,
            told: None,
            reported: None,
            status: None,
        }
    }

    /// The coarse state that the run is in.
    pub open spec fn state(self) -> ChildState {
        match self.pending {
            Some(ChildAction::DieWithParent) => ChildState::PreStart,
            Some(ChildAction::AwaitParent) => ChildState::WaitingForParent,
            Some(ChildAction::Setup { .. }) => ChildState::Configuring,
            Some(ChildAction::Notify(ChildEvent::InitFailed)) => ChildState::SendInitFailed,
            Some(ChildAction::Notify(ChildEvent::InitSuccess)) => ChildState::SendInitSuccess,
            Some(ChildAction::RunPayload) => ChildState::RunningPayload,
            None => if self.reported == Some(ChildEvent::InitSuccess) {
                ChildState::Exit
            } else {
                ChildState::ExitFail
            },
        }
    }

    /// What is known of a run at every point.
    pub open spec fn wf(self) -> bool {
        &&& self.done <= self.steps
        &&& (self.status is Some <==> self.pending is None)
        &&& (self.reported is Some ==> self.told == Some(ParentEvent::InitSuccess))
        &&& (self.reported == Some(ChildEvent::InitSuccess) ==> self.done == self.steps
            && self.armed && !self.failed)
        &&& (self.reported == Some(ChildEvent::InitFailed) ==> self.failed)
        &&& (self.done > 0 ==> self.told == Some(ParentEvent::InitSuccess) && self.armed)
        &&& (self.told is Some && self.told->0.is_failure() ==> self.pending is None
            && self.reported is None && self.done == 0)
        &&& match self.pending {
            Some(ChildAction::DieWithParent) => self == Child::initial(self.steps),
            Some(ChildAction::AwaitParent) => self.told is None && self.reported is None
                && self.done == 0 && (self.armed <==> !self.failed),
            Some(ChildAction::Setup { index }) => index == self.done && index < self.steps
                && self.told == Some(ParentEvent::InitSuccess) && self.armed && !self.failed
                && self.reported is None,
            Some(ChildAction::Notify(ChildEvent::InitFailed)) => self.failed && self.told == Some(
                ParentEvent::InitSuccess,
            ) && self.reported is None,
            Some(ChildAction::Notify(ChildEvent::InitSuccess)) => self.done == self.steps
                && self.armed && !self.failed && self.told == Some(ParentEvent::InitSuccess)
                && self.reported is None,
            Some(ChildAction::RunPayload) => self.reported == Some(ChildEvent::InitSuccess),
            None => self.told is Some && (self.told == Some(ParentEvent::InitSuccess)
                ==> self.reported is Some) && (self.reported != Some(ChildEvent::InitSuccess)
                ==> self.status == Some(EXIT_FAILURE)),
        }
    }

    /// What is due once `done` setup steps are done: the next step, or the
    /// report of success when none is left.
    pub open spec fn after_step(self, done: usize) -> ChildAction {
        if done < self.steps {
            ChildAction::Setup { index: done }
        } else {
            ChildAction::Notify(ChildEvent::InitSuccess)
        }
    }

    /// The run after the due action ended with `reply`. A run that has
    /// ended stays as it is, and a reply that does not answer the due action
    /// changes nothing.
    pub open spec fn next(self, reply: ChildReply) -> Child {
        match self.pending {
            None => self,
            Some(action) => if !child_answers(action, reply) {
                self
            } else {
                match action {
                    ChildAction::DieWithParent => Child {
                        pending: Some(ChildAction::AwaitParent),
                        armed: reply is Done,
                        failed: reply is Failed,
                        ..self
                    },
                    ChildAction::AwaitParent => {
                        let event = reply->Told_0;
                        if event.is_failure() {
                            Child {
                                pending: None,
                                told: Some(event),
                                status: Some(EXIT_FAILURE),
                                ..self
                            }
                        } else if self.failed {
                            Child {
                                pending: Some(ChildAction::Notify(ChildEvent::InitFailed)),
                                told: Some(event),
                                ..self
                            }
                        } else {
                            Child { pending: Some(self.after_step(0)), told: Some(event), ..self }
                        }
                    },
                    ChildAction::Setup { index } => if reply is Failed {
                        Child {
                            pending: Some(ChildAction::Notify(ChildEvent::InitFailed)),
                            failed: true,
                            ..self
                        }
                    } else {
                        Child {
                            pending: Some(self.after_step((index + 1) as usize)),
                            done: (index + 1) as usize,
                            ..self
                        }
                    },
                    ChildAction::Notify(event) => if event == ChildEvent::InitSuccess {
                        Child {
                            pending: Some(ChildAction::RunPayload),
                            reported: Some(event),
                            ..self
                        }
                    } else {
                        Child {
                            pending: None,
                            reported: Some(event),
                            status: Some(EXIT_FAILURE),
                            ..self
                        }
                    },
                    ChildAction::RunPayload => Child {
                        pending: None,
                        status: Some(reply->Exited_0),
                        ..self
                    },
                }
            },
        }
    }

    /// The run that `replies` lead to, one after the other, from the start.
    pub open spec fn after(steps: usize, replies: Seq<ChildReply>) -> Child
        decreases replies.len(),
    {
        if replies.len() == 0 {
            Child::initial(steps)
        } else {
            Child::after(steps, replies.drop_last()).next(replies.last())
        }
    }

    /// A run that has not begun, for a setup of `steps` steps.
    pub fn new(steps: usize) -> (run: Child)
        ensures
            run == Child::initial(steps),
            run.wf(),
            run.state() == ChildState::PreStart,
    {
        Child {
            pending: Some(ChildAction::DieWithParent),
            steps,
            done: 0,
            armed: false,
            failed: false,
            told: None,
            reported: None,
            status: None,
        }
    }

    /// The action that is due, or `None` once the child is to exit.
    pub fn action(&self) -> (due: Option<ChildAction>)
        ensures
            due == self.pending,
    {
        self.pending
    }

    /// The status to exit with, once the run has ended.
    pub fn exit_status(&self) -> (status: Option<i32>)
        ensures
            status == self.status,
    {
        self.status
    }

    /// The coarse state of the run.
    pub fn current(&self) -> (state: ChildState)
        ensures
            state == self.state(),
    {
        match self.pending {
            Some(ChildAction::DieWithParent) => ChildState::PreStart,
            Some(ChildAction::AwaitParent) => ChildState::WaitingForParent,
            Some(ChildAction::Setup { .. }) => ChildState::Configuring,
            Some(ChildAction::Notify(ChildEvent::InitFailed)) => ChildState::SendInitFailed,
            Some(ChildAction::Notify(ChildEvent::InitSuccess)) => ChildState::SendInitSuccess,
            Some(ChildAction::RunPayload) => ChildState::RunningPayload,
            None => match self.reported {
                Some(ChildEvent::InitSuccess) => ChildState::Exit,
                _ => ChildState::ExitFail,
            },
        }
    }

    /// What is due once `done` setup steps are done.
    fn step_or_report(&self, done: usize) -> (due: ChildAction)
        ensures
            due == self.after_step(done),
    {
        if done < self.steps {
            ChildAction::Setup { index: done }
        } else {
            ChildAction::Notify(ChildEvent::InitSuccess)
        }
    }

    /// Takes note of how the due action ended and moves to what is due next.
    pub fn advance(&mut self, reply: ChildReply)
        requires
            old(self).wf(),
        ensures
            *final(self) == old(self).next(reply),
            final(self).wf(),
    {
        let action = match self.pending {
            None => {
                return ;
            },
            Some(action) => action,
        };
        match (action, reply) {
            (ChildAction::DieWithParent, ChildReply::Done) => {
                self.pending = Some(ChildAction::AwaitParent);
                self.armed = true;
                self.failed = false;
            },
            (ChildAction::DieWithParent, ChildReply::Failed) => {
                self.pending = Some(ChildAction::AwaitParent);
                self.armed = false;
                self.failed = true;
            },
            (ChildAction::AwaitParent, ChildReply::Told(event)) => {
                self.told = Some(event);
                if event.reports_failure() {
                    self.pending = None;
                    self.status = Some(EXIT_FAILURE);
                } else if self.failed {
                    self.pending = Some(ChildAction::Notify(ChildEvent::InitFailed));
                } else {
                    self.pending = Some(self.step_or_report(0));
                }
            },
            (ChildAction::Setup { .. }, ChildReply::Failed) => {
                self.pending = Some(ChildAction::Notify(ChildEvent::InitFailed));
                self.failed = true;
            },
            (ChildAction::Setup { index }, ChildReply::Done) => {
                self.pending = Some(self.step_or_report(index + 1));
                self.done = index + 1;
            },
            (ChildAction::Notify(ChildEvent::InitSuccess), ChildReply::Done) => {
                self.pending = Some(ChildAction::RunPayload);
                self.reported = Some(ChildEvent::InitSuccess);
            },
            (ChildAction::Notify(ChildEvent::InitFailed), ChildReply::Done) => {
                self.pending = None;
                self.reported = Some(ChildEvent::InitFailed);
                self.status = Some(EXIT_FAILURE);
            },
            (ChildAction::RunPayload, ChildReply::Exited(status)) => {
                self.pending = None;
                self.status = Some(status);
            },
            _ => {},
        }
    }
}

/// Whether `reply` is a possible end of `action`.
pub fn child_fits(action: ChildAction, reply: ChildReply) -> (ok: bool)
    ensures
        ok == child_answers(action, reply),
{
    match action {
        ChildAction::AwaitParent => match reply {
            ChildReply::Told(_) => true,
            _ => false,
        },
        ChildAction::Notify(_) => match reply {
            ChildReply::Done => true,
            _ => false,
        },
        ChildAction::RunPayload => match reply {
            ChildReply::Exited(_) => true,
            _ => false,
        },
        _ => match reply {
            ChildReply::Done | ChildReply::Failed => true,
            _ => false,
        },
    }
}

/// A step keeps what is known of a run.
pub proof fn lemma_child_step_keeps_wf(run: Child, reply: ChildReply)
    requires
        run.wf(),
    ensures
        run.next(reply).wf(),
{
}

/// Whatever the replies, the run they lead to is well formed.
pub proof fn lemma_every_child_run_wf(steps: usize, replies: Seq<ChildReply>)
    ensures
        Child::after(steps, replies).wf(),
        Child::after(steps, replies).steps == steps,
    decreases replies.len(),
{
    if replies.len() > 0 {
        lemma_every_child_run_wf(steps, replies.drop_last());
        lemma_child_step_keeps_wf(Child::after(steps, replies.drop_last()), replies.last());
    }
}

/// Success is reported, and the payload run, only after the whole setup:
/// whatever the replies, a run that reports success, runs the payload or
/// has run it was told to go ahead by the parent, is bound to die with it,
/// and has carried out every step of its setup without a failure.
pub proof fn lemma_payload_runs_after_setup(steps: usize, replies: Seq<ChildReply>)
    requires
        ({
            let state = Child::after(steps, replies).state();
            state == ChildState::SendInitSuccess || state == ChildState::RunningPayload || state
                == ChildState::Exit
        }),
    ensures
        ({
            let run = Child::after(steps, replies);
            &&& run.told == Some(ParentEvent::InitSuccess)
            &&& run.armed
            &&& !run.failed
            &&& run.done == steps
        }),
{
    lemma_every_child_run_wf(steps, replies);
}

/// A child that cannot be set up exits with a failure status and never runs
/// the payload: whatever the replies, a run that ends in `ExitFail` exits
/// with `EXIT_FAILURE`, after a failure event from the parent, to which it
/// answers nothing, or after reporting its own failure once.
pub proof fn lemma_failed_child_exits_nonzero(steps: usize, replies: Seq<ChildReply>)
    requires
        Child::after(steps, replies).state() == ChildState::ExitFail,
    ensures
        ({
            let run = Child::after(steps, replies);
            &&& run.status == Some(EXIT_FAILURE)
            &&& run.told is Some
            &&& run.told->0.is_failure() ==> run.reported is None
            &&& !run.told->0.is_failure() ==> run.reported == Some(ChildEvent::InitFailed)
        }),
{
    lemma_every_child_run_wf(steps, replies);
}

/// The child does nothing before it hears from the parent, and gives up at
/// once when the parent failed: no setup step is due or done while no event
/// has arrived, and a failure event ends the run with nothing sent.
pub proof fn lemma_child_waits_for_parent(run: Child, event: ParentEvent)
    requires
        run.wf(),
        run.pending == Some(ChildAction::AwaitParent),
    ensures
        run.done == 0,
        event.is_failure() ==> run.next(ChildReply::Told(event)).pending is None && run.next(
            ChildReply::Told(event),
        ).status == Some(EXIT_FAILURE) && run.next(ChildReply::Told(event)).reported is None,
{
}

/// A setup error is reported once and never retried: when a step fails,
/// the report of failure is due next, and the report ends the run.
pub proof fn lemma_setup_error_is_reported(run: Child)
    requires
        run.wf(),
        run.pending matches Some(ChildAction::Setup { .. }),
    ensures
        ({
            let failed = run.next(ChildReply::Failed);
            &&& failed.pending == Some(ChildAction::Notify(ChildEvent::InitFailed))
            &&& failed.done == run.done
            &&& failed.next(ChildReply::Done).pending is None
            &&& failed.next(ChildReply::Done).status == Some(EXIT_FAILURE)
            &&& failed.next(ChildReply::Done).reported == Some(ChildEvent::InitFailed)
        }),
{
}

/// One event comes from the parent and at most one goes back: once
/// received, or sent, an event stays what it is.
pub proof fn lemma_child_one_event_each_way(run: Child, reply: ChildReply)
    requires
        run.wf(),
    ensures
        run.told is Some ==> run.next(reply).told == run.told,
        run.reported is Some ==> run.next(reply).reported == run.reported,
        run.pending matches Some(ChildAction::Notify(_)) ==> run.reported is None,
        run.pending == Some(ChildAction::AwaitParent) ==> run.told is None,
{
}

/// The sandbox cannot undo its own mounts: the setup drops the capability
/// to mount and unmount, after forbidding new privileges, and both come
/// after the pivot into the new root.
pub proof fn lemma_setup_drops_mount_capability(root_fs: Seq<char>)
    ensures
        ({
            let steps = setup_steps(root_fs);
            &&& steps.len() == 41
            &&& steps[0] == SetupStepView::SetHostname { name: "container"@ }
            &&& steps[36] == SetupStepView::Fs(FsActionView::Detach { target: "."@ })
            &&& steps[37] == SetupStepView::NewSession
            &&& steps[38] == SetupStepView::NoNewPrivileges
            &&& steps[39] == SetupStepView::DropCapability { capability: CAP_SYS_ADMIN }
            &&& steps[40] == SetupStepView::CloseInheritedFds
        }),
{
    crate::mount_helper::lemma_mounts_is_framed(root_fs);
    let plan = mounts_plan(root_fs);
    let dance = plan.map_values(|action: FsActionView| SetupStepView::Fs(action));
    let head = seq![SetupStepView::SetHostname { name: "container"@ }];
    let tail = seq![
        SetupStepView::NewSession,
        SetupStepView::NoNewPrivileges,
        SetupStepView::DropCapability { capability: CAP_SYS_ADMIN },
        SetupStepView::CloseInheritedFds,
    ];
    assert(plan.len() == 36);
    assert(plan[35] == plan.subrange(33, 36)[2]);
    assert(plan[35] == FsActionView::Detach { target: "."@ });
    assert(dance.len() == 36);
    assert(dance[35] == SetupStepView::Fs(plan[35]));
    let steps = head + dance + tail;
    assert(steps == setup_steps(root_fs));
    assert(steps.len() == 41);
    assert(steps[0] == head[0]);
    assert(steps[36] == dance[35]);
    assert(steps[37] == tail[0]);
    assert(steps[38] == tail[1]);
    assert(steps[39] == tail[2]);
    assert(steps[40] == tail[3]);
}

/// Composing the root first changes nothing else: blocking propagation
/// stays the first mount, the overlay follows at once, and the rest of the
/// setup goes on as for a root that exists.
pub proof fn lemma_image_setup_blocks_first(layers: Seq<Seq<char>>, merged: Seq<char>)
    ensures
        ({
            let steps = image_setup_steps(layers, merged);
            &&& steps.len() == 44
            &&& steps[0] == SetupStepView::SetHostname { name: "container"@ }
            &&& steps[1] == SetupStepView::Fs(
                FsActionView::Mount(crate::mount_helper::propagation_block()),
            )
            &&& steps.subrange(2, 5) == fs_steps(image_plan(layers, merged))
            &&& steps.skip(5) == setup_steps(merged).skip(2)
        }),
{
    lemma_setup_drops_mount_capability(merged);
    crate::mount_helper::lemma_mounts_is_framed(merged);
    let whole = setup_steps(merged);
    let plan = mounts_plan(merged);
    let dance = fs_steps(plan);
    let head = seq![SetupStepView::SetHostname { name: "container"@ }];
    assert(dance.len() == 36);
    assert(whole[1] == (head + dance)[1]);
    assert(dance[0] == SetupStepView::Fs(plan[0]));
    let image = fs_steps(image_plan(layers, merged));
    assert(image.len() == 3);
    let steps = image_setup_steps(layers, merged);
    assert(steps.len() == 44);
    assert(steps[0] == whole[0]);
    assert(steps[1] == whole[1]);
    assert(steps.subrange(2, 5) =~= image);
    assert(steps.skip(5) =~= whole.skip(2));
}

} // verus!
