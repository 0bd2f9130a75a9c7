use dabba::sandbox::failure_line;
use dabba::child::setup_plan;
use dabba::child::Child;
use dabba::child::ChildAction;
use dabba::child::ChildReply;
use dabba::child::ChildState;
use dabba::child::SetupStep;
use dabba::child::CAP_SYS_ADMIN;
use dabba::child::EXIT_FAILURE;
use dabba::error::ErrorKind;
use dabba::error::MapCmd;
use dabba::error::SandboxError;
use dabba::error::Stage;
use dabba::ipc::ChildEvent;
use dabba::ipc::Ipc;
use dabba::ipc::ParentEvent;
use dabba::ipc::Pipe;
use dabba::ipc::Side;
use dabba::ipc::PARENT_BASE;
use dabba::mount_helper::FsAction;
use dabba::sandbox::fits;
use dabba::sandbox::namespaces;
use dabba::sandbox::Namespace;
use dabba::sandbox::ParentAction;
use dabba::sandbox::ParentReply;
use dabba::sandbox::ParentState;
use dabba::sandbox::Sandbox;
use dabba::sandbox::Spawn;

/// Drives a run with `Done` (and the given pid and child event) until the
/// action at which `fail_at` says to fail, and records every action.
fn drive(ports: usize, fail_at: Option<(ParentAction, SandboxError)>, heard: ChildEvent) -> (Spawn, Vec<ParentAction>) {
    let mut run = Spawn::new(ports);
    let mut trace = Vec::new();
    while let Some(action) = run.action() {
        trace.push(action);
        let reply = match (&fail_at, action) {
            (Some((at, error)), action) if *at == action && run.failure.is_none() => {
                ParentReply::Failed(error.clone())
            }
            (_, ParentAction::CloneChild) => ParentReply::Cloned(4242),
            (_, ParentAction::AwaitChild) => ParentReply::Heard(heard),
            _ => ParentReply::Done,
        };
        assert!(fits(action, &reply));
        run.advance(reply);
        assert!(trace.len() < 100);
    }
    (run, trace)
}

#[test]
fn child_codes_are_zero_and_one() {
    assert_eq!(ChildEvent::InitFailed.code(), 0);
    assert_eq!(ChildEvent::InitSuccess.code(), 1);
}

#[test]
fn parent_codes_start_at_128() {
    assert_eq!(PARENT_BASE, 128);
    assert_eq!(ParentEvent::SlirpFailure.code(), 128);
    assert_eq!(ParentEvent::UidGidMapFailure.code(), 129);
    assert_eq!(ParentEvent::InitSuccess.code(), 130);
    assert_eq!(ParentEvent::CGroupFailure.code(), 131);
}

#[test]
fn every_byte_decodes_on_one_side_at_most() {
    for byte in 0..=255u8 {
        let child = ChildEvent::from_code(byte);
        let parent = ParentEvent::from_code(byte);
        assert!(child.is_none() || parent.is_none());
        if let Some(event) = child {
            assert!(byte < PARENT_BASE);
            assert_eq!(event.code(), byte);
        }
        if let Some(event) = parent {
            assert!(byte >= PARENT_BASE);
            assert_eq!(event.code(), byte);
        }
    }
    assert_eq!(ChildEvent::from_code(2), None);
    assert_eq!(ParentEvent::from_code(127), None);
    assert_eq!(ParentEvent::from_code(132), None);
    assert_eq!(ParentEvent::from_code(255), None);
}

#[test]
fn events_travel_in_one_byte() {
    assert_eq!(ChildEvent::InitSuccess.encode(), [1u8]);
    assert_eq!(ParentEvent::CGroupFailure.encode(), [131u8]);
    assert_eq!(ChildEvent::decode([0]), Some(ChildEvent::InitFailed));
    assert_eq!(ParentEvent::decode([130]), Some(ParentEvent::InitSuccess));
    assert_eq!(ParentEvent::decode([1]), None);
    assert_eq!(ChildEvent::decode([130]), None);
    for event in [
        ParentEvent::SlirpFailure,
        ParentEvent::UidGidMapFailure,
        ParentEvent::InitSuccess,
        ParentEvent::CGroupFailure,
    ] {
        assert_eq!(ParentEvent::decode(event.encode()), Some(event));
        assert_eq!(event.reports_failure(), event != ParentEvent::InitSuccess);
    }
}

#[test]
fn each_side_keeps_its_two_ends() {
    let channel = Ipc::new(Pipe { read: 3, write: 4 }, Pipe { read: 5, write: 6 });
    assert_eq!(channel.send_fd(Side::Parent), 4);
    assert_eq!(channel.recv_fd(Side::Child), 3);
    assert_eq!(channel.send_fd(Side::Child), 6);
    assert_eq!(channel.recv_fd(Side::Parent), 5);
    assert_eq!(channel.used(Side::Parent), [5, 4]);
    assert_eq!(channel.unused(Side::Parent), [3, 6]);
    assert_eq!(channel.used(Side::Child), [3, 6]);
    assert_eq!(channel.unused(Side::Child), [5, 4]);
    assert_eq!(channel.send_from_parent(ParentEvent::InitSuccess), (4, [130]));
    assert_eq!(channel.send_from_child(ChildEvent::InitFailed), (6, [0]));
    assert_eq!(channel.recv_in_parent([0]), ChildEvent::InitFailed);
    assert_eq!(channel.recv_in_parent([1]), ChildEvent::InitSuccess);
    assert_eq!(channel.recv_in_child([128]), ParentEvent::SlirpFailure);
    assert_eq!(channel.recv_in_child([129]), ParentEvent::UidGidMapFailure);
    assert_eq!(channel.recv_in_child([130]), ParentEvent::InitSuccess);
    assert_eq!(channel.recv_in_child([131]), ParentEvent::CGroupFailure);
    assert_eq!(ChildEvent::decode([130]), None);
    assert_eq!(ParentEvent::decode([255]), None);
    assert_eq!(Sandbox::spawn(3), Spawn::new(3));
}

#[test]
fn child_gets_seven_namespaces() {
    assert_eq!(
        namespaces(),
        vec![
            Namespace::Mount,
            Namespace::User,
            Namespace::Pid,
            Namespace::Net,
            Namespace::Ipc,
            Namespace::Uts,
            Namespace::Cgroup,
        ]
    );
}

#[test]
fn happy_path_yields_a_handle() {
    let (run, trace) = drive(2, None, ChildEvent::InitSuccess);
    assert_eq!(
        trace,
        vec![
            ParentAction::OpenChannel,
            ParentAction::CreateCGroup,
            ParentAction::CloneChild,
            ParentAction::EnforceLimits { pid: 4242 },
            ParentAction::InstallMaps { pid: 4242 },
            ParentAction::StartNetwork { pid: 4242 },
            ParentAction::AwaitNetwork,
            ParentAction::ExposePort { index: 0 },
            ParentAction::ExposePort { index: 1 },
            ParentAction::Notify(ParentEvent::InitSuccess),
            ParentAction::AwaitChild,
            ParentAction::CloseChannel,
        ]
    );
    assert_eq!(run.current(), ParentState::Handle);
    assert!(run.child && run.cgroup && run.network && !run.channel);
    assert_eq!(run.forwarded, 2);
    assert_eq!(run.finish(), Some(Ok(Sandbox { pid: 4242, ports: 2 })));
}

#[test]
fn states_follow_the_protocol() {
    let mut run = Spawn::new(1);
    let mut seen = vec![run.current()];
    let replies = [
        ParentReply::Done,
        ParentReply::Done,
        ParentReply::Cloned(7),
        ParentReply::Done,
        ParentReply::Done,
        ParentReply::Done,
        ParentReply::Done,
        ParentReply::Done,
        ParentReply::Done,
        ParentReply::Heard(ChildEvent::InitSuccess),
        ParentReply::Done,
    ];
    for reply in replies {
        run.advance(reply);
        seen.push(run.current());
    }
    assert_eq!(
        seen,
        vec![
            ParentState::PreSpawn,
            ParentState::PreSpawn,
            ParentState::PreSpawn,
            ParentState::Cloned,
            ParentState::MapsInstalled,
            ParentState::NetReady,
            ParentState::NetReady,
            ParentState::PortsForwarded,
            ParentState::Signalled,
            ParentState::Signalled,
            ParentState::Signalled,
            ParentState::Handle,
        ]
    );
}

#[test]
fn cgroup_directory_failure_spawns_nothing() {
    let error = SandboxError::SetupKernel { errno: 2 };
    let (run, trace) = drive(0, Some((ParentAction::CreateCGroup, error.clone())), ChildEvent::InitSuccess);
    assert_eq!(
        trace,
        vec![ParentAction::OpenChannel, ParentAction::CreateCGroup, ParentAction::CloseChannel]
    );
    assert_eq!(run.current(), ParentState::Error);
    assert_eq!(run.stage, Some(Stage::CGroup));
    assert!(!run.cloned && !run.child && !run.network && !run.cgroup && !run.channel);
    assert_eq!(run.finish(), Some(Err(error)));
}

#[test]
fn clone_failure_removes_the_cgroup() {
    let error = SandboxError::SetupKernel { errno: 1 };
    let (run, trace) = drive(0, Some((ParentAction::CloneChild, error.clone())), ChildEvent::InitSuccess);
    assert_eq!(
        trace,
        vec![
            ParentAction::OpenChannel,
            ParentAction::CreateCGroup,
            ParentAction::CloneChild,
            ParentAction::RemoveCGroup,
            ParentAction::CloseChannel,
        ]
    );
    assert_eq!(run.notified, None);
    assert_eq!(run.stage, Some(Stage::Spawn));
    assert_eq!(run.finish(), Some(Err(error)));
}

#[test]
fn limit_failure_tells_the_child_and_unwinds() {
    let error = SandboxError::SetupKernel { errno: 13 };
    let (run, trace) = drive(1, Some((ParentAction::EnforceLimits { pid: 4242 }, error.clone())), ChildEvent::InitSuccess);
    assert_eq!(
        trace[3..],
        [
            ParentAction::EnforceLimits { pid: 4242 },
            ParentAction::Notify(ParentEvent::CGroupFailure),
            ParentAction::ReapChild { pid: 4242 },
            ParentAction::RemoveCGroup,
            ParentAction::CloseChannel,
        ]
    );
    assert_eq!(run.stage, Some(Stage::CGroup));
    assert_eq!(run.notified, Some(ParentEvent::CGroupFailure));
    assert_eq!(run.current(), ParentState::Error);
    assert_eq!(run.finish(), Some(Err(error)));
}

#[test]
fn map_failure_never_starts_the_network() {
    let error = SandboxError::HelperStatus { helper: MapCmd::UidMap, status: Some(1) };
    let (run, trace) = drive(1, Some((ParentAction::InstallMaps { pid: 4242 }, error.clone())), ChildEvent::InitSuccess);
    assert_eq!(
        trace[4..],
        [
            ParentAction::InstallMaps { pid: 4242 },
            ParentAction::Notify(ParentEvent::UidGidMapFailure),
            ParentAction::ReapChild { pid: 4242 },
            ParentAction::RemoveCGroup,
            ParentAction::CloseChannel,
        ]
    );
    assert!(!trace.contains(&ParentAction::StartNetwork { pid: 4242 }));
    assert_eq!(error.kind(), ErrorKind::HelperProcess);
    assert_eq!(run.finish(), Some(Err(error)));
}

#[test]
fn network_timeout_stops_the_helper() {
    let error = SandboxError::NetworkTimeout { millis: 1000 };
    let (run, trace) = drive(1, Some((ParentAction::AwaitNetwork, error.clone())), ChildEvent::InitSuccess);
    assert_eq!(
        trace[6..],
        [
            ParentAction::AwaitNetwork,
            ParentAction::Notify(ParentEvent::SlirpFailure),
            ParentAction::ReapChild { pid: 4242 },
            ParentAction::StopNetwork,
            ParentAction::RemoveCGroup,
            ParentAction::CloseChannel,
        ]
    );
    assert_eq!(run.stage, Some(Stage::Network));
    assert_eq!(run.finish(), Some(Err(error)));
}

#[test]
fn refused_port_is_fatal() {
    let error = SandboxError::PortRefused { reason: String::from("\"busy\"") };
    let (run, trace) = drive(3, Some((ParentAction::ExposePort { index: 1 }, error.clone())), ChildEvent::InitSuccess);
    assert_eq!(
        trace[7..],
        [
            ParentAction::ExposePort { index: 0 },
            ParentAction::ExposePort { index: 1 },
            ParentAction::Notify(ParentEvent::SlirpFailure),
            ParentAction::ReapChild { pid: 4242 },
            ParentAction::StopNetwork,
            ParentAction::RemoveCGroup,
            ParentAction::CloseChannel,
        ]
    );
    assert_eq!(run.forwarded, 1);
    assert_eq!(run.finish(), Some(Err(error)));
}

#[test]
fn child_failure_is_a_protocol_error() {
    let (run, trace) = drive(0, None, ChildEvent::InitFailed);
    assert_eq!(
        trace[7..],
        [
            ParentAction::Notify(ParentEvent::InitSuccess),
            ParentAction::AwaitChild,
            ParentAction::ReapChild { pid: 4242 },
            ParentAction::StopNetwork,
            ParentAction::RemoveCGroup,
            ParentAction::CloseChannel,
        ]
    );
    assert_eq!(run.stage, Some(Stage::ChildSetup));
    assert_eq!(run.failure.as_ref().map(|e| e.kind()), Some(ErrorKind::ChildProtocol));
    assert_eq!(run.finish(), Some(Err(SandboxError::ChildProtocol)));
}

#[test]
fn stray_replies_change_nothing() {
    let mut run = Spawn::new(0);
    let before = run.clone();
    run.advance(ParentReply::Heard(ChildEvent::InitSuccess));
    assert_eq!(run, before);
    run.advance(ParentReply::Cloned(5));
    assert_eq!(run, before);
    assert_eq!(run.clone().finish(), None);
    let (mut ended, _) = drive(0, None, ChildEvent::InitSuccess);
    let at_end = ended.clone();
    ended.advance(ParentReply::Failed(SandboxError::BadReply));
    assert_eq!(ended, at_end);
}

#[test]
fn failed_release_is_only_a_warning() {
    let error = SandboxError::SetupKernel { errno: 13 };
    let mut run = Spawn::new(0);
    let mut trace = Vec::new();
    while let Some(action) = run.action() {
        trace.push(action);
        let reply = match action {
            ParentAction::CloneChild => ParentReply::Cloned(9),
            ParentAction::EnforceLimits { .. } => ParentReply::Failed(error.clone()),
            ParentAction::RemoveCGroup | ParentAction::CloseChannel => {
                ParentReply::Failed(SandboxError::SetupKernel { errno: 16 })
            }
            _ => ParentReply::Done,
        };
        assert!(fits(action, &reply));
        run.advance(reply);
        assert!(trace.len() < 100);
    }
    assert_eq!(
        trace[4..],
        [
            ParentAction::Notify(ParentEvent::CGroupFailure),
            ParentAction::ReapChild { pid: 9 },
            ParentAction::RemoveCGroup,
            ParentAction::CloseChannel,
        ]
    );
    assert_eq!(run.report().as_deref(), Some("cgroup: errno 13"));
    assert_eq!(run.finish(), Some(Err(error)));
    assert!(!fits(ParentAction::ReapChild { pid: 9 }, &ParentReply::Failed(SandboxError::BadReply)));
    assert!(!fits(ParentAction::Notify(ParentEvent::InitSuccess), &ParentReply::Failed(SandboxError::BadReply)));
    assert!(!fits(ParentAction::AwaitChild, &ParentReply::Done));
    assert!(!fits(ParentAction::CloneChild, &ParentReply::Done));
}

#[test]
fn failure_lines_name_the_stage() {
    assert_eq!(failure_line(Stage::Spawn, &SandboxError::SetupKernel { errno: 2 }), "payload-spawn: errno 2");
    assert_eq!(failure_line(Stage::CGroup, &SandboxError::SetupKernel { errno: -1 }), "cgroup: errno -1");
    assert_eq!(
        failure_line(Stage::UidGid, &SandboxError::HelperStatus { helper: MapCmd::UidMap, status: Some(1) }),
        "uid-gid: newuidmap exited with status 1"
    );
    assert_eq!(
        failure_line(Stage::UidGid, &SandboxError::HelperStatus { helper: MapCmd::GidMap, status: None }),
        "uid-gid: newgidmap was killed by a signal"
    );
    assert_eq!(
        failure_line(Stage::UidGid, &SandboxError::HelperNotStarted { helper: MapCmd::UidMap, errno: 2 }),
        "uid-gid: newuidmap could not be started: errno 2"
    );
    assert_eq!(failure_line(Stage::CGroup, &SandboxError::SetupKernel { errno: 2 }), "cgroup: errno 2");
    assert_eq!(
        failure_line(Stage::Network, &SandboxError::NetworkTimeout { millis: 1000 }),
        "network: no ready signal after 1000 ms"
    );
    assert_eq!(
        failure_line(Stage::Network, &SandboxError::PortRefused { reason: String::from("\"busy\"") }),
        "network: port forward refused: \"busy\""
    );
    assert_eq!(
        failure_line(Stage::Network, &SandboxError::BadReply),
        "network: unintelligible reply to a port forward"
    );
    assert_eq!(
        failure_line(Stage::ChildSetup, &SandboxError::ChildProtocol),
        "child-setup: the child could not set itself up"
    );
    assert_eq!(Spawn::new(0).report(), None);
}

#[test]
fn discarding_stops_the_helper_first() {
    let sandbox = Sandbox { pid: 99, ports: 0 };
    assert_eq!(
        sandbox.discard(),
        vec![ParentAction::StopNetwork, ParentAction::ReapChild { pid: 99 }, ParentAction::RemoveCGroup]
    );
}

#[test]
fn joining_reaps_then_releases() {
    let sandbox = Sandbox { pid: 99, ports: 0 };
    assert_eq!(
        sandbox.wait(),
        vec![ParentAction::ReapChild { pid: 99 }, ParentAction::StopNetwork, ParentAction::RemoveCGroup]
    );
}

#[test]
fn error_kinds() {
    assert_eq!(SandboxError::SetupKernel { errno: 2 }.kind(), ErrorKind::SetupKernel);
    assert_eq!(SandboxError::ChildProtocol.kind(), ErrorKind::ChildProtocol);
    assert_eq!(SandboxError::BadReply.kind(), ErrorKind::HelperProcess);
    assert_eq!(SandboxError::NetworkTimeout { millis: 1000 }.kind(), ErrorKind::HelperProcess);
    assert_eq!(
        SandboxError::HelperStatus { helper: MapCmd::GidMap, status: None }.kind(),
        ErrorKind::HelperProcess
    );
    assert_eq!(
        SandboxError::HelperNotStarted { helper: MapCmd::UidMap, errno: 2 }.kind(),
        ErrorKind::HelperProcess
    );
}

fn child_trace(steps: usize, replies: &[ChildReply]) -> (Child, Vec<ChildAction>) {
    let mut run = Child::new(steps);
    let mut trace = Vec::new();
    for reply in replies {
        if let Some(action) = run.action() {
            trace.push(action);
        }
        run.advance(*reply);
    }
    (run, trace)
}

#[test]
fn child_runs_payload_after_setup() {
    let (run, trace) = child_trace(
        2,
        &[
            ChildReply::Done,
            ChildReply::Told(ParentEvent::InitSuccess),
            ChildReply::Done,
            ChildReply::Done,
            ChildReply::Done,
            ChildReply::Exited(3),
        ],
    );
    assert_eq!(
        trace,
        vec![
            ChildAction::DieWithParent,
            ChildAction::AwaitParent,
            ChildAction::Setup { index: 0 },
            ChildAction::Setup { index: 1 },
            ChildAction::Notify(ChildEvent::InitSuccess),
            ChildAction::RunPayload,
        ]
    );
    assert_eq!(run.current(), ChildState::Exit);
    assert_eq!(run.exit_status(), Some(3));
    assert_eq!(run.action(), None);
}

#[test]
fn child_exits_on_parent_failure() {
    for event in [ParentEvent::CGroupFailure, ParentEvent::UidGidMapFailure, ParentEvent::SlirpFailure] {
        let (run, trace) = child_trace(5, &[ChildReply::Done, ChildReply::Told(event)]);
        assert_eq!(trace, vec![ChildAction::DieWithParent, ChildAction::AwaitParent]);
        assert_eq!(run.current(), ChildState::ExitFail);
        assert_eq!(run.exit_status(), Some(EXIT_FAILURE));
        assert_eq!(run.reported, None);
        assert_eq!(run.done, 0);
    }
}

#[test]
fn child_reports_a_failed_step_once() {
    let (run, trace) = child_trace(
        3,
        &[
            ChildReply::Done,
            ChildReply::Told(ParentEvent::InitSuccess),
            ChildReply::Done,
            ChildReply::Failed,
            ChildReply::Done,
            ChildReply::Done,
        ],
    );
    assert_eq!(
        trace,
        vec![
            ChildAction::DieWithParent,
            ChildAction::AwaitParent,
            ChildAction::Setup { index: 0 },
            ChildAction::Setup { index: 1 },
            ChildAction::Notify(ChildEvent::InitFailed),
        ]
    );
    assert_eq!(run.current(), ChildState::ExitFail);
    assert_eq!(run.exit_status(), Some(1));
    assert_eq!(run.reported, Some(ChildEvent::InitFailed));
    assert_eq!(run.done, 1);
}

#[test]
fn child_states_follow_the_protocol() {
    let mut run = Child::new(1);
    let mut seen = vec![run.current()];
    for reply in [
        ChildReply::Done,
        ChildReply::Told(ParentEvent::InitSuccess),
        ChildReply::Done,
        ChildReply::Done,
        ChildReply::Exited(0),
    ] {
        run.advance(reply);
        seen.push(run.current());
    }
    assert_eq!(
        seen,
        vec![
            ChildState::PreStart,
            ChildState::WaitingForParent,
            ChildState::Configuring,
            ChildState::SendInitSuccess,
            ChildState::RunningPayload,
            ChildState::Exit,
        ]
    );
    let mut failing = Child::new(1);
    failing.advance(ChildReply::Done);
    failing.advance(ChildReply::Told(ParentEvent::InitSuccess));
    failing.advance(ChildReply::Failed);
    assert_eq!(failing.current(), ChildState::SendInitFailed);
}

#[test]
fn child_without_death_signal_reports_failure() {
    let (run, trace) = child_trace(
        2,
        &[ChildReply::Failed, ChildReply::Told(ParentEvent::InitSuccess), ChildReply::Done],
    );
    assert_eq!(
        trace,
        vec![
            ChildAction::DieWithParent,
            ChildAction::AwaitParent,
            ChildAction::Notify(ChildEvent::InitFailed),
        ]
    );
    assert_eq!(run.exit_status(), Some(1));
}

#[test]
fn child_ignores_stray_replies() {
    let mut run = Child::new(1);
    run.advance(ChildReply::Told(ParentEvent::InitSuccess));
    assert_eq!(run, Child::new(1));
    run.advance(ChildReply::Exited(0));
    assert_eq!(run, Child::new(1));
    assert!(dabba::child::child_fits(ChildAction::AwaitParent, ChildReply::Told(ParentEvent::InitSuccess)));
    assert!(!dabba::child::child_fits(ChildAction::AwaitParent, ChildReply::Done));
    assert!(!dabba::child::child_fits(ChildAction::RunPayload, ChildReply::Failed));
}

#[test]
fn image_setup_mounts_the_overlay_second() {
    let layers = vec![String::from("/s/a"), String::from("/s/b")];
    let plan = dabba::child::setup_plan_with_image(&layers, "/m");
    let plain = setup_plan("/m");
    assert_eq!(plan.len(), 44);
    assert_eq!(plan[..2], plain[..2]);
    let overlay: Vec<SetupStep> =
        dabba::mount_helper::mount_image(&layers, "/m").into_iter().map(SetupStep::Fs).collect();
    assert_eq!(plan[2..5], overlay[..]);
    assert_eq!(plan[5..], plain[2..]);
}

#[test]
fn setup_plan_has_41_steps() {
    let plan = setup_plan("/var/lib/rootfs");
    assert_eq!(plan.len(), 41);
    assert_eq!(plan[0], SetupStep::SetHostname { name: String::from("container") });
    assert!(matches!(plan[1], SetupStep::Fs(FsAction::Mount(_))));
    assert_eq!(plan[36], SetupStep::Fs(FsAction::Detach { target: String::from(".") }));
    assert_eq!(plan[37], SetupStep::NewSession);
    assert_eq!(plan[38], SetupStep::NoNewPrivileges);
    assert_eq!(plan[39], SetupStep::DropCapability { capability: 21 });
    assert_eq!(CAP_SYS_ADMIN, 21);
    assert_eq!(plan[40], SetupStep::CloseInheritedFds);
}
