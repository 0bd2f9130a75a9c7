//! Installing the uid and gid maps of the sandbox with the external
//! `newuidmap` and `newgidmap` programs: the command lines to run, and what
//! their exit statuses mean.

use vstd::prelude::*;
use crate::error::MapCmd;
use crate::error::SandboxError;
use crate::host::current_gid;
use crate::host::current_uid;
use crate::text::decimal;
use crate::text::push_decimal;
use crate::text::push_signed_decimal;
use crate::text::signed_decimal;

verus! {

/// The first id outside the sandbox that the subordinate range maps to.
pub const SUB_ID_BASE: u32 = 100000;

/// The number of ids in the subordinate range.
pub const SUB_ID_COUNT: u32 = 65536;

/// A contiguous range of ids: `count` ids from `id` on inside the sandbox
/// are the ids from `lowerid` on outside of it.
#[derive(Clone, Copy, Debug, PartialEq, Eq, Structural)]
pub struct Mappings {
    /// The first id inside the sandbox.
    pub id: u32,
    /// The first id outside the sandbox.
    pub lowerid: u32,
    /// How many ids the range holds.
    pub count: u32,
}

/// One run of a map helper.
#[derive(Clone, Debug, PartialEq, Eq)]
pub struct HelperCommand {
    /// Which helper to run.
    pub command: MapCmd,
    /// The arguments to run it with.
    pub args: Vec<String>,
}

/// What a `HelperCommand` says, with its texts as character sequences.
pub struct HelperCommandView {
    pub command: MapCmd,
    pub args: Seq<Seq<char>>,
}

impl View for HelperCommand {
    type V = HelperCommandView;

    open spec fn view(&self) -> HelperCommandView {
        HelperCommandView { command: self.command, args: self.args.deep_view() }
    }
}

impl DeepView for HelperCommand {
    type V = HelperCommandView;

    open spec fn deep_view(&self) -> HelperCommandView {
        self.view()
    }
}

/// The name of a helper's program.
pub open spec fn program_name(command: MapCmd) -> Seq<char> {
    match command {
        MapCmd::UidMap => "newuidmap"@,
        MapCmd::GidMap => "newgidmap"@,
    }
}

/// The default profile: the sandbox's id 0 is the caller's own id, and its
/// ids from 1 on are the subordinate range.
pub open spec fn default_profile(caller_id: u32) -> Seq<Mappings> {
    seq![
        Mappings { id: 0, lowerid: caller_id, count: 1 },
        Mappings { id: 1, lowerid: SUB_ID_BASE, count: SUB_ID_COUNT },
    ]
}

/// The three arguments that one range is written as.
pub open spec fn range_arguments(range: Mappings) -> Seq<Seq<char>> {
    seq![decimal(range.id as nat), decimal(range.lowerid as nat), decimal(range.count as nat)]
}

/// The arguments for the first `count` ranges of `mappings`.
pub open spec fn ranges_arguments(mappings: Seq<Mappings>, count: nat) -> Seq<Seq<char>>
    decreases count,
{
    if count == 0 || count > mappings.len() {
        Seq::empty()
    } else {
        ranges_arguments(mappings, (count - 1) as nat) + range_arguments(mappings[count - 1])
    }
}

/// The arguments of a helper: the process id, then three for each range.
pub open spec fn map_arguments(pid: int, mappings: Seq<Mappings>) -> Seq<Seq<char>> {
    seq![signed_decimal(pid)] + ranges_arguments(mappings, mappings.len())
}

/// What a helper's end means: fine when it exited with status zero, else
/// an error that names the helper and the status; a helper that was killed
/// by a signal has no status.
pub open spec fn status_meaning(command: MapCmd, status: Option<i32>) -> Result<(), SandboxError> {
    if status == Some(0i32) {
        Ok(())
    } else {
        Err(SandboxError::HelperStatus { helper: command, status })
    }
}

/// What a run of a helper means, given how it went: the errno with which
/// starting it failed, or the status it ended with.
pub open spec fn run_meaning(command: MapCmd, run: Result<Option<i32>, i32>) -> Result<
    (),
    SandboxError,
> {
    match run {
        Ok(status) => status_meaning(command, status),
        Err(errno) => Err(SandboxError::HelperNotStarted { helper: command, errno }),
    }
}

/// The two runs that install the default profile for the process `pid`,
/// the uid map first.
pub open spec fn maps_plan(pid: int, uid: u32, gid: u32) -> Seq<HelperCommandView> {
    seq![
        HelperCommandView {
            command: MapCmd::UidMap,
            args: map_arguments(pid, default_profile(uid)),
        },
        HelperCommandView {
            command: MapCmd::GidMap,
            args: map_arguments(pid, default_profile(gid)),
        },
    ]
}

/// The name of a helper's program.
pub fn program(command: MapCmd) -> (name: &'static str)
    ensures
        name@ == program_name(command),
{
    match command {
        MapCmd::UidMap => "newuidmap",
        MapCmd::GidMap => "newgidmap",
    }
}

/// The default profile for a caller with this id.
pub fn default_mappings(caller_id: u32) -> (profile: Vec<Mappings>)
    ensures
        profile@ == default_profile(caller_id),
{
    let mut profile: Vec<Mappings> = Vec::new();
    profile.push(Mappings { id: 0, lowerid: caller_id, count: 1 });
    profile.push(Mappings { id: 1, lowerid: SUB_ID_BASE, count: SUB_ID_COUNT });
    profile
}

/// The decimal numeral of `n`.
fn numeral(n: u32) -> (text: String)
    ensures
        text@ == decimal(n as nat),
{
    let mut text = String::new();
    push_decimal(&mut text, n as u64);
    assert(text@ == Seq::<char>::empty() + decimal(n as nat));
    text
}

/// Appends one text to a list.
fn push_text(list: &mut Vec<String>, text: String)
    ensures
        final(list).deep_view() == old(list).deep_view().push(text@),
{
    list.push(text);
    assert(list.deep_view() =~= old(list).deep_view().push(text@));
}

/// The command line that installs `mappings` for the process `pid` with
/// the given helper.
pub fn exec_cmd_with_mappings(command: MapCmd, pid: i32, mappings: &[Mappings]) -> (run:
    HelperCommand)
    ensures
        run.command == command,
        run.args.deep_view() == map_arguments(pid as int, mappings@),
{
    let mut first = String::new();
    push_signed_decimal(&mut first, pid as i64);
    assert(first@ == Seq::<char>::empty() + signed_decimal(pid as int));
    let mut args: Vec<String> = Vec::new();
    args.push(first);
    let ghost head = args.deep_view();
    assert(head =~= seq![signed_decimal(pid as int)]);
    let mut i: usize = 0;
    while i < mappings.len()
        invariant
            i <= mappings@.len(),
            head == seq![signed_decimal(pid as int)],
            args.deep_view() == head + ranges_arguments(mappings@, i as nat),
        decreases mappings@.len() - i,
    {
        let range = mappings[i];
        let ghost before = args.deep_view();
        push_text(&mut args, numeral(range.id));
        push_text(&mut args, numeral(range.lowerid));
        push_text(&mut args, numeral(range.count));
        i += 1;
        assert(args.deep_view() =~= before + range_arguments(range));
        assert(args.deep_view() =~= head + ranges_arguments(mappings@, i as nat));
    }
    HelperCommand { command, args }
}

/// Judges the end of a helper, given its exit status.
pub fn check_status(command: MapCmd, status: Option<i32>) -> (verdict: Result<(), SandboxError>)
    ensures
        verdict == status_meaning(command, status),
        verdict is Ok <==> status == Some(0i32),
{
    match status {
        Some(0) => Ok(()),
        _ => Err(SandboxError::HelperStatus { helper: command, status }),
    }
}

/// Judges a run of a helper: `Err` with the errno when it could not be
/// started, `Ok` with its exit status when it ran.
pub fn run_verdict(command: MapCmd, run: Result<Option<i32>, i32>) -> (verdict: Result<
    (),
    SandboxError,
>)
    ensures
        verdict == run_meaning(command, run),
        verdict is Ok <==> run == Ok::<Option<i32>, i32>(Some(0i32)),
{
    match run {
        Ok(status) => check_status(command, status),
        Err(errno) => Err(SandboxError::HelperNotStarted { helper: command, errno }),
    }
}

/// The runs that install the default profile for the process
/// `sandbox_pid`, for a caller with the given user and group id. The second
/// run is due only when the first one ended well.
pub fn setup_maps_for(sandbox_pid: i32, uid: u32, gid: u32) -> (plan: Vec<HelperCommand>)
    ensures
        plan.deep_view() == maps_plan(sandbox_pid as int, uid, gid),
{
    let uid_mappings = default_mappings(uid);
    let gid_mappings = default_mappings(gid);
    let mut plan: Vec<HelperCommand> = Vec::new();
    plan.push(exec_cmd_with_mappings(MapCmd::UidMap, sandbox_pid, uid_mappings.as_slice()));
    plan.push(exec_cmd_with_mappings(MapCmd::GidMap, sandbox_pid, gid_mappings.as_slice()));
    assert(plan.deep_view() =~= maps_plan(sandbox_pid as int, uid, gid));
    plan
}

/// The runs that install the default profile for the process
/// `sandbox_pid`, on behalf of the user and group that the calling process
/// runs as.
pub fn setup_maps(sandbox_pid: i32) -> (plan: Vec<HelperCommand>)
    ensures
        exists|uid: u32, gid: u32| plan.deep_view() == maps_plan(sandbox_pid as int, uid, gid),
{
    let uid = current_uid();
    let gid = current_gid();
    setup_maps_for(sandbox_pid, uid, gid)
}

/// Inside the sandbox the caller is root: in the default profile, id 0
/// stands for the caller's own id and for nothing else, and the helper is
/// told so right after the process id.
pub proof fn lemma_root_is_the_caller(pid: int, caller_id: u32)
    ensures
        default_profile(caller_id)[0] == (Mappings { id: 0, lowerid: caller_id, count: 1 }),
        default_profile(caller_id)[1].id == 1,
        map_arguments(pid, default_profile(caller_id)) == seq![
            signed_decimal(pid),
            decimal(0),
            decimal(caller_id as nat),
            decimal(1),
            decimal(1),
            decimal(SUB_ID_BASE as nat),
            decimal(SUB_ID_COUNT as nat),
        ],
{
    reveal_with_fuel(ranges_arguments, 3);
    assert(map_arguments(pid, default_profile(caller_id)) =~= seq![
        signed_decimal(pid),
        decimal(0),
        decimal(caller_id as nat),
        decimal(1),
        decimal(1),
        decimal(SUB_ID_BASE as nat),
        decimal(SUB_ID_COUNT as nat),
    ]);
}

/// A command line holds the process id and three arguments for each range.
pub proof fn lemma_three_arguments_per_range(pid: int, mappings: Seq<Mappings>)
    ensures
        map_arguments(pid, mappings).len() == 1 + 3 * mappings.len(),
{
    lemma_ranges_length(mappings, mappings.len());
}

/// The arguments of `count` ranges are three times as many.
proof fn lemma_ranges_length(mappings: Seq<Mappings>, count: nat)
    requires
        count <= mappings.len(),
    ensures
        ranges_arguments(mappings, count).len() == 3 * count,
    decreases count,
{
    if count > 0 {
        lemma_ranges_length(mappings, (count - 1) as nat);
    }
}

} // verus!
