//! The cgroup of a sandbox: where its directory lies, and which files are
//! written, in which order, to put a process under its limits.

use vstd::prelude::*;
use vstd::string::StringExecFns;
use crate::host::current_pid;
use crate::mount_helper::join;
use crate::mount_helper::join_path;
use crate::text::push_signed_decimal;
use crate::text::signed_decimal;

verus! {

/// The limits of a cgroup.
#[derive(Clone, Debug, PartialEq, Eq)]
pub struct CGroupConfig {
    /// The memory limit, as the kernel reads it: a number of bytes, which
    /// may carry a suffix such as `k`, `m` or `g`.
    pub mem: String,
}

impl Default for CGroupConfig {
    /// The limits of a sandbox that asks for none of its own: 500 MiB of
    /// memory.
    fn default() -> (config: CGroupConfig)
        ensures
            config.mem@ == "524288000"@,
    {
        CGroupConfig { mem: String::from_str("524288000") }
    }
}

/// One cgroup directory and what has been done to it.
#[derive(Clone, Debug, PartialEq, Eq)]
pub struct CGroup {
    /// The limits.
    pub config: CGroupConfig,
    /// The directory.
    pub path: String,
    /// The limits have been handed out for writing.
    pub limits_written: bool,
}

/// One write to a file of the cgroup.
#[derive(Clone, Debug, PartialEq, Eq)]
pub struct FileWrite {
    /// The file to open for writing.
    pub path: String,
    /// What to write to it.
    pub contents: String,
}

/// What a `FileWrite` says, with its texts as character sequences.
pub struct FileWriteView {
    pub path: Seq<char>,
    pub contents: Seq<char>,
}

impl View for FileWrite {
    type V = FileWriteView;

    open spec fn view(&self) -> FileWriteView {
        FileWriteView { path: self.path@, contents: self.contents@ }
    }
}

impl DeepView for FileWrite {
    type V = FileWriteView;

    open spec fn deep_view(&self) -> FileWriteView {
        self.view()
    }
}

/// The directory of the cgroup that the process `creator` makes below
/// `base`: its name ends in the creator's process id, so that no two
/// processes share one.
pub open spec fn cgroup_path(base: Seq<char>, creator: int) -> Seq<char> {
    join(base, "dabba-"@ + signed_decimal(creator))
}

/// The write that sets the memory limit of the cgroup at `path`.
pub open spec fn limit_write(path: Seq<char>, mem: Seq<char>) -> FileWriteView {
    FileWriteView { path: join(path, "memory.max"@), contents: mem }
}

/// The write that moves the process `pid` into the cgroup at `path`.
pub open spec fn attach_write(path: Seq<char>, pid: int) -> FileWriteView {
    FileWriteView { path: join(path, "cgroup.procs"@), contents: signed_decimal(pid) }
}

/// The writes that put `pid` under the limits: the limit first, unless it
/// was handed out before, and then the process. A process that joined
/// before the limit was set could outgrow it for a while.
pub open spec fn writes_due(
    limits_written: bool,
    path: Seq<char>,
    mem: Seq<char>,
    pid: int,
) -> Seq<FileWriteView> {
    if limits_written {
        seq![attach_write(path, pid)]
    } else {
        seq![limit_write(path, mem), attach_write(path, pid)]
    }
}

impl CGroup {
    /// The cgroup that the process `creator` makes below `base_cgroup`. No
    /// limit is written yet.
    pub fn for_creator(base_cgroup: &str, creator: i32, config: CGroupConfig) -> (cgroup: CGroup)
        ensures
            cgroup.path@ == cgroup_path(base_cgroup@, creator as int),
            cgroup.config == config,
            !cgroup.limits_written,
    {
        let mut name = String::from_str("dabba-");
        push_signed_decimal(&mut name, creator as i64);
        CGroup { config, path: join_path(base_cgroup, name.as_str()), limits_written: false }
    }

    /// The cgroup that the calling process makes below `base_cgroup`.
    pub fn new(base_cgroup: &str, config: CGroupConfig) -> (cgroup: CGroup)
        ensures
            exists|creator: i32| cgroup.path@ == cgroup_path(base_cgroup@, creator as int),
            cgroup.config == config,
            !cgroup.limits_written,
    {
        let creator = current_pid();
        CGroup::for_creator(base_cgroup, creator, config)
    }

    /// The directory of the cgroup: what to create at the start and to
    /// remove at the end.
    pub fn path(&self) -> (path: &str)
        ensures
            path@ == self.path@,
    {
        self.path.as_str()
    }

    /// Puts the process `pid` under the limits: the writes to make, in
    /// order. The limit is handed out by the first call only.
    pub fn enforce(&mut self, pid: i32) -> (writes: Vec<FileWrite>)
        ensures
            writes.deep_view() == writes_due(
                old(self).limits_written,
                old(self).path@,
                old(self).config.mem@,
                pid as int,
            ),
            final(self).limits_written,
            final(self).path == old(self).path,
            final(self).config == old(self).config,
    {
        let mut writes: Vec<FileWrite> = Vec::new();
        if !self.limits_written {
            writes.push(
                FileWrite {
                    path: join_path(self.path.as_str(), "memory.max"),
                    contents: self.config.mem.clone(),
                },
            );
            self.limits_written = true;
        }
        let mut contents = String::new();
        push_signed_decimal(&mut contents, pid as i64);
        assert(contents@ == Seq::<char>::empty() + signed_decimal(pid as int));
        writes.push(FileWrite { path: join_path(self.path.as_str(), "cgroup.procs"), contents });
        assert(writes.deep_view() =~= writes_due(
            old(self).limits_written,
            old(self).path@,
            old(self).config.mem@,
            pid as int,
        ));
        writes
    }

    /// Takes note that writing the limit failed: the next `enforce` hands
    /// it out again.
    pub fn limits_failed(&mut self)
        ensures
            !final(self).limits_written,
            final(self).path == old(self).path,
            final(self).config == old(self).config,
    {
        self.limits_written = false;
    }
}

/// The two files of a cgroup are different files.
pub proof fn lemma_limit_and_attach_differ(path: Seq<char>)
    ensures
        join(path, "memory.max"@) != join(path, "cgroup.procs"@),
{
    reveal_strlit("memory.max");
    reveal_strlit("cgroup.procs");
    assert("memory.max"@.len() == 10);
    assert("cgroup.procs"@.len() == 12);
    assert("memory.max"@[0] == 'm');
    assert("cgroup.procs"@[0] == 'c');
    assert(join(path, "memory.max"@).len() + 2 == join(path, "cgroup.procs"@).len());
}

/// The limit is in place before the process joins: whatever was done
/// before, the process is moved in by the last write, and either the limit
/// is written right before it or it was handed out by an earlier call.
pub proof fn lemma_limit_precedes_attach(
    limits_written: bool,
    path: Seq<char>,
    mem: Seq<char>,
    pid: int,
)
    ensures
        ({
            let writes = writes_due(limits_written, path, mem, pid);
            &&& writes.last() == attach_write(path, pid)
            &&& !limits_written ==> writes.len() == 2 && writes[0] == limit_write(path, mem)
            &&& limits_written ==> writes.len() == 1
            &&& forall|i: int|
                0 <= i < writes.len() && (#[trigger] writes[i]).path == join(path, "memory.max"@)
                    ==> i == 0 && !limits_written && writes[i].contents == mem
        }),
{
    lemma_limit_and_attach_differ(path);
}

/// Enforcing twice writes the limit once and the process list twice: the
/// writes of two calls in a row, on a fresh cgroup, are the limit, the
/// first process and the second process.
pub proof fn lemma_enforce_twice(path: Seq<char>, mem: Seq<char>, first: int, second: int)
    ensures
        writes_due(false, path, mem, first) + writes_due(true, path, mem, second) == seq![
            limit_write(path, mem),
            attach_write(path, first),
            attach_write(path, second),
        ],
        limit_write(path, mem).path != attach_write(path, first).path,
        attach_write(path, first).path == attach_write(path, second).path,
{
    lemma_limit_and_attach_differ(path);
    assert(writes_due(false, path, mem, first) + writes_due(true, path, mem, second) =~= seq![
        limit_write(path, mem),
        attach_write(path, first),
        attach_write(path, second),
    ]);
}

} // verus!
