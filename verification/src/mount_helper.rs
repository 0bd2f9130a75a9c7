//! The mount plan of a sandbox: which directories, files, links and mounts
//! make up its root, in the order in which they have to be made.
//!
//! Nothing here touches the mount namespace. Each function returns the
//! actions to carry out, first to last; an action that fails ends the plan.

use vstd::prelude::*;
use vstd::string::StringExecFns;
use crate::text::chars_of;

verus! {

/// A kernel filesystem that is mounted inside the sandbox.
#[derive(Clone, Copy, Debug, PartialEq, Eq, Structural)]
pub enum MountType {
    /// A fresh `/dev`, populated from the host's devices.
    Dev,
    /// The process filesystem.
    Proc,
    /// The system filesystem.
    Sys,
    /// An empty in-memory filesystem.
    Tmp,
}

/// The flags of one mount call.
#[derive(Clone, Copy, Debug, PartialEq, Eq, Structural)]
pub struct MountFlags {
    /// Apply to the whole subtree.
    pub recursive: bool,
    /// Stop mount events from propagating in or out.
    pub private: bool,
    /// Make an existing tree visible at another place.
    pub bind: bool,
    /// Ignore set-user-id and set-group-id bits.
    pub nosuid: bool,
    /// Forbid executing programs.
    pub noexec: bool,
    /// Forbid access to device files.
    pub nodev: bool,
}

/// One mount call.
#[derive(Clone, Debug, PartialEq, Eq)]
pub struct Mount {
    /// What is mounted, if the kind of mount needs a source.
    pub source: Option<String>,
    /// Where it is mounted.
    pub target: String,
    /// The filesystem type, if the kind of mount needs one.
    pub fstype: Option<String>,
    /// The flags.
    pub flags: MountFlags,
    /// The options handed to the filesystem.
    pub data: Option<String>,
}

/// One step of a mount plan.
#[derive(Clone, Debug, PartialEq, Eq)]
pub enum FsAction {
    /// Create a directory and its missing parents; fine if it exists.
    CreateDirAll { path: String },
    /// Create a directory that must not exist yet.
    CreateDir { path: String },
    /// Create an empty file with these permission bits, if it is missing.
    CreateFile { path: String, mode: u32 },
    /// Mount.
    Mount(Mount),
    /// Create a symbolic link at `link` that points to `target`.
    Symlink { target: String, link: String },
    /// Change the working directory.
    Chdir { path: String },
    /// Make `new_root` the root and move the old root to `put_old`.
    PivotRoot { new_root: String, put_old: String },
    /// Lazily unmount what is mounted at `target`.
    Detach { target: String },
}

/// What a `Mount` says, with its texts as character sequences.
pub struct MountView {
    pub source: Option<Seq<char>>,
    pub target: Seq<char>,
    pub fstype: Option<Seq<char>>,
    pub flags: MountFlags,
    pub data: Option<Seq<char>>,
}

/// What an `FsAction` says, with its texts as character sequences.
pub enum FsActionView {
    CreateDirAll { path: Seq<char> },
    CreateDir { path: Seq<char> },
    CreateFile { path: Seq<char>, mode: u32 },
    Mount(MountView),
    Symlink { target: Seq<char>, link: Seq<char> },
    Chdir { path: Seq<char> },
    PivotRoot { new_root: Seq<char>, put_old: Seq<char> },
    Detach { target: Seq<char> },
}

/// The view of an optional text.
pub open spec fn text_view(text: Option<String>) -> Option<Seq<char>> {
    match text {
        Some(text) => Some(text@),
        None => None,
    }
}

impl View for Mount {
    type V = MountView;

    open spec fn view(&self) -> MountView {
        MountView {
            source: text_view(self.source),
            target: self.target@,
            fstype: text_view(self.fstype),
            flags: self.flags,
            data: text_view(self.data),
        }
    }
}

impl DeepView for Mount {
    type V = MountView;

    open spec fn deep_view(&self) -> MountView {
        self.view()
    }
}

impl View for FsAction {
    type V = FsActionView;

    open spec fn view(&self) -> FsActionView {
        match *self {
            FsAction::CreateDirAll { path } => FsActionView::CreateDirAll { path: path@ },
            FsAction::CreateDir { path } => FsActionView::CreateDir { path: path@ },
            FsAction::CreateFile { path, mode } => FsActionView::CreateFile { path: path@, mode },
            FsAction::Mount(mount) => FsActionView::Mount(mount@),
            FsAction::Symlink { target, link } => FsActionView::Symlink {
                target: target@,
                link: link@,
            },
            FsAction::Chdir { path } => FsActionView::Chdir { path: path@ },
            FsAction::PivotRoot { new_root, put_old } => FsActionView::PivotRoot {
                new_root: new_root@,
                put_old: put_old@,
            },
            FsAction::Detach { target } => FsActionView::Detach { target: target@ },
        }
    }
}

impl DeepView for FsAction {
    type V = FsActionView;

    open spec fn deep_view(&self) -> FsActionView {
        self.view()
    }
}

/// No flag set.
pub open spec fn no_flags() -> MountFlags {
    MountFlags {
        recursive: false,
        private: false,
        bind: false,
        nosuid: false,
        noexec: false,
        nodev: false,
    }
}

/// The flags of both calls: a flag is set when either sets it.
pub open spec fn union(a: MountFlags, b: MountFlags) -> MountFlags {
    MountFlags {
        recursive: a.recursive || b.recursive,
        private: a.private || b.private,
        bind: a.bind || b.bind,
        nosuid: a.nosuid || b.nosuid,
        noexec: a.noexec || b.noexec,
        nodev: a.nodev || b.nodev,
    }
}

/// The flags of a recursive bind mount.
pub open spec fn recursive_bind() -> MountFlags {
    MountFlags { recursive: true, bind: true, ..no_flags() }
}

/// The flags that a kernel filesystem of this kind is mounted with. None
/// may carry set-user-id programs or devices; only `Tmp` may hold
/// executables.
pub open spec fn pseudo_flags(kind: MountType) -> MountFlags {
    MountFlags { nosuid: true, nodev: true, noexec: kind != MountType::Tmp, ..no_flags() }
}

/// `name` below the directory `base`: an absolute `name` stands for
/// itself, and one separator is put between the two where `base` does not
/// already end in one.
pub open spec fn join(base: Seq<char>, name: Seq<char>) -> Seq<char> {
    if name.len() > 0 && name[0] == '/' {
        name
    } else if base.len() == 0 || base.last() == '/' {
        base + name
    } else {
        base + seq!['/'] + name
    }
}

/// The mount that stops mount events from crossing the sandbox's border:
/// the root, recursively private.
pub open spec fn propagation_block() -> MountView {
    MountView {
        source: None,
        target: "/"@,
        fstype: None,
        flags: MountFlags { recursive: true, private: true, ..no_flags() },
        data: None,
    }
}

/// The recursive bind mount of `container` at `target`.
pub open spec fn container_bind(container: Seq<char>, target: Seq<char>) -> MountView {
    MountView {
        source: Some(container),
        target,
        fstype: None,
        flags: recursive_bind(),
        data: None,
    }
}

/// Making `from` visible at `to`: the mount point is created as an empty
/// read-only file, then `from` is bound over it, recursively and with the
/// `extra` flags.
pub open spec fn bind_plan(from: Seq<char>, to: Seq<char>, extra: MountFlags) -> Seq<FsActionView> {
    seq![
        FsActionView::CreateFile { path: to, mode: 0o444 },
        FsActionView::Mount(
            MountView {
                source: Some(from),
                target: to,
                fstype: None,
                flags: union(recursive_bind(), extra),
                data: None,
            },
        ),
    ]
}

/// The host devices that the sandbox's `/dev` offers.
pub open spec fn device_nodes() -> Seq<Seq<char>> {
    seq!["full"@, "null"@, "random"@, "tty"@, "urandom"@, "zero"@]
}

/// The names of the three standard streams, by descriptor number.
pub open spec fn stdio_names() -> Seq<Seq<char>> {
    seq!["stdin"@, "stdout"@, "stderr"@]
}

/// The descriptor directory entries of the three standard streams.
pub open spec fn stdio_targets() -> Seq<Seq<char>> {
    seq!["/proc/self/fd/0"@, "/proc/self/fd/1"@, "/proc/self/fd/2"@]
}

/// The binds of the first `count` host devices into the directory `dev`.
pub open spec fn device_binds(dev: Seq<char>, count: nat) -> Seq<FsActionView>
    decreases count,
{
    if count == 0 || count > device_nodes().len() {
        Seq::empty()
    } else {
        let node = device_nodes()[count - 1];
        device_binds(dev, (count - 1) as nat) + bind_plan(
            join("/dev"@, node),
            join(dev, node),
            no_flags(),
        )
    }
}

/// The links of the first `count` standard streams in the directory `dev`.
pub open spec fn stdio_links(dev: Seq<char>, count: nat) -> Seq<FsActionView>
    decreases count,
{
    if count == 0 || count > stdio_names().len() {
        Seq::empty()
    } else {
        stdio_links(dev, (count - 1) as nat).push(
            FsActionView::Symlink {
                target: stdio_targets()[count - 1],
                link: join(dev, stdio_names()[count - 1]),
            },
        )
    }
}

/// The source that a kernel filesystem of this kind is mounted from: a
/// label, as none of them has a device behind it.
pub open spec fn pseudo_source(kind: MountType) -> Seq<char> {
    match kind {
        MountType::Dev => "dev"@,
        MountType::Proc => "proc"@,
        MountType::Sys => "sys"@,
        MountType::Tmp => "tmp"@,
    }
}

/// The filesystem type that this kind is mounted as.
pub open spec fn pseudo_fstype(kind: MountType) -> Seq<char> {
    match kind {
        MountType::Dev => "tmpfs"@,
        MountType::Proc => "proc"@,
        MountType::Sys => "sysfs"@,
        MountType::Tmp => "tmpfs"@,
    }
}

/// The options that this kind is mounted with: a `Dev` is writable by its
/// owner only, the others take none.
pub open spec fn pseudo_options(kind: MountType) -> Option<Seq<char>> {
    if kind == MountType::Dev {
        Some("mode=755"@)
    } else {
        None
    }
}

/// The mount of a kernel filesystem of this kind at `path`.
pub open spec fn pseudo_mount(kind: MountType, path: Seq<char>) -> MountView {
    MountView {
        source: Some(pseudo_source(kind)),
        target: path,
        fstype: Some(pseudo_fstype(kind)),
        flags: pseudo_flags(kind),
        data: pseudo_options(kind),
    }
}

/// The private pseudo-terminal filesystem at `pts`: a new instance, whose
/// multiplexer everyone may open, without set-user-id and executables.
pub open spec fn devpts_mount(pts: Seq<char>) -> MountView {
    MountView {
        source: Some("devpts"@),
        target: pts,
        fstype: Some("devpts"@),
        flags: MountFlags { nosuid: true, noexec: true, ..no_flags() },
        data: Some("newinstance,ptmxmode=0666"@),
    }
}

/// What fills a freshly mounted `/dev` at `dev`: the six host devices, the
/// links for the standard streams and the descriptor directory, the shared
/// memory directory, and the pseudo-terminals.
pub open spec fn dev_contents(dev: Seq<char>) -> Seq<FsActionView> {
    device_binds(dev, 6) + stdio_links(dev, 3) + seq![
        FsActionView::Symlink { target: "/proc/self/fd"@, link: join(dev, "fd"@) },
        FsActionView::CreateDir { path: join(dev, "shm"@) },
        FsActionView::Symlink { target: "pts/ptmx"@, link: join(dev, "ptmx"@) },
        FsActionView::CreateDir { path: join(dev, "pts"@) },
        FsActionView::Mount(devpts_mount(join(dev, "pts"@))),
    ]
}

/// Mounting a kernel filesystem of this kind at `path`: the directory is
/// created if missing, the filesystem is mounted, and a `Dev` is filled.
pub open spec fn pseudo_fs_plan(kind: MountType, path: Seq<char>) -> Seq<FsActionView> {
    let mounted = seq![
        FsActionView::CreateDirAll { path },
        FsActionView::Mount(pseudo_mount(kind, path)),
    ];
    if kind == MountType::Dev {
        mounted + dev_contents(path)
    } else {
        mounted
    }
}

/// Entering the new root at `path` without an intermediate directory: go
/// there, pivot with the old root stacked on the same place, and lazily
/// unmount the old root.
pub open spec fn pivot_plan(path: Seq<char>) -> Seq<FsActionView> {
    seq![
        FsActionView::Chdir { path },
        FsActionView::PivotRoot { new_root: "."@, put_old: "."@ },
        FsActionView::Detach { target: "."@ },
    ]
}

/// `text` with a backslash in front of every colon.
pub open spec fn escape_colons(text: Seq<char>) -> Seq<char>
    decreases text.len(),
{
    if text.len() == 0 {
        Seq::empty()
    } else if text.last() == ':' {
        escape_colons(text.drop_last()) + seq!['\\', ':']
    } else {
        escape_colons(text.drop_last()).push(text.last())
    }
}

/// The overlay's list of lower directories for the layers from index
/// `from` upwards: the topmost layer first and layer `from` last, each with
/// its colons escaped, separated by colons.
pub open spec fn lower_dirs_from(layers: Seq<Seq<char>>, from: int) -> Seq<char>
    decreases layers.len() - from,
{
    if from < 0 || from >= layers.len() {
        Seq::empty()
    } else if from == layers.len() - 1 {
        escape_colons(layers[from])
    } else {
        lower_dirs_from(layers, from + 1) + seq![':'] + escape_colons(layers[from])
    }
}

/// The overlay's list of lower directories: the layers right to left, so
/// that the base layer, which comes first in `layers`, stands last.
pub open spec fn lower_dirs(layers: Seq<Seq<char>>) -> Seq<char> {
    lower_dirs_from(layers, 0)
}

/// The options of the overlay mount at `merged`.
pub open spec fn overlay_options(layers: Seq<Seq<char>>, merged: Seq<char>) -> Seq<char> {
    "lowerdir="@ + lower_dirs(layers) + ",upperdir="@ + join(merged, "upper"@) + ",workdir="@
        + join(merged, "work"@)
}

/// Composing the image at `merged`: the work and upper directories are
/// created below it, then the overlay is mounted over it.
pub open spec fn image_plan(layers: Seq<Seq<char>>, merged: Seq<char>) -> Seq<FsActionView> {
    seq![
        FsActionView::CreateDirAll { path: join(merged, "work"@) },
        FsActionView::CreateDirAll { path: join(merged, "upper"@) },
        FsActionView::Mount(
            MountView {
                source: Some("overlay"@),
                target: merged,
                fstype: Some("overlay"@),
                flags: no_flags(),
                data: Some(overlay_options(layers, merged)),
            },
        ),
    ]
}

/// The whole mount dance that turns `container` into the root: block
/// propagation first, bind the container at `/tmp` and go there, mount
/// `dev`, `proc`, `sys`, `tmp` and `run`, and pivot.
pub open spec fn mounts_plan(container: Seq<char>) -> Seq<FsActionView> {
    seq![
        FsActionView::Mount(propagation_block()),
        FsActionView::Mount(container_bind(container, "/tmp"@)),
        FsActionView::Chdir { path: "/tmp"@ },
    ] + pseudo_fs_plan(MountType::Dev, "dev"@) + pseudo_fs_plan(MountType::Proc, "proc"@)
        + pseudo_fs_plan(MountType::Sys, "sys"@) + pseudo_fs_plan(MountType::Tmp, "tmp"@)
        + pseudo_fs_plan(MountType::Tmp, "run"@) + pivot_plan("/tmp"@)
}

/// Appends one action to a plan.
fn push_action(plan: &mut Vec<FsAction>, action: FsAction)
    ensures
        final(plan).deep_view() == old(plan).deep_view().push(action@),
{
    plan.push(action);
    assert(plan.deep_view() =~= old(plan).deep_view().push(action@));
}

/// Appends the actions of `more` to a plan.
fn append_plan(plan: &mut Vec<FsAction>, more: Vec<FsAction>)
    ensures
        final(plan).deep_view() == old(plan).deep_view() + more.deep_view(),
{
    let mut more = more;
    let ghost added = more.deep_view();
    plan.append(&mut more);
    assert(plan.deep_view() =~= old(plan).deep_view() + added);
}

/// No flag set.
pub fn empty_flags() -> (flags: MountFlags)
    ensures
        flags == no_flags(),
{
    MountFlags {
        recursive: false,
        private: false,
        bind: false,
        nosuid: false,
        noexec: false,
        nodev: false,
    }
}

impl MountType {
    /// The source that this kind is mounted from.
    pub fn source(self) -> (source: &'static str)
        ensures
            source@ == pseudo_source(self),
    {
        match self {
            MountType::Dev => "dev",
            MountType::Proc => "proc",
            MountType::Sys => "sys",
            MountType::Tmp => "tmp",
        }
    }

    /// The filesystem type that this kind is mounted as.
    pub fn fstype(self) -> (fstype: &'static str)
        ensures
            fstype@ == pseudo_fstype(self),
    {
        match self {
            MountType::Dev => "tmpfs",
            MountType::Proc => "proc",
            MountType::Sys => "sysfs",
            MountType::Tmp => "tmpfs",
        }
    }

    /// The flags that this kind is mounted with.
    pub fn flags(self) -> (flags: MountFlags)
        ensures
            flags == pseudo_flags(self),
            flags.nosuid && flags.nodev,
            flags.noexec <==> self != MountType::Tmp,
    {
        let noexec = match self {
            MountType::Tmp => false,
            _ => true,
        };
        MountFlags {
            recursive: false,
            private: false,
            bind: false,
            nosuid: true,
            noexec,
            nodev: true,
        }
    }

    /// The options that this kind is mounted with.
    pub fn options(self) -> (options: Option<&'static str>)
        ensures
            match options {
                Some(options) => pseudo_options(self) == Some(options@),
                None => pseudo_options(self) is None,
            },
    {
        match self {
            MountType::Dev => Some("mode=755"),
            _ => None,
        }
    }
}

/// `name` below the directory `base`.
pub fn join_path(base: &str, name: &str) -> (path: String)
    ensures
        path@ == join(base@, name@),
{
    let name_chars = chars_of(name);
    if name_chars.len() > 0 && name_chars[0] == '/' {
        return String::from_str(name);
    }
    let base_chars = chars_of(base);
    let mut path = String::from_str(base);
    if base_chars.len() > 0 && base_chars[base_chars.len() - 1] != '/' {
        path.push('/');
    }
    path.append(name);
    path
}

/// The mount that stops mount events from crossing the sandbox's border.
/// It has to be the first mount made in a new mount namespace.
pub fn block_mount_propagation() -> (mount: Mount)
    ensures
        mount@ == propagation_block(),
{
    Mount {
        source: None,
        target: String::from_str("/"),
        fstype: None,
        flags: MountFlags {
            recursive: true,
            private: true,
            bind: false,
            nosuid: false,
            noexec: false,
            nodev: false,
        },
        data: None,
    }
}

/// The bind mount of the container's root at `target`. It is recursive:
/// otherwise what is mounted below `container` would stay out of sight,
/// and what those mounts cover would show.
pub fn bind_container(container: &str, target: &str) -> (mount: Mount)
    ensures
        mount@ == container_bind(container@, target@),
        mount.flags.recursive && mount.flags.bind,
{
    Mount {
        source: Some(String::from_str(container)),
        target: String::from_str(target),
        fstype: None,
        flags: MountFlags {
            recursive: true,
            private: false,
            bind: true,
            nosuid: false,
            noexec: false,
            nodev: false,
        },
        data: None,
    }
}

/// Makes the file `from_path` visible at `to_path`, with `flags` on top of
/// those of a recursive bind.
pub fn bind(from_path: &str, to_path: &str, flags: Option<MountFlags>) -> (plan: Vec<FsAction>)
    ensures
        plan.deep_view() == bind_plan(
            from_path@,
            to_path@,
            match flags {
                Some(extra) => extra,
                None => no_flags(),
            },
        ),
{
    let extra = match flags {
        Some(extra) => extra,
        None => empty_flags(),
    };
    let mut plan: Vec<FsAction> = Vec::new();
    push_action(&mut plan, FsAction::CreateFile { path: String::from_str(to_path), mode: 0o444 });
    push_action(
        &mut plan,
        FsAction::Mount(
            Mount {
                source: Some(String::from_str(from_path)),
                target: String::from_str(to_path),
                fstype: None,
                flags: MountFlags {
                    recursive: true,
                    private: extra.private,
                    bind: true,
                    nosuid: extra.nosuid,
                    noexec: extra.noexec,
                    nodev: extra.nodev,
                },
                data: None,
            },
        ),
    );
    assert(plan.deep_view() =~= bind_plan(from_path@, to_path@, extra));
    plan
}

/// The name of the host device with this index.
fn device_node(index: usize) -> (name: &'static str)
    requires
        index < 6,
    ensures
        name@ == device_nodes()[index as int],
{
    match index {
        0 => "full",
        1 => "null",
        2 => "random",
        3 => "tty",
        4 => "urandom",
        _ => "zero",
    }
}

/// The name of the standard stream with this descriptor number, and the
/// descriptor directory entry it links to.
fn stdio_entry(index: usize) -> (entry: (&'static str, &'static str))
    requires
        index < 3,
    ensures
        entry.0@ == stdio_names()[index as int],
        entry.1@ == stdio_targets()[index as int],
{
    match index {
        0 => ("stdin", "/proc/self/fd/0"),
        1 => ("stdout", "/proc/self/fd/1"),
        _ => ("stderr", "/proc/self/fd/2"),
    }
}

/// What fills a freshly mounted `/dev` at `dev`.
fn fill_dev(dev: &str) -> (plan: Vec<FsAction>)
    ensures
        plan.deep_view() == dev_contents(dev@),
{
    let mut plan: Vec<FsAction> = Vec::new();
    let mut i: usize = 0;
    while i < 6
        invariant
            i <= 6,
            plan.deep_view() == device_binds(dev@, i as nat),
        decreases 6 - i,
    {
        let node = device_node(i);
        let from = join_path("/dev", node);
        let to = join_path(dev, node);
        let one = bind(from.as_str(), to.as_str(), None);
        append_plan(&mut plan, one);
        i += 1;
    }
    let ghost binds = plan.deep_view();
    let mut k: usize = 0;
    while k < 3
        invariant
            k <= 3,
            binds == device_binds(dev@, 6),
            plan.deep_view() == binds + stdio_links(dev@, k as nat),
        decreases 3 - k,
    {
        let (name, target) = stdio_entry(k);
        push_action(
            &mut plan,
            FsAction::Symlink { target: String::from_str(target), link: join_path(dev, name) },
        );
        k += 1;
        assert(plan.deep_view() =~= binds + stdio_links(dev@, k as nat));
    }
    let ghost links = plan.deep_view();
    push_action(
        &mut plan,
        FsAction::Symlink { target: String::from_str("/proc/self/fd"), link: join_path(dev, "fd") },
    );
    push_action(&mut plan, FsAction::CreateDir { path: join_path(dev, "shm") });
    push_action(
        &mut plan,
        FsAction::Symlink { target: String::from_str("pts/ptmx"), link: join_path(dev, "ptmx") },
    );
    push_action(&mut plan, FsAction::CreateDir { path: join_path(dev, "pts") });
    push_action(
        &mut plan,
        FsAction::Mount(
            Mount {
                source: Some(String::from_str("devpts")),
                target: join_path(dev, "pts"),
                fstype: Some(String::from_str("devpts")),
                flags: MountFlags {
                    recursive: false,
                    private: false,
                    bind: false,
                    nosuid: true,
                    noexec: true,
                    nodev: false,
                },
                data: Some(String::from_str("newinstance,ptmxmode=0666")),
            },
        ),
    );
    assert(plan.deep_view() =~= dev_contents(dev@));
    plan
}

/// Mounts a kernel filesystem of the given kind at `path`, creating the
/// directory if it is missing.
pub fn perform_pseudo_fs_mount(mount: MountType, path: &str) -> (plan: Vec<FsAction>)
    ensures
        plan.deep_view() == pseudo_fs_plan(mount, path@),
{
    let data = match mount.options() {
        Some(options) => Some(String::from_str(options)),
        None => None,
    };
    let mut plan: Vec<FsAction> = Vec::new();
    push_action(&mut plan, FsAction::CreateDirAll { path: String::from_str(path) });
    push_action(
        &mut plan,
        FsAction::Mount(
            Mount {
                source: Some(String::from_str(mount.source())),
                target: String::from_str(path),
                fstype: Some(String::from_str(mount.fstype())),
                flags: mount.flags(),
                data,
            },
        ),
    );
    assert(plan.deep_view() =~= seq![
        FsActionView::CreateDirAll { path: path@ },
        FsActionView::Mount(pseudo_mount(mount, path@)),
    ]);
    match mount {
        MountType::Dev => {
            let contents = fill_dev(path);
            append_plan(&mut plan, contents);
        },
        _ => {},
    }
    plan
}

/// Enters the new root at `path` and lets go of the old one.
pub fn pivot(path: &str) -> (plan: Vec<FsAction>)
    ensures
        plan.deep_view() == pivot_plan(path@),
{
    let mut plan: Vec<FsAction> = Vec::new();
    push_action(&mut plan, FsAction::Chdir { path: String::from_str(path) });
    push_action(
        &mut plan,
        FsAction::PivotRoot { new_root: String::from_str("."), put_old: String::from_str(".") },
    );
    push_action(&mut plan, FsAction::Detach { target: String::from_str(".") });
    assert(plan.deep_view() =~= pivot_plan(path@));
    plan
}

/// Appends `text` to `out`, with a backslash in front of every colon.
fn push_escaped(out: &mut String, text: &str)
    ensures
        final(out)@ == old(out)@ + escape_colons(text@),
{
    let chars = chars_of(text);
    let mut i: usize = 0;
    while i < chars.len()
        invariant
            i <= chars@.len(),
            chars@ == text@,
            out@ == old(out)@ + escape_colons(chars@.take(i as int)),
        decreases chars@.len() - i,
    {
        let c = chars[i];
        proof {
            assert(chars@.take(i + 1).drop_last() == chars@.take(i as int));
            assert(chars@.take(i + 1).last() == c);
        }
        if c == ':' {
            out.push('\\');
            out.push(':');
            assert(out@ == old(out)@ + (escape_colons(chars@.take(i as int)) + seq!['\\', ':']));
        } else {
            out.push(c);
            assert(out@ == old(out)@ + escape_colons(chars@.take(i as int)).push(c));
        }
        i += 1;
    }
    assert(chars@.take(i as int) == chars@);
}

/// The overlay's list of lower directories for `layers`, base layer first.
pub fn lower_dir_list(layers: &[String]) -> (list: String)
    ensures
        list@ == lower_dirs(layers.deep_view()),
{
    let ghost views = layers.deep_view();
    let mut list = String::new();
    let mut i: usize = layers.len();
    while i > 0
        invariant
            i <= layers@.len(),
            views == layers.deep_view(),
            list@ == lower_dirs_from(views, i as int),
        decreases i,
    {
        i -= 1;
        if i + 1 < layers.len() {
            list.push(':');
        }
        assert(views[i as int] == layers@[i as int]@);
        push_escaped(&mut list, layers[i].as_str());
        assert(list@ == lower_dirs_from(views, i as int));
    }
    list
}

/// Composes the image from its `layers`, base layer first, at `merged`.
pub fn mount_image(layers: &[String], merged: &str) -> (plan: Vec<FsAction>)
    ensures
        plan.deep_view() == image_plan(layers.deep_view(), merged@),
{
    let workdir = join_path(merged, "work");
    let upperdir = join_path(merged, "upper");
    let mut options = String::from_str("lowerdir=");
    let lower = lower_dir_list(layers);
    options.append(lower.as_str());
    options.append(",upperdir=");
    options.append(upperdir.as_str());
    options.append(",workdir=");
    options.append(workdir.as_str());
    let mut plan: Vec<FsAction> = Vec::new();
    push_action(&mut plan, FsAction::CreateDirAll { path: workdir });
    push_action(&mut plan, FsAction::CreateDirAll { path: upperdir });
    push_action(
        &mut plan,
        FsAction::Mount(
            Mount {
                source: Some(String::from_str("overlay")),
                target: String::from_str(merged),
                fstype: Some(String::from_str("overlay")),
                flags: empty_flags(),
                data: Some(options),
            },
        ),
    );
    assert(plan.deep_view() =~= image_plan(layers.deep_view(), merged@));
    plan
}

/// The whole mount dance for the container's root at `container_src`.
pub fn mounts(container_src: &str) -> (plan: Vec<FsAction>)
    ensures
        plan.deep_view() == mounts_plan(container_src@),
{
    let mut plan: Vec<FsAction> = Vec::new();
    push_action(&mut plan, FsAction::Mount(block_mount_propagation()));
    push_action(&mut plan, FsAction::Mount(bind_container(container_src, "/tmp")));
    push_action(&mut plan, FsAction::Chdir { path: String::from_str("/tmp") });
    assert(plan.deep_view() =~= seq![
        FsActionView::Mount(propagation_block()),
        FsActionView::Mount(container_bind(container_src@, "/tmp"@)),
        FsActionView::Chdir { path: "/tmp"@ },
    ]);
    append_plan(&mut plan, perform_pseudo_fs_mount(MountType::Dev, "dev"));
    append_plan(&mut plan, perform_pseudo_fs_mount(MountType::Proc, "proc"));
    append_plan(&mut plan, perform_pseudo_fs_mount(MountType::Sys, "sys"));
    append_plan(&mut plan, perform_pseudo_fs_mount(MountType::Tmp, "tmp"));
    append_plan(&mut plan, perform_pseudo_fs_mount(MountType::Tmp, "run"));
    append_plan(&mut plan, pivot("/tmp"));
    plan
}

/// The sandbox's `/dev` offers the six host devices and the standard
/// streams: the plan for a `Dev` at `dev` creates, for each device, a mount
/// point below `dev` and binds the host's device over it, and it links each
/// standard stream to its entry in the descriptor directory.
pub proof fn lemma_dev_offers_devices(dev: Seq<char>, device: int, stream: int)
    requires
        0 <= device < 6,
        0 <= stream < 3,
    ensures
        ({
            let plan = pseudo_fs_plan(MountType::Dev, dev);
            let node = device_nodes()[device];
            &&& plan.len() == 22
            &&& plan[2 + 2 * device] == FsActionView::CreateFile {
                path: join(dev, node),
                mode: 0o444,
            }
            &&& plan[3 + 2 * device] == FsActionView::Mount(
                container_bind(join("/dev"@, node), join(dev, node)),
            )
            &&& plan[14 + stream] == FsActionView::Symlink {
                target: stdio_targets()[stream],
                link: join(dev, stdio_names()[stream]),
            }
            &&& plan[17] == FsActionView::Symlink {
                target: "/proc/self/fd"@,
                link: join(dev, "fd"@),
            }
        }),
{
    reveal_with_fuel(device_binds, 7);
    reveal_with_fuel(stdio_links, 4);
}

/// Every kernel filesystem is mounted right after its directory is made,
/// without set-user-id programs and without devices, and only a `Tmp` may
/// hold executables.
pub proof fn lemma_pseudo_fs_is_confined(kind: MountType, path: Seq<char>)
    ensures
        ({
            let plan = pseudo_fs_plan(kind, path);
            &&& plan[0] == FsActionView::CreateDirAll { path }
            &&& plan[1] matches FsActionView::Mount(mount) && mount.target == path
                && mount.flags.nosuid && mount.flags.nodev && (mount.flags.noexec <==> kind
                != MountType::Tmp)
        }),
{
}

/// The mount dance is framed by its two critical steps: it begins by
/// blocking propagation, binds the container recursively right after, and
/// ends with the pivot into `/tmp`.
pub proof fn lemma_mounts_is_framed(container: Seq<char>)
    ensures
        ({
            let plan = mounts_plan(container);
            &&& plan.len() == 36
            &&& plan[0] == FsActionView::Mount(propagation_block())
            &&& plan[1] matches FsActionView::Mount(mount) && mount.source == Some(container)
                && mount.flags.recursive && mount.flags.bind
            &&& plan.subrange(33, 36) == pivot_plan("/tmp"@)
            &&& plan.subrange(3, 25) == pseudo_fs_plan(MountType::Dev, "dev"@)
        }),
{
    reveal_with_fuel(device_binds, 7);
    reveal_with_fuel(stdio_links, 4);
    let plan = mounts_plan(container);
    assert(plan.len() == 36);
    assert(plan.subrange(33, 36) =~= pivot_plan("/tmp"@));
    assert(plan.subrange(3, 25) =~= pseudo_fs_plan(MountType::Dev, "dev"@));
}

/// Escaping leaves no colon bare: in the escaped text every colon stands
/// right behind a backslash.
pub proof fn lemma_escaped_colons_are_guarded(text: Seq<char>, at: int)
    requires
        0 <= at < escape_colons(text).len(),
        escape_colons(text)[at] == ':',
    ensures
        at > 0,
        escape_colons(text)[at - 1] == '\\',
    decreases text.len(),
{
    let shorter = escape_colons(text.drop_last());
    if text.last() == ':' {
        if at < shorter.len() {
            lemma_escaped_colons_are_guarded(text.drop_last(), at);
        } else {
            assert(escape_colons(text)[shorter.len() as int] == '\\');
            assert(at == shorter.len() + 1);
        }
    } else {
        if at < shorter.len() {
            lemma_escaped_colons_are_guarded(text.drop_last(), at);
        }
    }
}

/// The layers are listed right to left: with more than one layer the list
/// is that of the layers above the base, a colon, and the base layer.
pub proof fn lemma_base_layer_is_rightmost(layers: Seq<Seq<char>>)
    requires
        layers.len() >= 1,
    ensures
        layers.len() == 1 ==> lower_dirs(layers) == escape_colons(layers[0]),
        layers.len() > 1 ==> lower_dirs(layers) == lower_dirs(layers.skip(1)) + seq![':']
            + escape_colons(layers[0]),
{
    if layers.len() > 1 {
        lemma_lower_dirs_shift(layers, 1);
    }
}

/// Listing from index `from` is listing the layers without their first
/// from index `from - 1`.
proof fn lemma_lower_dirs_shift(layers: Seq<Seq<char>>, from: int)
    requires
        1 <= from <= layers.len(),
    ensures
        lower_dirs_from(layers, from) == lower_dirs_from(layers.skip(1), from - 1),
    decreases layers.len() - from,
{
    if from < layers.len() {
        assert(layers.skip(1)[from - 1] == layers[from]);
        if from < layers.len() - 1 {
            lemma_lower_dirs_shift(layers, from + 1);
        }
    }
}

} // verus!
