//! Small decisions around the sandbox: which inherited descriptors to
//! close, what an environment setting says, and which image architectures
//! the host can run.

use vstd::prelude::*;
use crate::text::chars_of;
use crate::text::first_piece;
use crate::text::parse_signed;
use crate::text::read_signed;
use crate::text::same_text;
use crate::text::second_piece;
use crate::text::split_two;
use crate::text::string_of;

verus! {

/// The descriptor that a directory entry names: a decimal numeral, with or
/// without a sign, that fits in 32 bits.
pub open spec fn parse_fd(name: Seq<char>) -> Option<int> {
    parse_signed(name, 2147483648, 2147483647)
}

/// Whether the descriptor `fd` is left open: the three standard streams,
/// the descriptor the directory is read through, and what is to be kept.
pub open spec fn spared(fd: int, dir_fd: int, keep: Seq<i32>) -> bool {
    fd == 0 || fd == 1 || fd == 2 || fd == dir_fd || exists|k: int|
        0 <= k < keep.len() && keep[k] == fd
}

/// The descriptor to close for a directory entry, if any: an entry that
/// names no descriptor is passed over, and so is one that is spared.
pub open spec fn to_close(name: Seq<char>, dir_fd: int, keep: Seq<i32>) -> Option<i32> {
    match parse_fd(name) {
        Some(fd) => if spared(fd, dir_fd, keep) {
            None
        } else {
            Some(fd as i32)
        },
        None => None,
    }
}

/// The descriptors to close for the first `count` entries, in their order.
pub open spec fn close_list(entries: Seq<Seq<char>>, count: nat, dir_fd: int, keep: Seq<i32>) -> Seq<
    i32,
>
    decreases count,
{
    if count == 0 || count > entries.len() {
        Seq::empty()
    } else {
        let before = close_list(entries, (count - 1) as nat, dir_fd, keep);
        match to_close(entries[count - 1], dir_fd, keep) {
            Some(fd) => before.push(fd),
            None => before,
        }
    }
}

/// What an environment setting written as `KEY=VAL` says: the key is what
/// stands before the first `=`, the value what stands between it and the
/// next `=` or the end. A text without `=` is no setting.
pub open spec fn env_pair(var: Seq<char>) -> Option<(Seq<char>, Seq<char>)> {
    match second_piece(var, '=') {
        Some(value) => Some((first_piece(var, '='), value)),
        None => None,
    }
}

/// The settings of the first `count` texts, in their order.
pub open spec fn env_pairs(env: Seq<Seq<char>>, count: nat) -> Seq<(Seq<char>, Seq<char>)>
    decreases count,
{
    if count == 0 || count > env.len() {
        Seq::empty()
    } else {
        env_pairs(env, (count - 1) as nat).push(env_pair(env[count - 1])->0)
    }
}

/// The name by which the host knows an architecture that images call
/// `image_arch`, if the two are known to match.
pub open spec fn host_name_of(image_arch: Seq<char>) -> Option<Seq<char>> {
    if image_arch == "386"@ {
        Some("x86"@)
    } else if image_arch == "amd64"@ {
        Some("x86_64"@)
    } else if image_arch == "arm"@ {
        Some("arm"@)
    } else if image_arch == "arm64"@ {
        Some("aarch64"@)
    } else if image_arch == "ppc64le"@ {
        Some("powerpc64"@)
    } else if image_arch == "s390x"@ {
        Some("s390x"@)
    } else {
        None
    }
}

/// Whether `fd` is among `keep`.
fn is_kept(keep: &[i32], fd: i32) -> (found: bool)
    ensures
        found == exists|k: int| 0 <= k < keep@.len() && keep@[k] == fd,
{
    let mut i: usize = 0;
    while i < keep.len()
        invariant
            i <= keep@.len(),
            forall|k: int| 0 <= k < i ==> keep@[k] != fd,
        decreases keep@.len() - i,
    {
        if keep[i] == fd {
            return true;
        }
        i += 1;
    }
    false
}

/// The descriptor to close for the directory entry `name`, if any.
pub fn closable(name: &str, dir_fd: i32, keep: &[i32]) -> (fd: Option<i32>)
    ensures
        fd == to_close(name@, dir_fd as int, keep@),
{
    let chars = chars_of(name);
    match read_signed(chars.as_slice(), 2147483648, 2147483647) {
        None => None,
        Some(value) => {
            let fd = value as i32;
            if fd == 0 || fd == 1 || fd == 2 || fd == dir_fd || is_kept(keep, fd) {
                None
            } else {
                Some(fd)
            }
        },
    }
}

/// Picks the descriptors to close from the entries of the directory that
/// lists the open ones: every entry that names a descriptor, but for the
/// standard streams, `dir_fd`, through which the directory is read, and
/// those in `keep`. Closing is best effort, one descriptor at a time.
pub fn close_fds(entries: &[String], dir_fd: i32, keep: &[i32]) -> (fds: Vec<i32>)
    ensures
        fds@ == close_list(entries.deep_view(), entries@.len(), dir_fd as int, keep@),
{
    let ghost names = entries.deep_view();
    let mut fds: Vec<i32> = Vec::new();
    let mut i: usize = 0;
    while i < entries.len()
        invariant
            i <= entries@.len(),
            names == entries.deep_view(),
            fds@ == close_list(names, i as nat, dir_fd as int, keep@),
        decreases entries@.len() - i,
    {
        assert(names[i as int] == entries@[i as int]@);
        match closable(entries[i].as_str(), dir_fd, keep) {
            Some(fd) => {
                fds.push(fd);
            },
            None => {},
        }
        i += 1;
    }
    fds
}

/// Reads an environment setting written as `KEY=VAL`.
pub fn parse_env_var(var: &str) -> (pair: Option<(String, String)>)
    ensures
        match pair {
            Some((key, value)) => env_pair(var@) == Some((key@, value@)),
            None => env_pair(var@) is None,
        },
{
    let chars = chars_of(var);
    let (key, value) = split_two(chars.as_slice(), '=');
    match value {
        None => None,
        Some(value) => Some(
            (string_of(key.as_slice(), 0, key.len()), string_of(value.as_slice(), 0, value.len())),
        ),
    }
}

/// Reads environment settings written as `KEY=VAL`: the variables to set,
/// in order, or `None` when one of the texts is no setting.
pub fn set_env(env: &[String]) -> (vars: Option<Vec<(String, String)>>)
    ensures
        vars is Some <==> forall|i: int|
            0 <= i < env@.len() ==> env_pair(#[trigger] env.deep_view()[i]) is Some,
        vars matches Some(vars) ==> vars.deep_view() == env_pairs(env.deep_view(), env@.len()),
{
    let ghost texts = env.deep_view();
    let mut vars: Vec<(String, String)> = Vec::new();
    let mut i: usize = 0;
    while i < env.len()
        invariant
            i <= env@.len(),
            texts == env.deep_view(),
            forall|k: int| 0 <= k < i ==> env_pair(#[trigger] texts[k]) is Some,
            vars.deep_view() == env_pairs(texts, i as nat),
        decreases env@.len() - i,
    {
        assert(texts[i as int] == env@[i as int]@);
        match parse_env_var(env[i].as_str()) {
            None => {
                return None;
            },
            Some(pair) => {
                let ghost before = vars.deep_view();
                vars.push(pair);
                assert(vars.deep_view() =~= before.push((pair.0@, pair.1@)));
            },
        }
        i += 1;
    }
    Some(vars)
}

/// The name by which the host knows an architecture that images call
/// `image_arch`.
pub fn normalize_arch(image_arch: &str) -> (name: Option<&'static str>)
    ensures
        match name {
            Some(name) => host_name_of(image_arch@) == Some(name@),
            None => host_name_of(image_arch@) is None,
        },
{
    if same_text(image_arch, "386") {
        Some("x86")
    } else if same_text(image_arch, "amd64") {
        Some("x86_64")
    } else if same_text(image_arch, "arm") {
        Some("arm")
    } else if same_text(image_arch, "arm64") {
        Some("aarch64")
    } else if same_text(image_arch, "ppc64le") {
        Some("powerpc64")
    } else if same_text(image_arch, "s390x") {
        Some("s390x")
    } else {
        None
    }
}

/// Whether an image built for `image_arch` runs on a host whose
/// architecture is called `host_arch`.
pub fn is_compatible_arch(image_arch: &str, host_arch: &str) -> (compatible: bool)
    ensures
        compatible == (host_name_of(image_arch@) == Some(host_arch@)),
{
    match normalize_arch(image_arch) {
        Some(name) => same_text(name, host_arch),
        None => false,
    }
}

/// The directory below which the runtime keeps its files.
pub fn get_base_path() -> (path: &'static str)
    ensures
        path@ == "/tmp/dabba"@,
{
    "/tmp/dabba"
}

/// No spared descriptor is ever closed, and nothing else stays open: a
/// descriptor is in the list exactly when an entry names it and it is not
/// spared.
pub proof fn lemma_close_list_is_exact(
    entries: Seq<Seq<char>>,
    count: nat,
    dir_fd: int,
    keep: Seq<i32>,
    fd: i32,
)
    requires
        count <= entries.len(),
    ensures
        close_list(entries, count, dir_fd, keep).contains(fd) <==> !spared(fd as int, dir_fd, keep)
            && exists|i: int| 0 <= i < count && parse_fd(#[trigger] entries[i]) == Some(fd as int),
    decreases count,
{
    if count > 0 {
        lemma_close_list_is_exact(entries, (count - 1) as nat, dir_fd, keep, fd);
        let before = close_list(entries, (count - 1) as nat, dir_fd, keep);
        let list = close_list(entries, count, dir_fd, keep);
        let last = entries[count - 1];
        match to_close(last, dir_fd, keep) {
            Some(closed) => {
                assert(list == before.push(closed));
                assert(list[list.len() - 1] == closed);
                if list.contains(fd) {
                    let at = choose|at: int| 0 <= at < list.len() && list[at] == fd;
                    if at < before.len() {
                        assert(before[at] == fd);
                    } else {
                        assert(parse_fd(entries[count - 1]) == Some(fd as int));
                    }
                }
                if !spared(fd as int, dir_fd, keep) && exists|i: int|
                    0 <= i < count && parse_fd(#[trigger] entries[i]) == Some(fd as int) {
                    let i = choose|i: int|
                        0 <= i < count && parse_fd(#[trigger] entries[i]) == Some(fd as int);
                    if i < count - 1 {
                        assert(before.contains(fd));
                        let at = choose|at: int| 0 <= at < before.len() && before[at] == fd;
                        assert(list[at] == fd);
                    } else {
                        assert(closed == fd);
                    }
                }
            },
            None => {
                if !spared(fd as int, dir_fd, keep) && exists|i: int|
                    0 <= i < count && parse_fd(#[trigger] entries[i]) == Some(fd as int) {
                    let i = choose|i: int|
                        0 <= i < count && parse_fd(#[trigger] entries[i]) == Some(fd as int);
                    assert(i < count - 1);
                }
            },
        }
    }
}

} // verus!
