//! What the library asks of the process it runs in, through `nix`.

use vstd::prelude::*;

verus! {

/// Calls `nix::unistd::getpid`: the id of the calling process. Nothing is
/// assumed of the number.
#[verifier::external_body]
pub(crate) fn current_pid() -> (pid: i32) {
    nix::unistd::getpid().as_raw()
}

/// Calls `nix::unistd::Uid::current`: the real user id of the calling
/// process. Nothing is assumed of the number.
#[verifier::external_body]
pub(crate) fn current_uid() -> (uid: u32) {
    nix::unistd::Uid::current().as_raw()
}

/// Calls `nix::unistd::Gid::current`: the real group id of the calling
/// process. Nothing is assumed of the number.
#[verifier::external_body]
pub(crate) fn current_gid() -> (gid: u32) {
    nix::unistd::Gid::current().as_raw()
}

} // verus!
