//! The decision core of a rootless container runtime.
//!
//! Every function here is a pure computation with a proved contract: the
//! command lines handed to helper programs, the ordered mount plan of the
//! sandbox, the single-byte handshake codes, and the two state machines that
//! drive the parent and the sandboxed child through the setup protocol.
//! Performing the system calls those plans describe is left to the caller.

pub mod cgroups;
pub mod child;
pub mod cli;
pub mod error;
pub mod host;
pub mod idmap_helper;
pub mod ipc;
pub mod json;
pub mod mount_helper;
pub mod registry;
pub mod sandbox;
pub mod slirp;
pub mod storage;
pub mod text;
pub mod util;
