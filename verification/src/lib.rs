//! A verified model of double-fork daemonization.
//!
//! Turning a foreground process into a detached background service takes a
//! fixed sequence of kernel operations: fork, become a session leader, move to
//! the filesystem root, neutralize the three standard streams, fork again.
//! The sequence is easy to write down and easy to get subtly wrong; the worst
//! mistake is *file-descriptor slot reuse*, where closing descriptors 0..2
//! lets the kernel hand those numbers to the daemon's own data files, so that
//! later diagnostic output silently corrupts them.
//!
//! This crate states and proves that logic over an explicit model of the
//! kernel state it touches:
//!
//! - [`fd_table`] models a process's file-descriptor table together with the
//!   kernel's lowest-free-slot allocation policy;
//! - [`streams`] provides the two standard-stream neutralization strategies
//!   (closing and redirecting) on that table, with proofs that the closing
//!   strategy frees slots 0..2 for reuse while the redirecting strategy keeps
//!   every later descriptor at 3 or above;
//! - [`process`] models process identity (pid, process group, session) and
//!   the working directory, with the primitives that act on them: fork,
//!   setsid, chdir, waitpid, getpgrp;
//! - [`orchestrator`] runs the whole double-fork protocol on the model and
//!   proves the daemon's final state: not a session leader, in the requested
//!   working directory, with its standard streams neutralized;
//! - [`driver`] is the protocol as an event-driven state machine, so that an
//!   unverified shell can perform the real system calls and feed back their
//!   outcomes while every decision stays verified.

use vstd::prelude::*;

pub mod driver;
pub mod fd_table;
pub mod orchestrator;
pub mod process;
pub mod streams;

verus! {

/// The two ways one successful process split is observed: the original
/// process sees `Parent` carrying the new child's pid, and the new child
/// sees `Child`.
#[derive(Debug, Clone, Copy, PartialEq, Eq, Structural)]
pub enum Fork {
    Parent(i32),
    Child,
}

/// The one failure kind in this model: a kernel primitive refusing the call.
/// Each variant stands for the `errno` the corresponding primitive sets.
#[derive(Debug, Clone, Copy, PartialEq, Eq, Structural)]
pub enum SysError {
    /// The descriptor is not open (`EBADF`).
    BadDescriptor,
    /// The caller already leads a process group (`EPERM`, from `setsid`).
    PermissionDenied,
    /// The caller has no child with the given pid (`ECHILD`).
    NoSuchChild,
}

/// Law: the two observations of one split are never confused. Whatever pid
/// the parent sees, its observation differs from the child's, so exactly one
/// of the two resulting processes takes each branch.
pub proof fn lemma_split_observations_differ(pid: i32)
    ensures
        Fork::Parent(pid) != Fork::Child,
{
}

/// Law: every split observation is exactly one of the two roles; a process
/// that does not observe `Parent` observes `Child`.
pub proof fn lemma_split_roles_exhaustive(o: Fork)
    ensures
        (o is Parent) <==> !(o is Child),
{
}

} // verus!
