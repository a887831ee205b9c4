//! The double-fork protocol, run end to end on the process model.
//!
//! [`daemonize`] performs, on a [`ProcessState`], exactly the sequence the
//! real protocol performs on a live process: split, become a session leader,
//! optionally move to the filesystem root, optionally redirect the standard
//! streams, split again. Its contract pins down every property the protocol
//! exists to deliver:
//!
//! - the original process observes `Parent` and is done — its only job was
//!   to bring the first child into existence;
//! - the first child's `setsid` cannot fail (its fresh pid leads no group),
//!   and makes it a session leader — momentarily, which is precisely the
//!   problem the second split solves;
//! - the final daemon's pid differs from its process-group and session
//!   identifiers, so it can never reacquire a controlling terminal;
//! - the working directory is the root unless the caller skipped the change,
//!   in which case it is untouched;
//! - the standard streams are redirected to the null device unless the
//!   caller skipped neutralization, in which case the descriptor table is
//!   inherited unchanged.

use vstd::prelude::*;

use crate::Fork;
use crate::fd_table::FdBinding;
use crate::process::{ProcessState, WorkingDir};
use crate::streams::{redirect_standard_streams, streams_redirected};

verus! {

/// Everything a successful run of the protocol leaves behind: one
/// observation for the process that dies first, a snapshot of the process
/// that dies second, and the daemon that lives on.
pub struct DaemonizeOutcome {
    /// What the original process observes before terminating: `Parent`
    /// carrying the first child's pid.
    pub caller_sees: Fork,
    /// The first child as it stands right before its own split — a session
    /// leader, which is why it must not be the daemon.
    pub intermediate: ProcessState,
    /// What the daemon process observes: `Child`.
    pub daemon_sees: Fork,
    /// The detached daemon process.
    pub daemon: ProcessState,
}

/// Runs the double-fork protocol on the model. `caller` is the foreground
/// process invoking it; `first_child_pid` and `daemon_pid` are the pids the
/// kernel assigns at the two splits, constrained only by its freshness
/// guarantees (each new pid names no live process, and no group or session
/// still in use — in particular the daemon's pid cannot name the session the
/// first child just created, since the daemon itself keeps that session
/// alive).
///
/// `nochdir` skips the change to the filesystem root; `noclose` skips the
/// stream redirection. Directory change precedes stream neutralization
/// precedes the second split; an error in any step would propagate before
/// the next step runs, and in the model no step of the successful sequence
/// can fail.
pub fn daemonize(
    caller: &ProcessState,
    nochdir: bool,
    noclose: bool,
    first_child_pid: i32,
    daemon_pid: i32,
) -> (d: DaemonizeOutcome)
    requires
        caller.valid(),
        first_child_pid > 0,
        first_child_pid != caller.pid,
        first_child_pid != caller.pgid,
        first_child_pid != caller.sid,
        daemon_pid > 0,
        daemon_pid != first_child_pid,
    ensures
        d.caller_sees == Fork::Parent(first_child_pid),
        d.daemon_sees == Fork::Child,
        d.intermediate.pid == first_child_pid,
        d.intermediate.is_session_leader(),
        d.intermediate.is_group_leader(),
        d.daemon.pid == daemon_pid,
        d.daemon.pgid == first_child_pid,
        d.daemon.sid == first_child_pid,
        !d.daemon.is_session_leader(),
        !d.daemon.is_group_leader(),
        d.daemon.cwd == (if nochdir {
            caller.cwd
        } else {
            WorkingDir::Root
        }),
        d.daemon.fds@ == (if noclose {
            caller.fds@
        } else {
            streams_redirected(caller.fds@)
        }),
        d.daemon.valid(),
        d.daemon.children@ == Seq::<i32>::empty(),
        d.intermediate.cwd == d.daemon.cwd,
        d.intermediate.fds@ == d.daemon.fds@,
{
    // The original process splits; in the real protocol it now terminates
    // with a successful exit status, so only its observation survives here.
    let mut original = caller.duplicate();
    let first = original.split(first_child_pid);
    let caller_sees = first.parent_sees;

    // The first child detaches from the controlling terminal. Its pid is
    // fresh, so it leads no process group and `setsid` must succeed.
    let mut child = first.child;
    match child.new_session() {
        Err(_) => {
            proof {
                assert(false);
            }
        },
        Ok(_) => {},
    }

    if !nochdir {
        child.change_dir_to_root();
    }
    if !noclose {
        // The redirecting strategy, never the closing one: slots 0..2 stay
        // occupied, so the daemon's own files cannot be handed their numbers.
        match redirect_standard_streams(&mut child.fds) {
            Err(_) => {
                proof {
                    assert(false);
                }
            },
            Ok(_) => {},
        }
    }

    // The first child splits once more and terminates on seeing `Parent`;
    // with the session leader gone, the surviving grandchild can never
    // reacquire a controlling terminal.
    let intermediate = child.duplicate();
    let second = child.split(daemon_pid);

    DaemonizeOutcome {
        caller_sees,
        intermediate,
        daemon_sees: second.child_sees,
        daemon: second.child,
    }
}

/// Law: a daemon spawned with stream neutralization left on — or one whose
/// inherited table already had its standard streams occupied — receives
/// descriptor 3 or higher for every stream it opens afterwards.
pub proof fn lemma_daemon_opens_high(
    m: Map<nat, FdBinding>,
    noclose: bool,
    n: nat,
)
    requires
        noclose ==> m.dom().contains(0) && m.dom().contains(1) && m.dom().contains(2),
        crate::fd_table::is_lowest_free(
            if noclose {
                m
            } else {
                streams_redirected(m)
            },
            n,
        ),
    ensures
        n >= 3,
{
    if noclose {
        crate::streams::lemma_occupied_streams_open_high(m, n);
    } else {
        crate::streams::lemma_redirected_opens_high(m, n);
    }
}

} // verus!
