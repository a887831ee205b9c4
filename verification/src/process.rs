//! A model of process identity and the kernel primitives daemonization
//! drives.
//!
//! A [`ProcessState`] carries what this crate's logic reads of a process: its
//! pid, process-group and session identifiers, its working directory, the
//! pids of its unreaped children, and its descriptor table. The methods are
//! the primitives of the protocol — fork, setsid, chdir, waitpid, getpgrp —
//! each with the contract the kernel documents for it.
//!
//! Pid freshness is a kernel guarantee this model states as preconditions:
//! a new child's pid differs from the pid of every live process, and a pid
//! is not reused while a process group or session still bears it, so it also
//! differs from the parent's group and session identifiers. The double-fork
//! protocol's correctness rests on exactly that: the first child's fresh pid
//! cannot lead an existing group, so its `setsid` cannot fail.

use vstd::prelude::*;

use crate::fd_table::{FdTable, standard_streams};
use crate::{Fork, SysError};

verus! {

/// A process's current working directory: the filesystem root, or any other
/// directory, identified abstractly.
#[derive(Debug, Clone, Copy, PartialEq, Eq, Structural)]
pub enum WorkingDir {
    Root,
    Other(u64),
}

/// What this crate's logic reads of one live process.
pub struct ProcessState {
    /// The process identifier; positive, unique among live processes.
    pub pid: i32,
    /// The process-group identifier.
    pub pgid: i32,
    /// The session identifier. A process leads its session iff `pid == sid`.
    pub sid: i32,
    /// The current working directory.
    pub cwd: WorkingDir,
    /// The pids of children that have not been reaped yet.
    pub children: Vec<i32>,
    /// The file-descriptor table.
    pub fds: FdTable,
}

/// Both observations of one successful split, together with the new process.
/// Exactly one of the two now-running processes sees each observation.
pub struct SplitOutcome {
    /// What the original process observes: `Parent` carrying the child's pid.
    pub parent_sees: Fork,
    /// What the new process observes: `Child`.
    pub child_sees: Fork,
    /// The new process itself.
    pub child: ProcessState,
}

impl ProcessState {
    /// The identifiers are positive, as the kernel assigns them.
    pub open spec fn valid(&self) -> bool {
        self.pid > 0 && self.pgid > 0 && self.sid > 0
    }

    /// A session leader is the process whose pid names its session. Only a
    /// session leader can reacquire a controlling terminal, which is why the
    /// final daemon must not be one.
    pub open spec fn is_session_leader(&self) -> bool {
        self.pid == self.sid
    }

    /// A process-group leader; `setsid` refuses to run in one.
    pub open spec fn is_group_leader(&self) -> bool {
        self.pid == self.pgid
    }

    /// A freshly launched foreground process: no children yet, standard
    /// streams bound to the terminal.
    pub fn launch(pid: i32, pgid: i32, sid: i32, cwd: WorkingDir) -> (p: ProcessState)
        requires
            pid > 0,
            pgid > 0,
            sid > 0,
        ensures
            p.pid == pid,
            p.pgid == pgid,
            p.sid == sid,
            p.cwd == cwd,
            p.children@ == Seq::<i32>::empty(),
            p.fds@ == standard_streams(),
            p.valid(),
    {
        ProcessState { pid, pgid, sid, cwd, children: Vec::new(), fds: FdTable::standard() }
    }

    /// An identical snapshot of the process's state.
    pub fn duplicate(&self) -> (p: ProcessState)
        ensures
            p.pid == self.pid,
            p.pgid == self.pgid,
            p.sid == self.sid,
            p.cwd == self.cwd,
            p.children@ == self.children@,
            p.fds@ == self.fds@,
    {
        ProcessState {
            pid: self.pid,
            pgid: self.pgid,
            sid: self.sid,
            cwd: self.cwd,
            children: copy_pids(&self.children),
            fds: self.fds.duplicate(),
        }
    }

    /// Fork: the kernel duplicates the calling process. The caller keeps its
    /// identity, gains `child_pid` as an unreaped child, and observes
    /// `Parent(child_pid)`; the new process observes `Child`, starts with no
    /// children of its own, and inherits everything else — group, session,
    /// working directory, and a copy of the descriptor table. The
    /// preconditions are the kernel's pid-freshness guarantees: the child's
    /// pid names no live process, group or session of its parent.
    pub fn split(&mut self, child_pid: i32) -> (s: SplitOutcome)
        requires
            old(self).valid(),
            child_pid > 0,
            child_pid != old(self).pid,
            child_pid != old(self).pgid,
            child_pid != old(self).sid,
        ensures
            s.parent_sees == Fork::Parent(child_pid),
            s.child_sees == Fork::Child,
            s.parent_sees == Fork::Parent(s.child.pid),
            final(self).pid == old(self).pid,
            final(self).pgid == old(self).pgid,
            final(self).sid == old(self).sid,
            final(self).cwd == old(self).cwd,
            final(self).children@ == old(self).children@.push(child_pid),
            final(self).fds@ == old(self).fds@,
            s.child.pid == child_pid,
            s.child.pgid == old(self).pgid,
            s.child.sid == old(self).sid,
            s.child.cwd == old(self).cwd,
            s.child.children@ == Seq::<i32>::empty(),
            s.child.fds@ == old(self).fds@,
            s.child.valid(),
            !s.child.is_group_leader(),
    {
        let child = ProcessState {
            pid: child_pid,
            pgid: self.pgid,
            sid: self.sid,
            cwd: self.cwd,
            children: Vec::new(),
            fds: self.fds.duplicate(),
        };
        self.children.push(child_pid);
        SplitOutcome { parent_sees: Fork::Parent(child_pid), child_sees: Fork::Child, child }
    }

    /// Setsid: the caller becomes the leader of a new session and a new
    /// process group, both named by its own pid, and the new session id is
    /// handed back. Fails with `PermissionDenied` — leaving the process
    /// untouched — exactly when the caller already leads a process group,
    /// which is why the protocol only ever calls this in a freshly forked
    /// child.
    pub fn new_session(&mut self) -> (r: Result<i32, SysError>)
        ensures
            r is Ok <==> !old(self).is_group_leader(),
            r matches Ok(sid) ==> sid == old(self).pid,
            r is Ok ==> final(self).pid == old(self).pid
                && final(self).pgid == old(self).pid
                && final(self).sid == old(self).pid
                && final(self).cwd == old(self).cwd
                && final(self).children@ == old(self).children@
                && final(self).fds@ == old(self).fds@
                && final(self).is_session_leader()
                && final(self).is_group_leader(),
            r is Err ==> r == Result::<i32, SysError>::Err(SysError::PermissionDenied)
                && *final(self) == *old(self),
    {
        if self.pid == self.pgid {
            Err(SysError::PermissionDenied)
        } else {
            self.pgid = self.pid;
            self.sid = self.pid;
            Ok(self.pid)
        }
    }

    /// Chdir to the filesystem root, so the daemon holds no arbitrary —
    /// possibly unmountable — directory busy. The root always exists and is
    /// always searchable in this model; the real call reports a failure to
    /// its caller instead.
    pub fn change_dir_to_root(&mut self)
        ensures
            final(self).cwd == WorkingDir::Root,
            final(self).pid == old(self).pid,
            final(self).pgid == old(self).pgid,
            final(self).sid == old(self).sid,
            final(self).children@ == old(self).children@,
            final(self).fds@ == old(self).fds@,
    {
        self.cwd = WorkingDir::Root;
    }

    /// Waitpid: blocks until the child named `pid` terminates, then reaps it
    /// so no zombie entry remains — here, the pid leaves the caller's child
    /// list. Fails with `NoSuchChild` — leaving the process untouched —
    /// exactly when the caller has no unreaped child with that pid.
    pub fn wait_for_child(&mut self, pid: i32) -> (r: Result<(), SysError>)
        ensures
            r is Ok <==> old(self).children@.contains(pid),
            r is Ok ==> final(self).children@ == old(self).children@.remove_value(pid)
                && final(self).pid == old(self).pid
                && final(self).pgid == old(self).pgid
                && final(self).sid == old(self).sid
                && final(self).cwd == old(self).cwd
                && final(self).fds@ == old(self).fds@,
            r is Err ==> r == Result::<(), SysError>::Err(SysError::NoSuchChild)
                && *final(self) == *old(self),
    {
        let mut i: usize = 0;
        while i < self.children.len()
            invariant
                *self == *old(self),
                i <= self.children@.len(),
                forall|j: int| 0 <= j < i ==> self.children@[j] != pid,
            decreases self.children@.len() - i,
        {
            if self.children[i] == pid {
                proof {
                    old(self).children@.index_of_first_ensures(pid);
                    assert(old(self).children@.index_of_first(pid) == Some(i as int));
                }
                self.children.remove(i);
                return Ok(());
            }
            i = i + 1;
        }
        proof {
            assert(!old(self).children@.contains(pid));
        }
        Err(SysError::NoSuchChild)
    }

    /// Getpgrp: reports the caller's process-group identifier. Used by the
    /// protocol's observers, never for control flow.
    pub fn current_group(&self) -> (r: i32)
        ensures
            r == self.pgid,
    {
        self.pgid
    }
}

/// An element-for-element copy of a pid list.
fn copy_pids(v: &Vec<i32>) -> (r: Vec<i32>)
    ensures
        r@ == v@,
{
    let mut r: Vec<i32> = Vec::new();
    let mut i: usize = 0;
    while i < v.len()
        invariant
            i <= v@.len(),
            r@ =~= v@.subrange(0, i as int),
        decreases v@.len() - i,
    {
        r.push(v[i]);
        i = i + 1;
    }
    proof {
        assert(r@ =~= v@);
    }
    r
}

} // verus!
