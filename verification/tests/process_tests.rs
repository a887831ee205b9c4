use fork::process::{ProcessState, WorkingDir};
use fork::{Fork, SysError};

#[test]
fn split_is_observed_once_as_parent_and_once_as_child() {
    let mut p = ProcessState::launch(100, 90, 80, WorkingDir::Root);
    let s = p.split(101);
    // Exactly one of the two processes sees each observation, and the pid
    // the parent sees is the pid of the process that sees `Child`.
    assert_eq!(s.parent_sees, Fork::Parent(101));
    assert_eq!(s.child_sees, Fork::Child);
    assert_ne!(s.parent_sees, s.child_sees);
    assert_eq!(s.parent_sees, Fork::Parent(s.child.pid));
}

#[test]
fn split_child_inherits_group_session_and_directory() {
    let mut p = ProcessState::launch(100, 90, 80, WorkingDir::Other(7));
    let s = p.split(101);
    assert_eq!(s.child.pid, 101);
    assert_eq!(s.child.pgid, 90);
    assert_eq!(s.child.sid, 80);
    assert_eq!(s.child.cwd, WorkingDir::Other(7));
    // The descriptor table is inherited slot for slot.
    for fd in 0..4 {
        assert_eq!(s.child.fds.binding_at(fd), p.fds.binding_at(fd));
    }
}

#[test]
fn new_session_makes_a_fresh_child_the_leader() {
    let mut p = ProcessState::launch(100, 90, 80, WorkingDir::Root);
    let mut child = p.split(101).child;
    // The child's fresh pid leads no group, so setsid succeeds and names
    // the new session and group after the caller's own pid.
    assert_eq!(child.new_session(), Ok(101));
    assert_eq!(child.pgid, 101);
    assert_eq!(child.sid, 101);
    assert_eq!(child.current_group(), 101);
}

#[test]
fn new_session_fails_for_a_group_leader() {
    let mut p = ProcessState::launch(100, 100, 80, WorkingDir::Root);
    assert_eq!(p.new_session(), Err(SysError::PermissionDenied));
    // The failed call left the identifiers untouched.
    assert_eq!(p.pgid, 100);
    assert_eq!(p.sid, 80);
}

#[test]
fn change_dir_moves_to_the_root() {
    let mut p = ProcessState::launch(100, 90, 80, WorkingDir::Other(5));
    p.change_dir_to_root();
    assert_eq!(p.cwd, WorkingDir::Root);
}

#[test]
fn wait_reaps_exactly_the_named_child() {
    let mut p = ProcessState::launch(100, 90, 80, WorkingDir::Root);
    p.split(101);
    p.split(102);
    assert_eq!(p.wait_for_child(101), Ok(()));
    // 101 is reaped; 102 is still waiting.
    assert_eq!(p.wait_for_child(101), Err(SysError::NoSuchChild));
    assert_eq!(p.wait_for_child(102), Ok(()));
}

#[test]
fn wait_fails_without_a_matching_child() {
    let mut p = ProcessState::launch(100, 90, 80, WorkingDir::Root);
    assert_eq!(p.wait_for_child(77), Err(SysError::NoSuchChild));
}

#[test]
fn group_query_reports_the_group_of_each_process() {
    let mut p = ProcessState::launch(100, 90, 80, WorkingDir::Root);
    let s = p.split(101);
    assert_eq!(p.current_group(), 90);
    assert_eq!(s.child.current_group(), 90);
}
