//! Tests of the attacher variants: each one's signal handle and wait are
//! driven through the scenarios the protocol sees — a send, a spurious
//! wake-up, a drop and re-arm.

use teleop::attach::attacher::dummy::DummyAttacher;
use teleop::attach::attacher::inotify::InotifyAttacher;
use teleop::attach::attacher::kqueue::KqueueAttacher;
use teleop::attach::attacher::unix::{UnixAttacher, UnixWakeEvent};
use teleop::attach::attacher::{AttachWait, Attacher, AttacherSignal};
use teleop::internal::attach_file_name;

#[test]
fn test_dummy_attacher() {
    // The dummy variant is signaled from the very beginning and its signal
    // does nothing.
    let wait = DummyAttacher::signaled(4242);
    assert!(wait.resolved());

    let mut signal = DummyAttacher::signal(4242).unwrap();
    let plan = signal.send_step(false).unwrap();
    assert!(plan.create_witness.is_none());
    assert!(plan.raise_quit.is_none());
    assert!(signal.release().is_none());
}

#[test]
fn dummy_attacher_test_dummy_attacher() {
    // Same as test_dummy_attacher, for the wait-then-send order.
    let wait = DummyAttacher::signaled(4242);
    let mut signal = DummyAttacher::signal(4242).unwrap();
    assert!(wait.resolved());
    let plan = signal.send_step(true).unwrap();
    assert!(plan.create_witness.is_none());
    assert!(plan.raise_quit.is_none());
}

#[test]
fn test_unix_attacher() {
    let pid = 4242;

    // Arm first, then send: the handle creates the witness file and raises
    // SIGQUIT at the target.
    let mut wait = UnixAttacher::signaled(pid);
    assert!(!wait.resolved());

    let mut signal = UnixAttacher::signal(pid).unwrap();
    let plan = signal.send_step(false).unwrap();
    let witness_path = plan.create_witness.clone().unwrap();
    assert_eq!(witness_path, format!("/proc/{}/cwd/.teleop_attach_{}", pid, pid));
    assert_eq!(plan.raise_quit, Some(pid));

    // The signal arrives while the witness file exists: resolved.
    wait.on_event(&UnixWakeEvent { quit: true, witness_exists: true });
    assert!(wait.resolved());

    // Dropping the handle names the witness file for removal.
    assert_eq!(signal.release(), Some(witness_path.clone()));

    // Re-arm: a wrong signal resolves nothing.
    let mut wait = UnixAttacher::signaled(pid);
    wait.on_event(&UnixWakeEvent { quit: false, witness_exists: true });
    assert!(!wait.resolved());

    // A second handle sends again: the witness file is re-created, and the
    // wait resolves on the second sequence.
    let mut signal = UnixAttacher::signal(pid).unwrap();
    let plan = signal.send_step(false).unwrap();
    assert_eq!(plan.create_witness, Some(witness_path));
    wait.on_event(&UnixWakeEvent { quit: true, witness_exists: true });
    assert!(wait.resolved());
    assert!(signal.release().is_some());
}

#[test]
fn unix_attacher_ignores_spurious_signals() {
    // A SIGQUIT not accompanied by the witness file is not from a
    // legitimate attach initiator and is ignored.
    let mut wait = UnixAttacher::signaled(7);
    wait.on_event(&UnixWakeEvent { quit: true, witness_exists: false });
    assert!(!wait.resolved());
    wait.on_event(&UnixWakeEvent { quit: false, witness_exists: false });
    assert!(!wait.resolved());
    wait.on_event(&UnixWakeEvent { quit: true, witness_exists: true });
    assert!(wait.resolved());
}

#[test]
fn unix_attacher_resends_without_recreating() {
    // While its witness file is still on disk the handle re-raises the
    // signal without re-creating the file; once the file is gone, a send
    // re-creates it.
    let pid = 77;
    let mut signal = UnixAttacher::signal(pid).unwrap();

    let first = signal.send_step(false).unwrap();
    assert!(first.create_witness.is_some());

    let second = signal.send_step(true).unwrap();
    assert!(second.create_witness.is_none());
    assert_eq!(second.raise_quit, Some(pid));

    let third = signal.send_step(false).unwrap();
    assert!(third.create_witness.is_some());
}

#[test]
fn test_inotify_attacher() {
    let pid = 4242;

    let mut wait = InotifyAttacher::signaled(pid);
    wait.note_existing(false);
    assert!(!wait.resolved());

    // An unrelated file created in the watched directory does not resolve
    // the wait.
    let mut wrong_name = attach_file_name(pid);
    wrong_name.push_str("_wrong");
    wait.on_event(&wrong_name);
    assert!(!wait.resolved());

    // The legitimate witness file does.
    wait.on_event(&attach_file_name(pid));
    assert!(wait.resolved());

    // The signal handle creates the witness file in this process's working
    // directory; no OS signal is raised by this variant.
    let own_pid = sysinfo::get_current_pid().unwrap().as_u32();
    let mut signal = InotifyAttacher::signal(own_pid).unwrap();
    let plan = signal.send_step(false).unwrap();
    let witness_path = plan.create_witness.unwrap();
    assert!(witness_path.ends_with(&format!("/.teleop_attach_{}", own_pid)));
    assert!(plan.raise_quit.is_none());
    assert_eq!(signal.release(), Some(witness_path));
}

#[test]
fn inotify_test_inotify_attacher() {
    // The witness file found already present on entry resolves the wait by
    // itself.
    let pid = 4242;
    let mut wait = InotifyAttacher::signaled(pid);
    wait.note_existing(true);
    assert!(wait.resolved());
}

#[test]
fn test_kqueue_attacher() {
    let pid = 4242;

    let mut wait = KqueueAttacher::signaled(pid);
    // A directory write event whose re-check does not find the witness file
    // (an unrelated file changed) leaves the wait pending.
    wait.on_event(&false);
    assert!(!wait.resolved());

    // A re-check that finds the witness file resolves it.
    wait.on_event(&true);
    assert!(wait.resolved());

    let own_pid = sysinfo::get_current_pid().unwrap().as_u32();
    let mut signal = KqueueAttacher::signal(own_pid).unwrap();
    let plan = signal.send_step(false).unwrap();
    assert!(plan.create_witness.is_some());
    assert!(plan.raise_quit.is_none());
    assert!(signal.release().is_some());
}

#[test]
fn rearm_after_drop_creates_a_fresh_witness() {
    // A handle is sent and dropped (its witness removed); a new handle for
    // the same PID re-creates the witness file on its first send.
    let pid = 4242;
    let mut first = UnixAttacher::signal(pid).unwrap();
    let plan = first.send_step(false).unwrap();
    let path = plan.create_witness.unwrap();
    assert_eq!(first.release(), Some(path.clone()));

    let mut second = UnixAttacher::signal(pid).unwrap();
    let plan = second.send_step(false).unwrap();
    assert_eq!(plan.create_witness, Some(path));
}
