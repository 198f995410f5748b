//! Unix attacher which creates a file in the process working directory and
//! sends a `QUIT` signal to the process.

use vstd::prelude::*;
use crate::AttachError;
use crate::attach::attacher::{Attacher, AttacherSignal, AttachWait, SendPlan};
use crate::internal::{attach_file_name, decimal_chars, spec_attach_file_name, u32_decimal, AutoDropFile};

verus! {

/// View of the witness-file path for a target PID, reached through the
/// target's `/proc` entry: `/proc/<pid>/cwd/.teleop_attach_<pid>`.
pub open spec fn spec_proc_attach_path(pid: u32) -> Seq<char> {
    "/proc/"@ + decimal_chars(pid as nat) + "/cwd/"@ + spec_attach_file_name(pid)
}

/// The witness-file path for a target PID, reached through the target's
/// `/proc` entry.
pub fn attach_file_path(pid: u32) -> (p: String)
    ensures
        p@ == spec_proc_attach_path(pid),
{
    let mut p = "/proc/".to_owned();
    let digits = u32_decimal(pid);
    p.append(digits.as_str());
    p.append("/cwd/");
    let name = attach_file_name(pid);
    p.append(name.as_str());
    p
}

/// UNIX attacher.
///
/// It waits for the `QUIT` signal and checks the presence of the attach file
/// in the working directory.
pub struct UnixAttacher;

/// UNIX attacher signal.
///
/// It keeps the attach file on disk and raises a `QUIT` signal at the target
/// process on every send.
pub struct UnixAttacherSignal {
    pid: u32,
    file: Option<AutoDropFile>,
}

/// What the unix wait observes: whether a delivered signal was `SIGQUIT`,
/// and whether the witness file was present in the waiting process's working
/// directory at that moment.
pub struct UnixWakeEvent {
    /// The delivered signal was `SIGQUIT`.
    pub quit: bool,
    /// The witness file existed when the signal was examined.
    pub witness_exists: bool,
}

/// The unix wait: pending until a `SIGQUIT` arrives while the witness file
/// exists.
pub struct UnixWait {
    resolved: bool,
}

impl AttacherSignal for UnixAttacherSignal {
    closed spec fn spec_needs_create(&self, witness_on_disk: bool) -> bool {
        self.file is None || !witness_on_disk
    }

    closed spec fn valid_witness_path(&self, p: Seq<char>) -> bool {
        p == spec_proc_attach_path(self.pid)
    }

    closed spec fn spec_raises(&self) -> Option<u32> {
        Some(self.pid)
    }

    closed spec fn spec_witness(&self) -> Option<Seq<char>> {
        match self.file {
            Some(f) => Some(f.spec_path()),
            None => None,
        }
    }

    closed spec fn spec_target(&self) -> u32 {
        self.pid
    }

    open spec fn send_infallible() -> bool {
        true
    }

    /// A unix send cannot fail: its witness path is computed, not resolved
    /// through the OS process table.
    fn send_step(&mut self, witness_on_disk: bool) -> (r: Result<SendPlan, AttachError>)
        ensures
            r is Ok,
    {
        if self.file.is_none() || !witness_on_disk {
            let p = attach_file_path(self.pid);
            let recorded = p.clone();
            self.file = Some(AutoDropFile::new(recorded));
            Ok(SendPlan { create_witness: Some(p), raise_quit: Some(self.pid) })
        } else {
            Ok(SendPlan { create_witness: None, raise_quit: Some(self.pid) })
        }
    }

    fn release(self) -> (witness: Option<String>) {
        match self.file {
            Some(f) => Some(f.into_path()),
            None => None,
        }
    }
}

impl AttachWait for UnixWait {
    type Event = UnixWakeEvent;

    closed spec fn spec_resolved(&self) -> bool {
        self.resolved
    }

    closed spec fn spec_next(&self, e: &UnixWakeEvent) -> Self {
        UnixWait { resolved: self.spec_resolved() || (e.quit && e.witness_exists) }
    }

    proof fn resolved_monotonic(&self, e: &UnixWakeEvent) {
    }

    fn resolved(&self) -> (r: bool) {
        self.resolved
    }

    fn on_event(&mut self, e: &UnixWakeEvent) {
        if e.quit && e.witness_exists {
            self.resolved = true;
        }
    }
}

impl Attacher for UnixAttacher {
    type Signal = UnixAttacherSignal;

    type Wait = UnixWait;

    closed spec fn spec_signal(pid: u32) -> UnixAttacherSignal {
        UnixAttacherSignal { pid, file: None }
    }

    open spec fn signaled_ok(own_pid: u32, w: UnixWait) -> bool {
        !w.spec_resolved()
    }

    fn signal(pid: u32) -> (r: Result<UnixAttacherSignal, AttachError>) {
        Ok(UnixAttacherSignal { pid, file: None })
    }

    fn signaled(own_pid: u32) -> (w: UnixWait) {
        UnixWait { resolved: false }
    }
}

/// The send policy of the unix signal handle, for every state it can be in:
/// a send must (re)create the witness file exactly when the handle has not
/// created one or its file is off disk; the only path it writes is the
/// `/proc/<pid>/cwd` path of its target; and every send raises `SIGQUIT` at
/// the target.
pub proof fn lemma_unix_send_policy(s: UnixAttacherSignal, witness_on_disk: bool, p: Seq<char>)
    ensures
        s.spec_needs_create(witness_on_disk) == (s.spec_witness() is None || !witness_on_disk),
        s.spec_raises() == Some(s.spec_target()),
        s.valid_witness_path(p) == (p == spec_proc_attach_path(s.spec_target())),
{
}

/// A fresh unix signal handle is scoped to the PID it was made for and has
/// created no witness file yet.
pub proof fn lemma_unix_signal_fresh(pid: u32)
    ensures
        UnixAttacher::spec_signal(pid).spec_witness() is None,
        UnixAttacher::spec_signal(pid).spec_target() == pid,
{
}

/// A pending unix wait resolves only on an event that delivered `SIGQUIT`
/// while the witness file existed: when the target goes on to bind the
/// rendezvous socket upon resolution, the witness file was present.
pub proof fn lemma_unix_resolve_needs_witness(w: UnixWait, e: UnixWakeEvent)
    requires
        !w.spec_resolved(),
        w.spec_next(&e).spec_resolved(),
    ensures
        e.quit,
        e.witness_exists,
{
}

/// A `SIGQUIT` observed while the witness file exists resolves a unix wait.
pub proof fn lemma_unix_wake_resolves(w: UnixWait, e: UnixWakeEvent)
    requires
        e.quit,
        e.witness_exists,
    ensures
        w.spec_next(&e).spec_resolved(),
{
}

/// An event that is not a `SIGQUIT` observed with the witness file present
/// leaves a unix wait unchanged: spurious signals are ignored.
pub proof fn lemma_unix_spurious_ignored(w: UnixWait, e: UnixWakeEvent)
    requires
        !e.quit || !e.witness_exists,
    ensures
        w.spec_next(&e) == w,
{
}

} // verus!
