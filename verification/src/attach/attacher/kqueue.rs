//! Kqueue attacher which creates a file in the process working directory and
//! waits for the process to detect it through a directory write watch.

use vstd::prelude::*;
use crate::AttachError;
use crate::attach::attacher::{Attacher, AttacherSignal, AttachWait, SendPlan};
use crate::internal::{attach_file_path, spec_attach_file_name, AutoDropFile};

verus! {

/// Kqueue attacher.
///
/// The target watches its working directory for write events and, on each
/// wake, re-checks whether the witness file exists.
pub struct KqueueAttacher;

/// Kqueue attacher signal.
///
/// It keeps the attach file on disk; no OS signal is raised.
pub struct KqueueAttacherSignal {
    pid: u32,
    file: Option<AutoDropFile>,
}

/// The kqueue wait: pending until a re-check, made on entry and after each
/// directory write event, finds the witness file present.
pub struct KqueueWait {
    resolved: bool,
}

impl AttacherSignal for KqueueAttacherSignal {
    closed spec fn spec_needs_create(&self, witness_on_disk: bool) -> bool {
        self.file is None || !witness_on_disk
    }

    closed spec fn valid_witness_path(&self, p: Seq<char>) -> bool {
        exists|cwd: Seq<char>| p == #[trigger] (cwd + "/"@ + spec_attach_file_name(self.pid))
    }

    closed spec fn spec_raises(&self) -> Option<u32> {
        None
    }

    closed spec fn spec_witness(&self) -> Option<Seq<char>> {
        match self.file {
            Some(f) => Some(f.spec_path()),
            None => None,
        }
    }

    closed spec fn spec_target(&self) -> u32 {
        self.pid
    }

    open spec fn send_infallible() -> bool {
        false
    }

    fn send_step(&mut self, witness_on_disk: bool) -> (r: Result<SendPlan, AttachError>) {
        if self.file.is_none() || !witness_on_disk {
            match attach_file_path(self.pid) {
                Err(e) => Err(AttachError::ResolveTargetCwd),
                Ok(p) => {
                    proof {
                        assert(old(self).valid_witness_path(p@)) by {
                            let cwd0 = choose|cwd: Seq<char>|
                                p@ == #[trigger] (cwd + "/"@ + spec_attach_file_name(self.pid));
                            assert(p@ == cwd0 + "/"@ + spec_attach_file_name(old(self).pid));
                        }
                    }
                    let recorded = p.clone();
                    self.file = Some(AutoDropFile::new(recorded));
                    Ok(SendPlan { create_witness: Some(p), raise_quit: None })
                },
            }
        } else {
            Ok(SendPlan { create_witness: None, raise_quit: None })
        }
    }

    fn release(self) -> (witness: Option<String>) {
        match self.file {
            Some(f) => Some(f.into_path()),
            None => None,
        }
    }
}

impl AttachWait for KqueueWait {
    type Event = bool;

    closed spec fn spec_resolved(&self) -> bool {
        self.resolved
    }

    closed spec fn spec_next(&self, e: &bool) -> Self {
        KqueueWait { resolved: self.spec_resolved() || *e }
    }

    proof fn resolved_monotonic(&self, e: &bool) {
    }

    fn resolved(&self) -> (r: bool) {
        self.resolved
    }

    fn on_event(&mut self, e: &bool) {
        if *e {
            self.resolved = true;
        }
    }
}

impl Attacher for KqueueAttacher {
    type Signal = KqueueAttacherSignal;

    type Wait = KqueueWait;

    closed spec fn spec_signal(pid: u32) -> KqueueAttacherSignal {
        KqueueAttacherSignal { pid, file: None }
    }

    open spec fn signaled_ok(own_pid: u32, w: KqueueWait) -> bool {
        !w.spec_resolved()
    }

    fn signal(pid: u32) -> (r: Result<KqueueAttacherSignal, AttachError>) {
        Ok(KqueueAttacherSignal { pid, file: None })
    }

    fn signaled(own_pid: u32) -> (w: KqueueWait) {
        KqueueWait { resolved: false }
    }
}

/// The send policy of the kqueue signal handle, for every state it can be
/// in: a send must (re)create the witness file exactly when the handle has
/// not created one or its file is off disk; every path it writes ends in the
/// witness-file name of its target, inside the target's working directory;
/// and no send raises an OS signal.
pub proof fn lemma_kqueue_send_policy(s: KqueueAttacherSignal, witness_on_disk: bool, p: Seq<char>)
    ensures
        s.spec_needs_create(witness_on_disk) == (s.spec_witness() is None || !witness_on_disk),
        s.spec_raises() is None,
        s.valid_witness_path(p) == (exists|cwd: Seq<char>|
            p == #[trigger] (cwd + "/"@ + spec_attach_file_name(s.spec_target()))),
{
    if s.valid_witness_path(p) {
        let cwd0 = choose|cwd: Seq<char>|
            p == #[trigger] (cwd + "/"@ + spec_attach_file_name(s.pid));
        assert(p == cwd0 + "/"@ + spec_attach_file_name(s.spec_target()));
    }
    if exists|cwd: Seq<char>| p == #[trigger] (cwd + "/"@ + spec_attach_file_name(s.spec_target())) {
        let cwd0 = choose|cwd: Seq<char>|
            p == #[trigger] (cwd + "/"@ + spec_attach_file_name(s.spec_target()));
        assert(p == cwd0 + "/"@ + spec_attach_file_name(s.pid));
    }
}

/// A fresh kqueue signal handle is scoped to the PID it was made for and
/// has created no witness file yet.
pub proof fn lemma_kqueue_signal_fresh(pid: u32)
    ensures
        KqueueAttacher::spec_signal(pid).spec_witness() is None,
        KqueueAttacher::spec_signal(pid).spec_target() == pid,
{
}

/// A re-check that finds the witness file present resolves a kqueue wait.
pub proof fn lemma_kqueue_wake_resolves(w: KqueueWait, e: bool)
    requires
        e,
    ensures
        w.spec_next(&e).spec_resolved(),
{
}

/// A pending kqueue wait resolves only on a re-check that found the witness
/// file present: a directory write event for anything else leaves it
/// pending.
pub proof fn lemma_kqueue_resolve_needs_witness(w: KqueueWait, e: bool)
    requires
        !w.spec_resolved(),
        w.spec_next(&e).spec_resolved(),
    ensures
        e,
{
}

} // verus!
