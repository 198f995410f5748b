//! Inotify attacher which creates a file in the process working directory
//! and waits for the process to detect it through a directory watch.

use vstd::prelude::*;
use crate::AttachError;
use crate::attach::attacher::{Attacher, AttacherSignal, AttachWait, SendPlan};
use crate::internal::{attach_file_name, attach_file_path, spec_attach_file_name, AutoDropFile};

verus! {

/// Inotify attacher.
///
/// The target watches its working directory for created files and resolves
/// when the witness file's name shows up, or when the file already existed
/// on entry.
pub struct InotifyAttacher;

/// Inotify attacher signal.
///
/// It keeps the attach file on disk; no OS signal is raised.
pub struct InotifyAttacherSignal {
    pid: u32,
    file: Option<AutoDropFile>,
}

/// The inotify wait: pending until the directory watch reports the creation
/// of a file whose name is the witness-file name, or the file is found
/// already present on entry.
pub struct InotifyWait {
    file_name: String,
    resolved: bool,
}

impl AttacherSignal for InotifyAttacherSignal {
    closed spec fn spec_needs_create(&self, witness_on_disk: bool) -> bool {
        self.file is None || !witness_on_disk
    }

    closed spec fn valid_witness_path(&self, p: Seq<char>) -> bool {
        exists|cwd: Seq<char>| p == #[trigger] (cwd + "/"@ + spec_attach_file_name(self.pid))
    }

    closed spec fn spec_raises(&self) -> Option<u32> {
        None
    }

    closed spec fn spec_witness(&self) -> Option<Seq<char>> {
        match self.file {
            Some(f) => Some(f.spec_path()),
            None => None,
        }
    }

    closed spec fn spec_target(&self) -> u32 {
        self.pid
    }

    open spec fn send_infallible() -> bool {
        false
    }

    fn send_step(&mut self, witness_on_disk: bool) -> (r: Result<SendPlan, AttachError>) {
        if self.file.is_none() || !witness_on_disk {
            match attach_file_path(self.pid) {
                Err(e) => Err(AttachError::ResolveTargetCwd),
                Ok(p) => {
                    proof {
                        assert(old(self).valid_witness_path(p@)) by {
                            let cwd0 = choose|cwd: Seq<char>|
                                p@ == #[trigger] (cwd + "/"@ + spec_attach_file_name(self.pid));
                            assert(p@ == cwd0 + "/"@ + spec_attach_file_name(old(self).pid));
                        }
                    }
                    let recorded = p.clone();
                    self.file = Some(AutoDropFile::new(recorded));
                    Ok(SendPlan { create_witness: Some(p), raise_quit: None })
                },
            }
        } else {
            Ok(SendPlan { create_witness: None, raise_quit: None })
        }
    }

    fn release(self) -> (witness: Option<String>) {
        match self.file {
            Some(f) => Some(f.into_path()),
            None => None,
        }
    }
}

impl InotifyWait {
    /// View of the file name this wait is watching for.
    pub closed spec fn spec_file_name(&self) -> Seq<char> {
        self.file_name@
    }

    /// Observes the entry check: whether the witness file already existed
    /// when the watch was installed. The file's existence alone is
    /// sufficient to resolve.
    pub fn note_existing(&mut self, present: bool)
        ensures
            final(self).spec_resolved() == (old(self).spec_resolved() || present),
            final(self).spec_file_name() == old(self).spec_file_name(),
    {
        if present {
            self.resolved = true;
        }
    }
}

impl AttachWait for InotifyWait {
    type Event = String;

    closed spec fn spec_resolved(&self) -> bool {
        self.resolved
    }

    closed spec fn spec_next(&self, e: &String) -> Self {
        InotifyWait {
            file_name: self.file_name,
            resolved: self.spec_resolved() || e@ == self.spec_file_name(),
        }
    }

    proof fn resolved_monotonic(&self, e: &String) {
    }

    fn resolved(&self) -> (r: bool) {
        self.resolved
    }

    fn on_event(&mut self, e: &String) {
        if *e == self.file_name {
            self.resolved = true;
        }
    }
}

impl Attacher for InotifyAttacher {
    type Signal = InotifyAttacherSignal;

    type Wait = InotifyWait;

    closed spec fn spec_signal(pid: u32) -> InotifyAttacherSignal {
        InotifyAttacherSignal { pid, file: None }
    }

    open spec fn signaled_ok(own_pid: u32, w: InotifyWait) -> bool {
        &&& !w.spec_resolved()
        &&& w.spec_file_name() == spec_attach_file_name(own_pid)
    }

    fn signal(pid: u32) -> (r: Result<InotifyAttacherSignal, AttachError>) {
        Ok(InotifyAttacherSignal { pid, file: None })
    }

    fn signaled(own_pid: u32) -> (w: InotifyWait) {
        InotifyWait { file_name: attach_file_name(own_pid), resolved: false }
    }
}

/// The send policy of the inotify signal handle, for every state it can be
/// in: a send must (re)create the witness file exactly when the handle has
/// not created one or its file is off disk; every path it writes ends in the
/// witness-file name of its target, inside the target's working directory;
/// and no send raises an OS signal.
pub proof fn lemma_inotify_send_policy(s: InotifyAttacherSignal, witness_on_disk: bool, p: Seq<char>)
    ensures
        s.spec_needs_create(witness_on_disk) == (s.spec_witness() is None || !witness_on_disk),
        s.spec_raises() is None,
        s.valid_witness_path(p) == (exists|cwd: Seq<char>|
            p == #[trigger] (cwd + "/"@ + spec_attach_file_name(s.spec_target()))),
{
    if s.valid_witness_path(p) {
        let cwd0 = choose|cwd: Seq<char>|
            p == #[trigger] (cwd + "/"@ + spec_attach_file_name(s.pid));
        assert(p == cwd0 + "/"@ + spec_attach_file_name(s.spec_target()));
    }
    if exists|cwd: Seq<char>| p == #[trigger] (cwd + "/"@ + spec_attach_file_name(s.spec_target())) {
        let cwd0 = choose|cwd: Seq<char>|
            p == #[trigger] (cwd + "/"@ + spec_attach_file_name(s.spec_target()));
        assert(p == cwd0 + "/"@ + spec_attach_file_name(s.pid));
    }
}

/// A fresh inotify signal handle is scoped to the PID it was made for and
/// has created no witness file yet.
pub proof fn lemma_inotify_signal_fresh(pid: u32)
    ensures
        InotifyAttacher::spec_signal(pid).spec_witness() is None,
        InotifyAttacher::spec_signal(pid).spec_target() == pid,
{
}

/// A pending inotify wait resolves only when the created file it observes is
/// named exactly like the witness file: an unrelated file created in the
/// watched directory leaves it pending.
pub proof fn lemma_inotify_resolve_names_witness(w: InotifyWait, e: String)
    requires
        !w.spec_resolved(),
        w.spec_next(&e).spec_resolved(),
    ensures
        e@ == w.spec_file_name(),
{
}

/// The creation of a file named exactly like the witness file resolves an
/// inotify wait.
pub proof fn lemma_inotify_witness_resolves(w: InotifyWait, e: String)
    requires
        e@ == w.spec_file_name(),
    ensures
        w.spec_next(&e).spec_resolved(),
{
}

/// An event for a file named otherwise than the witness file leaves an
/// inotify wait unchanged.
pub proof fn lemma_inotify_unrelated_ignored(w: InotifyWait, e: String)
    requires
        e@ != w.spec_file_name(),
    ensures
        w.spec_next(&e) == w,
{
}

} // verus!
