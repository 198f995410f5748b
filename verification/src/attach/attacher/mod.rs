//! Attachment mechanisms.
//!
//! An attacher is an out-of-band wake-up between two local processes. The
//! client side holds a signal handle whose send keeps a witness file on disk
//! and, for some variants, raises an OS signal; the target side holds a wait
//! that resolves when the wake-up is observed. The handles and waits here
//! are the decision cores: the unverified shell performs the filesystem and
//! signal work a [`SendPlan`] asks for, and feeds what it observes back into
//! the wait.

use vstd::prelude::*;
use crate::AttachError;

pub mod dummy;
pub mod inotify;
pub mod kqueue;
pub mod unix;

verus! {

/// What one send must do: create the witness file at the given path, if any,
/// and raise `SIGQUIT` at the given PID, if any.
pub struct SendPlan {
    /// The path at which to create the witness file, when it must be
    /// (re)created.
    pub create_witness: Option<String>,
    /// The PID to raise `SIGQUIT` at, when the variant uses an OS signal.
    pub raise_quit: Option<u32>,
}

/// A signal handle scoped to a target PID. While it is alive the witness
/// file it most recently created stays on disk; releasing it names the file
/// to remove.
pub trait AttacherSignal: Sized {
    /// Whether a send from this state must (re)create the witness file,
    /// given whether the handle's witness is currently on disk.
    spec fn spec_needs_create(&self, witness_on_disk: bool) -> bool;

    /// The paths at which this handle may create its witness file: for every
    /// variant that writes one, a path ending in the witness-file name for
    /// the handle's target PID.
    spec fn valid_witness_path(&self, p: Seq<char>) -> bool;

    /// The PID this handle raises `SIGQUIT` at, when the variant uses an OS
    /// signal.
    spec fn spec_raises(&self) -> Option<u32>;

    /// View of the path of the witness file this handle most recently
    /// created, if it has created one.
    spec fn spec_witness(&self) -> Option<Seq<char>>;

    /// The target PID this handle is scoped to.
    spec fn spec_target(&self) -> u32;

    /// Whether every send of this variant succeeds: false only for the
    /// variants that must resolve the witness path through the OS process
    /// table.
    spec fn send_infallible() -> bool;

    /// One send: decides whether the witness file must be (re)created and
    /// whether an OS signal is raised, and records the created file. Fails
    /// only when the witness path must be resolved through the OS process
    /// table and cannot be.
    fn send_step(&mut self, witness_on_disk: bool) -> (r: Result<SendPlan, AttachError>)
        ensures
            r matches Ok(plan) ==> {
                &&& (plan.create_witness is Some) == old(self).spec_needs_create(
                    witness_on_disk,
                )
                &&& (plan.create_witness matches Some(p) ==> old(self).valid_witness_path(p@))
                &&& plan.raise_quit == old(self).spec_raises()
                &&& final(self).spec_witness() == (match plan.create_witness {
                    Some(p) => Some(p@),
                    None => old(self).spec_witness(),
                })
            },
            r matches Err(e) ==> e == AttachError::ResolveTargetCwd && *final(self) == *old(
                self,
            ),
            !old(self).spec_needs_create(witness_on_disk) ==> r is Ok,
            Self::send_infallible() ==> r is Ok,
            final(self).spec_raises() == old(self).spec_raises(),
            final(self).spec_target() == old(self).spec_target(),
    ;

    /// Consumes the handle and returns the path of the witness file it most
    /// recently created, if any: the file the shell removes on drop.
    fn release(self) -> (witness: Option<String>)
        ensures
            (witness is Some) == (self.spec_witness() is Some),
            witness matches Some(p) ==> Some(p@) == self.spec_witness(),
    ;
}

/// The target side of an attacher: a state machine that resolves when the
/// wake-up has been observed.
pub trait AttachWait: Sized {
    /// What the wait observes: a delivered signal, a created file name, or a
    /// re-check of the witness file, depending on the variant.
    type Event;

    /// Whether the wake-up has been observed.
    spec fn spec_resolved(&self) -> bool;

    /// The state after observing an event.
    spec fn spec_next(&self, e: &Self::Event) -> Self;

    /// Once resolved, a wait stays resolved whatever else it observes.
    proof fn resolved_monotonic(&self, e: &Self::Event)
        ensures
            self.spec_resolved() ==> self.spec_next(e).spec_resolved(),
    ;

    /// Whether the wake-up has been observed.
    fn resolved(&self) -> (r: bool)
        ensures
            r == self.spec_resolved(),
    ;

    /// Observes one event.
    fn on_event(&mut self, e: &Self::Event)
        ensures
            *final(self) == old(self).spec_next(e),
    ;
}

/// An attacher variant: produces a signal handle scoped to a target PID and
/// a wait scoped to the current process.
pub trait Attacher: Sized {
    /// The signal handle of this variant.
    type Signal: AttacherSignal;

    /// The wait of this variant.
    type Wait: AttachWait;

    /// The signal handle `signal` returns.
    spec fn spec_signal(pid: u32) -> Self::Signal;

    /// What a freshly-armed wait for the given process looks like.
    spec fn signaled_ok(own_pid: u32, w: Self::Wait) -> bool;

    /// Returns a signal handle which can be sent multiple times to the
    /// target process. None of the variants here can fail to construct one.
    fn signal(pid: u32) -> (r: Result<Self::Signal, AttachError>)
        ensures
            r matches Ok(s) ==> s == Self::spec_signal(pid),
            r is Ok,
    ;

    /// Arms the wait for the current process. The OS resources that observe
    /// the wake-up are installed by the shell before any event is fed in.
    fn signaled(own_pid: u32) -> (w: Self::Wait)
        ensures
            Self::signaled_ok(own_pid, w),
    ;
}

} // verus!
