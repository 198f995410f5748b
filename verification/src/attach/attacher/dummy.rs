//! Dummy attacher which listens immediately.

use vstd::prelude::*;
use crate::AttachError;
use crate::attach::attacher::{Attacher, AttacherSignal, AttachWait, SendPlan};

verus! {

/// Dummy attacher.
///
/// It does nothing and considers the signal as signaled from the very
/// beginning.
pub struct DummyAttacher;

/// Dummy attacher signal.
///
/// It does nothing: no witness file, no OS signal.
pub struct DummyAttacherSignal {
    pid: u32,
}

/// Dummy wait: resolved from the start.
pub struct DummyWait;

impl AttacherSignal for DummyAttacherSignal {
    open spec fn spec_needs_create(&self, witness_on_disk: bool) -> bool {
        false
    }

    open spec fn valid_witness_path(&self, p: Seq<char>) -> bool {
        false
    }

    open spec fn spec_raises(&self) -> Option<u32> {
        None
    }

    open spec fn spec_witness(&self) -> Option<Seq<char>> {
        None
    }

    closed spec fn spec_target(&self) -> u32 {
        self.pid
    }

    open spec fn send_infallible() -> bool {
        true
    }

    /// A dummy send cannot fail.
    fn send_step(&mut self, witness_on_disk: bool) -> (r: Result<SendPlan, AttachError>)
        ensures
            r is Ok,
    {
        Ok(SendPlan { create_witness: None, raise_quit: None })
    }

    fn release(self) -> (witness: Option<String>) {
        None
    }
}

impl AttachWait for DummyWait {
    type Event = ();

    open spec fn spec_resolved(&self) -> bool {
        true
    }

    open spec fn spec_next(&self, e: &()) -> Self {
        DummyWait
    }

    proof fn resolved_monotonic(&self, e: &()) {
    }

    fn resolved(&self) -> (r: bool) {
        true
    }

    fn on_event(&mut self, e: &()) {
    }
}

impl Attacher for DummyAttacher {
    type Signal = DummyAttacherSignal;

    type Wait = DummyWait;

    closed spec fn spec_signal(pid: u32) -> DummyAttacherSignal {
        DummyAttacherSignal { pid }
    }

    open spec fn signaled_ok(own_pid: u32, w: DummyWait) -> bool {
        w.spec_resolved()
    }

    fn signal(pid: u32) -> (r: Result<DummyAttacherSignal, AttachError>) {
        Ok(DummyAttacherSignal { pid })
    }

    fn signaled(own_pid: u32) -> (w: DummyWait) {
        DummyWait
    }
}

} // verus!
