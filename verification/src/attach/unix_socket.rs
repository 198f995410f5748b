//! Attach rendezvous over a UNIX socket.
//!
//! The process to be driven waits for an attach wake-up and then binds a
//! well-known socket; the client provokes the wake-up and retries until the
//! socket appears. [`Listener`] is the target side's decision core;
//! [`Connector`] the client side's. The unverified shell binds, accepts,
//! connects, sleeps and performs the send plans.

use vstd::prelude::*;
use crate::AttachError;
use crate::attach::attacher::{AttacherSignal, AttachWait, SendPlan};
use crate::attach::attacher::unix::{lemma_unix_resolve_needs_witness, UnixWait, UnixWakeEvent};
use crate::internal::{decimal_chars, u32_decimal};

verus! {

/// The most sends a connect attempt makes before giving up: one initial send
/// and 99 retries at 100 ms intervals.
pub const MAX_SEND_ATTEMPTS: u32 = 100;

/// View of the rendezvous-socket file name for a target PID.
pub open spec fn spec_socket_file_name(pid: u32) -> Seq<char> {
    ".teleop_pid_"@ + decimal_chars(pid as nat)
}

/// The rendezvous-socket file name for a target PID: `.teleop_pid_<pid>`.
pub fn socket_file_name(pid: u32) -> (name: String)
    ensures
        name@ == spec_socket_file_name(pid),
{
    let mut name = ".teleop_pid_".to_owned();
    let digits = u32_decimal(pid);
    name.append(digits.as_str());
    name
}

/// View of the rendezvous-socket path for a target PID under the given
/// temporary directory.
pub open spec fn spec_socket_file_path(temp_dir: Seq<char>, pid: u32) -> Seq<char> {
    temp_dir + "/"@ + spec_socket_file_name(pid)
}

/// The rendezvous-socket path for a target PID: the system temporary
/// directory, as the shell resolves it, joined with the socket file name.
pub fn socket_file_path(temp_dir: &str, pid: u32) -> (path: String)
    ensures
        path@ == spec_socket_file_path(temp_dir@, pid),
{
    let mut path = temp_dir.to_owned();
    path.append("/");
    let name = socket_file_name(pid);
    path.append(name.as_str());
    path
}

/// View of the message a connect attempt fails with when the retry budget is
/// exhausted.
pub open spec fn spec_no_response_message(socket_path: Seq<char>, pid: u32) -> Seq<char> {
    "Unable to open socket file "@ + socket_path + ": target process "@ + decimal_chars(
        pid as nat,
    ) + " doesn't respond"@
}

/// The message a connect attempt fails with when the retry budget is
/// exhausted without the socket appearing.
pub fn no_response_message(socket_path: &str, pid: u32) -> (m: String)
    ensures
        m@ == spec_no_response_message(socket_path@, pid),
{
    let mut m = "Unable to open socket file ".to_owned();
    m.append(socket_path);
    m.append(": target process ");
    let digits = u32_decimal(pid);
    m.append(digits.as_str());
    m.append(" doesn't respond");
    m
}

/// What the client side must do next.
pub enum ConnectAction {
    /// The socket exists: connect to it and release the signal handle.
    Connect,
    /// Perform the send plan, sleep 100 ms, and probe again.
    SendAndWait(SendPlan),
    /// The retry budget is exhausted: fail with the no-response message.
    Fail,
}

/// The client side of the rendezvous: provokes the target until the socket
/// appears, with a bounded retry budget.
pub struct Connector<S: AttacherSignal> {
    signal: S,
    attempts: u32,
}

impl<S: AttacherSignal> Connector<S> {
    /// The signal handle held by this connector.
    pub closed spec fn spec_signal(&self) -> S {
        self.signal
    }

    /// How many sends have been made.
    pub closed spec fn spec_attempts(&self) -> u32 {
        self.attempts
    }

    /// The send count never passes the budget.
    pub open spec fn wf(&self) -> bool {
        self.spec_attempts() <= MAX_SEND_ATTEMPTS
    }

    /// Starts a connect attempt with a fresh signal handle.
    pub fn new(signal: S) -> (c: Self)
        ensures
            c.spec_signal() == signal,
            c.spec_attempts() == 0,
            c.wf(),
    {
        Connector { signal, attempts: 0 }
    }

    /// One probe: connect when the socket exists; otherwise send again until
    /// the budget is exhausted, then fail. Fails with an error only when the
    /// signal handle cannot resolve the witness path.
    pub fn step(&mut self, socket_exists: bool, witness_on_disk: bool) -> (r: Result<
        ConnectAction,
        AttachError,
    >)
        requires
            old(self).wf(),
        ensures
            final(self).wf(),
            r matches Ok(a) ==> {
                &&& (a is Connect) == socket_exists
                &&& (a is Fail) == (!socket_exists && old(self).spec_attempts()
                    == MAX_SEND_ATTEMPTS)
                &&& ((a is Connect || a is Fail) ==> *final(self) == *old(self))
                &&& (a matches ConnectAction::SendAndWait(plan) ==> {
                    &&& old(self).spec_attempts() < MAX_SEND_ATTEMPTS
                    &&& final(self).spec_attempts() == old(self).spec_attempts() + 1
                    &&& (plan.create_witness is Some) == old(self).spec_signal().spec_needs_create(
                        witness_on_disk,
                    )
                    &&& (plan.create_witness matches Some(p) ==> old(
                        self,
                    ).spec_signal().valid_witness_path(p@))
                    &&& plan.raise_quit == old(self).spec_signal().spec_raises()
                    &&& final(self).spec_signal().spec_witness() == (match plan.create_witness {
                        Some(p) => Some(p@),
                        None => old(self).spec_signal().spec_witness(),
                    })
                })
            },
            r matches Err(e) ==> e == AttachError::ResolveTargetCwd && *final(self) == *old(self),
            (socket_exists || old(self).spec_attempts() == MAX_SEND_ATTEMPTS) ==> r is Ok,
            r is Err ==> old(self).spec_signal().spec_needs_create(witness_on_disk),
            !old(self).spec_signal().spec_needs_create(witness_on_disk) ==> r is Ok,
            S::send_infallible() ==> r is Ok,
            r is Ok ==> final(self).spec_attempts() as int == spec_probe(
                old(self).spec_attempts() as int,
                socket_exists,
            ),
            final(self).spec_signal().spec_target() == old(self).spec_signal().spec_target(),
    {
        if socket_exists {
            Ok(ConnectAction::Connect)
        } else if self.attempts >= MAX_SEND_ATTEMPTS {
            Ok(ConnectAction::Fail)
        } else {
            match self.signal.send_step(witness_on_disk) {
                Err(e) => Err(e),
                Ok(plan) => {
                    self.attempts = self.attempts + 1;
                    Ok(ConnectAction::SendAndWait(plan))
                },
            }
        }
    }

    /// Ends the attempt: gives up the signal handle and returns the witness
    /// file to remove, if one was created.
    pub fn finish(self) -> (witness: Option<String>)
        ensures
            (witness is Some) == (self.spec_signal().spec_witness() is Some),
            witness matches Some(p) ==> Some(p@) == self.spec_signal().spec_witness(),
    {
        self.signal.release()
    }
}

/// The send count after one probe outcome: a probe that finds no socket and
/// is still within budget sends once more.
pub open spec fn spec_probe(attempts: int, socket_exists: bool) -> int {
    if socket_exists || attempts >= MAX_SEND_ATTEMPTS {
        attempts
    } else {
        attempts + 1
    }
}

/// The send count after a run of probe outcomes.
pub open spec fn spec_run(attempts: int, probes: Seq<bool>) -> int
    decreases probes.len(),
{
    if probes.len() == 0 {
        attempts
    } else {
        spec_run(spec_probe(attempts, probes[0]), probes.drop_first())
    }
}

/// The retry budget is hard: over any run of probes, the send count never
/// decreases and never passes the budget, so a connect attempt makes at most
/// `MAX_SEND_ATTEMPTS` sends — and sleeps at most that many 100 ms pauses —
/// before it either connects or fails.
pub proof fn lemma_retry_budget(attempts: int, probes: Seq<bool>)
    requires
        0 <= attempts <= MAX_SEND_ATTEMPTS,
    ensures
        attempts <= spec_run(attempts, probes) <= MAX_SEND_ATTEMPTS,
    decreases probes.len(),
{
    if probes.len() > 0 {
        lemma_retry_budget(spec_probe(attempts, probes[0]), probes.drop_first());
    }
}

/// What the target side must do next.
pub enum ListenAction {
    /// Keep waiting for the attach wake-up.
    Wait,
    /// Bind the rendezvous socket at the given path.
    Bind(String),
    /// Accept the next incoming connection.
    Accept,
    /// Cancelled: stop producing connections.
    Stop,
}

/// The target side of the rendezvous: waits for the attach wake-up, binds
/// the socket once, then accepts until cancelled.
pub struct Listener<W: AttachWait> {
    wait: W,
    socket_path: String,
    bound: bool,
}

impl<W: AttachWait> Listener<W> {
    /// The wait this listener is armed with.
    pub closed spec fn spec_wait(&self) -> W {
        self.wait
    }

    /// View of the rendezvous-socket path this listener binds.
    pub closed spec fn spec_socket_path(&self) -> Seq<char> {
        self.socket_path@
    }

    /// Whether the socket has been bound.
    pub closed spec fn spec_bound(&self) -> bool {
        self.bound
    }

    /// Arms a listener: the wake-up not yet observed, the socket not bound.
    pub fn new(wait: W, socket_path: String) -> (l: Self)
        ensures
            l.spec_wait() == wait,
            l.spec_socket_path() == socket_path@,
            !l.spec_bound(),
    {
        Listener { wait, socket_path, bound: false }
    }

    /// Feeds one observation into the wait.
    pub fn on_event(&mut self, e: &W::Event)
        ensures
            final(self).spec_wait() == old(self).spec_wait().spec_next(e),
            final(self).spec_socket_path() == old(self).spec_socket_path(),
            final(self).spec_bound() == old(self).spec_bound(),
    {
        self.wait.on_event(e);
    }

    /// Decides the next action: stop when cancelled; bind the socket exactly
    /// once, when the wake-up has been observed; accept once bound.
    pub fn poll_step(&mut self, cancelled: bool) -> (a: ListenAction)
        ensures
            cancelled ==> a is Stop && *final(self) == *old(self),
            !cancelled && old(self).spec_bound() ==> a is Accept && *final(self) == *old(self),
            !cancelled && !old(self).spec_bound() && old(self).spec_wait().spec_resolved() ==> {
                &&& a matches ListenAction::Bind(p) && p@ == old(self).spec_socket_path()
                &&& final(self).spec_bound()
                &&& final(self).spec_wait() == old(self).spec_wait()
                &&& final(self).spec_socket_path() == old(self).spec_socket_path()
            },
            !cancelled && !old(self).spec_bound() && !old(self).spec_wait().spec_resolved() ==> a
                is Wait && *final(self) == *old(self),
    {
        if cancelled {
            ListenAction::Stop
        } else if self.bound {
            ListenAction::Accept
        } else if self.wait.resolved() {
            self.bound = true;
            ListenAction::Bind(self.socket_path.clone())
        } else {
            ListenAction::Wait
        }
    }
}

/// A listener binds the rendezvous socket only upon resolution of its wait,
/// and a pending unix wait resolves only on an event with the witness file
/// present: at the moment the socket first exists, the witness file had been
/// observed present.
pub proof fn lemma_bind_implies_witness_observed(l: Listener<UnixWait>, e: UnixWakeEvent)
    requires
        !l.spec_wait().spec_resolved(),
        l.spec_wait().spec_next(&e).spec_resolved(),
    ensures
        e.witness_exists,
{
    lemma_unix_resolve_needs_witness(l.spec_wait(), e);
}

} // verus!
