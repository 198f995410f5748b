//! A one-shot cancellation token.
//!
//! The token is the state every clone of the primitive shares: a cancelled
//! flag and the identities of the waiters stored while pending. The
//! unverified shell holds one token behind a lock, maps each stored identity
//! to a real waker, and wakes exactly the identities that `cancel` hands
//! back.

use vstd::prelude::*;

verus! {

/// The observable state of a token: whether it is cancelled, and the stored
/// waiter identities.
pub type TokenState = (bool, Seq<u64>);

/// What `cancel` does to the observable state: the new state, and the waiters
/// woken.
pub open spec fn cancel_transition(s: TokenState) -> (TokenState, Seq<u64>) {
    ((true, Seq::<u64>::empty()), s.1)
}

/// What one poll of a `cancelled()` future does to the observable state, for
/// a waiter with the given identity: the new state, and whether the future is
/// ready. A pending poll stores the waiter unless an already-stored waiter
/// would wake the same task.
pub open spec fn poll_transition(s: TokenState, waker: u64) -> (TokenState, bool) {
    if s.0 {
        (s, true)
    } else if s.1.contains(waker) {
        (s, false)
    } else {
        ((false, s.1.push(waker)), false)
    }
}

/// The cancellation token.
pub struct CancellationToken {
    cancelled: bool,
    wakers: Vec<u64>,
}

impl CancellationToken {
    /// Whether the token has been cancelled.
    pub closed spec fn spec_cancelled(&self) -> bool {
        self.cancelled
    }

    /// The stored waiter identities.
    pub closed spec fn spec_wakers(&self) -> Seq<u64> {
        self.wakers@
    }

    /// The observable state.
    pub open spec fn spec_state(&self) -> TokenState {
        (self.spec_cancelled(), self.spec_wakers())
    }

    /// Stored waiters are distinct: a waiter is stored at most once.
    pub open spec fn wf(&self) -> bool {
        forall|i: int, j: int|
            0 <= i < j < self.spec_wakers().len() ==> self.spec_wakers()[i]
                != self.spec_wakers()[j]
    }

    /// Creates a new token: not cancelled, no waiters.
    pub fn new() -> (t: Self)
        ensures
            !t.spec_cancelled(),
            t.spec_wakers() == Seq::<u64>::empty(),
            t.wf(),
    {
        CancellationToken { cancelled: false, wakers: Vec::new() }
    }

    /// Signals cancellation. Returns the waiters to wake: every waiter stored
    /// so far, each exactly once; none stays stored.
    pub fn cancel(&mut self) -> (woken: Vec<u64>)
        requires
            old(self).wf(),
        ensures
            (final(self).spec_state(), woken@) == cancel_transition(old(self).spec_state()),
            final(self).wf(),
    {
        self.cancelled = true;
        let mut drained: Vec<u64> = Vec::new();
        core::mem::swap(&mut drained, &mut self.wakers);
        proof {
            assert(final(self).spec_state() == cancel_transition(old(self).spec_state()).0);
        }
        drained
    }

    /// Checks the cancellation status.
    pub fn is_cancelled(&self) -> (c: bool)
        ensures
            c == self.spec_cancelled(),
    {
        self.cancelled
    }

    /// Returns a future that completes when cancellation is requested. The
    /// future is polled against the token it came from.
    pub fn cancelled(&self) -> (f: CancelledFuture)
        ensures
            f == (CancelledFuture {  }),
    {
        CancelledFuture {  }
    }
}

impl Default for CancellationToken {
    /// Same as `new`.
    fn default() -> (t: Self)
        ensures
            !t.spec_cancelled(),
            t.spec_wakers() == Seq::<u64>::empty(),
            t.wf(),
    {
        CancellationToken::new()
    }
}

/// A waiter on a cancellation token.
pub struct CancelledFuture {}

impl CancelledFuture {
    /// One poll by the task with the given waker identity: ready exactly when
    /// the token is cancelled; while pending, the waker is stored unless an
    /// equal one already is.
    pub fn poll(&self, token: &mut CancellationToken, waker: u64) -> (ready: bool)
        requires
            old(token).wf(),
        ensures
            (final(token).spec_state(), ready) == poll_transition(old(token).spec_state(), waker),
            final(token).wf(),
    {
        if token.cancelled {
            true
        } else {
            let n = token.wakers.len();
            let mut i: usize = 0;
            let mut stored = false;
            while i < n
                invariant
                    i <= n,
                    n == token.spec_wakers().len(),
                    stored == exists|k: int| 0 <= k < i && token.spec_wakers()[k] == waker,
                decreases n - i,
            {
                if token.wakers[i] == waker {
                    stored = true;
                }
                i += 1;
            }
            if !stored {
                token.wakers.push(waker);
            }
            false
        }
    }
}

/// Cancelling is idempotent: cancelling an already-cancelled token leaves the
/// same state and wakes nobody, so cancelling any number of times has the
/// observable effect of cancelling once.
pub proof fn lemma_cancel_idempotent(s: TokenState)
    ensures
        cancel_transition(cancel_transition(s).0).0 == cancel_transition(s).0,
        cancel_transition(cancel_transition(s).0).1 == Seq::<u64>::empty(),
{
}

/// Every waiter stored before `cancel` is among the waiters `cancel` wakes.
/// Together with `poll`'s contract — a pending poll stores its waker — every
/// waiter that polled before cancellation is woken by it.
pub proof fn lemma_cancel_wakes_all(s: TokenState, waker: u64)
    requires
        s.1.contains(waker),
    ensures
        cancel_transition(s).1.contains(waker),
{
}

/// A pending poll leaves the waiter stored, whether it was already stored or
/// is stored by this poll; and polling never un-cancels a token.
pub proof fn lemma_poll_stores_waiter(s: TokenState, waker: u64)
    ensures
        !s.0 ==> poll_transition(s, waker).0.1.contains(waker),
        poll_transition(s, waker).0.0 == s.0,
{
    if !s.0 && !s.1.contains(waker) {
        assert(s.1.push(waker)[s.1.len() as int] == waker);
    }
}

/// No waiter is lost: a poll either reports readiness at once, or leaves the
/// waiter stored so that a later `cancel` wakes it.
pub proof fn lemma_pending_waiter_is_woken(s: TokenState, waker: u64)
    ensures
        poll_transition(s, waker).1 || cancel_transition(poll_transition(s, waker).0).1.contains(
            waker,
        ),
{
    lemma_poll_stores_waiter(s, waker);
}

} // verus!
