//! The capability router and the session it is served over.
//!
//! [`TeleopServer`] maps service names to lazily-initialized capabilities:
//! registration stores a one-shot factory, and the first successful lookup of
//! a name runs that factory and memoizes its handle. The RPC transport that
//! carries lookups is out of scope here; the unverified shell hands each
//! requested name to [`TeleopServer::service`] and sends the resulting handle
//! or error back. [`SessionState`] is the life cycle of one such session.

use vstd::prelude::*;
use vstd::map::*;

pub mod echo;

verus! {

/// A one-shot producer of a service capability: built once, when the service
/// is first requested.
pub trait ServiceFactory: Sized {
    /// The capability handle the factory produces; cheap to hand out by
    /// reference to many sessions.
    type Handle;

    /// Builds the capability. Consumes the factory: it cannot run twice.
    fn build(self) -> Self::Handle;
}

/// One registered service: its factory while unrealized, its capability
/// handle once realized.
pub enum ServiceCell<F: ServiceFactory> {
    /// The factory has not run yet.
    Pending(F),
    /// The factory has run; its handle is memoized.
    Ready(F::Handle),
}

/// View of the error message for a lookup of an unregistered name.
pub open spec fn spec_service_not_found(name: Seq<char>) -> Seq<char> {
    "service "@ + name + " not found"@
}

/// The failure of a lookup of an unregistered name. It is an RPC-level
/// error: the session it came over stays usable.
#[derive(Debug)]
pub struct ServiceError {
    /// The name that was not found.
    pub name: String,
}

impl ServiceError {
    /// The error message: `service <name> not found`.
    pub fn message(&self) -> (m: String)
        ensures
            m@ == spec_service_not_found(self.name@),
    {
        let mut m = "service ".to_owned();
        m.append(self.name.as_str());
        m.append(" not found");
        m
    }
}

/// The capability router: a name-addressed set of lazily-initialized
/// services, the bootstrap capability of every server-side session.
pub struct TeleopServer<F: ServiceFactory> {
    services: Vec<(String, ServiceCell<F>)>,
}

impl<F: ServiceFactory> TeleopServer<F> {
    /// The registered entries, in registration order.
    pub closed spec fn spec_entries(&self) -> Seq<(String, ServiceCell<F>)> {
        self.services@
    }

    /// View of the name of the entry at an index.
    pub open spec fn spec_name_at(&self, i: int) -> Seq<char> {
        self.spec_entries()[i].0@
    }

    /// Names are unique: each name owns at most one entry.
    pub open spec fn wf(&self) -> bool {
        forall|i: int, j: int|
            #![trigger self.spec_name_at(i), self.spec_name_at(j)]
            0 <= i < j < self.spec_entries().len() ==> self.spec_name_at(i) != self.spec_name_at(
                j,
            )
    }

    /// The index of the entry with the given name, when one exists.
    pub open spec fn spec_index_of(&self, n: Seq<char>) -> int {
        choose|i: int|
            0 <= i < self.spec_entries().len() && self.spec_name_at(i) == n
    }

    /// With unique names, the entry at an index is what the view maps its
    /// name to.
    proof fn lemma_entry_in_view(&self, i: int)
        requires
            self.wf(),
            0 <= i < self.spec_entries().len(),
        ensures
            self@.contains_key(self.spec_name_at(i)),
            self@[self.spec_name_at(i)] == self.spec_entries()[i].1,
    {
        let n = self.spec_name_at(i);
        assert(0 <= i < self.spec_entries().len() && self.spec_name_at(i) == n);
        assert(self@.contains_key(n));
        let j = self.spec_index_of(n);
        assert(0 <= j < self.spec_entries().len() && self.spec_name_at(j) == n);
        if i < j {
            assert(self.spec_name_at(i) != self.spec_name_at(j));
        }
        if j < i {
            assert(self.spec_name_at(j) != self.spec_name_at(i));
        }
        assert(j == i);
    }

    /// Creates a new router with no services registered.
    pub fn new() -> (s: Self)
        ensures
            s.wf(),
            s@ == Map::<Seq<char>, ServiceCell<F>>::empty(),
    {
        let s = TeleopServer { services: Vec::new() };
        proof {
            assert(s@ =~= Map::<Seq<char>, ServiceCell<F>>::empty());
        }
        s
    }

    /// The index of the entry with the given name, if the name is
    /// registered.
    fn find(&self, name: &String) -> (r: Option<usize>)
        requires
            self.wf(),
        ensures
            r matches Some(i) ==> {
                &&& i < self.spec_entries().len()
                &&& self.spec_name_at(i as int) == name@
                &&& self@.contains_key(name@)
                &&& self@[name@] == self.spec_entries()[i as int].1
            },
            r is None ==> !self@.contains_key(name@),
    {
        let n = self.services.len();
        let mut k: usize = 0;
        while k < n
            invariant
                k <= n,
                n == self.spec_entries().len(),
                self.wf(),
                forall|m: int| 0 <= m < k ==> self.spec_name_at(m) != name@,
            decreases n - k,
        {
            if self.services[k].0 == *name {
                proof {
                    self.lemma_entry_in_view(k as int);
                }
                return Some(k);
            }
            k += 1;
        }
        None
    }

    /// Registers a service under a name, lazily initialized via the passed
    /// factory. A name registered twice keeps only the later factory.
    ///
    /// The factory does not run here: registration is free of I/O, and the
    /// factory runs only when the service is first requested.
    pub fn register_service(&mut self, name: String, f: F)
        requires
            old(self).wf(),
        ensures
            final(self).wf(),
            final(self)@ == old(self)@.insert(name@, ServiceCell::Pending(f)),
    {
        let found = self.find(&name);
        match found {
            Some(i) => {
                let ghost pre = *self;
                let slot = &mut self.services[i];
                *slot = (name, ServiceCell::Pending(f));
                proof {
                    Self::lemma_entry_replaced(pre, *self, i as int);
                }
            },
            None => {
                let ghost pre = *self;
                self.services.push((name, ServiceCell::Pending(f)));
                proof {
                    Self::lemma_entry_pushed(pre, *self);
                }
            },
        }
    }

    /// Resolves a service name. A miss fails with the not-found error and
    /// changes nothing. A hit realizes the service if this is its first
    /// successful lookup — running the factory exactly then — and returns
    /// the memoized handle; a later hit returns the same handle and leaves
    /// the router unchanged.
    pub fn service(&mut self, name: &String) -> (r: Result<&F::Handle, ServiceError>)
        requires
            old(self).wf(),
        ensures
            final(self).wf(),
            r matches Ok(h) ==> {
                &&& old(self)@.contains_key(name@)
                &&& final(self)@ == old(self)@.insert(name@, ServiceCell::Ready(*h))
                &&& (old(self)@[name@] matches ServiceCell::Ready(h0) ==> *h == h0
                    && *final(self) == *old(self))
            },
            r matches Err(e) ==> {
                &&& !old(self)@.contains_key(name@)
                &&& *final(self) == *old(self)
                &&& e.name@ == name@
            },
    {
        let found = self.find(name);
        let i = match found {
            None => {
                return Err(ServiceError { name: name.clone() });
            },
            Some(i) => i,
        };
        let pending = match &self.services[i].1 {
            ServiceCell::Pending(_) => true,
            ServiceCell::Ready(_) => false,
        };
        if pending {
            let ghost pre = *self;
            let (nm, cell) = self.services.remove(i);
            let handle = match cell {
                ServiceCell::Pending(factory) => factory.build(),
                ServiceCell::Ready(h) => h,
            };
            self.services.insert(i, (nm, ServiceCell::Ready(handle)));
            proof {
                assert(self.spec_entries() =~= pre.spec_entries().update(
                    i as int,
                    self.spec_entries()[i as int],
                ));
                Self::lemma_entry_replaced(pre, *self, i as int);
            }
        } else {
            proof {
                self.lemma_entry_in_view(i as int);
                assert(self@ =~= self@.insert(name@, self@[name@]));
            }
        }
        match &self.services[i].1 {
            ServiceCell::Ready(h) => Ok(h),
            ServiceCell::Pending(_) => unreached(),
        }
    }

    /// Replacing the entry at an index by one with the same name remaps that
    /// name in the view and preserves well-formedness.
    proof fn lemma_entry_replaced(pre: Self, post: Self, i: int)
        requires
            pre.wf(),
            0 <= i < pre.spec_entries().len(),
            post.spec_entries() == pre.spec_entries().update(i, post.spec_entries()[i]),
            post.spec_name_at(i) == pre.spec_name_at(i),
        ensures
            post.wf(),
            post@ == pre@.insert(pre.spec_name_at(i), post.spec_entries()[i].1),
    {
        let n0 = pre.spec_name_at(i);
        assert forall|k: int|
            0 <= k < pre.spec_entries().len() implies #[trigger] post.spec_name_at(k)
            == pre.spec_name_at(k) by {
            if k != i {
                assert(post.spec_entries()[k] == pre.spec_entries()[k]);
            }
        }
        assert(post.wf());
        let m = pre@.insert(n0, post.spec_entries()[i].1);
        assert forall|n: Seq<char>| post@.contains_key(n) implies m.contains_key(n) by {
            let k = choose|k: int|
                0 <= k < post.spec_entries().len() && post.spec_name_at(k) == n;
            if n != n0 {
                pre.lemma_entry_in_view(k);
            }
        }
        assert forall|n: Seq<char>| m.contains_key(n) implies post@.contains_key(n) by {
            if n == n0 {
                post.lemma_entry_in_view(i);
            } else {
                let k = choose|k: int|
                    0 <= k < pre.spec_entries().len() && pre.spec_name_at(k) == n;
                post.lemma_entry_in_view(k);
            }
        }
        assert forall|n: Seq<char>| post@.contains_key(n) implies #[trigger] post@[n] == m[n] by {
            if n == n0 {
                post.lemma_entry_in_view(i);
            } else {
                let k = choose|k: int|
                    0 <= k < post.spec_entries().len() && post.spec_name_at(k) == n;
                assert(0 <= k < post.spec_entries().len() && post.spec_name_at(k) == n);
                assert(k != i);
                post.lemma_entry_in_view(k);
                pre.lemma_entry_in_view(k);
            }
        }
        assert(post@ =~= m);
    }

    /// Appending an entry with a fresh name adds that name to the view and
    /// preserves well-formedness.
    proof fn lemma_entry_pushed(pre: Self, post: Self)
        requires
            pre.wf(),
            post.spec_entries().len() == pre.spec_entries().len() + 1,
            post.spec_entries() == pre.spec_entries().push(
                post.spec_entries().last(),
            ),
            !pre@.contains_key(post.spec_name_at(pre.spec_entries().len() as int)),
        ensures
            post.wf(),
            post@ == pre@.insert(
                post.spec_name_at(pre.spec_entries().len() as int),
                post.spec_entries().last().1,
            ),
    {
        let len = pre.spec_entries().len() as int;
        let n0 = post.spec_name_at(len);
        assert forall|k: int| 0 <= k < len implies #[trigger] post.spec_name_at(k)
            == pre.spec_name_at(k) by {
            assert(post.spec_entries()[k] == pre.spec_entries()[k]);
        }
        assert forall|k: int| 0 <= k < len implies #[trigger] pre.spec_name_at(k) != n0 by {
            if pre.spec_name_at(k) == n0 {
                pre.lemma_entry_in_view(k);
            }
        }
        assert(post.wf());
        let m = pre@.insert(n0, post.spec_entries().last().1);
        assert forall|n: Seq<char>| post@.contains_key(n) implies m.contains_key(n) by {
            let k = choose|k: int|
                0 <= k < post.spec_entries().len() && post.spec_name_at(k) == n;
            if n != n0 {
                assert(k < len);
                pre.lemma_entry_in_view(k);
            }
        }
        assert forall|n: Seq<char>| m.contains_key(n) implies post@.contains_key(n) by {
            if n == n0 {
                post.lemma_entry_in_view(len);
            } else {
                let k = choose|k: int|
                    0 <= k < pre.spec_entries().len() && pre.spec_name_at(k) == n;
                post.lemma_entry_in_view(k);
            }
        }
        assert forall|n: Seq<char>| post@.contains_key(n) implies #[trigger] post@[n] == m[n] by {
            if n == n0 {
                post.lemma_entry_in_view(len);
            } else {
                let k = choose|k: int|
                    0 <= k < post.spec_entries().len() && post.spec_name_at(k) == n;
                assert(0 <= k < post.spec_entries().len() && post.spec_name_at(k) == n);
                assert(k != len);
                post.lemma_entry_in_view(k);
                pre.lemma_entry_in_view(k);
            }
        }
        assert(post@ =~= m);
    }
}

impl<F: ServiceFactory> View for TeleopServer<F> {
    type V = Map<Seq<char>, ServiceCell<F>>;

    open spec fn view(&self) -> Map<Seq<char>, ServiceCell<F>> {
        Map::new(
            |n: Seq<char>|
                exists|i: int|
                    0 <= i < self.spec_entries().len() && self.spec_name_at(i) == n,
            |n: Seq<char>| self.spec_entries()[self.spec_index_of(n)].1,
        )
    }
}

/// The life cycle of one RPC session over one accepted connection.
#[derive(Clone, Copy, Debug, PartialEq, Eq, Structural)]
pub enum SessionState {
    /// The transport is being wired up.
    Opening,
    /// The session serves calls.
    Running,
    /// The peer ended the session.
    PeerClosed,
    /// The local cancellation token ended the session.
    LocalCancelled,
    /// The transport failed.
    IoError,
    /// The session and its streams are gone. Terminal: there is no retry.
    Closed,
}

/// What a running session can observe.
#[derive(Clone, Copy, Debug, PartialEq, Eq, Structural)]
pub enum SessionEvent {
    /// The transport is wired up and the bootstrap capability offered.
    Started,
    /// A `service` call failed with the not-found error.
    UnknownService,
    /// The peer disconnected.
    PeerHangup,
    /// The local cancellation token fired.
    Cancelled,
    /// The transport failed.
    TransportError,
    /// The session value is dropped and its streams closed.
    Teardown,
}

/// The session transition: how one session moves through its life cycle.
pub open spec fn spec_session_step(s: SessionState, e: SessionEvent) -> SessionState {
    match s {
        SessionState::Opening | SessionState::Running => match e {
            SessionEvent::Started => SessionState::Running,
            SessionEvent::UnknownService => s,
            SessionEvent::PeerHangup => SessionState::PeerClosed,
            SessionEvent::Cancelled => SessionState::LocalCancelled,
            SessionEvent::TransportError => SessionState::IoError,
            SessionEvent::Teardown => SessionState::Closed,
        },
        SessionState::PeerClosed | SessionState::LocalCancelled | SessionState::IoError
            | SessionState::Closed => SessionState::Closed,
    }
}

/// Advances a session by one observation.
pub fn session_step(s: SessionState, e: &SessionEvent) -> (n: SessionState)
    ensures
        n == spec_session_step(s, *e),
{
    match s {
        SessionState::Opening | SessionState::Running => match e {
            SessionEvent::Started => SessionState::Running,
            SessionEvent::UnknownService => s,
            SessionEvent::PeerHangup => SessionState::PeerClosed,
            SessionEvent::Cancelled => SessionState::LocalCancelled,
            SessionEvent::TransportError => SessionState::IoError,
            SessionEvent::Teardown => SessionState::Closed,
        },
        SessionState::PeerClosed | SessionState::LocalCancelled | SessionState::IoError
            | SessionState::Closed => SessionState::Closed,
    }
}

/// A failed service lookup does not end the session: a running session stays
/// running, and later calls on the same session proceed.
pub proof fn lemma_unknown_service_keeps_session(s: SessionState)
    requires
        s is Running,
    ensures
        spec_session_step(s, SessionEvent::UnknownService) == s,
{
}

/// Sessions do not retry: out of the end states every observation leads to
/// `Closed`, and `Closed` is absorbing. In particular no end state ever
/// returns to `Running`.
pub proof fn lemma_session_no_retry(s: SessionState, e: SessionEvent)
    requires
        s is PeerClosed || s is LocalCancelled || s is IoError || s is Closed,
    ensures
        spec_session_step(s, e) == SessionState::Closed,
{
}

/// A service cell is realized at most once: realizing a name that is already
/// realized — as every successful lookup leaves it — changes nothing, so the
/// one-shot factory consumed by the first realization never runs a second
/// time.
pub proof fn lemma_realize_at_most_once<F: ServiceFactory>(
    m: Map<Seq<char>, ServiceCell<F>>,
    name: Seq<char>,
    h: F::Handle,
)
    requires
        m.contains_key(name),
        m[name] == ServiceCell::<F>::Ready(h),
    ensures
        m.insert(name, ServiceCell::<F>::Ready(h)) == m,
{
    assert(m.insert(name, ServiceCell::<F>::Ready(h)) =~= m);
}

} // verus!
