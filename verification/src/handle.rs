//! The session handle and its life cycle.
//!
//! A session with the kernel is one file descriptor. Every consumer of the
//! session (a reader, a stream, a watch registry) holds a [`Handle`], and
//! the [`HandleManager`] counts them. The descriptor is due for closing once:
//! when a holder asks for it, or when the last holder lets go. A
//! [`HandleObserver`] names a handle without holding it, so that a watch
//! descriptor can tell whether its session is still there.

use vstd::prelude::*;

verus! {

/// What the books hold on one session.
#[derive(Clone, Copy, Debug, PartialEq, Eq, Structural)]
pub struct HandleState {
    /// The session's file descriptor.
    pub fd: i32,
    /// How many holders the session has.
    pub owners: usize,
    /// Whether the descriptor was handed out for closing.
    pub closed: bool,
}

impl HandleState {
    /// A session without holders has had its descriptor closed.
    pub open spec fn wf(self) -> bool {
        self.owners == 0 ==> self.closed
    }

    /// The state after one more holder joined.
    pub open spec fn shared(self) -> HandleState {
        HandleState { owners: (self.owners + 1) as usize, ..self }
    }

    /// The state after one holder let go.
    pub open spec fn released(self) -> HandleState {
        HandleState {
            owners: (self.owners - 1) as usize,
            closed: self.closed || self.owners == 1,
            ..self
        }
    }

    /// The state after one holder asked for the session to be closed, and let go.
    pub open spec fn shut(self) -> HandleState {
        HandleState { owners: (self.owners - 1) as usize, closed: true, ..self }
    }

    /// The descriptor that is due for closing when one holder lets go: the
    /// session's, where the holder is the last one and the descriptor is
    /// still open.
    pub open spec fn due_on_release(self) -> Option<i32> {
        if !self.closed && self.owners == 1 {
            Some(self.fd)
        } else {
            None
        }
    }

    /// The descriptor that is due for closing when a holder asks for the
    /// session to be closed: the session's, where it is still open.
    pub open spec fn due_on_close(self) -> Option<i32> {
        if !self.closed {
            Some(self.fd)
        } else {
            None
        }
    }
}

/// A share in a session. While any share is held, the session is live.
///
/// A share is not copied: [`HandleManager::share`] makes another one, and
/// [`HandleManager::release`] or [`HandleManager::close`] takes one back.
#[derive(Debug, PartialEq, Eq)]
pub struct Handle {
    slot: usize,
}

/// Names a session without holding a share in it.
#[derive(Clone, Copy, Debug, PartialEq, Eq, Hash)]
pub struct HandleObserver {
    /// The place of the observed session in the manager's books, if the
    /// observer was ever given one.
    pub slot: Option<usize>,
}

impl Handle {
    /// The place of the session in the manager's books.
    pub closed spec fn slot(&self) -> usize {
        self.slot
    }

    /// The observer of this share's session.
    pub open spec fn observer(&self) -> HandleObserver {
        HandleObserver { slot: Some(self.slot()) }
    }

    /// An observer of this share's session.
    pub fn observe(&self) -> (o: HandleObserver)
        ensures
            o == self.observer(),
    {
        HandleObserver { slot: Some(self.slot) }
    }
}

impl HandleObserver {
    /// An observer that observes no session.
    pub fn new() -> (o: HandleObserver)
        ensures
            o.slot is None,
    {
        HandleObserver { slot: None }
    }

    /// Whether two observers name the same session.
    pub fn same_target(&self, other: &HandleObserver) -> (r: bool)
        ensures
            r == (*self == *other),
    {
        match (self.slot, other.slot) {
            (Some(a), Some(b)) => a == b,
            (None, None) => true,
            _ => false,
        }
    }
}

/// A session's descriptor is handed out for closing once.
///
/// A session starts with one holder and an open descriptor. Whatever its
/// holders do then, the descriptor is handed out exactly when the session
/// goes from open to closed; a session that is closed stays closed; and a
/// session without holders is closed.
pub proof fn lemma_descriptor_is_closed_once(state: HandleState)
    requires
        state.wf(),
        state.owners > 0,
    ensures
        (HandleState { fd: state.fd, owners: 1, closed: false }).wf(),
        state.owners < usize::MAX ==> state.shared().wf(),
        state.released().wf(),
        state.shut().wf(),
        state.due_on_release() is Some <==> !state.closed && state.released().closed,
        state.due_on_close() is Some <==> !state.closed && state.shut().closed,
        state.closed ==> state.shared().closed && state.released().closed && state.shut().closed,
{
}

/// Whether every session on the books is well formed.
pub open spec fn books_wf(books: Seq<HandleState>) -> bool {
    forall|i: int| 0 <= i < books.len() ==> (#[trigger] books[i]).wf()
}

/// Books stay well formed whatever the holders of their sessions do.
pub proof fn lemma_books_stay_well_formed(books: HandleManager, h: Handle)
    requires
        books.wf(),
    ensures
        books_wf(books.shared(h)),
        books_wf(books.released(h)),
        books_wf(books.shut(h)),
{
    if books.owns(h) {
        let slot = h.slot() as int;
        let state = books@[slot];
        assert(state.wf());
        lemma_descriptor_is_closed_once(state);
        lemma_update_keeps_wf(books@, slot, state.released());
        lemma_update_keeps_wf(books@, slot, state.shut());
        if books.can_share(h) {
            lemma_update_keeps_wf(books@, slot, state.shared());
        }
    }
}

/// Books stay well formed when a well-formed entry replaces another.
proof fn lemma_update_keeps_wf(before: Seq<HandleState>, slot: int, entry: HandleState)
    requires
        books_wf(before),
        0 <= slot < before.len(),
        entry.wf(),
    ensures
        books_wf(before.update(slot, entry)),
{
    let after = before.update(slot, entry);
    assert forall|i: int| 0 <= i < after.len() implies (#[trigger] after[i]).wf() by {
        if i != slot {
            assert(after[i] == before[i]);
        }
    }
}

/// The books on all sessions that were ever opened.
///
/// A session keeps its place for good, so a place names one session only.
pub struct HandleManager {
    handles: Vec<HandleState>,
}

impl View for HandleManager {
    type V = Seq<HandleState>;

    closed spec fn view(&self) -> Seq<HandleState> {
        self.handles@
    }
}

impl HandleManager {
    /// Every session on the books is well formed: a session without holders
    /// has had its descriptor closed.
    pub open spec fn wf(&self) -> bool {
        books_wf(self@)
    }

    /// Whether `h` is a share in a session of these books.
    pub open spec fn owns(&self, h: Handle) -> bool {
        h.slot() < self@.len() && self@[h.slot() as int].owners > 0
    }

    /// Whether one more share in the session of `h` can be made: `h` is a
    /// share in a session of these books, and the count of holders is not at
    /// its limit.
    pub open spec fn can_share(&self, h: Handle) -> bool {
        self.owns(h) && self@[h.slot() as int].owners < usize::MAX
    }

    /// The books after one more share in the session of `h` was made, where
    /// it can be made.
    pub open spec fn shared(&self, h: Handle) -> Seq<HandleState> {
        if self.can_share(h) {
            self@.update(h.slot() as int, self@[h.slot() as int].shared())
        } else {
            self@
        }
    }

    /// The books after the share `h` was taken back.
    pub open spec fn released(&self, h: Handle) -> Seq<HandleState> {
        if self.owns(h) {
            self@.update(h.slot() as int, self@[h.slot() as int].released())
        } else {
            self@
        }
    }

    /// The books after the holder of `h` asked for the session to be closed,
    /// and the share was taken back.
    pub open spec fn shut(&self, h: Handle) -> Seq<HandleState> {
        if self.owns(h) {
            self@.update(h.slot() as int, self@[h.slot() as int].shut())
        } else {
            self@
        }
    }

    /// The descriptor that is due for closing when the share `h` is taken
    /// back.
    pub open spec fn due_on_release(&self, h: Handle) -> Option<i32> {
        if self.owns(h) {
            self@[h.slot() as int].due_on_release()
        } else {
            None
        }
    }

    /// The descriptor that is due for closing when the holder of `h` asks
    /// for the session to be closed.
    pub open spec fn due_on_close(&self, h: Handle) -> Option<i32> {
        if self.owns(h) {
            self@[h.slot() as int].due_on_close()
        } else {
            None
        }
    }

    /// The descriptor of the session of `h`, while it is open.
    pub open spec fn open_fd(&self, h: Handle) -> Option<i32> {
        if self.owns(h) && !self@[h.slot() as int].closed {
            Some(self@[h.slot() as int].fd)
        } else {
            None
        }
    }

    /// Whether `o` names a session of these books, live or gone.
    pub open spec fn knows(&self, o: HandleObserver) -> bool {
        o.slot matches Some(i) && i < self@.len()
    }

    /// Whether the session that `o` names is live: it is on these books and
    /// has a holder.
    pub open spec fn live(&self, o: HandleObserver) -> bool {
        o.slot matches Some(i) && i < self@.len() && self@[i as int].owners > 0
    }

    /// Books without a session.
    pub fn new() -> (m: HandleManager)
        ensures
            m@.len() == 0,
            m.wf(),
    {
        HandleManager { handles: Vec::new() }
    }

    /// Enters a newly opened session, with the caller as its one holder.
    ///
    /// The session gets a place that no earlier session had, so no observer
    /// of an earlier session, live or gone, names the new one.
    pub fn acquire(&mut self, fd: i32) -> (h: Handle)
        ensures
            h.slot() == old(self)@.len(),
            final(self)@ == old(self)@.push(HandleState { fd, owners: 1, closed: false }),
            !old(self).knows(h.observer()),
            final(self).live(h.observer()),
            old(self).wf() ==> final(self).wf(),
    {
        let slot = self.handles.len();
        self.handles.push(HandleState { fd, owners: 1, closed: false });
        proof {
            if old(self).wf() {
                assert forall|i: int| 0 <= i < self@.len() implies (#[trigger] self@[i]).wf() by {
                    if i < old(self)@.len() {
                        assert(self@[i] == old(self)@[i]);
                    }
                }
            }
        }
        Handle { slot }
    }

    /// Makes one more share in the session of `h`.
    ///
    /// Returns `None`, and changes nothing, where `h` is no share in a
    /// session of these books or the count of holders is at its limit.
    pub fn share(&mut self, h: &Handle) -> (r: Option<Handle>)
        ensures
            r is Some <==> old(self).can_share(*h),
            r matches Some(s) ==> s.slot() == h.slot(),
            final(self)@ == old(self).shared(*h),
            old(self).wf() ==> final(self).wf(),
    {
        proof {
            if self.wf() {
                lemma_books_stay_well_formed(*self, *h);
            }
        }
        if h.slot >= self.handles.len() {
            return None;
        }
        let state = self.handles[h.slot];
        if state.owners == 0 || state.owners == usize::MAX {
            return None;
        }
        self.handles[h.slot] = HandleState { owners: state.owners + 1, ..state };
        Some(Handle { slot: h.slot })
    }

    /// Takes a share back. Where it was the last one and the descriptor is
    /// still open, the descriptor is returned: it is now due for closing.
    pub fn release(&mut self, h: Handle) -> (r: Option<i32>)
        ensures
            r == old(self).due_on_release(h),
            final(self)@ == old(self).released(h),
            old(self).wf() ==> final(self).wf(),
    {
        proof {
            if self.wf() {
                lemma_books_stay_well_formed(*self, h);
            }
        }
        if h.slot >= self.handles.len() {
            return None;
        }
        let state = self.handles[h.slot];
        if state.owners == 0 {
            return None;
        }
        let last = state.owners == 1;
        self.handles[h.slot] = HandleState {
            owners: state.owners - 1,
            closed: state.closed || last,
            ..state
        };
        if last && !state.closed {
            Some(state.fd)
        } else {
            None
        }
    }

    /// Takes a share back and marks the session closed. Where the descriptor
    /// was still open, it is returned: it is now due for closing. No later
    /// call returns it again.
    pub fn close(&mut self, h: Handle) -> (r: Option<i32>)
        ensures
            r == old(self).due_on_close(h),
            final(self)@ == old(self).shut(h),
            old(self).wf() ==> final(self).wf(),
    {
        proof {
            if self.wf() {
                lemma_books_stay_well_formed(*self, h);
            }
        }
        if h.slot >= self.handles.len() {
            return None;
        }
        let state = self.handles[h.slot];
        if state.owners == 0 {
            return None;
        }
        self.handles[h.slot] = HandleState { owners: state.owners - 1, closed: true, ..state };
        if state.closed {
            None
        } else {
            Some(state.fd)
        }
    }

    /// Whether the session that `o` names is live.
    pub fn is_live(&self, o: &HandleObserver) -> (r: bool)
        ensures
            r == self.live(*o),
    {
        match o.slot {
            Some(i) => i < self.handles.len() && self.handles[i].owners > 0,
            None => false,
        }
    }

    /// The descriptor of the session of `h`, while it is open.
    pub fn fd(&self, h: &Handle) -> (r: Option<i32>)
        ensures
            r == self.open_fd(*h),
    {
        if h.slot < self.handles.len() {
            let state = self.handles[h.slot];
            if state.owners > 0 && !state.closed {
                return Some(state.fd);
            }
        }
        None
    }
}

} // verus!
