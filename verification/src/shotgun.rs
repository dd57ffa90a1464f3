//! A one-shot single producer, multiple consumer (SPMC) channel.
//!
//! The channel is built around one shared cell, [`_Receiver`], holding the
//! optional transmitted value and the wake handles of suspended consumers.
//! The cell's transitions are verified here; the cell is shared between the
//! [`Sender`] and all [`Receiver`] duplicates through an
//! atomically reference-counted, lock-guarded handle, so that "check the
//! value, and if absent register to be woken" is one atomic step.
//!
//! The lock is vstd's verified reader-writer lock. It cannot be poisoned:
//! verified code cannot panic while holding it, so the fatal lock-corruption
//! fault of a host mutex has no counterpart here. The library's own verified
//! code cannot panic; what a host wake handle does when it is asked to wake
//! its task is the host scheduler's code, of which nothing is claimed.

use vstd::prelude::*;
use vstd::rwlock::{RwLock, RwLockPredicate};
use std::sync::Arc;
use core::task::Waker;

verus! {

/// Relies on `core::task::Waker`: the host scheduler's opaque wake handle.
/// The library stores such handles and asks them to re-poll their task; it
/// never looks inside one.
#[verifier::external_type_specification]
#[verifier::external_body]
pub struct ExWaker(Waker);

/// The result of `Waker::will_wake` on two handles. The comparison is a
/// function of the two handles alone, so it can be named; std promises only
/// a best-effort test of "would wake the same task", so no meaning is stated
/// of the name beyond that `will_wake` returns it.
pub uninterp spec fn same_task(a: Waker, b: Waker) -> bool;

/// Relies on `Waker::will_wake`: a best-effort test of whether the two
/// handles would wake the same task. The result depends on the two handles
/// alone, so it is named [`same_task`]; its documentation promises nothing
/// more, so nothing more is stated.
pub assume_specification[ Waker::will_wake ](w: &Waker, other: &Waker) -> (r: bool)
    ensures
        r == same_task(*w, *other),
;

/// Relies on `Waker::clone`: the duplicate wakes the same task as the
/// original. The handle is opaque, so nothing is stated of the result.
pub assume_specification[ <Waker as Clone>::clone ](w: &Waker) -> (r: Waker);

/// Relies on `Waker::wake_by_ref`: asks the owning task's scheduler to poll
/// the task again. It changes nothing that the library can observe; a stale
/// handle whose task is gone is woken as a harmless no-op.
pub assume_specification[ Waker::wake_by_ref ](w: &Waker);

/// The shared cell of a [`channel`]: the optional transmitted value and the
/// wake handles registered by suspended consumers.
///
/// The cell itself is a sequential state machine and is verified as such:
/// [`_Receiver::set`] is the only transition that writes the value, and the
/// receiver-side transitions ([`_Receiver::try_recv`], [`_Receiver::poll`])
/// satisfy [`recv_step`]. All access to the shared cell of a live channel is
/// serialized by the lock that [`channel`] wraps around it.
pub struct _Receiver<T: Clone> {
    /// Value that was sent by [`_Sender`], if it has been sent yet.
    pub value: Option<T>,
    /// Wake handles that will be notified when the value is set.
    pub wakers: Vec<Waker>,
}

/// What a read of the cell returns: nothing while the cell is empty, and a
/// clone of the transmitted value once the cell is set.
pub open spec fn observes<T: Clone>(cell: _Receiver<T>, r: Option<T>) -> bool {
    match cell.value {
        Some(v) => r matches Some(x) && cloned::<T>(v, x),
        None => r is None,
    }
}

/// Whether some handle registered in the cell matches `w` under
/// [`same_task`] — the handle of a task that is already suspended here.
pub open spec fn task_registered<T: Clone>(cell: _Receiver<T>, w: Waker) -> bool {
    exists|k: int| 0 <= k < cell.wakers@.len() && same_task(cell.wakers@[k], w)
}

/// One receiver-side transition of the cell: a poll or a read never changes
/// the value, and never drops a registered wake handle — the old registry
/// stays a prefix of the new one, so registration order is kept.
pub open spec fn recv_step<T: Clone>(pre: _Receiver<T>, post: _Receiver<T>) -> bool {
    post.value == pre.value && pre.wakers@.is_prefix_of(post.wakers@)
}

impl<T: Clone> _Receiver<T> {
    /// Clones the value, if it has been set, and returns the clone. The cell
    /// is left untouched: reading is idempotent and never clears the value.
    pub fn try_recv(&self) -> (r: Option<T>)
        ensures
            observes(*self, r),
    {
        match &self.value {
            Some(v) => Some(v.clone()),
            None => None,
        }
    }

    /// Sets the value and notifies every registered wake handle, in
    /// registration order. The registry is kept as it is: once the value is
    /// set it is never consulted again, and every poll from now on is ready.
    pub fn set(&mut self, value: T)
        ensures
            final(self).value == Some(value),
            final(self).wakers == old(self).wakers,
    {
        self.value = Some(value);
        let n: usize = self.wakers.len();
        let mut i: usize = 0;
        while i < n
            invariant
                i <= n,
                n == self.wakers.len(),
                self.value == Some(value),
                self.wakers == old(self).wakers,
            decreases n - i,
        {
            self.wakers[i].wake_by_ref();
            i = i + 1;
        }
    }

    /// Whether some registered handle reports, through `will_wake`, that it
    /// wakes the same task as `w`. The test is best-effort, as `will_wake`
    /// is; it decides only whether a poll registers one more handle.
    fn is_registered(&self, w: &Waker) -> (r: bool)
        ensures
            r == task_registered(*self, *w),
    {
        let n: usize = self.wakers.len();
        let mut i: usize = 0;
        while i < n
            invariant
                i <= n,
                n == self.wakers.len(),
                forall|k: int| 0 <= k < i ==> !same_task(self.wakers@[k], *w),
            decreases n - i,
        {
            if self.wakers[i].will_wake(w) {
                assert(same_task(self.wakers@[i as int], *w));
                return true;
            }
            i = i + 1;
        }
        false
    }

    /// One poll of a suspended consumer. If the value is present, the poll
    /// is ready: it returns a clone of the value and leaves the cell exactly
    /// as it was. Otherwise the poll suspends and returns `None`, leaving
    /// the value absent; if no registered handle matches `w` under
    /// [`same_task`], a clone of `w` is appended to the registry — exactly
    /// one handle, so the consumer is notified by `set` — and if one already
    /// matches, the registry is left unchanged, so repeated polls by one
    /// task never grow it.
    pub fn poll(&mut self, w: &Waker) -> (r: Option<T>)
        ensures
            observes(*old(self), r),
            recv_step(*old(self), *final(self)),
            final(self).value == old(self).value,
            old(self).value is Some ==> *final(self) == *old(self),
            old(self).value is None && task_registered(*old(self), *w) ==> *final(self) == *old(
                self,
            ),
            old(self).value is None && !task_registered(*old(self), *w) ==> (exists|nw: Waker|
                cloned::<Waker>(*w, nw) && final(self).wakers@ == old(self).wakers@.push(nw)),
    {
        match &self.value {
            Some(v) => Some(v.clone()),
            None => {
                if !self.is_registered(w) {
                    let nw = w.clone();
                    let ghost gnw = nw;
                    self.wakers.push(nw);
                    proof {
                        assert(cloned::<Waker>(*w, gnw));
                        assert(self.wakers@ == old(self).wakers@.push(gnw));
                    }
                }
                None
            }
        }
    }
}

/// The lock invariant of the shared cell: every cell state is admissible,
/// so the lock serves mutual exclusion alone.
pub struct ChannelPred;

impl<T: Clone> RwLockPredicate<_Receiver<T>> for ChannelPred {
    open spec fn inv(self, cell: _Receiver<T>) -> bool {
        true
    }
}

/// Relies on `Arc::clone`: the duplicate shares the allocation of the
/// original, so it is a handle to the very same lock-guarded cell.
#[verifier::external_body]
fn dup_inner<T: Clone>(inner: &Arc<RwLock<_Receiver<T>, ChannelPred>>) -> (r: Arc<
    RwLock<_Receiver<T>, ChannelPred>,
>)
    ensures
        r == *inner,
{
    Arc::clone(inner)
}

/// Oneshot receiver of a [`channel`].
///
/// Use [`Receiver::try_recv`] to poll without blocking, or
/// [`Receiver::poll_recv`] to poll and, while the value is still absent,
/// register a wake handle to be notified when it arrives. As this is a
/// oneshot receiver, only one value can ever be received; once it is there,
/// every duplicate sees it on every call.
pub struct Receiver<T: Clone> {
    /// Shared handle to the one cell of the channel.
    pub inner: Arc<RwLock<_Receiver<T>, ChannelPred>>,
}

/// Inner sender of a [`channel`].
pub struct _Sender<T: Clone> {
    /// The cell that all [`Receiver`] duplicates read.
    pub receiver: Option<Arc<RwLock<_Receiver<T>, ChannelPred>>>,
}

/// Oneshot sender of a [`channel`].
///
/// Use [`Sender::send`] to send one value to all receivers of the channel.
/// Sending consumes the sender, so only one value can ever be sent.
pub struct Sender<T: Clone> {
    /// Inner sender holding the shared cell to write to.
    pub inner: _Sender<T>,
}

impl<T: Clone> Receiver<T> {
    /// Try to receive the value, if it has been sent. Non-blocking: the
    /// cell's lock is taken for one read and released again.
    ///
    /// What comes back depends on the cell's state at the instant the lock
    /// is held, which other handles reach concurrently; no contract over the
    /// handle alone can pin that state down. What a read returns for each
    /// cell state is the verified [`_Receiver::try_recv`]: `None` exactly
    /// while the cell is empty, and a clone of the one transmitted value
    /// once it is set.
    pub fn try_recv(&self) -> Option<T> {
        let handle = self.inner.acquire_read();
        let r = handle.borrow().try_recv();
        handle.release_read();
        r
    }

    /// One poll of a suspended consumer, under the cell's lock: ready with a
    /// clone of the value if it is there, else `None` after registering `w`
    /// to be woken by the send. The check and the registration happen under
    /// one lock acquisition, so no send can fall between them — the missed
    /// wakeup of a check-then-register race cannot happen.
    ///
    /// The decision for each cell state is the verified [`_Receiver::poll`].
    pub fn poll_recv(&self, w: &Waker) -> Option<T> {
        let (mut cell, handle) = self.inner.acquire_write();
        let r = cell.poll(w);
        handle.release_write(cell);
        r
    }
}

impl<T: Clone> Clone for Receiver<T> {
    /// Duplicates the handle, not the value: the duplicate is an independent
    /// receiver bound to the very same cell.
    fn clone(&self) -> (r: Self)
        ensures
            r.inner == self.inner,
    {
        Receiver { inner: dup_inner(&self.inner) }
    }
}

impl<T: Clone> _Sender<T> {
    /// Send the value to all receivers: store it in the shared cell and
    /// notify every registered wake handle, under one lock acquisition.
    /// With no cell to write to, sending completes with no effect.
    ///
    /// What each receiver observes afterwards is the verified
    /// [`_Receiver::set`]: the cell's value is `Some(value)` from now on.
    pub fn send(self, value: T) {
        match self.receiver {
            Some(cell) => {
                let (mut c, handle) = cell.acquire_write();
                c.set(value);
                handle.release_write(c);
            },
            None => {},
        }
    }
}

impl<T: Clone> Sender<T> {
    /// Send a value to all receivers of the channel. Consumes the sender, so
    /// a second send is impossible by construction. Sending when no receiver
    /// duplicate is left is not an error: the write completes and nobody
    /// reads it.
    pub fn send(self, value: T) {
        self.inner.send(value);
    }
}

/// Creates a one-shot, single producer multiple consumer channel that can be
/// used to send one value to multiple receivers.
///
/// The sender and the receiver are bound to the same freshly made cell: the
/// contract says the sender's cell is the receiver's, and the construction
/// below starts that cell empty, with no wake handle registered.
pub fn channel<T: Clone>() -> (r: (Sender<T>, Receiver<T>))
    ensures
        r.0.inner.receiver matches Some(cell) && cell == r.1.inner,
{
    let cell = Arc::new(
        RwLock::new(_Receiver { value: None, wakers: Vec::new() }, Ghost(ChannelPred)),
    );
    let receiver = Receiver { inner: dup_inner(&cell) };
    let sender = Sender { inner: _Sender { receiver: Some(cell) } };
    (sender, receiver)
}

/// The prefix order on registries is transitive.
proof fn lemma_prefix_transitive<A>(a: Seq<A>, b: Seq<A>, c: Seq<A>)
    requires
        a.is_prefix_of(b),
        b.is_prefix_of(c),
    ensures
        a.is_prefix_of(c),
{
    assert forall|i: int| 0 <= i < a.len() implies a[i] == c.subrange(0, a.len() as int)[i] by {
        assert(a[i] == b.subrange(0, a.len() as int)[i]);
        assert(b[i] == c.subrange(0, b.len() as int)[i]);
    }
    assert(a =~= c.subrange(0, a.len() as int));
}

/// Law: along any trace of receiver-side steps of one cell, the value never
/// changes — in particular it never regresses from set to empty, nor from
/// empty to set — and no registered wake handle is ever dropped: every
/// earlier registry is a prefix of every later one, in registration order.
pub proof fn lemma_recv_steps_preserve_cell<T: Clone>(tr: Seq<_Receiver<T>>)
    requires
        tr.len() > 0,
        forall|k: int| 0 <= k < tr.len() - 1 ==> recv_step(#[trigger] tr[k], tr[k + 1]),
    ensures
        forall|i: int, j: int|
            #![trigger tr[i], tr[j]]
            0 <= i <= j < tr.len() ==> tr[i].value == tr[j].value && tr[i]
                .wakers@
                .is_prefix_of(tr[j].wakers@),
    decreases tr.len(),
{
    assert forall|i: int| 0 <= i < tr.len() implies #[trigger] tr[i].wakers@.is_prefix_of(
        tr[i].wakers@,
    ) by {
        assert(tr[i].wakers@ =~= tr[i].wakers@.subrange(0, tr[i].wakers@.len() as int));
    }
    if tr.len() > 1 {
        let prev = tr.drop_last();
        assert forall|k: int| 0 <= k < prev.len() - 1 implies recv_step(#[trigger] prev[k], prev[k + 1]) by {
            assert(recv_step(tr[k], tr[k + 1]));
        }
        lemma_recv_steps_preserve_cell(prev);
        let last = tr.len() - 1;
        assert(recv_step(tr[last - 1], tr[last]));
        assert forall|i: int, j: int|
            #![trigger tr[i], tr[j]]
            0 <= i <= j < tr.len() implies tr[i].value == tr[j].value && tr[i]
            .wakers@
            .is_prefix_of(tr[j].wakers@) by {
            if j < last {
                assert(prev[i] == tr[i] && prev[j] == tr[j]);
            } else if i < last {
                assert(prev[i] == tr[i] && prev[last - 1] == tr[last - 1]);
                lemma_prefix_transitive(
                    tr[i].wakers@,
                    tr[last - 1].wakers@,
                    tr[last].wakers@,
                );
            }
        }
    }
}

/// Law: while no send has happened, every read is empty. On a trace of
/// receiver-side steps that begins with an empty cell — as the cell of a
/// fresh [`channel`] is, and as it stays when the sender is dropped without
/// sending — every cell state is still empty and every read of one of them
/// returns `None`.
pub proof fn lemma_empty_until_send<T: Clone>(tr: Seq<_Receiver<T>>, i: int, r: Option<T>)
    requires
        tr.len() > 0,
        forall|k: int| 0 <= k < tr.len() - 1 ==> recv_step(#[trigger] tr[k], tr[k + 1]),
        tr[0].value is None,
        0 <= i < tr.len(),
        observes(tr[i], r),
    ensures
        r is None,
{
    lemma_recv_steps_preserve_cell(tr);
    assert(tr[0].value == tr[i].value);
}

/// Law: once the value is set it is permanent. On a trace of receiver-side
/// steps that begins with a cell holding `v` — as the cell does from the
/// send on — every later state still holds `v`, and every read of any of
/// them, from any receiver duplicate, returns a clone of that same `v`.
pub proof fn lemma_value_never_regresses<T: Clone>(
    tr: Seq<_Receiver<T>>,
    v: T,
    i: int,
    r: Option<T>,
)
    requires
        tr.len() > 0,
        forall|k: int| 0 <= k < tr.len() - 1 ==> recv_step(#[trigger] tr[k], tr[k + 1]),
        tr[0].value == Some(v),
        0 <= i < tr.len(),
        observes(tr[i], r),
    ensures
        r matches Some(x) && cloned::<T>(v, x),
{
    lemma_recv_steps_preserve_cell(tr);
    assert(tr[0].value == tr[i].value);
}

/// Law: no waiter is skipped. On a trace of receiver-side steps, every wake
/// handle registered at some point is still registered, at its place, in
/// every later state — so when the send fires the registry, the handle of
/// every consumer that suspended before the send is among those notified.
pub proof fn lemma_no_waiter_dropped<T: Clone>(tr: Seq<_Receiver<T>>, i: int, j: int, k: int)
    requires
        tr.len() > 0,
        forall|m: int| 0 <= m < tr.len() - 1 ==> recv_step(#[trigger] tr[m], tr[m + 1]),
        0 <= i <= j < tr.len(),
        0 <= k < tr[i].wakers@.len(),
    ensures
        k < tr[j].wakers@.len(),
        tr[j].wakers@[k] == tr[i].wakers@[k],
{
    lemma_recv_steps_preserve_cell(tr);
    assert(tr[i].wakers@.is_prefix_of(tr[j].wakers@));
    assert(tr[i].wakers@[k] == tr[j].wakers@.subrange(0, tr[i].wakers@.len() as int)[k]);
}

/// Law: no reader ever observes two different values across time. Once any
/// read along a receiver-side trace of the cell succeeds, the cell holds one
/// value for good: every later read also succeeds, and both reads observe a
/// clone of that one value.
pub proof fn lemma_reads_agree<T: Clone>(
    tr: Seq<_Receiver<T>>,
    i: int,
    j: int,
    r1: Option<T>,
    r2: Option<T>,
)
    requires
        tr.len() > 0,
        forall|k: int| 0 <= k < tr.len() - 1 ==> recv_step(#[trigger] tr[k], tr[k + 1]),
        0 <= i <= j < tr.len(),
        observes(tr[i], r1),
        observes(tr[j], r2),
        r1 is Some,
    ensures
        ({
            &&& tr[i].value matches Some(v)
            &&& tr[j].value == Some(v)
            &&& r1 matches Some(x1)
            &&& cloned::<T>(v, x1)
            &&& r2 matches Some(x2)
            &&& cloned::<T>(v, x2)
        }),
{
    lemma_recv_steps_preserve_cell(tr);
    assert(tr[i].value == tr[j].value);
}

} // verus!
