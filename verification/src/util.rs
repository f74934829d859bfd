//! The one-shot cancellation signal shared by a waiter and its tokens.

use std::sync::atomic::AtomicBool;
use std::sync::Arc;
use std::task::Waker;

use crossbeam::atomic::AtomicCell;
use vstd::prelude::*;

verus! {

/// crossbeam's `AtomicCell`: a cell that is written through a shared
/// reference. Nothing is known here of what it holds at any moment.
#[verifier::external_type_specification]
#[verifier::external_body]
#[verifier::reject_recursive_types(T)]
pub struct ExAtomicCell<T>(AtomicCell<T>);

/// std's `Waker`: the handle that reschedules a suspended task.
#[verifier::external_type_specification]
#[verifier::external_body]
pub struct ExWaker(Waker);

/// `AtomicCell::new` makes a cell that holds `val`. The cell is shared
/// from then on, so nothing is promised of its later content.
pub assume_specification<T>[ AtomicCell::<T>::new ](val: T) -> (cell: AtomicCell<T>);

/// `AtomicCell::store` replaces the content and drops what was there.
pub assume_specification<T>[ AtomicCell::<T>::store ](cell: &AtomicCell<T>, val: T);

/// `AtomicCell::take` hands out the content and leaves the default value.
/// Another holder may have written in between: nothing is promised of the
/// value that comes back.
pub assume_specification<T: Default>[ AtomicCell::<T>::take ](cell: &AtomicCell<T>) -> (val: T);

/// `Waker::wake` reschedules the task that the waker belongs to.
pub assume_specification[ Waker::wake ](waker: Waker);

/// `Waker::clone` makes a second handle to the same task.
pub assume_specification[ <Waker as Clone>::clone ](waker: &Waker) -> (copy: Waker);

/// What one signal holds, as plain values: whether it has been given, and
/// whether a waiter has left its waker to be woken by it.
#[derive(Copy, Clone, Eq, PartialEq, Hash, Debug, Structural)]
pub struct SignalState {
    pub cancelled: bool,
    pub waiting: bool,
}

/// One call on a signal.
#[derive(Copy, Clone, Eq, PartialEq, Hash, Debug, Structural)]
pub enum SignalOp {
    Poll,
    Cancel,
}

impl SignalState {
    /// The signal of a fresh pair: not given, nobody waiting.
    pub open spec fn fresh() -> SignalState {
        SignalState { cancelled: false, waiting: false }
    }

    /// Whether a poll finds the waiter done.
    pub open spec fn poll_ready(self) -> bool {
        self.cancelled
    }

    /// The signal after a poll: a waiter that is not done is waiting.
    pub open spec fn after_poll(self) -> SignalState {
        SignalState { cancelled: self.cancelled, waiting: !self.cancelled }
    }

    /// Whether a cancellation wakes a waiter.
    pub open spec fn cancel_woke(self) -> bool {
        self.waiting
    }

    /// The signal after a cancellation: given, and nobody waiting.
    pub open spec fn after_cancel(self) -> SignalState {
        SignalState { cancelled: true, waiting: false }
    }

    /// The signal after one call.
    pub open spec fn after(self, op: SignalOp) -> SignalState {
        match op {
            SignalOp::Poll => self.after_poll(),
            SignalOp::Cancel => self.after_cancel(),
        }
    }

    /// The signal after the calls of `ops`, first to last.
    pub open spec fn after_all(self, ops: Seq<SignalOp>) -> SignalState
        decreases ops.len(),
    {
        if ops.len() == 0 {
            self
        } else {
            self.after_all(ops.drop_last()).after(ops.last())
        }
    }

    /// The signal of a fresh pair.
    pub fn new() -> (state: Self)
        ensures
            state == Self::fresh(),
    {
        SignalState { cancelled: false, waiting: false }
    }

    /// One poll of the waiter: done where the signal has been given, and
    /// waiting otherwise. The result tells whether the waiter is done.
    pub fn poll(&mut self) -> (ready: bool)
        ensures
            *final(self) == old(self).after_poll(),
            ready == old(self).poll_ready(),
    {
        self.waiting = !self.cancelled;
        self.cancelled
    }

    /// One cancellation: the signal is given, and a waiter that was waiting
    /// is woken. The result tells whether one was.
    pub fn cancel(&mut self) -> (woke: bool)
        ensures
            *final(self) == old(self).after_cancel(),
            woke == old(self).cancel_woke(),
    {
        let woke = self.waiting;
        self.cancelled = true;
        self.waiting = false;
        woke
    }
}

/// A signal that has been given stays given: whatever calls follow a
/// cancellation, every poll after it finds the waiter done, and nobody is
/// left waiting.
pub proof fn lemma_cancelled_stays(state: SignalState, ops: Seq<SignalOp>)
    ensures
        state.after_cancel().after_all(ops).cancelled,
        state.after_cancel().after_all(ops).poll_ready(),
        !state.after_cancel().after_all(ops).waiting,
    decreases ops.len(),
{
    if ops.len() > 0 {
        lemma_cancelled_stays(state, ops.drop_last());
    }
}

/// A cancellation before the waiter was ever polled wakes nobody, and the
/// next poll finds the waiter done at once.
pub proof fn lemma_cancel_before_poll()
    ensures
        !SignalState::fresh().cancel_woke(),
        SignalState::fresh().after_cancel().poll_ready(),
{
}

/// A waiter is woken at most once: the cancellation that follows a
/// cancellation wakes nobody, whatever polls lie between them.
pub proof fn lemma_second_cancel_wakes_nobody(state: SignalState, ops: Seq<SignalOp>)
    ensures
        !state.after_cancel().after_all(ops).cancel_woke(),
{
    lemma_cancelled_stays(state, ops);
}

/// Without a cancellation no poll finds the waiter done.
pub proof fn lemma_pending_without_cancel(polls: Seq<SignalOp>)
    requires
        forall|i: int| 0 <= i < polls.len() ==> polls[i] == SignalOp::Poll,
    ensures
        !SignalState::fresh().after_all(polls).poll_ready(),
    decreases polls.len(),
{
    if polls.len() > 0 {
        lemma_pending_without_cancel(polls.drop_last());
    }
}

/// The cell that the two halves of a pair share: the flag that the signal
/// has been given, and the waker of the waiter while it waits.
pub struct Shared {
    cancelled: AtomicBool,
    waker: AtomicCell<Option<Waker>>,
}

/// The waiting half of a pair: it is polled until the signal is given.
pub struct CancelActivity {
    shared: Arc<Shared>,
}

/// The signalling half of a pair. Clones share the signal.
pub struct ActivityToken {
    shared: Arc<Shared>,
}

impl Clone for ActivityToken {
    fn clone(&self) -> (copy: Self)
        ensures
            copy == *self,
    {
        ActivityToken { shared: Arc::clone(&self.shared) }
    }
}

impl CancelActivity {
    /// The cell that this waiter listens on.
    pub closed spec fn signal(&self) -> Shared {
        *self.shared
    }

    /// A fresh signal: a waiter and a token on one cell.
    pub fn new_pair() -> (pair: (Self, ActivityToken))
        ensures
            pair.0.signal() == pair.1.signal(),
    {
        let shared = Arc::new(
            Shared { cancelled: AtomicBool::new(false), waker: AtomicCell::new(None) },
        );
        let token = ActivityToken { shared: Arc::clone(&shared) };
        let future = Self { shared };
        (future, token)
    }

    /// The second half of a poll. The waker has been left in the cell, and
    /// `given` tells whether the flag was found set after that. A waiter
    /// that finds it set is done and takes its waker back out, so that
    /// none is left behind. The result is what `SignalState::poll` tells
    /// of a waiting signal with that flag.
    fn settle(&self, given: bool) -> (ready: bool)
        ensures
            ready == given,
            ready == (SignalState { cancelled: given, waiting: true }).poll_ready(),
    {
        if given {
            let _ = self.shared.waker.take();
        }
        given
    }

    /// One poll of the waiter, for the task that `waker` reschedules. The
    /// result tells whether the waiter is done, which it is once the
    /// signal has been given. Until then it leaves `waker` in the cell and
    /// looks at the flag once more, so that a signal given in between is
    /// not slept through. A waiter that is done leaves no waker behind.
    ///
    /// The cell is shared with the tokens, so the result depends on what
    /// their holders did, and nothing is promised of it here: what the
    /// poll makes of each look at the flag is stated by `settle`, and on a
    /// cell that nobody else touches meanwhile the call does what
    /// `SignalState::poll` does.
    pub fn poll(&self, waker: &Waker) -> (ready: bool) {
        if self.shared.cancelled.load(std::sync::atomic::Ordering::Acquire) {
            return true;
        }
        self.shared.waker.store(Some(waker.clone()));
        self.settle(self.shared.cancelled.load(std::sync::atomic::Ordering::Acquire))
    }
}

impl ActivityToken {
    /// The cell that this token signals on.
    pub closed spec fn signal(&self) -> Shared {
        *self.shared
    }

    /// What a cancellation does with what it took out of the cell. A
    /// waker that was there belongs to a waiter that waits: it is woken.
    /// The result tells whether there was one, which is what
    /// `SignalState::cancel` tells of a signal that is waited on exactly
    /// where a waker is in the cell.
    pub fn wake_taken(taken: Option<Waker>) -> (woke: bool)
        ensures
            woke == taken is Some,
            woke == (SignalState { cancelled: true, waiting: taken is Some }).cancel_woke(),
    {
        match taken {
            Some(waker) => {
                waker.wake();
                true
            },
            None => false,
        }
    }

    /// Gives the signal. A waiter that waits is woken, and the result
    /// tells whether one was: a signal given before the first poll, after
    /// the waiter was done, or a second time wakes nobody. The result
    /// serves to report a timer that may linger, and nothing else.
    ///
    /// The cell is shared with the waiter and the other tokens, so the
    /// result depends on what their holders did, and nothing is promised
    /// of it here: the flag is set, whatever it was, and what becomes of
    /// the waker that is taken out of the cell is stated by `wake_taken`.
    /// On a cell that nobody else touches meanwhile the call does what
    /// `SignalState::cancel` does.
    pub fn cancel(&self) -> (woke: bool) {
        self.shared.cancelled.store(true, std::sync::atomic::Ordering::Release);
        Self::wake_taken(self.shared.waker.take())
    }
}

} // verus!
