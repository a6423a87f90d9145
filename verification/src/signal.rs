//! One-shot completion signal: a linked pair of an [`Emitter`] and a
//! [`Waiter`]. The emitter can fire at most once, because firing consumes
//! it; the waiter resolves at most once, to [`Resolution::Completed`] when
//! the emitter fired and to [`Resolution::Cancelled`] when the emitter was
//! dropped unfired. Delivery between the two halves rides on a
//! `futures` oneshot channel.

use vstd::prelude::*;

verus! {

/// Declaration of the sending half of the `futures` oneshot channel, so
/// that it can stand in fields and signatures; its values are opaque here.
#[verifier::external_type_specification]
#[verifier::external_body]
#[verifier::reject_recursive_types(T)]
pub struct ExSender<T>(futures::channel::oneshot::Sender<T>);

/// Declaration of the receiving half of the `futures` oneshot channel.
#[verifier::external_type_specification]
#[verifier::external_body]
#[verifier::reject_recursive_types(T)]
pub struct ExReceiver<T>(futures::channel::oneshot::Receiver<T>);

/// Declaration of the error a `futures` oneshot receiver reports when its
/// sender went away without sending.
#[verifier::external_type_specification]
#[verifier::external_body]
pub struct ExCanceled(futures::channel::oneshot::Canceled);

/// Relies on futures::channel::oneshot::channel: makes a fresh linked
/// sender/receiver pair. Which receiver a sender is linked to is not
/// visible here; the signal state machine below does not depend on it.
pub assume_specification<T>[ futures::channel::oneshot::channel::<T> ]() -> (
    futures::channel::oneshot::Sender<T>,
    futures::channel::oneshot::Receiver<T>,
);

/// Relies on futures::channel::oneshot::Sender::send: hands one value to
/// the linked receiver, or gives it back as `Err` when the receiver is
/// already gone. It never blocks and never panics.
pub assume_specification<T>[ futures::channel::oneshot::Sender::<T>::send ](
    s: futures::channel::oneshot::Sender<T>,
    t: T,
) -> (r: Result<(), T>)
    ensures
        r matches Err(v) ==> v == t,
;

/// Relies on futures::channel::oneshot::Receiver::try_recv: asks, without
/// blocking and without panicking, whether a value was sent (`Ok(Some)`),
/// nothing has happened yet (`Ok(None)`), or the sender went away unfired
/// (`Err`). The answer depends on what the other task did, so nothing more
/// is promised of it.
pub assume_specification<T>[ futures::channel::oneshot::Receiver::<T>::try_recv ](
    r: &mut futures::channel::oneshot::Receiver<T>,
) -> Result<Option<T>, futures::channel::oneshot::Canceled>;

/// How a waiter stands: still waiting, told that the emitter fired, or
/// told that the emitter was dropped unfired.
#[derive(Clone, Copy, Debug, PartialEq, Eq, Structural)]
pub enum Resolution {
    Pending,
    Completed,
    Cancelled,
}

/// The firing half of a completion signal. Firing consumes the value, so a
/// second fire of the same emitter is not expressible; dropping it unfired
/// cancels the linked waiter instead.
pub struct Emitter {
    sender: futures::channel::oneshot::Sender<()>,
}

/// The waiting half of a completion signal. It remembers the first
/// non-pending answer it saw, so asking again returns the same resolution.
pub struct Waiter {
    receiver: futures::channel::oneshot::Receiver<()>,
    outcome: Resolution,
}

/// Make a linked emitter/waiter pair. Always succeeds; the waiter starts
/// unresolved.
pub fn create() -> (pair: (Emitter, Waiter))
    ensures
        pair.1.resolution() is Pending,
{
    let (sender, receiver) = futures::channel::oneshot::channel::<()>();
    (Emitter { sender }, Waiter { receiver, outcome: Resolution::Pending })
}

impl Emitter {
    /// Deliver the one completion event to the linked waiter. When nobody
    /// holds the waiter any more the event is dropped quietly; firing
    /// never blocks and never fails loudly.
    pub fn fire(self) {
        let _ = self.sender.send(());
    }
}

impl Waiter {
    /// What this waiter has been told so far.
    pub closed spec fn resolution(&self) -> Resolution {
        self.outcome
    }

    /// Ask, without blocking, how the signal stands. A waiter that has
    /// once resolved keeps its resolution: the answer can move away from
    /// `Pending` but never between `Completed` and `Cancelled`.
    pub fn poll_resolution(&mut self) -> (r: Resolution)
        ensures
            r == final(self).resolution(),
            old(self).resolution() !is Pending ==> r == old(self).resolution(),
            final(self).resolution() is Pending ==> old(self).resolution() is Pending,
    {
        if self.outcome == Resolution::Pending {
            match self.receiver.try_recv() {
                Ok(Some(_unit)) => {
                    self.outcome = Resolution::Completed;
                },
                Ok(None) => {},
                Err(_cancelled) => {
                    self.outcome = Resolution::Cancelled;
                },
            }
        }
        self.outcome
    }

    /// Give up the waiter and take the raw channel receiver, so that an
    /// asynchronous caller can await the signal instead of polling it.
    /// Only an unresolved waiter still speaks through its receiver.
    pub fn into_receiver(self) -> futures::channel::oneshot::Receiver<()>
        requires
            self.resolution() is Pending,
    {
        self.receiver
    }
}

} // verus!
