//! The bounded hand-off queue between the ingress and the workers.
//!
//! The queue is a `tokio::sync::mpsc` channel. Its two halves are shared with
//! other tasks, so what a call finds in it is never known beforehand: the
//! functions here report what one call observed.

use crate::event::UsageEvent;
use tokio::sync::mpsc::error::{TryRecvError, TrySendError};
use tokio::sync::mpsc::{Receiver, Sender};
use vstd::prelude::*;

verus! {

/// Number of events the hand-off queue holds at most.
pub const QUEUE_CAPACITY: usize = 100_000;

/// `tokio::sync::mpsc::Sender`, carried as an opaque value.
#[verifier::external_type_specification]
#[verifier::external_body]
#[verifier::reject_recursive_types(T)]
pub struct ExSender<T>(Sender<T>);

/// `tokio::sync::mpsc::Receiver`, carried as an opaque value.
#[verifier::external_type_specification]
#[verifier::external_body]
#[verifier::reject_recursive_types(T)]
pub struct ExReceiver<T>(Receiver<T>);

/// What became of an event offered to the queue.
#[derive(Clone, Copy, Debug, PartialEq, Eq, Structural)]
pub enum Enqueue {
    /// The event is in the queue.
    Accepted,
    /// The queue held as many events as it can; the event is not in it.
    Full,
    /// The receiving half is gone; the event is not in the queue.
    Closed,
}

/// Why nothing was taken from the queue.
#[derive(Clone, Copy, Debug, PartialEq, Eq, Structural)]
pub enum Idle {
    /// The queue is empty for now.
    Empty,
    /// The queue is empty and every sender is gone.
    Disconnected,
}

/// The capacity that the channel of a sending half was created with.
pub uninterp spec fn sender_bound(tx: Sender<UsageEvent>) -> usize;

/// The capacity that the channel of a receiving half was created with.
pub uninterp spec fn receiver_bound(rx: Receiver<UsageEvent>) -> usize;

/// `tokio::sync::mpsc::channel`: the two halves of a new channel that
/// buffers up to `capacity` events. The call panics for a capacity of zero
/// or above `Semaphore::MAX_PERMITS`, which is `usize::MAX >> 3`.
#[verifier::external_body]
pub(crate) fn open_channel(capacity: usize) -> (halves: (Sender<UsageEvent>, Receiver<UsageEvent>))
    requires
        0 < capacity <= usize::MAX / 8,
    ensures
        sender_bound(halves.0) == capacity,
        receiver_bound(halves.1) == capacity,
{
    tokio::sync::mpsc::channel(capacity)
}

/// `Sender::try_send`: offers the event without waiting. Which of the three
/// outcomes comes back depends on what other tasks have sent and received,
/// so nothing is claimed of it.
#[verifier::external_body]
pub(crate) fn try_send(tx: &Sender<UsageEvent>, event: UsageEvent) -> Enqueue {
    match tx.try_send(event) {
        Ok(()) => Enqueue::Accepted,
        Err(TrySendError::Full(_)) => Enqueue::Full,
        Err(TrySendError::Closed(_)) => Enqueue::Closed,
    }
}

/// `Receiver::try_recv`: takes the oldest queued event without waiting, or
/// says why there is none. What is queued depends on other tasks, so
/// nothing is claimed of the result.
#[verifier::external_body]
pub(crate) fn try_recv(rx: &mut Receiver<UsageEvent>) -> Result<UsageEvent, Idle> {
    match rx.try_recv() {
        Ok(event) => Ok(event),
        Err(TryRecvError::Empty) => Err(Idle::Empty),
        Err(TryRecvError::Disconnected) => Err(Idle::Disconnected),
    }
}

/// `Sender::capacity`: the number of events the queue could take right now,
/// of which nothing is claimed.
#[verifier::external_body]
pub(crate) fn sender_free(tx: &Sender<UsageEvent>) -> usize {
    tx.capacity()
}

/// `Receiver::capacity`: the number of events the queue could take right
/// now, of which nothing is claimed.
#[verifier::external_body]
pub(crate) fn receiver_free(rx: &Receiver<UsageEvent>) -> usize {
    rx.capacity()
}

/// `Receiver::max_capacity`: the capacity the channel was created with.
#[verifier::external_body]
pub(crate) fn receiver_limit(rx: &Receiver<UsageEvent>) -> (limit: usize)
    ensures
        limit == receiver_bound(*rx),
{
    rx.max_capacity()
}

/// The number of occupied slots of a queue of `limit` slots of which `free`
/// are free; zero should `free` exceed `limit`.
pub open spec fn occupied(limit: usize, free: usize) -> usize {
    if free <= limit {
        (limit - free) as usize
    } else {
        0
    }
}

/// The number of occupied slots of a queue with the given limit and free
/// slots.
pub fn occupancy(limit: usize, free: usize) -> (used: usize)
    ensures
        used == occupied(limit, free),
{
    if free <= limit {
        limit - free
    } else {
        0
    }
}

/// The number of events waiting in the queue, as seen from the receiving
/// half: never more than the capacity the queue was created with.
pub fn queue_usage(rx: &Receiver<UsageEvent>) -> (used: usize)
    ensures
        used <= receiver_bound(*rx),
{
    let limit: usize = receiver_limit(rx);
    let free: usize = receiver_free(rx);
    occupancy(limit, free)
}

} // verus!
