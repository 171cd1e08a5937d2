//! The batching worker: one buffer of events and the rule that says when it
//! is flushed.
//!
//! A worker waits for one of three things: an event from the hand-off queue,
//! the flush tick, or cancellation. [`WorkerBatch::step`] takes what
//! happened and says what to do next; the caller does the waiting and the
//! flushing.

use crate::event::UsageEvent;
use crate::queue::{try_recv, Idle};
use tokio::sync::mpsc::Receiver;
use vstd::prelude::*;

verus! {

/// Number of buffered events at which a worker flushes without waiting for
/// the tick.
pub const BATCH_LIMIT: usize = 5000;

/// Milliseconds between two flush ticks.
pub const FLUSH_TICK_MILLIS: u64 = 500;

/// Seconds a shutdown waits for flushes in flight before it gives up on
/// them.
pub const SHUTDOWN_TIMEOUT_SECS: u64 = 30;

/// What a worker was woken by.
pub enum WorkerEvent {
    /// The queue handed over an event.
    Dequeued(UsageEvent),
    /// The queue is closed and empty.
    QueueClosed,
    /// The flush tick fired.
    Tick,
    /// The pipeline is shutting down.
    Cancelled,
}

/// What a worker does after an event.
#[derive(Clone, Copy, Debug, PartialEq, Eq, Structural)]
pub enum WorkerAction {
    /// Go back to waiting.
    Continue,
    /// Flush the batch, then go back to waiting.
    Flush,
    /// Drain the queue into the batch, flush once more and stop.
    DrainAndStop,
}

/// Why a drain ended.
#[derive(Clone, Copy, Debug, PartialEq, Eq, Structural)]
pub enum DrainEnd {
    /// The queue was found empty.
    Empty,
    /// The queue was found empty with every sender gone.
    Disconnected,
    /// The batch cannot hold another event.
    BatchFull,
}

/// The batch after an event: a dequeued event is appended, nothing else
/// changes the batch.
pub open spec fn batch_after(batch: Seq<UsageEvent>, event: WorkerEvent) -> Seq<UsageEvent> {
    match event {
        WorkerEvent::Dequeued(e) => batch.push(e),
        _ => batch,
    }
}

/// The action after an event, given the batch before it: flush when a
/// dequeued event fills the batch to [`BATCH_LIMIT`] or when the tick finds
/// the batch non-empty; drain and stop on cancellation.
pub open spec fn action_after(batch: Seq<UsageEvent>, event: WorkerEvent) -> WorkerAction {
    match event {
        WorkerEvent::Dequeued(_) => if batch.len() + 1 >= BATCH_LIMIT {
            WorkerAction::Flush
        } else {
            WorkerAction::Continue
        },
        WorkerEvent::QueueClosed => WorkerAction::Continue,
        WorkerEvent::Tick => if batch.len() > 0 {
            WorkerAction::Flush
        } else {
            WorkerAction::Continue
        },
        WorkerEvent::Cancelled => WorkerAction::DrainAndStop,
    }
}

/// The batch after one poll of the queue during a drain: an event that the
/// queue handed over is appended, and nothing else changes the batch.
pub open spec fn batch_after_poll(batch: Seq<UsageEvent>, polled: Result<UsageEvent, Idle>) -> Seq<
    UsageEvent,
> {
    match polled {
        Ok(event) => batch.push(event),
        Err(_) => batch,
    }
}

/// Whether one poll of the queue ends a drain, and why: an event that fills
/// the batch to the largest length a vector can have ends it, and so does
/// either report of an empty queue.
pub open spec fn drain_end_after_poll(
    batch: Seq<UsageEvent>,
    polled: Result<UsageEvent, Idle>,
) -> Option<DrainEnd> {
    match polled {
        Ok(_) => if batch.len() + 1 >= usize::MAX {
            Some(DrainEnd::BatchFull)
        } else {
            None
        },
        Err(Idle::Empty) => Some(DrainEnd::Empty),
        Err(Idle::Disconnected) => Some(DrainEnd::Disconnected),
    }
}

/// The events a worker has collected since its last flush, oldest first.
pub struct WorkerBatch {
    events: Vec<UsageEvent>,
}

impl View for WorkerBatch {
    type V = Seq<UsageEvent>;

    closed spec fn view(&self) -> Seq<UsageEvent> {
        self.events@
    }
}

impl WorkerBatch {
    /// An empty batch.
    pub fn new() -> (batch: WorkerBatch)
        ensures
            batch@ == Seq::<UsageEvent>::empty(),
    {
        WorkerBatch { events: Vec::with_capacity(BATCH_LIMIT) }
    }

    /// The number of buffered events.
    pub fn len(&self) -> (n: usize)
        ensures
            n == self@.len(),
    {
        self.events.len()
    }

    /// Whether no event is buffered.
    pub fn is_empty(&self) -> (empty: bool)
        ensures
            empty == (self@.len() == 0),
    {
        self.events.len() == 0
    }

    /// Takes in what the worker was woken by and says what to do next.
    pub fn step(&mut self, event: WorkerEvent) -> (action: WorkerAction)
        ensures
            final(self)@ == batch_after(old(self)@, event),
            action == action_after(old(self)@, event),
    {
        match event {
            WorkerEvent::Dequeued(e) => {
                self.events.push(e);
                if self.events.len() >= BATCH_LIMIT {
                    WorkerAction::Flush
                } else {
                    WorkerAction::Continue
                }
            },
            WorkerEvent::QueueClosed => WorkerAction::Continue,
            WorkerEvent::Tick => {
                if self.events.len() > 0 {
                    WorkerAction::Flush
                } else {
                    WorkerAction::Continue
                }
            },
            WorkerEvent::Cancelled => WorkerAction::DrainAndStop,
        }
    }

    /// Takes in what one poll of the queue gave during a drain, and says
    /// whether the drain ends with it.
    pub fn absorb(&mut self, polled: Result<UsageEvent, Idle>) -> (end: Option<DrainEnd>)
        ensures
            final(self)@ == batch_after_poll(old(self)@, polled),
            end == drain_end_after_poll(old(self)@, polled),
    {
        match polled {
            Ok(event) => {
                self.events.push(event);
                if self.events.len() >= usize::MAX {
                    Some(DrainEnd::BatchFull)
                } else {
                    None
                }
            },
            Err(Idle::Empty) => Some(DrainEnd::Empty),
            Err(Idle::Disconnected) => Some(DrainEnd::Disconnected),
        }
    }

    /// Moves every event that waits in the queue into the batch, without
    /// waiting for more.
    ///
    /// The events already buffered stay in front. A batch that already has
    /// the largest length a vector can have is left as it is and the queue
    /// is not polled. Otherwise the queue is polled, each poll taken in by
    /// [`WorkerBatch::absorb`], until a poll ends the drain: the queue
    /// reported that it is empty, or the batch has reached that largest
    /// length. Which events the queue hands over is the queue's business.
    pub fn drain(&mut self, rx: &mut Receiver<UsageEvent>) -> (end: DrainEnd)
        ensures
            old(self)@.is_prefix_of(final(self)@),
            end == DrainEnd::BatchFull <==> final(self)@.len() == usize::MAX,
            old(self)@.len() >= usize::MAX ==> final(self)@ == old(self)@,
    {
        if self.events.len() >= usize::MAX {
            return DrainEnd::BatchFull;
        }
        loop
            invariant
                old(self)@.is_prefix_of(self@),
                self@.len() < usize::MAX,
            decreases usize::MAX - self@.len(),
        {
            let polled = try_recv(rx);
            if let Some(end) = self.absorb(polled) {
                return end;
            }
        }
    }

    /// Hands out the buffered events and leaves the batch empty.
    pub fn take(&mut self) -> (events: Vec<UsageEvent>)
        ensures
            events@ == old(self)@,
            final(self)@ == Seq::<UsageEvent>::empty(),
    {
        let mut events: Vec<UsageEvent> = Vec::with_capacity(BATCH_LIMIT);
        std::mem::swap(&mut self.events, &mut events);
        events
    }
}

/// A worker that flushes when told to never buffers more than
/// [`BATCH_LIMIT`] events: from a batch below the limit, a step either stays
/// below the limit or reaches it exactly and asks for a flush.
pub proof fn lemma_batch_bounded(batch: Seq<UsageEvent>, event: WorkerEvent)
    requires
        batch.len() < BATCH_LIMIT,
    ensures
        batch_after(batch, event).len() <= BATCH_LIMIT,
        batch_after(batch, event).len() == BATCH_LIMIT ==> action_after(batch, event)
            == WorkerAction::Flush,
{
}

/// A flush is asked for only when there is something to flush.
pub proof fn lemma_flush_is_never_empty(batch: Seq<UsageEvent>, event: WorkerEvent)
    requires
        action_after(batch, event) == WorkerAction::Flush,
    ensures
        batch_after(batch, event).len() > 0,
{
}

} // verus!
