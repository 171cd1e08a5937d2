//! Writes to the shared key-value store that claim idempotency keys.
//!
//! The pipeline of writes is assembled here; sending it is the caller's
//! business.

use crate::event::UsageEvent;
use vstd::prelude::*;

verus! {

/// Lifetime of a claimed key in the shared store, in seconds.
pub const CLAIM_TTL_SECS: u64 = 86400;

/// The value stored under a claimed key.
pub const CLAIM_VALUE: u64 = 1;

/// `redis::Pipeline`, carried as an opaque value.
#[verifier::external_type_specification]
#[verifier::external_body]
pub struct ExPipeline(redis::Pipeline);

/// The `SETEX` commands queued in a pipeline, oldest first, each as its key,
/// its value and its expiry in seconds.
pub uninterp spec fn queued_writes(pipe: redis::Pipeline) -> Seq<(Seq<char>, u64, u64)>;

/// `redis::pipe`: a pipeline with no command queued.
#[verifier::external_body]
fn empty_pipeline() -> (pipe: redis::Pipeline)
    ensures
        queued_writes(pipe) == Seq::<(Seq<char>, u64, u64)>::empty(),
{
    redis::pipe()
}

/// `Pipeline::set_ex`: appends one `SETEX key seconds value` command behind
/// those already queued and leaves them as they were.
#[verifier::external_body]
fn queue_set_ex(pipe: &mut redis::Pipeline, key: &str, value: u64, seconds: u64)
    ensures
        queued_writes(*final(pipe)) == queued_writes(*old(pipe)).push((key@, value, seconds)),
{
    pipe.set_ex(key, value, seconds);
}

/// One claim per event: its key, set to [`CLAIM_VALUE`] for
/// [`CLAIM_TTL_SECS`] seconds.
pub open spec fn claims_for(events: Seq<UsageEvent>) -> Seq<(Seq<char>, u64, u64)> {
    events.map_values(|e: UsageEvent| (e.key(), CLAIM_VALUE, CLAIM_TTL_SECS))
}

/// The pipelined writes that claim the key of every given event, in order.
pub fn claim_writes(events: &Vec<UsageEvent>) -> (pipe: redis::Pipeline)
    ensures
        queued_writes(pipe) == claims_for(events@),
{
    let mut pipe = empty_pipeline();
    let mut i: usize = 0;
    while i < events.len()
        invariant
            i <= events.len(),
            queued_writes(pipe) == claims_for(events@.take(i as int)),
        decreases events.len() - i,
    {
        queue_set_ex(&mut pipe, events[i].idempotency_key.as_str(), CLAIM_VALUE, CLAIM_TTL_SECS);
        assert(claims_for(events@.take(i + 1)) =~= claims_for(events@.take(i as int)).push(
            (events@[i as int].key(), CLAIM_VALUE, CLAIM_TTL_SECS),
        ));
        i += 1;
    }
    assert(events@.take(events.len() as int) =~= events@);
    pipe
}

} // verus!
