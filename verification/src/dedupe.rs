//! Deduplication of a batch by idempotency key.
//!
//! A batch is thinned twice before it is flushed. First, of several events
//! that share a key only the earliest stays. Then the shared store is asked
//! about the keys that are left, and every event whose key the store already
//! holds is dropped. Both steps keep a set of positions of their input and
//! nothing else, so both are stated over one function, [`select`].

use crate::event::UsageEvent;
use crate::store::{claim_writes, claims_for, queued_writes};
use vstd::hash_set::StringHashSet;
use vstd::prelude::*;

verus! {

/// The positions below `n` that `mask` marks, in ascending order.
///
/// A position at or beyond the end of `mask` is not marked.
pub open spec fn marked(n: int, mask: Seq<bool>) -> Seq<int>
    decreases n,
{
    if n <= 0 {
        Seq::empty()
    } else if n - 1 < mask.len() && mask[n - 1] {
        marked(n - 1, mask).push(n - 1)
    } else {
        marked(n - 1, mask)
    }
}

/// The elements of `s` at the positions that `mask` marks, in their order in
/// `s`.
pub open spec fn select<A>(s: Seq<A>, mask: Seq<bool>) -> Seq<A> {
    marked(s.len() as int, mask).map_values(|i: int| s[i])
}

/// No two events of `events` share a key.
pub open spec fn distinct_keys(events: Seq<UsageEvent>) -> bool {
    forall|a: int, b: int|
        0 <= a < b < events.len() ==> (#[trigger] events[a]).key() != (#[trigger] events[b]).key()
}

/// No event before position `i` has the key of the event at `i`.
pub open spec fn is_first_occurrence(events: Seq<UsageEvent>, i: int) -> bool {
    forall|j: int| 0 <= j < i ==> (#[trigger] events[j]).key() != events[i].key()
}

/// Marks each position whose event is the first of the batch with its key.
pub open spec fn first_mask(events: Seq<UsageEvent>) -> Seq<bool> {
    Seq::new(events.len(), |i: int| is_first_occurrence(events, i))
}

/// The batch with later events of an already seen key removed.
pub open spec fn first_occurrences(events: Seq<UsageEvent>) -> Seq<UsageEvent> {
    select(events, first_mask(events))
}

/// Whether the store's reply reports the key at position `i` as present.
///
/// Without a reply nothing counts as present, and neither does a position
/// that the reply does not reach.
pub open spec fn reported_present(reply: Option<Vec<Option<String>>>, i: int) -> bool {
    match reply {
        Some(found) => 0 <= i < found@.len() && found@[i] is Some,
        None => false,
    }
}

/// Marks each of `n` positions whose key the reply does not report as
/// present.
pub open spec fn absent_mask(reply: Option<Vec<Option<String>>>, n: nat) -> Seq<bool> {
    Seq::new(n, |i: int| !reported_present(reply, i))
}

/// What `marked` holds: in-range, marked positions in strictly ascending
/// order, and every marked position below `n`.
pub proof fn lemma_marked(n: int, mask: Seq<bool>)
    ensures
        marked(n, mask).len() <= if n < 0 { 0 } else { n },
        forall|k: int|
            0 <= k < marked(n, mask).len() ==> {
                let i = #[trigger] marked(n, mask)[k];
                0 <= i < n && i < mask.len() && mask[i]
            },
        forall|a: int, b: int|
            0 <= a < b < marked(n, mask).len() ==> #[trigger] marked(n, mask)[a]
                < #[trigger] marked(n, mask)[b],
        forall|i: int|
            0 <= i < n && i < mask.len() && #[trigger] mask[i] ==> marked(n, mask).contains(i),
    decreases n,
{
    if n > 0 {
        lemma_marked(n - 1, mask);
        let front = marked(n - 1, mask);
        if n - 1 < mask.len() && mask[n - 1] {
            let all = front.push(n - 1);
            assert(all[front.len() as int] == n - 1);
            assert forall|i: int| 0 <= i < n && i < mask.len() && #[trigger] mask[i] implies all.contains(
                i,
            ) by {
                if i < n - 1 {
                    let k = choose|k: int| 0 <= k < front.len() && front[k] == i;
                    assert(all[k] == i);
                }
            }
        }
    }
}

/// The mask of each event's absence from the store's reply.
pub fn absence_mask(reply: &Option<Vec<Option<String>>>, n: usize) -> (mask: Vec<bool>)
    ensures
        mask@ == absent_mask(*reply, n as nat),
{
    let mut mask: Vec<bool> = Vec::new();
    let mut i: usize = 0;
    while i < n
        invariant
            i <= n,
            mask@.len() == i,
            forall|j: int| 0 <= j < i ==> mask@[j] == !reported_present(*reply, j),
        decreases n - i,
    {
        let present = match reply {
            Some(found) => i < found.len() && found[i].is_some(),
            None => false,
        };
        mask.push(!present);
        i += 1;
    }
    assert(mask@ =~= absent_mask(*reply, n as nat));
    mask
}

/// Marks, for each event of the batch, whether it is the first with its key.
pub fn first_occurrence_mask(batch: &Vec<UsageEvent>) -> (mask: Vec<bool>)
    ensures
        mask@ == first_mask(batch@),
{
    let mut seen = StringHashSet::new();
    let mut mask: Vec<bool> = Vec::new();
    let mut i: usize = 0;
    while i < batch.len()
        invariant
            i <= batch.len(),
            mask@.len() == i,
            forall|j: int| 0 <= j < i ==> mask@[j] == is_first_occurrence(batch@, j),
            forall|j: int| 0 <= j < i ==> seen@.contains((#[trigger] batch@[j]).key()),
            forall|k: Seq<char>|
                seen@.contains(k) ==> exists|j: int| 0 <= j < i && (#[trigger] batch@[j]).key() == k,
        decreases batch.len() - i,
    {
        let fresh = seen.insert(batch[i].idempotency_key.clone());
        proof {
            let key = batch@[i as int].key();
            if fresh {
                assert(is_first_occurrence(batch@, i as int));
            } else {
                let j = choose|j: int| 0 <= j < i && (#[trigger] batch@[j]).key() == key;
                assert(batch@[j].key() == batch@[i as int].key());
                assert(!is_first_occurrence(batch@, i as int));
            }
            assert forall|k: Seq<char>| seen@.contains(k) implies exists|j: int|
                0 <= j < i + 1 && (#[trigger] batch@[j]).key() == k by {
                if k == key {
                    assert(batch@[i as int].key() == k);
                } else {
                    let j = choose|j: int| 0 <= j < i && (#[trigger] batch@[j]).key() == k;
                    assert(batch@[j].key() == k);
                }
            }
        }
        mask.push(fresh);
        i += 1;
    }
    assert(mask@ =~= first_mask(batch@));
    mask
}

/// Copies of the events at the marked positions, in batch order.
pub fn select_events(events: &Vec<UsageEvent>, mask: &Vec<bool>) -> (kept: Vec<UsageEvent>)
    ensures
        kept@ == select(events@, mask@),
{
    let mut kept: Vec<UsageEvent> = Vec::new();
    let mut i: usize = 0;
    while i < events.len()
        invariant
            i <= events.len(),
            kept@ == marked(i as int, mask@).map_values(|j: int| events@[j]),
        decreases events.len() - i,
    {
        if i < mask.len() && mask[i] {
            kept.push(events[i].clone());
            assert(marked(i + 1, mask@).map_values(|j: int| events@[j]) =~= marked(
                i as int,
                mask@,
            ).map_values(|j: int| events@[j]).push(events@[i as int]));
        }
        i += 1;
    }
    kept
}

/// The batch without the later events of a repeated key: of the events that
/// share a key, the one that came first stays.
pub fn dedup_first_wins(batch: &Vec<UsageEvent>) -> (firsts: Vec<UsageEvent>)
    ensures
        firsts@ == first_occurrences(batch@),
{
    let mask = first_occurrence_mask(batch);
    select_events(batch, &mask)
}

/// Copies of the events' keys, in order.
pub fn collect_keys(events: &Vec<UsageEvent>) -> (keys: Vec<String>)
    ensures
        keys@ == events@.map_values(|e: UsageEvent| e.idempotency_key),
{
    let mut keys: Vec<String> = Vec::new();
    let mut i: usize = 0;
    while i < events.len()
        invariant
            i <= events.len(),
            keys@ == events@.take(i as int).map_values(|e: UsageEvent| e.idempotency_key),
        decreases events.len() - i,
    {
        keys.push(events[i].idempotency_key.clone());
        assert(events@.take(i + 1).map_values(|e: UsageEvent| e.idempotency_key) =~= events@.take(
            i as int,
        ).map_values(|e: UsageEvent| e.idempotency_key).push(events@[i as int].idempotency_key));
        i += 1;
    }
    assert(events@.take(events.len() as int) =~= events@);
    keys
}

/// The events that go on to the sink: the first occurrences of the batch
/// whose keys the store's reply does not report as present.
///
/// The reply is read position by position against the first occurrences,
/// which is the order in which their keys were asked for.
pub open spec fn forwarded(batch: Seq<UsageEvent>, reply: Option<Vec<Option<String>>>) -> Seq<
    UsageEvent,
> {
    let firsts = first_occurrences(batch);
    select(firsts, absent_mask(reply, firsts.len()))
}

/// What is asked of the shared store for one batch.
pub struct ProbePlan {
    /// The batch without repeated keys, first occurrence kept.
    pub events: Vec<UsageEvent>,
    /// The keys of `events`, in the same order: the argument of the probe.
    pub keys: Vec<String>,
}

/// What becomes of a batch once the shared store has answered.
pub struct PhaseOne {
    /// The events to append to the sink, in batch order.
    pub unique: Vec<UsageEvent>,
    /// How many events the store reported as already seen.
    pub duplicates: usize,
    /// The writes that claim the keys of `unique` in the store.
    pub claims: redis::Pipeline,
}

impl PhaseOne {
    /// Whether anything is left to claim and to append to the sink.
    pub fn has_new_keys(&self) -> (any: bool)
        ensures
            any == (self.unique@.len() > 0),
    {
        self.unique.len() > 0
    }
}

/// Prepares the probe of the shared store for a batch: no probe for an empty
/// batch, otherwise the first occurrences of the batch and their keys.
pub fn plan_probe(batch: &Vec<UsageEvent>) -> (plan: Option<ProbePlan>)
    ensures
        plan is None <==> batch@.len() == 0,
        plan matches Some(p) ==> {
            &&& p.events@ == first_occurrences(batch@)
            &&& p.keys@ == p.events@.map_values(|e: UsageEvent| e.idempotency_key)
            &&& distinct_keys(p.events@)
        },
{
    if batch.len() == 0 {
        return None;
    }
    let events = dedup_first_wins(batch);
    proof {
        lemma_first_occurrences_distinct(batch@);
    }
    let keys = collect_keys(&events);
    Some(ProbePlan { events, keys })
}

/// Splits probed events by the store's reply.
///
/// `reply` is `None` when the probe failed; every event then counts as
/// unseen. Otherwise position `i` of the reply answers for event `i`, a
/// value meaning that the key is already held; an event that the reply does
/// not reach counts as unseen. Unseen events are forwarded and their keys
/// claimed; the others are counted as duplicates. Events that came with
/// pairwise distinct keys are forwarded with pairwise distinct keys.
pub fn resolve_probe(events: &Vec<UsageEvent>, reply: &Option<Vec<Option<String>>>) -> (out:
    PhaseOne)
    ensures
        out.unique@ == select(events@, absent_mask(*reply, events@.len())),
        out.duplicates == events@.len() - out.unique@.len(),
        queued_writes(out.claims) == claims_for(out.unique@),
        distinct_keys(events@) ==> distinct_keys(out.unique@),
{
    let mask = absence_mask(reply, events.len());
    let unique = select_events(events, &mask);
    proof {
        lemma_marked(events@.len() as int, mask@);
        if distinct_keys(events@) {
            lemma_select_keeps_distinct(events@, mask@);
        }
    }
    let duplicates = events.len() - unique.len();
    let claims = claim_writes(&unique);
    PhaseOne { unique, duplicates, claims }
}

/// The first occurrences of a batch have pairwise distinct keys.
pub proof fn lemma_first_occurrences_distinct(batch: Seq<UsageEvent>)
    ensures
        distinct_keys(first_occurrences(batch)),
{
    let mask = first_mask(batch);
    let idx = marked(batch.len() as int, mask);
    lemma_marked(batch.len() as int, mask);
    let firsts = first_occurrences(batch);
    assert forall|a: int, b: int| 0 <= a < b < firsts.len() implies (#[trigger] firsts[a]).key() != (
    #[trigger] firsts[b]).key() by {
        assert(idx[a] < idx[b]);
        assert(mask[idx[b]]);
        assert(is_first_occurrence(batch, idx[b]));
        assert(batch[idx[a]].key() != batch[idx[b]].key());
    }
}

/// Every key of a batch is still there among its first occurrences.
pub proof fn lemma_first_occurrences_keep_every_key(batch: Seq<UsageEvent>, i: int)
    requires
        0 <= i < batch.len(),
    ensures
        exists|k: int|
            0 <= k < first_occurrences(batch).len() && (#[trigger] first_occurrences(batch)[k]).key()
                == batch[i].key(),
    decreases i,
{
    let mask = first_mask(batch);
    let idx = marked(batch.len() as int, mask);
    lemma_marked(batch.len() as int, mask);
    if is_first_occurrence(batch, i) {
        assert(mask[i]);
        assert(idx.contains(i));
        let k = choose|k: int| 0 <= k < idx.len() && idx[k] == i;
        assert(first_occurrences(batch)[k].key() == batch[i].key());
    } else {
        let j = choose|j: int| 0 <= j < i && (#[trigger] batch[j]).key() == batch[i].key();
        lemma_first_occurrences_keep_every_key(batch, j);
    }
}

/// Selecting from events with distinct keys leaves distinct keys.
pub proof fn lemma_select_keeps_distinct(events: Seq<UsageEvent>, mask: Seq<bool>)
    requires
        distinct_keys(events),
    ensures
        distinct_keys(select(events, mask)),
{
    let idx = marked(events.len() as int, mask);
    lemma_marked(events.len() as int, mask);
    let kept = select(events, mask);
    assert forall|a: int, b: int| 0 <= a < b < kept.len() implies (#[trigger] kept[a]).key() != (
    #[trigger] kept[b]).key() by {
        assert(idx[a] < idx[b]);
        assert(events[idx[a]].key() != events[idx[b]].key());
    }
}

/// Whatever the batch and whatever the store replied, no two forwarded
/// events share a key.
pub proof fn lemma_forwarded_keys_distinct(
    batch: Seq<UsageEvent>,
    reply: Option<Vec<Option<String>>>,
)
    ensures
        distinct_keys(forwarded(batch, reply)),
{
    let firsts = first_occurrences(batch);
    lemma_first_occurrences_distinct(batch);
    lemma_select_keeps_distinct(firsts, absent_mask(reply, firsts.len()));
}

/// The positions of the batch that the forwarded events were taken from, in
/// the order in which they are forwarded.
pub open spec fn forwarded_positions(
    batch: Seq<UsageEvent>,
    reply: Option<Vec<Option<String>>>,
) -> Seq<int> {
    let first_positions = marked(batch.len() as int, first_mask(batch));
    let firsts = first_occurrences(batch);
    marked(firsts.len() as int, absent_mask(reply, firsts.len())).map_values(
        |k: int| first_positions[k],
    )
}

/// Every forwarded event is an event of the batch, and no event of the batch
/// is forwarded twice: the forwarded events are the batch's events at
/// strictly ascending positions.
pub proof fn lemma_forwarded_from_batch(batch: Seq<UsageEvent>, reply: Option<Vec<Option<String>>>)
    ensures
        forwarded_positions(batch, reply).len() == forwarded(batch, reply).len(),
        forwarded(batch, reply).len() <= batch.len(),
        forall|k: int|
            0 <= k < forwarded(batch, reply).len() ==> {
                let i = forwarded_positions(batch, reply)[k];
                0 <= i < batch.len() && #[trigger] forwarded(batch, reply)[k] == batch[i]
            },
        forall|a: int, b: int|
            0 <= a < b < forwarded(batch, reply).len() ==> #[trigger] forwarded_positions(
                batch,
                reply,
            )[a] < #[trigger] forwarded_positions(batch, reply)[b],
{
    let first_positions = marked(batch.len() as int, first_mask(batch));
    let firsts = first_occurrences(batch);
    let kept = marked(firsts.len() as int, absent_mask(reply, firsts.len()));
    lemma_marked(batch.len() as int, first_mask(batch));
    lemma_marked(firsts.len() as int, absent_mask(reply, firsts.len()));
    let positions = forwarded_positions(batch, reply);
    assert forall|a: int, b: int| 0 <= a < b < positions.len() implies #[trigger] positions[a]
        < #[trigger] positions[b] by {
        assert(kept[a] < kept[b]);
        assert(first_positions[kept[a]] < first_positions[kept[b]]);
    }
    assert forall|k: int| 0 <= k < forwarded(batch, reply).len() implies {
        let i = forwarded_positions(batch, reply)[k];
        0 <= i < batch.len() && #[trigger] forwarded(batch, reply)[k] == batch[i]
    } by {
        assert(0 <= kept[k] < firsts.len());
        assert(forwarded(batch, reply)[k] == firsts[kept[k]]);
        assert(firsts[kept[k]] == batch[first_positions[kept[k]]]);
    }
}

/// Selection invents nothing and repeats nothing: the selected elements are
/// elements of the input, taken at strictly ascending positions.
pub proof fn lemma_select_is_subsequence<A>(s: Seq<A>, mask: Seq<bool>)
    ensures
        select(s, mask).len() == marked(s.len() as int, mask).len(),
        select(s, mask).len() <= s.len(),
        forall|k: int|
            0 <= k < select(s, mask).len() ==> {
                let i = marked(s.len() as int, mask)[k];
                0 <= i < s.len() && #[trigger] select(s, mask)[k] == s[i]
            },
        forall|a: int, b: int|
            0 <= a < b < select(s, mask).len() ==> #[trigger] marked(s.len() as int, mask)[a]
                < #[trigger] marked(s.len() as int, mask)[b],
{
    lemma_marked(s.len() as int, mask);
}

} // verus!
