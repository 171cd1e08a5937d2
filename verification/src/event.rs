//! The usage event: the unit of work that flows through the pipeline.

use vstd::prelude::*;

verus! {

/// One metered usage event.
///
/// `idempotency_key` is the only identity the pipeline deduplicates by: two
/// events with equal keys are treated as the same event, whatever their
/// `event_id`.
#[derive(Debug)]
pub struct UsageEvent {
    /// Opaque 128-bit identifier, fixed at construction.
    pub event_id: u128,
    /// Tenant the event is billed to.
    pub customer_id: String,
    /// Category of the event.
    pub event_type: String,
    /// Magnitude of the usage.
    pub amount: u64,
    /// Caller-chosen key used for deduplication.
    pub idempotency_key: String,
    /// Seconds since the Unix epoch.
    pub timestamp: i64,
}

/// The identifier has the fixed bits of a random (version 4) UUID of the
/// RFC variant: the version field holds 4 and the variant field starts
/// with the bits 1 and 0. Bit 0 is the lowest bit of the last byte.
pub open spec fn is_version_four(id: u128) -> bool {
    &&& (id >> 76) & 0xf == 4
    &&& (id >> 62) & 0x3 == 2
}

/// `uuid::Uuid::new_v4` and `Uuid::as_u128`: a random version-4 UUID packed
/// into a 128-bit integer, first byte highest.
///
/// The other 122 bits come from the operating system's random source, so
/// nothing is claimed of them.
#[verifier::external_body]
fn fresh_event_id() -> (id: u128)
    ensures
        is_version_four(id),
{
    uuid::Uuid::new_v4().as_u128()
}

/// The wall clock from `chrono::Utc::now`, in whole seconds since the Unix
/// epoch (`DateTime::timestamp`).
///
/// The value depends on the machine's clock, so nothing is claimed of it.
#[verifier::external_body]
pub(crate) fn unix_seconds_now() -> i64 {
    chrono::Utc::now().timestamp()
}

impl UsageEvent {
    /// The event's deduplication identity.
    pub open spec fn key(&self) -> Seq<char> {
        self.idempotency_key@
    }

    /// All string fields are non-empty.
    pub open spec fn is_valid(&self) -> bool {
        &&& self.customer_id@.len() > 0
        &&& self.event_type@.len() > 0
        &&& self.idempotency_key@.len() > 0
    }

    /// An event made of exactly the given parts.
    pub fn with_identity(
        event_id: u128,
        timestamp: i64,
        customer_id: String,
        event_type: String,
        amount: u64,
        idempotency_key: String,
    ) -> (event: UsageEvent)
        ensures
            event == (UsageEvent {
                event_id,
                customer_id,
                event_type,
                amount,
                idempotency_key,
                timestamp,
            }),
    {
        UsageEvent { event_id, customer_id, event_type, amount, idempotency_key, timestamp }
    }

    /// A new event with a fresh random identifier and the current time.
    ///
    /// The caller's four fields are stored as given. The identifier is a
    /// version-4 UUID whose random bits are whatever the random source
    /// returned, and the timestamp is whatever the clock returned.
    pub fn new(
        customer_id: String,
        event_type: String,
        amount: u64,
        idempotency_key: String,
    ) -> (event: UsageEvent)
        ensures
            is_version_four(event.event_id),
            event.customer_id == customer_id,
            event.event_type == event_type,
            event.amount == amount,
            event.idempotency_key == idempotency_key,
    {
        let event_id: u128 = fresh_event_id();
        let timestamp: i64 = unix_seconds_now();
        UsageEvent::with_identity(
            event_id,
            timestamp,
            customer_id,
            event_type,
            amount,
            idempotency_key,
        )
    }

    /// The event for a submission: with the identifier the client sent, or
    /// with a fresh random one if the client sent none, and with the current
    /// time.
    pub fn from_submission(
        event_id: Option<u128>,
        customer_id: String,
        event_type: String,
        amount: u64,
        idempotency_key: String,
    ) -> (event: UsageEvent)
        ensures
            event_id matches Some(id) ==> event.event_id == id,
            event_id is None ==> is_version_four(event.event_id),
            event.customer_id == customer_id,
            event.event_type == event_type,
            event.amount == amount,
            event.idempotency_key == idempotency_key,
    {
        match event_id {
            Some(id) => {
                let timestamp: i64 = unix_seconds_now();
                UsageEvent::with_identity(
                    id,
                    timestamp,
                    customer_id,
                    event_type,
                    amount,
                    idempotency_key,
                )
            },
            None => UsageEvent::new(customer_id, event_type, amount, idempotency_key),
        }
    }

    /// Whether every string field is non-empty.
    pub fn validate(&self) -> (ok: bool)
        ensures
            ok == self.is_valid(),
    {
        !self.customer_id.as_str().is_empty() && !self.event_type.as_str().is_empty()
            && !self.idempotency_key.as_str().is_empty()
    }

    /// The same event with its timestamp replaced by `now`.
    pub fn stamped(self, now: i64) -> (event: UsageEvent)
        ensures
            event == (UsageEvent { timestamp: now, ..self }),
    {
        UsageEvent { timestamp: now, ..self }
    }
}

impl Clone for UsageEvent {
    /// A copy of the event, equal to it in every field.
    fn clone(&self) -> (copy: UsageEvent)
        ensures
            copy == *self,
    {
        UsageEvent {
            event_id: self.event_id,
            customer_id: self.customer_id.clone(),
            event_type: self.event_type.clone(),
            amount: self.amount,
            idempotency_key: self.idempotency_key.clone(),
            timestamp: self.timestamp,
        }
    }
}

} // verus!
