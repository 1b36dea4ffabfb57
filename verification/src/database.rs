//! The write-behind cache of user records: its configuration, and the state
//! of one cached entry with the decision of when to persist it.

use std::sync::Arc;
use std::time::Instant;
use vstd::prelude::*;

verus! {

/// The id of a user whose records the cache holds.
#[derive(Clone, Copy, Debug, PartialEq, Eq, Structural, Hash, PartialOrd, Ord)]
pub struct UserId(pub u64);

/// Declares `std::time::Instant`, a point in time of the monotonic clock.
#[verifier::external_type_specification]
#[verifier::external_body]
pub struct ExInstant(Instant);

/// The current time of the monotonic clock (`std::time::Instant::now`).
///
/// Nothing is claimed of the value: it is the time at the call.
#[verifier::external_body]
pub(crate) fn instant_now() -> (t: Instant) {
    Instant::now()
}

/// How the cache behaves: how long, in seconds, a write waits before it is
/// persisted.
#[derive(Debug)]
pub struct LazyWriterAndCacheConfig {
    pub write_delay: u32,
}

impl LazyWriterAndCacheConfig {
    /// The default configuration: writes wait 30 seconds.
    pub fn new() -> (r: Self)
        ensures
            r.write_delay == 30,
    {
        Self { write_delay: 30 }
    }

    /// Sets the write delay, and hands the configuration back for more
    /// settings.
    pub fn with_write_delay(&mut self, write_delay: u32) -> (r: &mut Self)
        ensures
            r.write_delay == write_delay,
            *final(self) == *final(r),
    {
        self.write_delay = write_delay;
        self
    }
}

/// What a write to a cached entry leads to: the new time of the oldest
/// write not yet persisted, and the delay after which to persist, when a
/// persistence has to be planned. A persistence is planned for the first
/// write after the entry was last persisted, and only for that one.
pub open spec fn spec_plan_persistance(
    first_non_persisted_write_at: Option<Instant>,
    now: Instant,
    write_delay: u32,
) -> (Option<Instant>, Option<u32>) {
    match first_non_persisted_write_at {
        Some(t) => (Some(t), None),
        None => (Some(now), Some(write_delay)),
    }
}

/// One entry of the cache: the value once it is loaded, when the entry was
/// made, and the time of the oldest write not yet persisted.
#[derive(Debug)]
pub struct LazyEntry<T: Send + 'static> {
    pub value: Option<T>,
    pub acquired_at: Instant,
    pub first_non_persisted_write_at: Option<Instant>,
    pub config: Arc<LazyWriterAndCacheConfig>,
}

impl<T: Send + 'static> LazyEntry<T> {
    /// An entry with no value yet and nothing to persist.
    pub fn empty(config: Arc<LazyWriterAndCacheConfig>) -> (r: Self)
        ensures
            r.value is None,
            r.first_non_persisted_write_at is None,
            r.config == config,
    {
        Self { value: None, acquired_at: instant_now(), first_non_persisted_write_at: None, config }
    }

    /// Records a write made at `now`. Gives the delay in seconds after
    /// which the entry is to be persisted when this is the first write
    /// since it was last persisted, and nothing otherwise.
    pub fn plan_persistance(&mut self, now: Instant) -> (delay: Option<u32>)
        ensures
            (final(self).first_non_persisted_write_at, delay) == spec_plan_persistance(
                old(self).first_non_persisted_write_at,
                now,
                old(self).config.write_delay,
            ),
            final(self).value == old(self).value,
            final(self).acquired_at == old(self).acquired_at,
            final(self).config == old(self).config,
    {
        if self.first_non_persisted_write_at.is_none() {
            self.first_non_persisted_write_at = Some(now);
            Some(self.config.write_delay)
        } else {
            None
        }
    }

    /// Records that the entry was persisted: the next write plans a new
    /// persistence.
    pub fn mark_persisted(&mut self)
        ensures
            final(self).first_non_persisted_write_at is None,
            final(self).value == old(self).value,
            final(self).acquired_at == old(self).acquired_at,
            final(self).config == old(self).config,
    {
        self.first_non_persisted_write_at = None;
    }
}

/// One persistence per batch of writes: of two writes with no persistence
/// between them, at most the first plans a persistence, and after the first
/// write a persistence is always pending; after a persistence, the next write
/// plans one again.
pub proof fn lemma_one_persistence_per_batch(
    pending: Option<Instant>,
    t1: Instant,
    t2: Instant,
    delay: u32,
)
    ensures
        ({
            let (after1, planned1) = spec_plan_persistance(pending, t1, delay);
            let (after2, planned2) = spec_plan_persistance(after1, t2, delay);
            &&& after1 is Some
            &&& planned2 is None
            &&& after2 == after1
            &&& (pending is None <==> planned1 == Some(delay))
        }),
        spec_plan_persistance(None, t2, delay).1 == Some(delay),
{
}

} // verus!
