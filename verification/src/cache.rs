//! The runtime semantics of the generated method bodies.
//!
//! The method pass emits two synthesized bodies, `MethodBody::Prefetch` and
//! `MethodBody::CachedRead`, both reading the one storage slot that the
//! struct pass laid out for the property. This module models a receiver with
//! one such property as executable code and proves the caching laws: what
//! each variant returns, when the underlying computation runs, and that a
//! value, once cached, is served unchanged ever after.

use vstd::prelude::*;

verus! {

/// A receiver with one cached property.
///
/// `underlying` is the value the renamed original computes from the
/// receiver, and `slot` is the property's storage slot, absent until a
/// prefetch stores into it. Property values must support duplication without
/// consuming the stored copy; that contract is modelled here by `Copy`.
pub struct CachedRecord<V> {
    /// What the underlying computation returns for this receiver.
    pub underlying: V,
    /// The storage slot for the property: absent until populated.
    pub slot: Option<V>,
}

impl<V: Copy> CachedRecord<V> {
    /// What either generated variant returns in this state: the cached value
    /// if one is present, the underlying computation's value otherwise.
    pub open spec fn spec_returned(self) -> V {
        match self.slot {
            Option::Some(x) => x,
            Option::None => self.underlying,
        }
    }

    /// Whether a call of either generated variant in this state runs the
    /// underlying computation: exactly when the slot is absent.
    pub open spec fn spec_runs_computation(self) -> bool {
        self.slot is None
    }

    /// The receiver after a prefetch call: the slot holds what the call
    /// returned, and nothing else changes.
    pub open spec fn spec_after_prefetch(self) -> CachedRecord<V> {
        CachedRecord { underlying: self.underlying, slot: Option::Some(self.spec_returned()) }
    }

    /// A fresh receiver: the default storage state, every slot absent.
    pub fn new(underlying: V) -> (r: CachedRecord<V>)
        ensures
            r.underlying == underlying,
            r.slot is None,
    {
        CachedRecord { underlying, slot: Option::None }
    }

    /// The renamed original: the unmemoized computation itself. It never
    /// reads or writes the slot.
    pub fn compute(&self) -> (r: V)
        ensures
            r == self.underlying,
    {
        self.underlying
    }

    /// The prefetch variant's body: return the cached value if present;
    /// otherwise run the underlying computation, store a copy, and return
    /// it. The second component reports whether the computation ran.
    pub fn prefetch(&mut self) -> (r: (V, bool))
        ensures
            r.0 == old(self).spec_returned(),
            r.1 == old(self).spec_runs_computation(),
            *final(self) == old(self).spec_after_prefetch(),
    {
        match self.slot {
            Option::Some(x) => (x, false),
            Option::None => {
                let x = self.compute();
                self.slot = Option::Some(x);
                (x, true)
            },
        }
    }

    /// The cached-read variant's body: return the cached value if present;
    /// otherwise run the underlying computation and return its result
    /// without storing. The second component reports whether the computation
    /// ran. The shared receiver makes any mutation impossible.
    pub fn cached_read(&self) -> (r: (V, bool))
        ensures
            r.0 == self.spec_returned(),
            r.1 == self.spec_runs_computation(),
    {
        match self.slot {
            Option::Some(x) => (x, false),
            Option::None => (self.compute(), true),
        }
    }
}

/// Prefetching is idempotent: two prefetch calls in sequence, with no other
/// mutation between them, return the identical value, the second call is a
/// plain cache hit that runs no computation, and the receiver no longer
/// changes.
pub proof fn lemma_prefetch_idempotent<V: Copy>(s: CachedRecord<V>)
    ensures
        s.spec_after_prefetch().spec_returned() == s.spec_returned(),
        !s.spec_after_prefetch().spec_runs_computation(),
        s.spec_after_prefetch().spec_after_prefetch() == s.spec_after_prefetch(),
{
}

/// Once a prefetch call has populated the slot, a cached-read call returns
/// the same value the prefetch returned, without running the underlying
/// computation again.
pub proof fn lemma_read_after_prefetch_consistent<V: Copy>(s: CachedRecord<V>)
    ensures
        s.spec_after_prefetch().spec_returned() == s.spec_returned(),
        !s.spec_after_prefetch().spec_runs_computation(),
{
}

/// Before any prefetch, a cached-read call returns exactly what the
/// underlying computation returns. Its shared receiver leaves the slot in
/// its absent state.
pub proof fn lemma_read_before_prefetch<V: Copy>(s: CachedRecord<V>)
    requires
        s.slot is None,
    ensures
        s.spec_returned() == s.underlying,
{
}

} // verus!
