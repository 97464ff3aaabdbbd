//! Per-worker application state: the request counter plus the values
//! sampled once at startup (application name, CPU counts).
//!
//! The counter is the one mutable shared resource of the service. At
//! runtime it sits behind a mutual-exclusion lock, so every increment
//! has exclusive access to the state; here that exclusivity is the
//! `&mut self` of [`AppState::increment_counter`], whose contract pins
//! the new value and the returned value exactly.

use vstd::prelude::*;

verus! {

/// What one increment does to a counter value.
pub open spec fn spec_increment(c: int) -> int {
    c + 1
}

/// The counter value after `n` increments starting from `c0`.
pub open spec fn counter_after(c0: int, n: nat) -> int
    decreases n,
{
    if n == 0 {
        c0
    } else {
        spec_increment(counter_after(c0, (n - 1) as nat))
    }
}

/// The sequence of values returned by `n` increments starting from `c0`:
/// element `i` is what the `i + 1`-th increment hands back.
pub open spec fn counter_returns(c0: int, n: nat) -> Seq<int> {
    Seq::new(n, |i: int| counter_after(c0, (i + 1) as nat))
}

/// Shared application state, constructed once per worker.
pub struct AppState {
    /// The request counter; starts at 0 and only ever grows by 1.
    pub counter: u64,
    /// Application name, fixed at startup.
    pub app_name: String,
    /// Logical CPU count sampled once at startup.
    pub logical_cpus: usize,
    /// Physical CPU count sampled once at startup.
    pub physical_cpus: usize,
}

impl AppState {
    /// A fresh state: counter at 0, the given name and CPU counts.
    pub fn new(app_name: String, logical_cpus: usize, physical_cpus: usize) -> (s: AppState)
        ensures
            s.counter == 0,
            s.app_name == app_name,
            s.logical_cpus == logical_cpus,
            s.physical_cpus == physical_cpus,
    {
        AppState { counter: 0, app_name, logical_cpus, physical_cpus }
    }

    /// Increment the counter and return the new value. The caller holds
    /// exclusive access (`&mut self`), so no two increments interleave.
    pub fn increment_counter(&mut self) -> (v: u64)
        requires
            old(self).counter < u64::MAX,
        ensures
            final(self).counter == spec_increment(old(self).counter as int),
            v == final(self).counter,
            final(self).app_name == old(self).app_name,
            final(self).logical_cpus == old(self).logical_cpus,
            final(self).physical_cpus == old(self).physical_cpus,
    {
        self.counter = self.counter + 1;
        self.counter
    }
}

/// The counter after `n` increments from `c0` is exactly `c0 + n`.
pub proof fn lemma_counter_after(c0: int, n: nat)
    ensures
        counter_after(c0, n) == c0 + n,
    decreases n,
{
    if n > 0 {
        lemma_counter_after(c0, (n - 1) as nat);
    }
}

/// Sequential requests see the values `c0 + 1, c0 + 2, ..., c0 + n` in
/// order: from a fresh state (`c0 == 0`) the `i + 1`-th request is
/// answered with exactly `i + 1`.
pub proof fn lemma_sequential_counter_values(c0: int, n: nat)
    ensures
        counter_returns(c0, n).len() == n,
        forall|i: int| 0 <= i < n ==> counter_returns(c0, n)[i] == c0 + i + 1,
{
    assert forall|i: int| 0 <= i < n implies counter_returns(c0, n)[i] == c0 + i + 1 by {
        lemma_counter_after(c0, (i + 1) as nat);
    }
}

/// No lost updates: among `n` increments serialized by the lock, no two
/// return the same value and no value in `c0 + 1 ..= c0 + n` is skipped.
pub proof fn lemma_counter_values_distinct_and_gapless(c0: int, n: nat)
    ensures
        forall|i: int, j: int|
            0 <= i < n && 0 <= j < n && i != j ==> counter_returns(c0, n)[i] != counter_returns(
                c0,
                n,
            )[j],
        forall|v: int| c0 < v <= c0 + n ==> #[trigger] counter_returns(c0, n).contains(v),
{
    lemma_sequential_counter_values(c0, n);
    assert forall|v: int| c0 < v <= c0 + n implies #[trigger] counter_returns(c0, n).contains(
        v,
    ) by {
        let i = v - c0 - 1;
        assert(counter_returns(c0, n)[i] == v);
    }
}

} // verus!
