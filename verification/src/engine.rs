//! One engine: the opaque resource unit behind a caller-visible token. It
//! bundles the blocking bridge, the instance pool and the shared request
//! counter, and is either fully usable or never exposed — a failed
//! construction never leaks a half-built engine.

use vstd::prelude::*;

use crate::bridge::AsyncBridge;
use crate::pool::InstancePool;

verus! {

/// The counter advances by an atomic fetch-and-increment in the foreign
/// boundary's memory model; its value wraps around at the top like the
/// machine word it is stored in.
pub open spec fn wrapping_next(c: u64) -> u64 {
    if c == u64::MAX {
        0
    } else {
        (c + 1) as u64
    }
}

/// The counter value after `k` further requests.
pub open spec fn counter_after(c: u64, k: nat) -> u64
    decreases k,
{
    if k == 0 {
        c
    } else {
        wrapping_next(counter_after(c, (k - 1) as nat))
    }
}

/// Below the wrap-around point the counter simply adds up: `k` requests
/// advance it from `c` to `c + k`.
pub proof fn lemma_counter_after_linear(c: u64, k: nat)
    requires
        c + k <= u64::MAX,
    ensures
        counter_after(c, k) == c + k,
    decreases k,
{
    if k > 0 {
        lemma_counter_after_linear(c, (k - 1) as nat);
    }
}

/// First-cycle order: on a fresh engine the counter starts at zero, so
/// request `k` (counting from zero) reads counter value `k`. For `k` below
/// the pool size it therefore selects instance `k` itself — the instances
/// are visited exactly in index order — and request number `size` wraps
/// back to instance `0`.
pub proof fn lemma_first_cycle(size: u64, k: u64)
    requires
        0 < size,
        k <= size,
    ensures
        counter_after(0, k as nat) == k,
        k < size ==> counter_after(0, k as nat) as int % size as int == k,
        k == size ==> counter_after(0, k as nat) as int % size as int == 0,
{
    lemma_counter_after_linear(0, k as nat);
    if k < size {
        crate::pool::lemma_round_robin_in_order(size, k);
    } else {
        assert(size as int % size as int == 0) by (nonlinear_arith)
            requires
                0 < size,
        ;
    }
}

/// A fully constructed engine: bridge, pool of `I` instances, and the
/// monotonically advancing request counter shared by all requests on this
/// engine.
pub struct EngineHandle<I> {
    bridge: AsyncBridge,
    pool: InstancePool<I>,
    counter: u64,
}

impl<I> EngineHandle<I> {
    /// The pooled instances, in pool order.
    pub closed spec fn pool_view(&self) -> Seq<I> {
        self.pool@
    }

    /// The current request-counter value.
    pub closed spec fn counter_spec(&self) -> u64 {
        self.counter
    }

    /// A usable engine drives at least one instance.
    pub open spec fn wf(&self) -> bool {
        self.pool_view().len() > 0
    }

    /// Bundle a bridge and a fully built pool into an engine. The counter
    /// starts at zero, so the first cycle of requests visits the instances
    /// in index order.
    pub fn new(bridge: AsyncBridge, pool: InstancePool<I>) -> (e: EngineHandle<I>)
        requires
            pool.wf(),
        ensures
            e.pool_view() == pool@,
            e.counter_spec() == 0,
            e.wf(),
    {
        EngineHandle { bridge, pool, counter: 0 }
    }

    /// How many instances this engine drives.
    pub fn size(&self) -> (n: usize)
        ensures
            n == self.pool_view().len(),
    {
        self.pool.size()
    }

    /// Take the next request's instance index: read the shared counter,
    /// advance it, and reduce the read value modulo the pool size. This is
    /// the only mutation a request performs on the engine.
    pub fn next_index(&mut self) -> (i: usize)
        requires
            old(self).wf(),
        ensures
            final(self).wf(),
            final(self).pool_view() == old(self).pool_view(),
            final(self).counter_spec() == wrapping_next(old(self).counter_spec()),
            i == old(self).counter_spec() as int % old(self).pool_view().len() as int,
            i < old(self).pool_view().len(),
    {
        let i = self.pool.select_index(self.counter);
        self.counter = if self.counter == u64::MAX {
            0
        } else {
            self.counter + 1
        };
        i
    }

    /// The instance at a pool index.
    pub fn instance(&self, i: usize) -> (r: &I)
        requires
            i < self.pool_view().len(),
        ensures
            *r == self.pool_view()[i as int],
    {
        self.pool.get(i)
    }

    /// The engine's blocking bridge, for driving backend work.
    pub fn bridge(&self) -> &AsyncBridge {
        &self.bridge
    }
}

} // verus!
