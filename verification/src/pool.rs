//! Fixed-size ordered pool of independently usable backend instances, with
//! stateless round-robin selection: the pool itself holds no selection
//! state; the caller supplies the shared request-counter value and the pool
//! maps it to an index by reduction modulo the pool size.

use vstd::prelude::*;

verus! {

/// A fixed, ordered, non-empty sequence of backend instances, created
/// all-or-nothing and destroyed only with the owning handle.
pub struct InstancePool<I> {
    instances: Vec<I>,
}

impl<I> InstancePool<I> {
    /// The instances, in pool order.
    pub closed spec fn view(&self) -> Seq<I> {
        self.instances@
    }

    /// A usable pool holds at least one instance.
    pub open spec fn wf(&self) -> bool {
        self@.len() > 0
    }

    /// Bundle already-built instances into a pool. Construction of the
    /// instances themselves is all-or-nothing at the session factory; a
    /// pool only ever exists fully populated.
    pub fn from_instances(instances: Vec<I>) -> (p: InstancePool<I>)
        requires
            instances@.len() > 0,
        ensures
            p@ == instances@,
            p.wf(),
    {
        InstancePool { instances }
    }

    /// How many instances the pool holds.
    pub fn size(&self) -> (n: usize)
        ensures
            n == self@.len(),
    {
        self.instances.len()
    }

    /// The index that a given shared-counter value selects: a pure,
    /// stateless mapping, `counter mod size`.
    pub open spec fn selected_index(&self, counter: u64) -> int {
        counter as int % self@.len() as int
    }

    /// Map a counter value to the instance index it selects.
    pub fn select_index(&self, counter: u64) -> (i: usize)
        requires
            self.wf(),
        ensures
            i == self.selected_index(counter),
            i < self@.len(),
    {
        (counter % (self.instances.len() as u64)) as usize
    }

    /// The instance at a given pool index.
    pub fn get(&self, i: usize) -> (r: &I)
        requires
            i < self@.len(),
        ensures
            *r == self@[i as int],
    {
        &self.instances[i]
    }

    /// Hand out the instance a counter value selects.
    pub fn acquire(&self, counter: u64) -> (r: (usize, &I))
        requires
            self.wf(),
        ensures
            r.0 == self.selected_index(counter),
            r.0 < self@.len(),
            *r.1 == self@[r.0 as int],
    {
        let i = self.select_index(counter);
        (i, &self.instances[i])
    }
}

/// Fair cycling: two distinct counter values drawn from one window of
/// `size` consecutive requests never select the same instance, so `size`
/// sequential requests visit each instance exactly once.
pub proof fn lemma_round_robin_distinct(base: u64, size: u64, i: u64, j: u64)
    requires
        0 < size,
        i < size,
        j < size,
        i != j,
        base + size <= u64::MAX + 1,
    ensures
        (base + i) as u64 as int % size as int != (base + j) as u64 as int % size as int,
{
    let s = size as int;
    let a = base as int + i;
    let b = base as int + j;
    assert(a % s != b % s) by (nonlinear_arith)
        requires
            0 < s,
            a - b < s,
            b - a < s,
            a != b,
            0 <= a,
            0 <= b,
    ;
}

/// In-order start: on a fresh handle the counter starts at zero, so the
/// `k`-th request of the first cycle selects exactly instance `k`.
pub proof fn lemma_round_robin_in_order(size: u64, k: u64)
    requires
        0 < size,
        k < size,
    ensures
        k as int % size as int == k,
{
    let s = size as int;
    assert(k as int % s == k) by (nonlinear_arith)
        requires
            0 < s,
            0 <= k < s,
    ;
}

} // verus!
