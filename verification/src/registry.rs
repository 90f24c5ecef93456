//! The token registry: the caller-visible boundary owns engines only
//! through opaque nonzero integer tokens. The registry maps tokens to
//! exclusively-owned engines, hands out instance indices for requests, and
//! removes an engine's entry — releasing it — on close. Operations on the
//! zero sentinel or on a missing/closed token are rejected explicitly and
//! mutate nothing.

use vstd::prelude::*;

use crate::engine::{wrapping_next, EngineHandle};

verus! {

/// Token `t` names slot `t - 1`; zero is the invalid-handle sentinel and
/// never names a slot. A closed token's slot stays empty forever, so a
/// token is never reused for a later engine.
pub struct Registry<I> {
    slots: Vec<Option<EngineHandle<I>>>,
}

impl<I> Registry<I> {
    /// The slots, in token order.
    pub closed spec fn slots_view(&self) -> Seq<Option<EngineHandle<I>>> {
        self.slots@
    }

    /// How many tokens have ever been issued.
    pub open spec fn slot_count(&self) -> nat {
        self.slots_view().len()
    }

    /// Whether a token currently names a live engine. The zero sentinel is
    /// never open.
    pub open spec fn is_open(&self, t: u64) -> bool {
        1 <= t <= self.slot_count() && self.slots_view()[t - 1] is Some
    }

    /// The engine a token names; meaningful only while the token is open.
    pub closed spec fn engine_of(&self, t: u64) -> EngineHandle<I>
        recommends
            self.is_open(t),
    {
        self.slots_view()[t - 1].unwrap()
    }

    /// Every live engine is usable: the registry never holds a half-built
    /// engine.
    pub open spec fn wf(&self) -> bool {
        forall|t: u64| self.is_open(t) ==> self.engine_of(t).wf()
    }

    /// A fresh registry: no token is open.
    pub fn new() -> (r: Registry<I>)
        ensures
            r.slot_count() == 0,
            forall|t: u64| !r.is_open(t),
            r.wf(),
    {
        Registry { slots: Vec::new() }
    }

    /// How many tokens have ever been issued.
    pub fn count_slots(&self) -> (n: usize)
        ensures
            n == self.slot_count(),
    {
        self.slots.len()
    }

    /// Whether a token currently names a live engine.
    pub fn token_open(&self, t: u64) -> (b: bool)
        ensures
            b == self.is_open(t),
    {
        t >= 1 && t <= self.slots.len() as u64 && self.slots[(t - 1) as usize].is_some()
    }

    /// Issue a fresh nonzero token for a fully built engine. Every
    /// previously issued token, open or closed, is left exactly as it was.
    pub fn install(&mut self, engine: EngineHandle<I>) -> (t: u64)
        requires
            old(self).wf(),
            engine.wf(),
            old(self).slot_count() < usize::MAX,
        ensures
            final(self).wf(),
            t != 0,
            t == old(self).slot_count() + 1,
            final(self).slot_count() == old(self).slot_count() + 1,
            final(self).is_open(t),
            final(self).engine_of(t) == engine,
            forall|t2: u64| t2 != t ==> final(self).is_open(t2) == old(self).is_open(t2),
            forall|t2: u64|
                t2 != t && old(self).is_open(t2) ==> final(self).engine_of(t2) == old(
                    self,
                ).engine_of(t2),
    {
        let ghost prior = self.slots@;
        let t = self.slots.len() as u64 + 1;
        self.slots.push(Some(engine));
        proof {
            assert forall|t2: u64| t2 != t implies self.is_open(t2) == old(self).is_open(t2) by {
                if 1 <= t2 <= prior.len() {
                    assert(self.slots@[t2 - 1] == prior[t2 - 1]);
                }
            }
            assert forall|t2: u64| t2 != t && old(self).is_open(t2) implies self.engine_of(t2)
                == old(self).engine_of(t2) by {
                assert(self.slots@[t2 - 1] == prior[t2 - 1]);
            }
            assert forall|t2: u64| self.is_open(t2) implies self.engine_of(t2).wf() by {
                if t2 == t {
                    assert(self.slots@[t2 - 1] == Some(engine));
                } else {
                    assert(old(self).is_open(t2));
                }
            }
        }
        t
    }

    /// Hand out the instance index for one request on a token: advance the
    /// token's request counter and reduce the read value modulo the pool
    /// size. A zero, unknown or closed token yields nothing and mutates
    /// nothing — no engine is ever touched through an invalid token.
    pub fn route(&mut self, t: u64) -> (r: Option<usize>)
        requires
            old(self).wf(),
        ensures
            final(self).wf(),
            r is Some <==> old(self).is_open(t),
            final(self).slot_count() == old(self).slot_count(),
            forall|t2: u64| final(self).is_open(t2) == old(self).is_open(t2),
            forall|t2: u64|
                t2 != t && old(self).is_open(t2) ==> final(self).engine_of(t2) == old(
                    self,
                ).engine_of(t2),
            old(self).is_open(t) ==> {
                let e = old(self).engine_of(t);
                let e2 = final(self).engine_of(t);
                &&& r->0 == e.counter_spec() as int % e.pool_view().len() as int
                &&& r->0 < e.pool_view().len()
                &&& e2.pool_view() == e.pool_view()
                &&& e2.counter_spec() == wrapping_next(e.counter_spec())
            },
    {
        if t == 0 || t > self.slots.len() as u64 {
            return None;
        }
        let idx = (t - 1) as usize;
        if self.slots[idx].is_none() {
            return None;
        }
        let ghost prior = self.slots@;
        proof {
            assert(old(self).is_open(t));
            assert(old(self).engine_of(t).wf());
        }
        let slot = &mut self.slots[idx];
        let e = slot.as_mut().unwrap();
        let i = e.next_index();
        proof {
            assert(self.slots@ == prior.update(idx as int, self.slots@[idx as int]));
            assert forall|t2: u64| self.is_open(t2) == old(self).is_open(t2) by {
                if t2 != t && 1 <= t2 <= prior.len() {
                    assert(self.slots@[t2 - 1] == prior[t2 - 1]);
                }
            }
            assert forall|t2: u64| t2 != t && old(self).is_open(t2) implies self.engine_of(t2)
                == old(self).engine_of(t2) by {
                assert(self.slots@[t2 - 1] == prior[t2 - 1]);
            }
            assert forall|t2: u64| self.is_open(t2) implies self.engine_of(t2).wf() by {
                if t2 != t {
                    assert(old(self).is_open(t2));
                }
            }
        }
        Some(i)
    }

    /// The instance at a pool index of an open token's engine; nothing for
    /// an invalid token or an out-of-range index.
    pub fn instance_for(&self, t: u64, i: usize) -> (r: Option<&I>)
        requires
            self.wf(),
        ensures
            r is Some <==> (self.is_open(t) && i < self.engine_of(t).pool_view().len()),
            r is Some ==> *r->0 == self.engine_of(t).pool_view()[i as int],
    {
        if t == 0 || t > self.slots.len() as u64 {
            return None;
        }
        match &self.slots[(t - 1) as usize] {
            None => None,
            Some(e) => {
                if i < e.size() {
                    Some(e.instance(i))
                } else {
                    None
                }
            },
        }
    }

    /// The blocking bridge of an open token's engine, for driving backend
    /// work; nothing for an invalid token.
    pub fn bridge_for(&self, t: u64) -> (r: Option<&crate::bridge::AsyncBridge>)
        ensures
            r is Some <==> self.is_open(t),
    {
        if t == 0 || t > self.slots.len() as u64 {
            return None;
        }
        match &self.slots[(t - 1) as usize] {
            None => None,
            Some(e) => Some(e.bridge()),
        }
    }

    /// Release the engine a token names: its entry is removed, its bridge
    /// and instances are dropped, and the token is invalid from then on.
    /// The zero sentinel is a no-op, and every other token is untouched.
    pub fn close(&mut self, t: u64)
        requires
            old(self).wf(),
        ensures
            final(self).wf(),
            !final(self).is_open(t),
            final(self).slot_count() == old(self).slot_count(),
            forall|t2: u64| t2 != t ==> final(self).is_open(t2) == old(self).is_open(t2),
            forall|t2: u64|
                t2 != t && old(self).is_open(t2) ==> final(self).engine_of(t2) == old(
                    self,
                ).engine_of(t2),
    {
        if t == 0 || t > self.slots.len() as u64 {
            return ;
        }
        let idx = (t - 1) as usize;
        let ghost prior = self.slots@;
        let slot = &mut self.slots[idx];
        let _released = slot.take();
        proof {
            assert(self.slots@ == prior.update(idx as int, self.slots@[idx as int]));
            assert forall|t2: u64| t2 != t implies self.is_open(t2) == old(self).is_open(t2) by {
                if 1 <= t2 <= prior.len() {
                    assert(self.slots@[t2 - 1] == prior[t2 - 1]);
                }
            }
            assert forall|t2: u64| t2 != t && old(self).is_open(t2) implies self.engine_of(t2)
                == old(self).engine_of(t2) by {
                assert(self.slots@[t2 - 1] == prior[t2 - 1]);
            }
            assert forall|t2: u64| self.is_open(t2) implies self.engine_of(t2).wf() by {
                assert(t2 != t);
                assert(old(self).is_open(t2));
            }
        }
    }
}

} // verus!
