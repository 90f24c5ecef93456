//! The boundary adapter: every foreign call arrives as raw, possibly
//! undecodable values and leaves as a raw buffer or a sentinel. The guards
//! here are the whole defence of the boundary — a failed decode or an
//! invalid token degrades to the call's null/zero sentinel, and nothing
//! half-constructed ever becomes visible to the caller.

use vstd::prelude::*;

use crate::bridge::AsyncBridge;
use crate::config::InitConfig;
use crate::engine::EngineHandle;
use crate::errors::InitError;
use crate::pool::InstancePool;
use crate::registry::Registry;
use crate::session::build_session_pool;

verus! {

/// One inference request, decoded into owned native values. The speed
/// multiplier crosses the boundary as the raw bits of its 32-bit float:
/// the core never interprets it, only the backend does.
pub struct InferRequest {
    pub text: String,
    pub voice: String,
    pub speed_bits: u32,
}

/// Marshal the foreign call's arguments into an owned request. Each text
/// argument arrives as the outcome of the host-string decode; if any
/// failed, the whole request is rejected and the call will degrade to its
/// null sentinel.
pub fn decode_request(text: Option<String>, voice: Option<String>, speed_bits: u32) -> (r: Option<
    InferRequest,
>)
    ensures
        r is Some <==> (text is Some && voice is Some),
        r is Some ==> {
            &&& r->0.text == text->0
            &&& r->0.voice == voice->0
            &&& r->0.speed_bits == speed_bits
        },
{
    match (text, voice) {
        (Some(text), Some(voice)) => Some(InferRequest { text, voice, speed_bits }),
        _ => None,
    }
}

/// Finish one inference call: the backend's outcome becomes the boundary
/// result. Success hands the produced sample buffer through bit-for-bit —
/// sized exactly as the backend reported, never truncated or
/// over-allocated; failure becomes the null sentinel. Samples travel as
/// the raw bits of 32-bit floats.
pub fn finish_infer(outcome: Result<Vec<u32>, String>) -> (r: Option<Vec<u32>>)
    ensures
        r is Some <==> outcome is Ok,
        outcome is Ok ==> r->0 == outcome->Ok_0,
{
    match outcome {
        Ok(samples) => Some(samples),
        Err(_) => None,
    }
}

/// Commit the outcome of engine construction to the registry: a handle
/// token is issued if and only if every construction step succeeded — the
/// bridge was built and the pool came out fully populated. On any failure
/// the registry is untouched and the caller sees only the zero sentinel,
/// never a half-built handle. A fresh handle's request counter starts at
/// zero.
pub fn commit_init<I>(reg: &mut Registry<I>, built: Result<(AsyncBridge, InstancePool<I>), InitError>) -> (t:
    u64)
    requires
        old(reg).wf(),
        old(reg).slot_count() < usize::MAX,
        built is Ok ==> built->Ok_0.1.wf(),
    ensures
        final(reg).wf(),
        t != 0 <==> built is Ok,
        t == 0 ==> *final(reg) == *old(reg),
        t != 0 ==> {
            &&& t == old(reg).slot_count() + 1
            &&& final(reg).slot_count() == old(reg).slot_count() + 1
            &&& final(reg).is_open(t)
            &&& final(reg).engine_of(t).pool_view() == built->Ok_0.1@
            &&& final(reg).engine_of(t).counter_spec() == 0
        },
        forall|t2: u64| t2 != t ==> final(reg).is_open(t2) == old(reg).is_open(t2),
        forall|t2: u64|
            t2 != t && old(reg).is_open(t2) ==> final(reg).engine_of(t2) == old(reg).engine_of(t2),
{
    match built {
        Ok((bridge, pool)) => {
            let engine = EngineHandle::new(bridge, pool);
            reg.install(engine)
        },
        Err(_) => 0,
    }
}

/// Drive the whole engine construction for one `init` call: guard the
/// decoded paths, build the blocking bridge, build the instance pool
/// all-or-nothing through the session factory, and only then register the
/// fully usable engine under a fresh nonzero token. Any failure at any
/// step returns the zero sentinel and leaves the registry exactly as it
/// was: a partial construction is never observable.
pub fn init_engine(
    reg: &mut Registry<ort::session::Session>,
    model_path: Option<String>,
    voices_path: Option<String>,
    config: &InitConfig,
    worker_threads: usize,
    instance_count: usize,
) -> (t: u64)
    requires
        old(reg).wf(),
        worker_threads > 0,
        instance_count > 0,
    ensures
        final(reg).wf(),
        t == 0 ==> *final(reg) == *old(reg),
        model_path is None || voices_path is None ==> t == 0,
        t != 0 ==> {
            &&& t == old(reg).slot_count() + 1
            &&& final(reg).slot_count() == old(reg).slot_count() + 1
            &&& final(reg).is_open(t)
            &&& final(reg).engine_of(t).pool_view().len() == instance_count
            &&& final(reg).engine_of(t).counter_spec() == 0
        },
        forall|t2: u64| t2 != t ==> final(reg).is_open(t2) == old(reg).is_open(t2),
        forall|t2: u64|
            t2 != t && old(reg).is_open(t2) ==> final(reg).engine_of(t2) == old(reg).engine_of(t2),
{
    if reg.count_slots() == usize::MAX {
        return 0;
    }
    let model = match model_path {
        Some(m) => m,
        None => {
            return 0;
        },
    };
    if voices_path.is_none() {
        return 0;
    }
    let built = match AsyncBridge::new(worker_threads) {
        Ok(bridge) => match build_session_pool(model.as_str(), config, instance_count) {
            Ok(pool) => Ok((bridge, pool)),
            Err(e) => Err(e),
        },
        Err(e) => Err(e),
    };
    commit_init(reg, built)
}

} // verus!
