//! The blocking bridge: a handle-owned multi-threaded task scheduler that
//! lets a synchronous foreign call drive asynchronous work to completion.
//! The scheduler is built once per handle at construction time and reused by
//! every request on that handle.

use vstd::prelude::*;

use crate::errors::InitError;

verus! {

/// tokio's runtime builder, opaque to the verifier.
#[verifier::external_type_specification]
#[verifier::external_body]
pub struct ExRuntimeBuilder(tokio::runtime::Builder);

/// tokio's task runtime, opaque to the verifier.
#[verifier::external_type_specification]
#[verifier::external_body]
pub struct ExRuntime(tokio::runtime::Runtime);

/// The OS error a failed runtime build reports, opaque to the verifier.
#[verifier::external_type_specification]
#[verifier::external_body]
pub struct ExIoError(std::io::Error);

/// Relies on tokio's `runtime::Builder::new_multi_thread`: starts a fresh
/// multi-thread scheduler configuration.
#[verifier::external_body]
fn builder_new_multi_thread() -> tokio::runtime::Builder {
    tokio::runtime::Builder::new_multi_thread()
}

/// Relies on tokio's `runtime::Builder::worker_threads`: sets the worker
/// thread count. tokio panics on a zero count, so zero is excluded here.
#[verifier::external_body]
fn builder_worker_threads(b: &mut tokio::runtime::Builder, n: usize)
    requires
        n > 0,
{
    b.worker_threads(n);
}

/// Relies on tokio's `runtime::Builder::enable_all`: enables the I/O and
/// time drivers on the configuration.
#[verifier::external_body]
fn builder_enable_all(b: &mut tokio::runtime::Builder) {
    b.enable_all();
}

/// Relies on tokio's `runtime::Builder::build`: commits the configuration
/// into a runtime, or reports the OS error that prevented it.
#[verifier::external_body]
fn builder_build(b: &mut tokio::runtime::Builder) -> Result<tokio::runtime::Runtime, std::io::Error> {
    b.build()
}

/// Owns the task scheduler backing one engine handle. Dropping the bridge
/// shuts the scheduler down, so releasing the handle releases its threads.
pub struct AsyncBridge {
    rt: tokio::runtime::Runtime,
}

impl AsyncBridge {
    /// Build the scheduler with a fixed worker-thread count. The only
    /// failure is the runtime build itself; it is reported as the
    /// runtime-build stage, never as a half-built bridge.
    pub fn new(worker_count: usize) -> (r: Result<AsyncBridge, InitError>)
        requires
            worker_count > 0,
        ensures
            r is Err ==> r->Err_0 == InitError::RuntimeBuild,
    {
        let mut b = builder_new_multi_thread();
        builder_worker_threads(&mut b, worker_count);
        builder_enable_all(&mut b);
        match builder_build(&mut b) {
            Ok(rt) => Ok(AsyncBridge { rt }),
            Err(_) => Err(InitError::RuntimeBuild),
        }
    }

    /// The owned scheduler. The blocking drive itself — parking the calling
    /// thread on a future until it completes — is an await point, so it is
    /// performed by the embedding layer through this accessor; nothing
    /// inside the verified core suspends.
    pub fn runtime(&self) -> &tokio::runtime::Runtime {
        &self.rt
    }
}

} // verus!
