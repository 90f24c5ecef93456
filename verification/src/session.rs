//! The session factory: builds one backend execution session from a model
//! path and a configuration record, through a strict ordered pipeline —
//! create builder, apply execution provider, apply thread count, apply
//! optimization level, apply log level, commit from the model file. Each
//! stage that fails short-circuits the rest and is reported as its own
//! error, so a failed build is diagnosable without inspecting internals.
//! There is no retry: a failed build is reported to the caller once.

use vstd::prelude::*;

use crate::config::{InitConfig, LogVerbosity, OptLevel, ProviderChoice};
use crate::errors::InitError;
use crate::pool::InstancePool;
use ort::logging::LogLevel;
use ort::session::builder::GraphOptimizationLevel;

verus! {

/// ort's session-options builder, opaque to the verifier.
#[verifier::external_type_specification]
#[verifier::external_body]
pub struct ExSessionBuilder(ort::session::builder::SessionBuilder);

/// ort's committed execution session, opaque to the verifier.
#[verifier::external_type_specification]
#[verifier::external_body]
pub struct ExSession(ort::session::Session);

/// ort's error type, opaque to the verifier; the builder stages report it
/// carrying the builder back for recovery.
#[verifier::external_type_specification]
#[verifier::external_body]
#[verifier::reject_recursive_types(R)]
pub struct ExOrtError<R>(ort::error::Error<R>);

/// Relies on ort's `SessionBuilder::new`: creates a fresh session-options
/// builder, or reports the backend error that prevented it.
#[verifier::external_body]
fn sb_new() -> Result<ort::session::builder::SessionBuilder, ort::error::Error> {
    ort::session::builder::SessionBuilder::new()
}

/// Relies on ort's `SessionBuilder::with_execution_providers`: registers
/// the chosen provider with the builder. The argument conversion picks
/// ort's CPU provider or its CUDA provider from the library's own
/// provider-choice value.
#[verifier::external_body]
fn sb_with_execution_provider(b: ort::session::builder::SessionBuilder, choice: &ProviderChoice) -> Result<
    ort::session::builder::SessionBuilder,
    ort::error::Error<ort::session::builder::SessionBuilder>,
> {
    let provider = match choice {
        ProviderChoice::Cpu => ort::ep::CPU::default().build(),
        ProviderChoice::Accelerator => ort::ep::CUDA::default().build(),
    };
    b.with_execution_providers([provider])
}

/// Relies on ort's `SessionBuilder::with_intra_threads`: sets the number of
/// threads used to parallelize execution within graph nodes.
#[verifier::external_body]
fn sb_with_intra_threads(b: ort::session::builder::SessionBuilder, n: usize) -> Result<
    ort::session::builder::SessionBuilder,
    ort::error::Error<ort::session::builder::SessionBuilder>,
> {
    b.with_intra_threads(n)
}

/// Relies on ort's `SessionBuilder::with_optimization_level`: sets the
/// graph optimization level, converted one-for-one from the library's own
/// level value.
#[verifier::external_body]
fn sb_with_optimization_level(b: ort::session::builder::SessionBuilder, lvl: &OptLevel) -> Result<
    ort::session::builder::SessionBuilder,
    ort::error::Error<ort::session::builder::SessionBuilder>,
> {
    let l = match lvl {
        OptLevel::DisableAll => GraphOptimizationLevel::Disable,
        OptLevel::Basic => GraphOptimizationLevel::Level1,
        OptLevel::Extended => GraphOptimizationLevel::Level2,
        OptLevel::All => GraphOptimizationLevel::Level3,
    };
    b.with_optimization_level(l)
}

/// Relies on ort's `SessionBuilder::with_log_level`: sets the session's
/// log severity, converted one-for-one from the library's own verbosity
/// value.
#[verifier::external_body]
fn sb_with_log_level(b: ort::session::builder::SessionBuilder, lvl: &LogVerbosity) -> Result<
    ort::session::builder::SessionBuilder,
    ort::error::Error<ort::session::builder::SessionBuilder>,
> {
    let l = match lvl {
        LogVerbosity::Verbose => LogLevel::Verbose,
        LogVerbosity::Info => LogLevel::Info,
        LogVerbosity::Warning => LogLevel::Warning,
        LogVerbosity::Error => LogLevel::Error,
        LogVerbosity::Fatal => LogLevel::Fatal,
    };
    b.with_log_level(l)
}

/// Relies on ort's `SessionBuilder::commit_from_file`: loads the model file
/// and builds the session, or reports the backend error — among them a
/// missing file, which ort rejects before touching the backend.
#[verifier::external_body]
fn sb_commit_from_file(b: &mut ort::session::builder::SessionBuilder, path: &str) -> Result<
    ort::session::Session,
    ort::error::Error,
> {
    b.commit_from_file(path)
}

/// Whether an init failure is one of the session-construction stages (as
/// opposed to the runtime-build stage, which this factory never reports).
pub open spec fn is_session_stage(e: InitError) -> bool {
    ||| e == InitError::BuilderCreate
    ||| e == InitError::ProviderSet
    ||| e == InitError::ThreadSet
    ||| e == InitError::OptLevelSet
    ||| e == InitError::LogLevelSet
    ||| e == InitError::CommitFromFile
}

/// Build one backend session: the ordered pipeline, each stage
/// short-circuiting the rest on failure and naming itself in the error.
/// Whatever the backend reports, no half-configured session escapes: the
/// result is a committed session or a stage error, never both.
pub fn build_session(model_path: &str, config: &InitConfig) -> (r: Result<
    ort::session::Session,
    InitError,
>)
    ensures
        r is Err ==> is_session_stage(r->Err_0),
{
    let builder = match sb_new() {
        Ok(b) => b,
        Err(_) => {
            return Err(InitError::BuilderCreate);
        },
    };
    let builder = match sb_with_execution_provider(builder, &config.provider) {
        Ok(b) => b,
        Err(_) => {
            return Err(InitError::ProviderSet);
        },
    };
    let builder = match sb_with_intra_threads(builder, config.intra_threads) {
        Ok(b) => b,
        Err(_) => {
            return Err(InitError::ThreadSet);
        },
    };
    let builder = match sb_with_optimization_level(builder, &config.opt_level) {
        Ok(b) => b,
        Err(_) => {
            return Err(InitError::OptLevelSet);
        },
    };
    let mut builder = match sb_with_log_level(builder, &config.log_level) {
        Ok(b) => b,
        Err(_) => {
            return Err(InitError::LogLevelSet);
        },
    };
    match sb_commit_from_file(&mut builder, model_path) {
        Ok(s) => Ok(s),
        Err(_) => Err(InitError::CommitFromFile),
    }
}

/// Build a whole pool of independent sessions, all-or-nothing: the first
/// stage error aborts construction and nothing partially populated is ever
/// returned. On success the pool holds exactly the configured number of
/// instances.
pub fn build_session_pool(model_path: &str, config: &InitConfig, count: usize) -> (r: Result<
    InstancePool<ort::session::Session>,
    InitError,
>)
    requires
        count > 0,
    ensures
        r is Ok ==> r->Ok_0@.len() == count && r->Ok_0.wf(),
        r is Err ==> is_session_stage(r->Err_0),
{
    let mut sessions: Vec<ort::session::Session> = Vec::new();
    let mut i: usize = 0;
    while i < count
        invariant
            i <= count,
            sessions@.len() == i,
        decreases count - i,
    {
        match build_session(model_path, config) {
            Ok(s) => sessions.push(s),
            Err(e) => {
                return Err(e);
            },
        }
        i = i + 1;
    }
    Ok(InstancePool::from_instances(sessions))
}

} // verus!
