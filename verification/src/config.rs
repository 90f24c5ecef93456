//! Configuration record handed to the session factory: intra-op thread
//! count, execution-provider preference, optimization level and diagnostic
//! log verbosity.

use vstd::prelude::*;

verus! {

/// Which hardware/execution strategy the backend should use.
#[derive(Clone, Copy, Debug, PartialEq, Eq, Structural)]
pub enum ProviderChoice {
    /// The plain CPU provider, always available.
    Cpu,
    /// A hardware accelerator (CUDA), available only where the backend
    /// supports it; applying it may fail at the provider-set stage.
    Accelerator,
}

/// How aggressively the backend may optimize the model graph.
#[derive(Clone, Copy, Debug, PartialEq, Eq, Structural)]
pub enum OptLevel {
    DisableAll,
    Basic,
    Extended,
    All,
}

/// How verbose the backend's own diagnostic logging is.
#[derive(Clone, Copy, Debug, PartialEq, Eq, Structural)]
pub enum LogVerbosity {
    Verbose,
    Info,
    Warning,
    Error,
    Fatal,
}

/// Everything the session factory needs besides the model path.
#[derive(Clone, Copy, Debug, PartialEq, Eq, Structural)]
pub struct InitConfig {
    /// Number of threads used to parallelize execution within graph nodes.
    pub intra_threads: usize,
    /// Execution-provider preference.
    pub provider: ProviderChoice,
    /// Graph optimization level.
    pub opt_level: OptLevel,
    /// Backend log verbosity.
    pub log_level: LogVerbosity,
}

impl Default for InitConfig {
    /// The default tuning: CPU provider, full optimization, warnings only,
    /// and an intra-op thread count matching a standard big-core setup.
    fn default() -> (c: InitConfig)
        ensures
            c.intra_threads == 4,
            c.provider == ProviderChoice::Cpu,
            c.opt_level == OptLevel::All,
            c.log_level == LogVerbosity::Warning,
    {
        InitConfig {
            intra_threads: 4,
            provider: ProviderChoice::Cpu,
            opt_level: OptLevel::All,
            log_level: LogVerbosity::Warning,
        }
    }
}

} // verus!
