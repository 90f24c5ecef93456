//! Failure taxonomy of the bridge: every construction failure names the
//! pipeline stage that failed, so a zero handle is diagnosable from the log
//! alone.

use vstd::prelude::*;

verus! {

/// Why an engine could not be constructed. Each variant names the exact
/// stage of the construction pipeline that failed; construction is strictly
/// ordered and short-circuits at the first failing stage.
#[derive(Clone, Copy, Debug, PartialEq, Eq, Structural)]
pub enum InitError {
    /// The task runtime backing the blocking bridge could not be built.
    RuntimeBuild,
    /// The backend session builder could not be created.
    BuilderCreate,
    /// The execution provider could not be applied to the builder.
    ProviderSet,
    /// The intra-op thread count could not be applied.
    ThreadSet,
    /// The graph optimization level could not be applied.
    OptLevelSet,
    /// The diagnostic log level could not be applied.
    LogLevelSet,
    /// The session could not be committed from the model file.
    CommitFromFile,
}

} // verus!
