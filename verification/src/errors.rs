//! The error taxonomy of the build pipeline.  Every failure is a hard
//! stop: there are no retries anywhere, and each variant carries enough
//! context to diagnose the failure without re-running.

use vstd::prelude::*;

verus! {

/// Why a build invocation failed.
#[derive(Debug)]
pub enum BuildError {
    /// The program directory could not be resolved to an absolute path.
    Configuration { path: String },
    /// The metadata collaborator failed.  Fatal: metadata describes the
    /// fundamental project structure, not a transient condition.
    Metadata { message: String },
    /// The build subprocess could not be started.
    Spawn { message: String },
    /// The subprocess ran but exited non-zero.  Its own diagnostics
    /// have already been relayed line by line, so the failure carries
    /// only the exit code and no duplicate message.
    ProcessFailure { exit_code: i32 },
    /// Neither a binary name nor a root package name was available to
    /// name the compiled artifact.
    MissingPackageName,
    /// The output directory could not be created.
    DirectoryCreation { path: String },
    /// The computed artifact source path does not exist.
    ArtifactNotFound { path: String },
    /// Copying the artifact failed for another filesystem reason.
    Copy { source: String, destination: String },
}

} // verus!
