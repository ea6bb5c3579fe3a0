//! The error kinds that the pipeline reports. Per-request failures are
//! reported back to the caller of the failing operation only; none of them
//! is fatal to the process or to other in-flight requests.

use vstd::prelude::*;

verus! {

/// Everything that can go wrong in the pipeline, as one closed set.
///
/// `SpawnFailed`, `GenerationFailed` and `IO` are produced by the
/// unverified shell around this crate (process launch, exit status,
/// file writes); the other kinds are produced by functions of this crate.
/// `NoSolutionMarker` is reserved: the parser treats text without a
/// closing solution marker as a candidate in full rather than failing.
#[derive(Clone, Copy, Debug, PartialEq, Eq, Structural)]
pub enum ErrorKind {
    InvalidArgument,
    MissingTemplate,
    UnknownModel,
    BackendUnavailable,
    SpawnFailed,
    GenerationFailed,
    NoSolutionMarker,
    QueueFull,
    IO,
    NotImplemented,
}

impl ErrorKind {
    /// The kind's name, for human-readable error summaries.
    pub fn message(&self) -> (r: &'static str)
        ensures
            r@ == self.spec_message(),
    {
        match self {
            ErrorKind::InvalidArgument => "invalid argument",
            ErrorKind::MissingTemplate => "missing template",
            ErrorKind::UnknownModel => "unknown model",
            ErrorKind::BackendUnavailable => "backend unavailable",
            ErrorKind::SpawnFailed => "spawn failed",
            ErrorKind::GenerationFailed => "generation failed",
            ErrorKind::NoSolutionMarker => "no solution marker",
            ErrorKind::QueueFull => "queue full",
            ErrorKind::IO => "i/o error",
            ErrorKind::NotImplemented => "not implemented",
        }
    }

    /// What `message` returns for each kind.
    pub open spec fn spec_message(&self) -> Seq<char> {
        match self {
            ErrorKind::InvalidArgument => "invalid argument"@,
            ErrorKind::MissingTemplate => "missing template"@,
            ErrorKind::UnknownModel => "unknown model"@,
            ErrorKind::BackendUnavailable => "backend unavailable"@,
            ErrorKind::SpawnFailed => "spawn failed"@,
            ErrorKind::GenerationFailed => "generation failed"@,
            ErrorKind::NoSolutionMarker => "no solution marker"@,
            ErrorKind::QueueFull => "queue full"@,
            ErrorKind::IO => "i/o error"@,
            ErrorKind::NotImplemented => "not implemented"@,
        }
    }
}

} // verus!
