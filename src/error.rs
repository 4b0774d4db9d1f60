//! The failures the library reports.
use vstd::prelude::*;

verus! {

/// Why a file could not serve as a source of text.
#[derive(PartialEq, Eq, Structural, Debug, Clone, Copy)]
pub enum FileError {
    /// No regular file at the path.
    NotFound,
    /// The file holds nothing but whitespace.
    Empty,
}

/// The failures that reach the command line, each a user-facing outcome.
#[derive(Debug)]
pub enum CliError {
    /// The candidates manifest is absent or could not be read.
    ConfigMissing,
    /// The requested candidate is not in the manifest.
    InvalidCandidate { candidate: String },
    /// The requested version has no directory of its own.
    NotInstalled { candidate: String, version: String },
    /// The version to remove is the current one and no override was given.
    CurrentVersionProtected { candidate: String, version: String },
    /// The current pointer could not be removed.
    PointerRemoval { candidate: String, detail: String },
    /// The version could not be copied into the scratch area.
    CopyFailed { detail: String },
    /// The copied version could not be moved into place.
    RenameFailed { detail: String },
    /// The version directory could not be deleted.
    DeleteFailed { path: String, detail: String },
    /// The candidate has no current version.
    NoCurrentVersion { candidate: String },
    /// No help is written for the topic asked for.
    UnknownTopic { topic: String },
}

} // verus!
