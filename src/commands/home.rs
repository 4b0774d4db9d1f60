//! `sdk home`: the path of an installed version.
use vstd::prelude::*;
use crate::error::CliError;
use crate::layout::{installable, installable_names, EntryKind};
use crate::path::{render_spec, FsPath};

verus! {

/// Arguments of `sdk home`.
pub struct Args {
    pub candidate: String,
    pub version: String,
}

/// The text of an installed version's path, given what stands there; names
/// that cannot stand for an installed version are refused.
pub fn home(version_path: &FsPath, kind: EntryKind, candidate: &str, version: &str) -> (r: Result<
    String,
    CliError,
>)
    ensures
        r is Ok <==> (kind == EntryKind::Dir && installable(candidate@, version@)),
        r matches Ok(t) ==> t@ == render_spec(version_path@),
        r matches Err(e) ==> (e matches CliError::NotInstalled { candidate: c, version: v } && c@
            == candidate@ && v@ == version@),
{
    if kind == EntryKind::Dir && installable_names(candidate, version) {
        Ok(version_path.to_text())
    } else {
        Err(
            CliError::NotInstalled {
                candidate: String::from_str(candidate),
                version: String::from_str(version),
            },
        )
    }
}

} // verus!
