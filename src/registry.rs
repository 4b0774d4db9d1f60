//! The candidate manifest and the checks on what a user names.
use vstd::prelude::*;
use crate::error::{CliError, FileError};
use crate::layout::EntryKind;
use crate::path::FsPath;
use crate::text::{candidate_names, parse_candidates, trim, trim_spec};

verus! {

/// Accepts `path` only where a regular file stands there.
pub fn check_file_exists(path: FsPath, kind: EntryKind) -> (r: Result<FsPath, FileError>)
    ensures
        r is Ok <==> kind == EntryKind::File,
        r matches Ok(p) ==> p@ == path@,
        r matches Err(e) ==> e == FileError::NotFound,
{
    if kind == EntryKind::File {
        Ok(path)
    } else {
        Err(FileError::NotFound)
    }
}

/// The text of a file without surrounding whitespace; a file with nothing else
/// is refused.
pub fn read_file_content(text: &str) -> (r: Result<String, FileError>)
    ensures
        r is Ok <==> trim_spec(text@).len() > 0,
        r matches Ok(s) ==> s@ == trim_spec(text@),
        r matches Err(e) ==> e == FileError::Empty,
{
    let t = trim(text);
    if t.as_str().unicode_len() > 0 {
        Ok(t)
    } else {
        Err(FileError::Empty)
    }
}

/// The known candidates, from what stands at the manifest path and, when it
/// could be read, its text. A manifest without names gives an empty list.
pub fn known_candidates(manifest: EntryKind, content: Option<String>) -> (r: Result<
    Vec<String>,
    CliError,
>)
    ensures
        r is Ok <==> (manifest == EntryKind::File && content is Some),
        r matches Ok(v) ==> (content matches Some(t) && v@.map_values(|p: String| p@)
            == candidate_names(t@)),
        r matches Err(e) ==> e is ConfigMissing,
{
    if manifest != EntryKind::File {
        return Err(CliError::ConfigMissing);
    }
    match content {
        Some(t) => Ok(parse_candidates(t.as_str())),
        None => Err(CliError::ConfigMissing),
    }
}

/// Whether `name` is one of `known`, exactly.
pub open spec fn is_known(known: Seq<Seq<char>>, name: Seq<char>) -> bool {
    exists|i: int| 0 <= i < known.len() && known[i] == name
}

/// Accepts `candidate` only where it is one of the known names, matched exactly.
pub fn validate_candidate(all_candidates: &Vec<String>, candidate: &str) -> (r: Result<
    String,
    CliError,
>)
    ensures
        r is Ok <==> is_known(all_candidates@.map_values(|p: String| p@), candidate@),
        r matches Ok(s) ==> s@ == candidate@,
        r matches Err(e) ==> (e matches CliError::InvalidCandidate { candidate: c } && c@
            == candidate@),
{
    let wanted = String::from_str(candidate);
    let ghost known = all_candidates@.map_values(|p: String| p@);
    let mut i: usize = 0;
    while i < all_candidates.len()
        invariant
            i <= all_candidates.len(),
            wanted@ == candidate@,
            known == all_candidates@.map_values(|p: String| p@),
            forall|k: int| 0 <= k < i ==> known[k] != candidate@,
        decreases all_candidates.len() - i,
    {
        if all_candidates[i] == wanted {
            proof {
                assert(known[i as int] == candidate@);
            }
            return Ok(wanted);
        }
        i = i + 1;
    }
    Err(CliError::InvalidCandidate { candidate: wanted })
}

} // verus!
