//! Where things live under the tool's root directory.
use vstd::prelude::*;
use crate::error::CliError;
use crate::path::{child_spec, is_plain_name, is_plain_name_text, opt_view, parse_spec, FsPath, PathV};

verus! {

/// What stands at a path, links followed.
#[derive(PartialEq, Eq, Structural, Debug, Clone, Copy)]
pub enum EntryKind {
    Missing,
    File,
    Dir,
    Other,
}

/// Whether an optional value is set and not empty.
pub open spec fn filled(o: Option<Seq<char>>) -> bool {
    o matches Some(s) && s.len() > 0
}

/// The home directory the environment names: the first of `USERPROFILE`,
/// `HOMEDRIVE` followed by `HOMEPATH` (both set), and `HOME` that is set and
/// not empty. Where only `HOME` is consulted, the others are absent.
pub open spec fn home_from_env_spec(
    userprofile: Option<Seq<char>>,
    homedrive: Option<Seq<char>>,
    homepath: Option<Seq<char>>,
    home: Option<Seq<char>>,
) -> Option<Seq<char>> {
    if filled(userprofile) {
        userprofile
    } else {
        match (homedrive, homepath) {
            (Some(d), Some(p)) if d.len() > 0 && p.len() > 0 => Some(d + p),
            _ => if filled(home) {
                home
            } else {
                None
            },
        }
    }
}

fn filled_text(o: &Option<String>) -> (r: bool)
    ensures
        r == filled(opt_view(*o)),
{
    match o {
        Some(s) => s.as_str().unicode_len() > 0,
        None => false,
    }
}

/// Picks the home directory from the environment's values, in the order of
/// [`home_from_env_spec`].
pub fn home_from_env(
    userprofile: Option<String>,
    homedrive: Option<String>,
    homepath: Option<String>,
    home: Option<String>,
) -> (r: Option<String>)
    ensures
        opt_view(r) == home_from_env_spec(
            opt_view(userprofile),
            opt_view(homedrive),
            opt_view(homepath),
            opt_view(home),
        ),
{
    if filled_text(&userprofile) {
        return userprofile;
    }
    if filled_text(&homedrive) && filled_text(&homepath) {
        match (homedrive, homepath) {
            (Some(d), Some(p)) => {
                let mut joined = d;
                joined.append(p.as_str());
                return Some(joined);
            },
            _ => {
                return None;
            },
        }
    }
    if filled_text(&home) {
        home
    } else {
        None
    }
}

/// The fallback root: `.sdkman` under the home directory named by the
/// environment when it names one, else under the one the platform reports,
/// else `.sdkman` itself.
pub open spec fn fallback_dir_spec(home_var: Option<Seq<char>>, user_home: Option<Seq<char>>) -> PathV {
    match home_var {
        Some(h) if h.len() > 0 => child_spec(parse_spec(h), ".sdkman"@),
        _ => match user_home {
            Some(u) => child_spec(parse_spec(u), ".sdkman"@),
            None => parse_spec(".sdkman"@),
        },
    }
}

/// The root: the override variable's value when it is set, else the fallback.
pub open spec fn sdkman_dir_spec(
    dir_var: Option<Seq<char>>,
    home_var: Option<Seq<char>>,
    user_home: Option<Seq<char>>,
) -> PathV {
    match dir_var {
        Some(d) => parse_spec(d),
        None => fallback_dir_spec(home_var, user_home),
    }
}

/// The fallback root, from the home variable's value (when set and valid
/// Unicode) and the platform's home directory (when known).
pub fn fallback_sdkman_dir(home_var: Option<String>, user_home: Option<String>) -> (r: FsPath)
    ensures
        r@ == fallback_dir_spec(opt_view(home_var), opt_view(user_home)),
{
    if let Some(h) = home_var {
        if h.as_str().unicode_len() > 0 {
            return FsPath::parse(h.as_str()).child(".sdkman");
        }
    }
    match user_home {
        Some(u) => FsPath::parse(u.as_str()).child(".sdkman"),
        None => FsPath::parse(".sdkman"),
    }
}

/// The root of the tool's state, from the override variable's value (when set
/// and valid Unicode) or else the fallback.
pub fn infer_sdkman_dir(dir_var: Option<String>, home_var: Option<String>, user_home: Option<String>) -> (r:
    FsPath)
    ensures
        r@ == sdkman_dir_spec(opt_view(dir_var), opt_view(home_var), opt_view(user_home)),
{
    match dir_var {
        Some(d) => FsPath::parse(d.as_str()),
        None => fallback_sdkman_dir(home_var, user_home),
    }
}

/// `<root>/etc/config`, where the root is the override variable's value.
pub open spec fn config_path_spec(dir_var: Option<Seq<char>>) -> Option<PathV> {
    match dir_var {
        Some(d) => Some(child_spec(child_spec(parse_spec(d), "etc"@), "config"@)),
        None => None,
    }
}

/// The configuration file; there is none to edit unless the override
/// variable is set.
pub fn config_path(dir_var: Option<String>) -> (r: Option<FsPath>)
    ensures
        r is Some <==> dir_var is Some,
        r matches Some(p) ==> config_path_spec(opt_view(dir_var)) == Some(p@),
{
    match dir_var {
        Some(d) => Some(FsPath::parse(d.as_str()).child("etc").child("config")),
        None => None,
    }
}

/// `<root>/candidates`
pub open spec fn candidates_dir_spec(root: PathV) -> PathV {
    child_spec(root, "candidates"@)
}

/// `<root>/var/candidates`, the manifest of candidate names.
pub open spec fn manifest_path_spec(root: PathV) -> PathV {
    child_spec(child_spec(root, "var"@), "candidates"@)
}

/// `<root>/candidates/<candidate>`
pub open spec fn candidate_dir_spec(root: PathV, candidate: Seq<char>) -> PathV {
    child_spec(candidates_dir_spec(root), candidate)
}

/// `<root>/candidates/<candidate>/<version>`
pub open spec fn version_path_spec(root: PathV, candidate: Seq<char>, version: Seq<char>) -> PathV {
    child_spec(candidate_dir_spec(root, candidate), version)
}

/// `<root>/candidates/<candidate>/current`
pub open spec fn current_path_spec(root: PathV, candidate: Seq<char>) -> PathV {
    child_spec(candidate_dir_spec(root, candidate), "current"@)
}

/// `<root>/tmp`, the scratch area.
pub open spec fn tmp_dir_spec(root: PathV) -> PathV {
    child_spec(root, "tmp"@)
}

/// `<root>/tmp/<version>`, where a copied version lands.
pub open spec fn tmp_copy_spec(root: PathV, version: Seq<char>) -> PathV {
    child_spec(tmp_dir_spec(root), version)
}

pub fn manifest_path(root: &FsPath) -> (r: FsPath)
    ensures
        r@ == manifest_path_spec(root@),
{
    root.child("var").child("candidates")
}

pub fn candidate_dir(root: &FsPath, candidate: &str) -> (r: FsPath)
    ensures
        r@ == candidate_dir_spec(root@, candidate@),
{
    root.child("candidates").child(candidate)
}

/// The path of an installed version; nothing is checked on disk.
pub fn version_path(root: &FsPath, candidate: &str, version: &str) -> (r: FsPath)
    ensures
        r@ == version_path_spec(root@, candidate@, version@),
{
    candidate_dir(root, candidate).child(version)
}

pub fn current_path(root: &FsPath, candidate: &str) -> (r: FsPath)
    ensures
        r@ == current_path_spec(root@, candidate@),
{
    candidate_dir(root, candidate).child("current")
}

pub fn tmp_dir(root: &FsPath) -> (r: FsPath)
    ensures
        r@ == tmp_dir_spec(root@),
{
    root.child("tmp")
}

pub fn tmp_copy_path(root: &FsPath, version: &str) -> (r: FsPath)
    ensures
        r@ == tmp_copy_spec(root@, version@),
{
    tmp_dir(root).child(version)
}

/// Names that can stand for an installed version of a candidate: each one
/// component of its own, and the version not the pointer's name.
pub open spec fn installable(candidate: Seq<char>, version: Seq<char>) -> bool {
    is_plain_name(candidate) && is_plain_name(version) && version != "current"@
}

/// Whether the names are [`installable`].
pub fn installable_names(candidate: &str, version: &str) -> (r: bool)
    ensures
        r == installable(candidate@, version@),
{
    is_plain_name_text(candidate) && is_plain_name_text(version) && !String::from_str(version).eq(
        &String::from_str("current"),
    )
}

/// Accepts the version path only where the names are installable and a
/// directory stands there.
pub fn validate_version_path(version_path: FsPath, kind: EntryKind, candidate: &str, version: &str) -> (r:
    Result<FsPath, CliError>)
    ensures
        r is Ok <==> (kind == EntryKind::Dir && installable(candidate@, version@)),
        r matches Ok(p) ==> p@ == version_path@,
        r matches Err(e) ==> (e matches CliError::NotInstalled { candidate: c, version: v } && c@
            == candidate@ && v@ == version@),
{
    if kind == EntryKind::Dir && installable_names(candidate, version) {
        Ok(version_path)
    } else {
        Err(
            CliError::NotInstalled {
                candidate: String::from_str(candidate),
                version: String::from_str(version),
            },
        )
    }
}

} // verus!
