//! The guard on removing a version, and the removal itself.
use vstd::prelude::*;
use crate::error::CliError;
use crate::layout::{candidate_dir, candidate_dir_spec, current_path, current_path_spec, version_path, version_path_spec};
use crate::ops::{opt_op_view, FsOp, FsOpV};
use crate::path::{join_spec, FsPath, PathV};
use crate::pointer::{CurrentPointer, PointerV};

verus! {

/// What the guard decides before a version is removed.
#[derive(PartialEq, Eq, Structural, Debug, Clone, Copy)]
pub enum GuardAction {
    /// The version is current and no override was given: nothing is touched.
    Protected,
    /// The version is current and the override was given: the pointer goes first.
    ClearPointer,
    /// The pointer is broken, a real directory, or something unexpected:
    /// report it and remove the version.
    StepOver,
    /// The pointer links to another version, or there is none: remove the version.
    Proceed,
}

/// Whether a link target, taken relative to the candidate directory, denotes
/// the version path.
pub open spec fn denotes(candidate_dir: PathV, target: PathV, version_path: PathV) -> bool {
    join_spec(candidate_dir, target) == version_path
}

pub open spec fn guard_spec(candidate_dir: PathV, version_path: PathV, pointer: PointerV, force: bool) -> GuardAction {
    match pointer {
        PointerV::Linked(t) => if denotes(candidate_dir, t, version_path) {
            if force {
                GuardAction::ClearPointer
            } else {
                GuardAction::Protected
            }
        } else {
            GuardAction::Proceed
        },
        PointerV::Broken => GuardAction::StepOver,
        PointerV::Fallback => GuardAction::StepOver,
        PointerV::Other => GuardAction::StepOver,
        PointerV::Absent => GuardAction::Proceed,
    }
}

/// Decides whether the version at `version_path` may be removed, given the
/// state of the candidate's pointer.
pub fn guard(candidate_dir: &FsPath, version_path: &FsPath, pointer: &CurrentPointer, force: bool) -> (r:
    GuardAction)
    ensures
        r == guard_spec(candidate_dir@, version_path@, pointer@, force),
{
    match pointer {
        CurrentPointer::Linked(t) => {
            let resolved = candidate_dir.join(t);
            if resolved.same_as(version_path) {
                if force {
                    GuardAction::ClearPointer
                } else {
                    GuardAction::Protected
                }
            } else {
                GuardAction::Proceed
            }
        },
        CurrentPointer::Broken => GuardAction::StepOver,
        CurrentPointer::Fallback => GuardAction::StepOver,
        CurrentPointer::Other => GuardAction::StepOver,
        CurrentPointer::Absent => GuardAction::Proceed,
    }
}

/// Where an uninstall stands.
#[derive(PartialEq, Eq, Structural, Debug, Clone, Copy)]
pub enum UninstallStage {
    /// Stopped by the guard; nothing was touched.
    Protected,
    /// Removing the pointer as a link.
    Unlinking,
    /// Removing the pointer as a directory.
    Clearing,
    /// Removing the version directory.
    Deleting,
    /// Done: the version is gone.
    Removed,
    /// Stopped: the pointer could not be removed.
    ClearFailed,
    /// Stopped: the version directory could not be removed.
    DeleteFailed,
}

pub open spec fn uninstall_first(a: GuardAction) -> UninstallStage {
    match a {
        GuardAction::Protected => UninstallStage::Protected,
        GuardAction::ClearPointer => UninstallStage::Unlinking,
        _ => UninstallStage::Deleting,
    }
}

pub open spec fn uninstall_next(s: UninstallStage, ok: bool) -> UninstallStage {
    match s {
        UninstallStage::Unlinking => if ok {
            UninstallStage::Deleting
        } else {
            UninstallStage::Clearing
        },
        UninstallStage::Clearing => if ok {
            UninstallStage::Deleting
        } else {
            UninstallStage::ClearFailed
        },
        UninstallStage::Deleting => if ok {
            UninstallStage::Removed
        } else {
            UninstallStage::DeleteFailed
        },
        _ => s,
    }
}

/// The paths an uninstall works on.
pub struct UninstallPathsV {
    pub candidate_dir: PathV,
    pub version_path: PathV,
    pub current: PathV,
}

pub open spec fn uninstall_paths_spec(root: PathV, candidate: Seq<char>, version: Seq<char>) -> UninstallPathsV {
    UninstallPathsV {
        candidate_dir: candidate_dir_spec(root, candidate),
        version_path: version_path_spec(root, candidate, version),
        current: current_path_spec(root, candidate),
    }
}

pub open spec fn uninstall_op(s: UninstallStage, p: UninstallPathsV) -> Option<FsOpV> {
    match s {
        UninstallStage::Unlinking => Some(FsOpV::RemoveLink(p.current)),
        UninstallStage::Clearing => Some(FsOpV::RemoveTree(p.current)),
        UninstallStage::Deleting => Some(FsOpV::RemoveTree(p.version_path)),
        _ => None,
    }
}

/// The removal of an installed version behind the guard, driven by its
/// caller as a [`crate::switch::Switch`] is.
pub struct Uninstall {
    pub candidate: String,
    pub version: String,
    pub candidate_dir: FsPath,
    pub version_path: FsPath,
    pub current: FsPath,
    pub stage: UninstallStage,
    /// The guard stepped over a pointer that is broken or not a link to a
    /// version; the caller reports it.
    pub stepped_over: bool,
    /// The last failure reported.
    pub detail: String,
}

impl Uninstall {
    pub open spec fn paths(&self) -> UninstallPathsV {
        UninstallPathsV {
            candidate_dir: self.candidate_dir@,
            version_path: self.version_path@,
            current: self.current@,
        }
    }

    /// Begins the removal of `version` of `candidate`, whose pointer is in the
    /// state given; `force` overrides the guard. The candidate and the version
    /// are to be validated first.
    pub fn start(
        root: &FsPath,
        candidate: &str,
        version: &str,
        pointer: &CurrentPointer,
        force: bool,
    ) -> (r: Uninstall)
        ensures
            r.paths() == uninstall_paths_spec(root@, candidate@, version@),
            r.stage == uninstall_first(
                guard_spec(r.paths().candidate_dir, r.paths().version_path, pointer@, force),
            ),
            r.stepped_over == (guard_spec(
                r.paths().candidate_dir,
                r.paths().version_path,
                pointer@,
                force,
            ) == GuardAction::StepOver),
            r.candidate@ == candidate@,
            r.version@ == version@,
    {
        let candidate_dir = candidate_dir(root, candidate);
        let version_path = version_path(root, candidate, version);
        let action = guard(&candidate_dir, &version_path, pointer, force);
        let stage = match action {
            GuardAction::Protected => UninstallStage::Protected,
            GuardAction::ClearPointer => UninstallStage::Unlinking,
            _ => UninstallStage::Deleting,
        };
        Uninstall {
            candidate: String::from_str(candidate),
            version: String::from_str(version),
            candidate_dir,
            version_path,
            current: current_path(root, candidate),
            stage,
            stepped_over: action == GuardAction::StepOver,
            detail: String::new(),
        }
    }

    /// The operation to perform now, if any.
    pub fn next_op(&self) -> (r: Option<FsOp>)
        ensures
            opt_op_view(r) == uninstall_op(self.stage, self.paths()),
    {
        match self.stage {
            UninstallStage::Unlinking => Some(FsOp::RemoveLink(self.current.duplicate())),
            UninstallStage::Clearing => Some(FsOp::RemoveTree(self.current.duplicate())),
            UninstallStage::Deleting => Some(FsOp::RemoveTree(self.version_path.duplicate())),
            _ => None,
        }
    }

    /// Takes the result of the operation last named.
    pub fn advance(&mut self, result: Result<(), String>)
        ensures
            final(self).stage == uninstall_next(old(self).stage, result is Ok),
            final(self).paths() == old(self).paths(),
            final(self).candidate == old(self).candidate,
            final(self).version == old(self).version,
            final(self).stepped_over == old(self).stepped_over,
            result matches Err(e) ==> final(self).detail == e,
            result is Ok ==> final(self).detail == old(self).detail,
    {
        let ok = result.is_ok();
        if let Err(e) = result {
            self.detail = e;
        }
        self.stage = match self.stage {
            UninstallStage::Unlinking => if ok {
                UninstallStage::Deleting
            } else {
                UninstallStage::Clearing
            },
            UninstallStage::Clearing => if ok {
                UninstallStage::Deleting
            } else {
                UninstallStage::ClearFailed
            },
            UninstallStage::Deleting => if ok {
                UninstallStage::Removed
            } else {
                UninstallStage::DeleteFailed
            },
            s => s,
        };
    }

    /// How the uninstall ended, once it has.
    pub fn outcome(&self) -> (r: Option<Result<(), CliError>>)
        ensures
            r is None <==> uninstall_op(self.stage, self.paths()) is Some,
            r matches Some(Ok(_)) <==> self.stage == UninstallStage::Removed,
            r matches Some(Err(e)) ==> (self.stage == UninstallStage::Protected <==> (e matches CliError::CurrentVersionProtected { candidate: c, version: v } && c == self.candidate && v == self.version)),
            r matches Some(Err(e)) ==> (self.stage == UninstallStage::ClearFailed <==> (e matches CliError::PointerRemoval { candidate: c, detail: d } && c == self.candidate && d == self.detail)),
            r matches Some(Err(e)) ==> (self.stage == UninstallStage::DeleteFailed <==> (e matches CliError::DeleteFailed { path: p, detail: d } && p@ == crate::path::render_spec(self.version_path@) && d == self.detail)),
    {
        match self.stage {
            UninstallStage::Removed => Some(Ok(())),
            UninstallStage::Protected => Some(
                Err(
                    CliError::CurrentVersionProtected {
                        candidate: self.candidate.clone(),
                        version: self.version.clone(),
                    },
                ),
            ),
            UninstallStage::ClearFailed => Some(
                Err(
                    CliError::PointerRemoval {
                        candidate: self.candidate.clone(),
                        detail: self.detail.clone(),
                    },
                ),
            ),
            UninstallStage::DeleteFailed => Some(
                Err(
                    CliError::DeleteFailed {
                        path: self.version_path.to_text(),
                        detail: self.detail.clone(),
                    },
                ),
            ),
            _ => None,
        }
    }
}

} // verus!
