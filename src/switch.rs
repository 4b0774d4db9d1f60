//! Repointing a candidate's current version, step by step.
use vstd::prelude::*;
use crate::error::CliError;
use crate::layout::{current_path, current_path_spec, tmp_copy_path, tmp_copy_spec, tmp_dir, tmp_dir_spec, version_path, version_path_spec};
use crate::ops::{opt_op_view, FsOp, FsOpV};
use crate::path::{FsPath, PathV};
use crate::pointer::{CurrentPointer, PointerV};

verus! {

/// Where a switch of the current version stands.
#[derive(PartialEq, Eq, Structural, Debug, Clone, Copy)]
pub enum SwitchStage {
    /// Removing the old pointer as a link.
    Unlinking,
    /// Removing the old pointer as a directory.
    Clearing,
    /// Creating the link to the new version.
    Linking,
    /// Copying the new version into the scratch area.
    Copying,
    /// Moving the copy into place as the pointer.
    Placing,
    /// Done: the pointer is a link.
    Linked,
    /// Done: the pointer is a copy.
    Copied,
    /// Stopped: the old pointer could not be removed.
    ClearFailed,
    /// Stopped: the version could not be copied.
    CopyFailed,
    /// Stopped: the copy could not be moved into place.
    PlaceFailed,
}

/// How a switch succeeded.
#[derive(PartialEq, Eq, Structural, Debug, Clone, Copy)]
pub enum SwitchOutcome {
    Symlinked,
    CopiedFallback,
}

/// The paths a switch works on.
pub struct SwitchPathsV {
    pub version_path: PathV,
    pub current: PathV,
    pub tmp_dir: PathV,
    pub tmp_copy: PathV,
}

pub open spec fn switch_paths_spec(root: PathV, candidate: Seq<char>, version: Seq<char>) -> SwitchPathsV {
    SwitchPathsV {
        version_path: version_path_spec(root, candidate, version),
        current: current_path_spec(root, candidate),
        tmp_dir: tmp_dir_spec(root),
        tmp_copy: tmp_copy_spec(root, version),
    }
}

/// A switch removes an existing pointer, of whatever kind, before linking.
pub open spec fn switch_first(p: PointerV) -> SwitchStage {
    match p {
        PointerV::Absent => SwitchStage::Linking,
        _ => SwitchStage::Unlinking,
    }
}

/// The stage after the current one's operation succeeded (`ok`) or failed.
pub open spec fn switch_next(s: SwitchStage, ok: bool) -> SwitchStage {
    match s {
        SwitchStage::Unlinking => if ok {
            SwitchStage::Linking
        } else {
            SwitchStage::Clearing
        },
        SwitchStage::Clearing => if ok {
            SwitchStage::Linking
        } else {
            SwitchStage::ClearFailed
        },
        SwitchStage::Linking => if ok {
            SwitchStage::Linked
        } else {
            SwitchStage::Copying
        },
        SwitchStage::Copying => if ok {
            SwitchStage::Placing
        } else {
            SwitchStage::CopyFailed
        },
        SwitchStage::Placing => if ok {
            SwitchStage::Copied
        } else {
            SwitchStage::PlaceFailed
        },
        _ => s,
    }
}

/// The operation a stage asks for; none once the switch is over.
pub open spec fn switch_op(s: SwitchStage, p: SwitchPathsV) -> Option<FsOpV> {
    match s {
        SwitchStage::Unlinking => Some(FsOpV::RemoveLink(p.current)),
        SwitchStage::Clearing => Some(FsOpV::RemoveTree(p.current)),
        SwitchStage::Linking => Some(FsOpV::CreateLink { target: p.version_path, link: p.current }),
        SwitchStage::Copying => Some(FsOpV::CopyInto { source: p.version_path, dest_dir: p.tmp_dir }),
        SwitchStage::Placing => Some(FsOpV::Rename { from: p.tmp_copy, to: p.current }),
        _ => None,
    }
}

/// A switch of a candidate's current version, driven by its caller: the caller
/// performs each operation that `next_op` names and reports the result to
/// `advance`, until `outcome` is given.
pub struct Switch {
    pub candidate: String,
    pub version_path: FsPath,
    pub current: FsPath,
    pub tmp_dir: FsPath,
    pub tmp_copy: FsPath,
    pub stage: SwitchStage,
    /// The last failure reported.
    pub detail: String,
}

impl Switch {
    pub open spec fn paths(&self) -> SwitchPathsV {
        SwitchPathsV {
            version_path: self.version_path@,
            current: self.current@,
            tmp_dir: self.tmp_dir@,
            tmp_copy: self.tmp_copy@,
        }
    }

    /// Begins a switch of `candidate` to `version`, whose pointer is in the
    /// state given. The candidate and the version are to be validated first.
    pub fn start(root: &FsPath, candidate: &str, version: &str, pointer: &CurrentPointer) -> (r:
        Switch)
        ensures
            r.paths() == switch_paths_spec(root@, candidate@, version@),
            r.stage == switch_first(pointer@),
            r.candidate@ == candidate@,
    {
        let stage = match pointer {
            CurrentPointer::Absent => SwitchStage::Linking,
            _ => SwitchStage::Unlinking,
        };
        Switch {
            candidate: String::from_str(candidate),
            version_path: version_path(root, candidate, version),
            current: current_path(root, candidate),
            tmp_dir: tmp_dir(root),
            tmp_copy: tmp_copy_path(root, version),
            stage,
            detail: String::new(),
        }
    }

    /// The operation to perform now, if any.
    pub fn next_op(&self) -> (r: Option<FsOp>)
        ensures
            opt_op_view(r) == switch_op(self.stage, self.paths()),
    {
        match self.stage {
            SwitchStage::Unlinking => Some(FsOp::RemoveLink(self.current.duplicate())),
            SwitchStage::Clearing => Some(FsOp::RemoveTree(self.current.duplicate())),
            SwitchStage::Linking => Some(
                FsOp::CreateLink {
                    target: self.version_path.duplicate(),
                    link: self.current.duplicate(),
                },
            ),
            SwitchStage::Copying => Some(
                FsOp::CopyInto {
                    source: self.version_path.duplicate(),
                    dest_dir: self.tmp_dir.duplicate(),
                },
            ),
            SwitchStage::Placing => Some(
                FsOp::Rename { from: self.tmp_copy.duplicate(), to: self.current.duplicate() },
            ),
            _ => None,
        }
    }

    /// Takes the result of the operation last named.
    pub fn advance(&mut self, result: Result<(), String>)
        ensures
            final(self).stage == switch_next(old(self).stage, result is Ok),
            final(self).paths() == old(self).paths(),
            final(self).candidate == old(self).candidate,
            result matches Err(e) ==> final(self).detail == e,
            result is Ok ==> final(self).detail == old(self).detail,
    {
        let ok = result.is_ok();
        if let Err(e) = result {
            self.detail = e;
        }
        self.stage = match self.stage {
            SwitchStage::Unlinking => if ok {
                SwitchStage::Linking
            } else {
                SwitchStage::Clearing
            },
            SwitchStage::Clearing => if ok {
                SwitchStage::Linking
            } else {
                SwitchStage::ClearFailed
            },
            SwitchStage::Linking => if ok {
                SwitchStage::Linked
            } else {
                SwitchStage::Copying
            },
            SwitchStage::Copying => if ok {
                SwitchStage::Placing
            } else {
                SwitchStage::CopyFailed
            },
            SwitchStage::Placing => if ok {
                SwitchStage::Copied
            } else {
                SwitchStage::PlaceFailed
            },
            s => s,
        };
    }

    /// How the switch ended, once it has.
    pub fn outcome(&self) -> (r: Option<Result<SwitchOutcome, CliError>>)
        ensures
            r is None <==> switch_op(self.stage, self.paths()) is Some,
            r matches Some(Ok(o)) ==> (o == SwitchOutcome::Symlinked <==> self.stage
                == SwitchStage::Linked),
            r matches Some(Ok(o)) ==> (o == SwitchOutcome::CopiedFallback <==> self.stage
                == SwitchStage::Copied),
            r matches Some(Ok(_)) <==> (self.stage == SwitchStage::Linked || self.stage
                == SwitchStage::Copied),
            r matches Some(Err(e)) ==> (self.stage == SwitchStage::ClearFailed <==> (e matches CliError::PointerRemoval { candidate: c, detail: d } && c == self.candidate && d == self.detail)),
            r matches Some(Err(e)) ==> (self.stage == SwitchStage::CopyFailed <==> (e matches CliError::CopyFailed { detail: d } && d == self.detail)),
            r matches Some(Err(e)) ==> (self.stage == SwitchStage::PlaceFailed <==> (e matches CliError::RenameFailed { detail: d } && d == self.detail)),
    {
        match self.stage {
            SwitchStage::Linked => Some(Ok(SwitchOutcome::Symlinked)),
            SwitchStage::Copied => Some(Ok(SwitchOutcome::CopiedFallback)),
            SwitchStage::ClearFailed => Some(
                Err(
                    CliError::PointerRemoval {
                        candidate: self.candidate.clone(),
                        detail: self.detail.clone(),
                    },
                ),
            ),
            SwitchStage::CopyFailed => Some(Err(CliError::CopyFailed { detail: self.detail.clone() })),
            SwitchStage::PlaceFailed => Some(
                Err(CliError::RenameFailed { detail: self.detail.clone() }),
            ),
            _ => None,
        }
    }
}

} // verus!
