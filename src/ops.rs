//! The filesystem operations that the library asks its caller to perform.
use vstd::prelude::*;
use crate::path::{FsPath, PathV};

verus! {

/// A change to the filesystem that a switch or an uninstall asks its caller
/// to carry out, reporting back whether it succeeded.
pub enum FsOp {
    /// Remove the entry if it is not a directory (a link, as a rule).
    RemoveLink(FsPath),
    /// Remove the directory and all it holds, or a link itself.
    RemoveTree(FsPath),
    /// Create a symbolic link at `link` pointing at `target`.
    CreateLink { target: FsPath, link: FsPath },
    /// Copy the directory `source` into `dest_dir`, under its own name.
    CopyInto { source: FsPath, dest_dir: FsPath },
    /// Move the entry at `from` to `to`.
    Rename { from: FsPath, to: FsPath },
}

pub enum FsOpV {
    RemoveLink(PathV),
    RemoveTree(PathV),
    CreateLink { target: PathV, link: PathV },
    CopyInto { source: PathV, dest_dir: PathV },
    Rename { from: PathV, to: PathV },
}

impl View for FsOp {
    type V = FsOpV;

    open spec fn view(&self) -> FsOpV {
        match self {
            FsOp::RemoveLink(p) => FsOpV::RemoveLink(p@),
            FsOp::RemoveTree(p) => FsOpV::RemoveTree(p@),
            FsOp::CreateLink { target, link } => FsOpV::CreateLink { target: target@, link: link@ },
            FsOp::CopyInto { source, dest_dir } => FsOpV::CopyInto {
                source: source@,
                dest_dir: dest_dir@,
            },
            FsOp::Rename { from, to } => FsOpV::Rename { from: from@, to: to@ },
        }
    }
}

/// The operation inside an optional one.
pub open spec fn opt_op_view(o: Option<FsOp>) -> Option<FsOpV> {
    match o {
        Some(op) => Some(op@),
        None => None,
    }
}

} // verus!
