//! The current pointer: its states, and the version it names.
use vstd::prelude::*;
use crate::path::{file_name_spec, opt_view, parse_spec, FsPath, PathV};

verus! {

/// What reading the current pointer as a symbolic link gave.
pub enum LinkRead {
    /// The entry is missing or is not a link.
    NotALink,
    /// A link, with its raw target.
    Target(String),
    /// A link whose target is not valid Unicode.
    UnreadableTarget,
}

pub enum LinkReadV {
    NotALink,
    Target(Seq<char>),
    UnreadableTarget,
}

impl View for LinkRead {
    type V = LinkReadV;

    open spec fn view(&self) -> LinkReadV {
        match self {
            LinkRead::NotALink => LinkReadV::NotALink,
            LinkRead::Target(t) => LinkReadV::Target(t@),
            LinkRead::UnreadableTarget => LinkReadV::UnreadableTarget,
        }
    }
}

/// One look at the current pointer's path.
pub struct PointerProbe {
    /// Something stands there, links followed.
    pub exists: bool,
    /// A directory stands there, links followed.
    pub is_dir: bool,
    /// The entry itself read as a link.
    pub link: LinkRead,
}

/// The states of a current pointer.
pub enum CurrentPointer {
    /// Nothing is there.
    Absent,
    /// A link whose target does not exist.
    Broken,
    /// A link to an existing entry, with its target as written.
    Linked(FsPath),
    /// A real directory, left by a switch that had to copy.
    Fallback,
    /// Something else: a regular file, or a link whose target cannot be read.
    Other,
}

pub enum PointerV {
    Absent,
    Broken,
    Linked(PathV),
    Fallback,
    Other,
}

impl View for CurrentPointer {
    type V = PointerV;

    open spec fn view(&self) -> PointerV {
        match self {
            CurrentPointer::Absent => PointerV::Absent,
            CurrentPointer::Broken => PointerV::Broken,
            CurrentPointer::Linked(t) => PointerV::Linked(t@),
            CurrentPointer::Fallback => PointerV::Fallback,
            CurrentPointer::Other => PointerV::Other,
        }
    }
}

/// The state that a look at the pointer reveals.
pub open spec fn inspect_spec(exists: bool, is_dir: bool, link: LinkReadV) -> PointerV {
    match link {
        LinkReadV::Target(t) => if exists {
            PointerV::Linked(parse_spec(t))
        } else {
            PointerV::Broken
        },
        LinkReadV::UnreadableTarget => if exists {
            PointerV::Other
        } else {
            PointerV::Broken
        },
        LinkReadV::NotALink => if !exists {
            PointerV::Absent
        } else if is_dir {
            PointerV::Fallback
        } else {
            PointerV::Other
        },
    }
}

/// Classifies a look at the current pointer.
pub fn inspect(probe: PointerProbe) -> (r: CurrentPointer)
    ensures
        r@ == inspect_spec(probe.exists, probe.is_dir, probe.link@),
{
    match probe.link {
        LinkRead::Target(t) => if probe.exists {
            CurrentPointer::Linked(FsPath::parse(t.as_str()))
        } else {
            CurrentPointer::Broken
        },
        LinkRead::UnreadableTarget => if probe.exists {
            CurrentPointer::Other
        } else {
            CurrentPointer::Broken
        },
        LinkRead::NotALink => if !probe.exists {
            CurrentPointer::Absent
        } else if probe.is_dir {
            CurrentPointer::Fallback
        } else {
            CurrentPointer::Other
        },
    }
}

/// The version that a pointer names: the last component of a link's target as
/// written, or the literal `current` for a real directory.
pub open spec fn resolve_spec(p: PointerV) -> Option<Seq<char>> {
    match p {
        PointerV::Linked(t) => file_name_spec(t),
        PointerV::Fallback => Some("current"@),
        _ => None,
    }
}

/// The current version of a candidate, from the state of its pointer.
pub fn resolve_current(pointer: &CurrentPointer) -> (r: Option<String>)
    ensures
        opt_view(r) == resolve_spec(pointer@),
{
    match pointer {
        CurrentPointer::Linked(t) => t.file_name(),
        CurrentPointer::Fallback => Some(String::from_str("current")),
        _ => None,
    }
}

} // verus!
