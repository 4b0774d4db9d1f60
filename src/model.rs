//! A model of the filesystem and of the operations the library asks for.
//!
//! Paths are held as their components, link targets as written and parsed.
//! The model follows a link once; its operations succeed exactly when the
//! conditions each one names hold, and link creation succeeds only where the
//! host allows links.
use vstd::prelude::*;
use crate::layout::current_path_spec;
use crate::ops::FsOpV;
use crate::path::{file_name_spec, is_plain_name, join_spec, lemma_split_plain, parse_spec, part_pred, PathV};
use crate::pointer::{resolve_spec, PointerV};
use crate::switch::{switch_first, switch_next, switch_op, switch_paths_spec, SwitchPathsV, SwitchStage};
use crate::uninstall::{guard_spec, uninstall_first, uninstall_next, uninstall_op, uninstall_paths_spec, UninstallPathsV, UninstallStage};

verus! {

/// An entry of the filesystem as the laws below see it.
pub enum Node {
    Dir,
    File,
    /// A symbolic link, with its target as written.
    Link(PathV),
}

/// A filesystem: what stands at each path.
pub type Tree = Map<PathV, Node>;

/// `q` is `p` or lies inside it.
pub open spec fn within(p: PathV, q: PathV) -> bool {
    p.absolute == q.absolute && p.parts.len() <= q.parts.len() && q.parts.subrange(
        0,
        p.parts.len() as int,
    ) == p.parts
}

/// The directory that holds `p`.
pub open spec fn parent(p: PathV) -> PathV {
    PathV { absolute: p.absolute, parts: p.parts.drop_last() }
}

/// What stands at `p`, a link followed once (a link to a link is not followed
/// further).
pub open spec fn follow(fs: Tree, p: PathV) -> Option<Node> {
    if !fs.contains_key(p) {
        None
    } else {
        match fs[p] {
            Node::Link(t) => {
                let q = join_spec(parent(p), t);
                if fs.contains_key(q) {
                    Some(fs[q])
                } else {
                    None
                }
            },
            n => Some(n),
        }
    }
}

/// The state of the pointer at `p`, as a look at it reveals it.
pub open spec fn model_pointer(fs: Tree, p: PathV) -> PointerV {
    if !fs.contains_key(p) {
        PointerV::Absent
    } else {
        match fs[p] {
            Node::Link(t) => if follow(fs, p) is Some {
                PointerV::Linked(t)
            } else {
                PointerV::Broken
            },
            Node::Dir => PointerV::Fallback,
            Node::File => PointerV::Other,
        }
    }
}

/// `fs` without `p` and what lies inside it.
pub open spec fn remove_within(fs: Tree, p: PathV) -> Tree {
    Map::new(|q: PathV| fs.contains_key(q) && !within(p, q), |q: PathV| fs[q])
}

/// The path under `from` that `q`, under `to`, corresponds to.
pub open spec fn source_of(q: PathV, from: PathV, to: PathV) -> PathV {
    PathV {
        absolute: from.absolute,
        parts: from.parts + q.parts.subrange(to.parts.len() as int, q.parts.len() as int),
    }
}

/// `fs` with the tree at `from` copied to `to`.
pub open spec fn copy_tree(fs: Tree, from: PathV, to: PathV) -> Tree {
    Map::new(
        |q: PathV|
            if within(to, q) {
                fs.contains_key(source_of(q, from, to))
            } else {
                fs.contains_key(q)
            },
        |q: PathV|
            if within(to, q) {
                fs[source_of(q, from, to)]
            } else {
                fs[q]
            },
    )
}

/// `fs` with the tree at `from` moved to `to`.
pub open spec fn move_tree(fs: Tree, from: PathV, to: PathV) -> Tree {
    remove_within(copy_tree(fs, from, to), from)
}

/// The effect of an operation, and whether it succeeded; `links_ok` says
/// whether the host lets symbolic links be created.
pub open spec fn apply(fs: Tree, op: FsOpV, links_ok: bool) -> (Tree, bool) {
    match op {
        FsOpV::RemoveLink(p) => if fs.contains_key(p) && !(fs[p] is Dir) {
            (fs.remove(p), true)
        } else {
            (fs, false)
        },
        FsOpV::RemoveTree(p) => if fs.contains_key(p) && fs[p] is Dir {
            (remove_within(fs, p), true)
        } else if fs.contains_key(p) && fs[p] is Link {
            (fs.remove(p), true)
        } else {
            (fs, false)
        },
        FsOpV::CreateLink { target, link } => if links_ok && !fs.contains_key(link) {
            (fs.insert(link, Node::Link(target)), true)
        } else {
            (fs, false)
        },
        FsOpV::CopyInto { source, dest_dir } => match file_name_spec(source) {
            Some(n) => {
                let dest = PathV { absolute: dest_dir.absolute, parts: dest_dir.parts.push(n) };
                if fs.contains_key(source) && fs[source] is Dir && fs.contains_key(dest_dir)
                    && fs[dest_dir] is Dir && !fs.contains_key(dest) {
                    (copy_tree(fs, source, dest), true)
                } else {
                    (fs, false)
                }
            },
            None => (fs, false),
        },
        FsOpV::Rename { from, to } => if fs.contains_key(from) && !fs.contains_key(to) && !within(
            from,
            to,
        ) {
            (move_tree(fs, from, to), true)
        } else {
            (fs, false)
        },
    }
}

/// A switch run from `stage` to its end, each operation applied to `fs`.
pub open spec fn run_switch(fs: Tree, stage: SwitchStage, p: SwitchPathsV, links_ok: bool, fuel: nat) -> (
    Tree,
    SwitchStage,
)
    decreases fuel,
{
    if fuel == 0 {
        (fs, stage)
    } else {
        match switch_op(stage, p) {
            Some(op) => {
                let (fs2, ok) = apply(fs, op, links_ok);
                run_switch(fs2, switch_next(stage, ok), p, links_ok, (fuel - 1) as nat)
            },
            None => (fs, stage),
        }
    }
}

/// Setting `version` as the current version of `candidate` on `fs`.
pub open spec fn set_current_model(
    fs: Tree,
    root: PathV,
    candidate: Seq<char>,
    version: Seq<char>,
    links_ok: bool,
) -> (Tree, SwitchStage) {
    let p = switch_paths_spec(root, candidate, version);
    run_switch(fs, switch_first(model_pointer(fs, p.current)), p, links_ok, 5)
}

/// An uninstall run from `stage` to its end, each operation applied to `fs`.
pub open spec fn run_uninstall(fs: Tree, stage: UninstallStage, p: UninstallPathsV, fuel: nat) -> (
    Tree,
    UninstallStage,
)
    decreases fuel,
{
    if fuel == 0 {
        (fs, stage)
    } else {
        match uninstall_op(stage, p) {
            Some(op) => {
                let (fs2, ok) = apply(fs, op, true);
                run_uninstall(fs2, uninstall_next(stage, ok), p, (fuel - 1) as nat)
            },
            None => (fs, stage),
        }
    }
}

/// Removing `version` of `candidate` from `fs` behind the guard.
pub open spec fn guarded_remove_model(
    fs: Tree,
    root: PathV,
    candidate: Seq<char>,
    version: Seq<char>,
    force: bool,
) -> (Tree, UninstallStage) {
    let p = uninstall_paths_spec(root, candidate, version);
    let action = guard_spec(p.candidate_dir, p.version_path, model_pointer(fs, p.current), force);
    run_uninstall(fs, uninstall_first(action), p, 3)
}

/// The current version of `candidate` on `fs`.
pub open spec fn resolve_model(fs: Tree, root: PathV, candidate: Seq<char>) -> Option<Seq<char>> {
    resolve_spec(model_pointer(fs, current_path_spec(root, candidate)))
}

/// A plain name is one relative component.
pub proof fn lemma_plain_parse(s: Seq<char>)
    requires
        is_plain_name(s),
    ensures
        parse_spec(s) == (PathV { absolute: false, parts: seq![s] }),
{
    lemma_split_plain(s, '/');
    reveal(Seq::filter);
    assert(seq![s].drop_last() =~= Seq::<Seq<char>>::empty());
    assert(part_pred()(s));
    assert(seq![s].filter(part_pred()) =~= seq![s]);
    assert(!(s[0] == '/')) by {
        if s[0] == '/' {
            assert(s.contains('/'));
        }
    }
}

/// The fixed names of the layout are plain and distinct.
pub proof fn lemma_layout_names()
    ensures
        is_plain_name("candidates"@),
        is_plain_name("current"@),
        is_plain_name("tmp"@),
        "candidates"@ != "tmp"@,
{
    reveal_strlit("candidates");
    reveal_strlit("current");
    reveal_strlit("tmp");
    assert("candidates"@.len() != seq!['.'].len());
    assert("candidates"@.len() != seq!['.', '.'].len());
    assert("current"@.len() != seq!['.'].len());
    assert("current"@.len() != seq!['.', '.'].len());
    assert("tmp"@.len() != seq!['.'].len());
    assert("tmp"@.len() != seq!['.', '.'].len());
    assert("candidates"@.len() != "tmp"@.len());
}

} // verus!
