//! What switching and guarded removal achieve, proved on the filesystem model.
use vstd::prelude::*;
use crate::layout::{installable, candidate_dir_spec, current_path_spec, tmp_copy_spec, tmp_dir_spec, version_path_spec};
use crate::model::{lemma_layout_names, lemma_plain_parse, within, Tree, Node, follow, model_pointer, remove_within, copy_tree, move_tree, source_of, apply, run_switch, set_current_model, run_uninstall, guarded_remove_model, resolve_model, parent};
use crate::path::{file_name_spec, is_part, is_plain_name, join_spec, lemma_render_parse, render_spec, well_formed, PathV};
use crate::pointer::{inspect_spec, resolve_spec, LinkReadV, PointerV};
use crate::ops::FsOpV;
use crate::switch::{switch_first, switch_paths_spec, SwitchStage};
use crate::uninstall::{denotes, guard_spec, uninstall_first, uninstall_paths_spec, GuardAction, UninstallStage};

verus! {

/// `base` with the components `tail` appended.
pub open spec fn extend(base: PathV, tail: Seq<Seq<char>>) -> PathV {
    PathV { absolute: base.absolute, parts: base.parts + tail }
}

/// The paths of the layout, component by component, for plain names.
pub proof fn lemma_layout_paths(root: PathV, candidate: Seq<char>, version: Seq<char>)
    requires
        is_plain_name(candidate),
        is_plain_name(version),
    ensures
        candidate_dir_spec(root, candidate) == extend(root, seq!["candidates"@, candidate]),
        version_path_spec(root, candidate, version) == extend(
            root,
            seq!["candidates"@, candidate, version],
        ),
        current_path_spec(root, candidate) == extend(root, seq!["candidates"@, candidate, "current"@]),
        tmp_dir_spec(root) == extend(root, seq!["tmp"@]),
        tmp_copy_spec(root, version) == extend(root, seq!["tmp"@, version]),
{
    lemma_layout_names();
    lemma_plain_parse("candidates"@);
    lemma_plain_parse("current"@);
    lemma_plain_parse("tmp"@);
    lemma_plain_parse(candidate);
    lemma_plain_parse(version);
    assert(root.parts + seq!["candidates"@] + seq![candidate] =~= root.parts + seq![
        "candidates"@,
        candidate,
    ]);
    assert(root.parts + seq!["candidates"@] + seq![candidate] + seq![version] =~= root.parts
        + seq!["candidates"@, candidate, version]);
    assert(root.parts + seq!["candidates"@] + seq![candidate] + seq!["current"@] =~= root.parts
        + seq!["candidates"@, candidate, "current"@]);
    assert(root.parts + seq!["tmp"@] + seq![version] =~= root.parts + seq!["tmp"@, version]);
}

/// Paths that differ in a component within the first one's length are apart.
proof fn lemma_not_within(p: PathV, q: PathV, k: int)
    requires
        0 <= k < p.parts.len(),
        k < q.parts.len(),
        p.parts[k] != q.parts[k],
    ensures
        !within(p, q),
{
    if within(p, q) {
        assert(q.parts.subrange(0, p.parts.len() as int)[k] == q.parts[k]);
    }
}


/// The conditions under which a switch's last steps, from the link onwards,
/// are traced below.
pub open spec fn switch_tail_ready(fs: Tree, p: crate::switch::SwitchPathsV, version: Seq<char>) -> bool {
    &&& !fs.contains_key(p.current)
    &&& fs.contains_key(p.version_path)
    &&& fs[p.version_path] is Dir
    &&& p.version_path.absolute
    &&& file_name_spec(p.version_path) == Some(version)
    &&& p.tmp_copy == (PathV { absolute: p.tmp_dir.absolute, parts: p.tmp_dir.parts.push(version) })
    &&& !within(p.current, p.version_path)
    &&& !within(p.tmp_copy, p.version_path)
    &&& !within(p.tmp_copy, p.current)
    &&& !within(p.current, p.tmp_copy)
    &&& !within(p.current, p.tmp_dir)
    &&& !within(p.tmp_copy, p.tmp_dir)
    &&& p.current != p.version_path
}

/// Whether the scratch area can take a copy of the version.
pub open spec fn scratch_ready(fs: Tree, p: crate::switch::SwitchPathsV) -> bool {
    &&& fs.contains_key(p.tmp_dir)
    &&& fs[p.tmp_dir] is Dir
    &&& !fs.contains_key(p.tmp_copy)
}

proof fn lemma_switch_tail(
    fs: Tree,
    p: crate::switch::SwitchPathsV,
    version: Seq<char>,
    links_ok: bool,
    fuel: nat,
)
    requires
        fuel >= 3,
        switch_tail_ready(fs, p, version),
    ensures
        ({
            let (fs2, st) = run_switch(fs, SwitchStage::Linking, p, links_ok, fuel);
            &&& st == SwitchStage::Linked ==> model_pointer(fs2, p.current) == PointerV::Linked(
                p.version_path,
            )
            &&& st == SwitchStage::Copied ==> model_pointer(fs2, p.current) == PointerV::Fallback
            &&& links_ok <==> st == SwitchStage::Linked
            &&& (!links_ok && scratch_ready(fs, p)) ==> st == SwitchStage::Copied
            &&& fs2.contains_key(p.version_path)
            &&& fs2[p.version_path] is Dir
            &&& scratch_ready(fs, p) ==> scratch_ready(fs2, p)
            &&& st == SwitchStage::Linked ==> fs2 == fs.insert(p.current, Node::Link(p.version_path))
            &&& st == SwitchStage::Copied ==> fs2 == move_tree(
                copy_tree(fs, p.version_path, p.tmp_copy),
                p.tmp_copy,
                p.current,
            ) && scratch_ready(fs, p)
        }),
{
    let vp = p.version_path;
    let cur = p.current;
    let td = p.tmp_dir;
    let tc = p.tmp_copy;
    if links_ok {
        let fs_b = fs.insert(cur, Node::Link(vp));
        assert(apply(fs, FsOpV::CreateLink { target: vp, link: cur }, links_ok) == (fs_b, true));
        assert(run_switch(fs, SwitchStage::Linking, p, links_ok, fuel) == run_switch(
            fs_b,
            SwitchStage::Linked,
            p,
            links_ok,
            (fuel - 1) as nat,
        ));
        assert(run_switch(fs_b, SwitchStage::Linked, p, links_ok, (fuel - 1) as nat) == (
            fs_b,
            SwitchStage::Linked,
        ));
        assert(join_spec(parent(cur), vp) == vp);
        assert(follow(fs_b, cur) == Some(Node::Dir));
        if scratch_ready(fs, p) {
            assert(td != cur);
            assert(within(tc, tc)) by {
                assert(tc.parts.subrange(0, tc.parts.len() as int) =~= tc.parts);
            }
            assert(tc != cur);
        }
    } else {
        assert(apply(fs, FsOpV::CreateLink { target: vp, link: cur }, links_ok) == (fs, false));
        assert(run_switch(fs, SwitchStage::Linking, p, links_ok, fuel) == run_switch(
            fs,
            SwitchStage::Copying,
            p,
            links_ok,
            (fuel - 1) as nat,
        ));
        let copy = FsOpV::CopyInto { source: vp, dest_dir: td };
        let (fs_c, ok_c) = apply(fs, copy, links_ok);
        if ok_c {
            assert(fs_c == copy_tree(fs, vp, tc));
            assert(run_switch(fs, SwitchStage::Copying, p, links_ok, (fuel - 1) as nat)
                == run_switch(fs_c, SwitchStage::Placing, p, links_ok, (fuel - 2) as nat));
            assert(within(tc, tc)) by {
                assert(tc.parts.subrange(0, tc.parts.len() as int) =~= tc.parts);
            }
            assert(source_of(tc, vp, tc) == vp) by {
                assert(vp.parts + tc.parts.subrange(tc.parts.len() as int, tc.parts.len() as int)
                    =~= vp.parts);
            }
            assert(fs_c.contains_key(tc));
            assert(!fs_c.contains_key(cur));
            assert(fs_c[vp] == fs[vp]);
            let fs_d = move_tree(fs_c, tc, cur);
            assert(apply(fs_c, FsOpV::Rename { from: tc, to: cur }, links_ok) == (fs_d, true));
            assert(run_switch(fs_c, SwitchStage::Placing, p, links_ok, (fuel - 2) as nat)
                == run_switch(fs_d, SwitchStage::Copied, p, links_ok, (fuel - 3) as nat));
            assert(run_switch(fs_d, SwitchStage::Copied, p, links_ok, (fuel - 3) as nat) == (
                fs_d,
                SwitchStage::Copied,
            ));
            assert(within(cur, cur)) by {
                assert(cur.parts.subrange(0, cur.parts.len() as int) =~= cur.parts);
            }
            assert(source_of(cur, tc, cur) == tc) by {
                assert(tc.parts + cur.parts.subrange(
                    cur.parts.len() as int,
                    cur.parts.len() as int,
                ) =~= tc.parts);
            }
            assert(fs_d.contains_key(cur));
            assert(fs_d[cur] == fs[vp]);
            assert(fs_d.contains_key(vp));
            assert(fs_d[vp] == fs[vp]);
            if scratch_ready(fs, p) {
                assert(!within(tc, td));
                assert(fs_d.contains_key(td));
                assert(!fs_d.contains_key(tc));
            }
        } else {
            assert(run_switch(fs, SwitchStage::Copying, p, links_ok, (fuel - 1) as nat)
                == run_switch(fs, SwitchStage::CopyFailed, p, links_ok, (fuel - 2) as nat));
            assert(run_switch(fs, SwitchStage::CopyFailed, p, links_ok, (fuel - 2) as nat) == (
                fs,
                SwitchStage::CopyFailed,
            ));
        }
    }
}


/// The layout facts a switch of a plain version of a plain candidate rests on.
proof fn lemma_switch_layout(root: PathV, candidate: Seq<char>, version: Seq<char>)
    requires
        root.absolute,
        installable(candidate, version),
    ensures
        ({
            let p = switch_paths_spec(root, candidate, version);
            &&& p.version_path.absolute
            &&& file_name_spec(p.version_path) == Some(version)
            &&& p.tmp_copy == (PathV {
                absolute: p.tmp_dir.absolute,
                parts: p.tmp_dir.parts.push(version),
            })
            &&& !within(p.current, p.version_path)
            &&& !within(p.tmp_copy, p.version_path)
            &&& !within(p.tmp_copy, p.current)
            &&& !within(p.current, p.tmp_copy)
            &&& !within(p.current, p.tmp_dir)
            &&& !within(p.tmp_copy, p.tmp_dir)
            &&& p.current != p.version_path
            &&& p.current != p.tmp_dir
            &&& p.current != p.tmp_copy
            &&& p.current.parts.len() > 0
        }),
{
    let p = switch_paths_spec(root, candidate, version);
    lemma_layout_paths(root, candidate, version);
    lemma_layout_names();
    let n = root.parts.len() as int;
    let vp = p.version_path;
    let cur = p.current;
    let td = p.tmp_dir;
    let tc = p.tmp_copy;
    assert(vp.parts[n + 2] == version);
    assert(cur.parts[n + 2] == "current"@);
    assert(cur.parts[n] == "candidates"@);
    assert(vp.parts[n] == "candidates"@);
    assert(tc.parts[n] == "tmp"@);
    lemma_not_within(cur, vp, n + 2);
    lemma_not_within(tc, vp, n);
    lemma_not_within(tc, cur, n);
    lemma_not_within(cur, tc, n);
    assert(tc.parts =~= td.parts.push(version));
    assert(vp.parts.last() == version);
    assert(cur != vp) by {
        if cur == vp {
            assert(cur.parts[n + 2] == vp.parts[n + 2]);
        }
    }
    assert(cur != tc) by {
        if cur == tc {
            assert(cur.parts[n] == tc.parts[n]);
        }
    }
    assert(cur.parts.len() != td.parts.len());
}

/// `fs` with the entry at `p` removed the way a switch removes a pointer: a
/// directory with all it holds, anything else by itself.
pub open spec fn cleared(fs: Tree, p: PathV) -> Tree {
    if !fs.contains_key(p) {
        fs
    } else if !(fs[p] is Dir) {
        fs.remove(p)
    } else {
        remove_within(fs, p)
    }
}

/// Resolver round trip. Once a switch to an installed version has ended in a
/// link, the candidate's current version is that version; once it has ended
/// in a copy, it is the literal `current`. Where links can be made the switch
/// ends in a link; elsewhere, with the scratch area free for the copy, in a
/// copy. The version stays installed, and a free scratch area stays free.
pub proof fn law_switch_then_resolve(
    fs: Tree,
    root: PathV,
    candidate: Seq<char>,
    version: Seq<char>,
    links_ok: bool,
)
    requires
        root.absolute,
        installable(candidate, version),
        fs.contains_key(version_path_spec(root, candidate, version)),
        fs[version_path_spec(root, candidate, version)] is Dir,
    ensures
        ({
            let (fs2, st) = set_current_model(fs, root, candidate, version, links_ok);
            let p = switch_paths_spec(root, candidate, version);
            &&& st == SwitchStage::Linked ==> resolve_model(fs2, root, candidate) == Some(version)
            &&& st == SwitchStage::Copied ==> resolve_model(fs2, root, candidate) == Some(
                "current"@,
            )
            &&& links_ok <==> st == SwitchStage::Linked
            &&& (!links_ok && scratch_ready(fs, p)) ==> st == SwitchStage::Copied
            &&& fs2.contains_key(p.version_path)
            &&& fs2[p.version_path] is Dir
            &&& scratch_ready(fs, p) ==> scratch_ready(fs2, p)
            &&& st == SwitchStage::Linked ==> fs2 == cleared(fs, p.current).insert(
                p.current,
                Node::Link(p.version_path),
            )
            &&& st == SwitchStage::Copied ==> fs2 == move_tree(
                copy_tree(cleared(fs, p.current), p.version_path, p.tmp_copy),
                p.tmp_copy,
                p.current,
            ) && scratch_ready(fs, p)
        }),
{
    let p = switch_paths_spec(root, candidate, version);
    lemma_switch_layout(root, candidate, version);
    let cl = cleared(fs, p.current);
    assert(scratch_ready(cl, p) == scratch_ready(fs, p)) by {
        if fs.contains_key(p.current) && fs[p.current] is Dir {
            assert(cl.contains_key(p.tmp_dir) == fs.contains_key(p.tmp_dir));
            assert(cl.contains_key(p.tmp_copy) == fs.contains_key(p.tmp_copy));
        }
    }
    let vp = p.version_path;
    let cur = p.current;
    let first = switch_first(model_pointer(fs, cur));
    if !fs.contains_key(cur) {
        assert(first == SwitchStage::Linking);
        lemma_switch_tail(fs, p, version, links_ok, 5);
    } else if !(fs[cur] is Dir) {
        assert(first == SwitchStage::Unlinking);
        let fs_a = fs.remove(cur);
        assert(apply(fs, FsOpV::RemoveLink(cur), links_ok) == (fs_a, true));
        assert(run_switch(fs, first, p, links_ok, 5) == run_switch(
            fs_a,
            SwitchStage::Linking,
            p,
            links_ok,
            4,
        ));
        lemma_switch_tail(fs_a, p, version, links_ok, 4);
    } else {
        assert(first == SwitchStage::Unlinking);
        let fs_a = remove_within(fs, cur);
        assert(apply(fs, FsOpV::RemoveLink(cur), links_ok) == (fs, false));
        assert(apply(fs, FsOpV::RemoveTree(cur), links_ok) == (fs_a, true));
        assert(run_switch(fs, first, p, links_ok, 5) == run_switch(
            fs,
            SwitchStage::Clearing,
            p,
            links_ok,
            4,
        ));
        assert(run_switch(fs, SwitchStage::Clearing, p, links_ok, 4) == run_switch(
            fs_a,
            SwitchStage::Linking,
            p,
            links_ok,
            3,
        ));
        assert(within(cur, cur)) by {
            assert(cur.parts.subrange(0, cur.parts.len() as int) =~= cur.parts);
        }
        assert(!fs_a.contains_key(cur));
        lemma_switch_tail(fs_a, p, version, links_ok, 3);
    }
}


/// Copying the version into place again, after clearing the copy that is
/// there, gives back the same tree.
proof fn lemma_copy_twice(a: Tree, root: PathV, candidate: Seq<char>, version: Seq<char>)
    requires
        installable(candidate, version),
    ensures
        ({
            let p = switch_paths_spec(root, candidate, version);
            let fs1 = move_tree(copy_tree(a, p.version_path, p.tmp_copy), p.tmp_copy, p.current);
            move_tree(
                copy_tree(remove_within(fs1, p.current), p.version_path, p.tmp_copy),
                p.tmp_copy,
                p.current,
            ) == fs1
        }),
{
    let p = switch_paths_spec(root, candidate, version);
    lemma_layout_paths(root, candidate, version);
    lemma_layout_names();
    let n = root.parts.len() as int;
    let vp = p.version_path;
    let cur = p.current;
    let tc = p.tmp_copy;
    let c1 = copy_tree(a, vp, tc);
    let fs1 = move_tree(c1, tc, cur);
    let r = remove_within(fs1, cur);
    let c2 = copy_tree(r, vp, tc);
    let fs2 = move_tree(c2, tc, cur);
    assert(cur.parts[n] == "candidates"@);
    assert(vp.parts[n] == "candidates"@);
    assert(tc.parts[n] == "tmp"@);
    assert(cur.parts[n + 2] == "current"@);
    assert(vp.parts[n + 2] == version);
    assert forall|q: PathV| #[trigger] fs2.contains_key(q) == fs1.contains_key(q) && (fs1.contains_key(q) ==> fs2[q] == fs1[q]) by {
        if within(cur, q) {
            assert(q.parts.subrange(0, cur.parts.len() as int)[n] == q.parts[n]);
            lemma_not_within(tc, q, n);
            let rest = q.parts.subrange(cur.parts.len() as int, q.parts.len() as int);
            let s1 = source_of(q, tc, cur);
            let s2 = source_of(s1, vp, tc);
            assert(s1.parts =~= tc.parts + rest);
            assert(s1.parts.subrange(0, tc.parts.len() as int) =~= tc.parts);
            assert(within(tc, s1));
            assert(s1.parts.subrange(tc.parts.len() as int, s1.parts.len() as int) =~= rest);
            assert(s2.parts =~= vp.parts + rest);
            assert(s2.parts[n] == vp.parts[n]);
            assert(s2.parts[n + 2] == vp.parts[n + 2]);
            lemma_not_within(cur, s2, n + 2);
            lemma_not_within(tc, s2, n);
            assert(fs1.contains_key(q) == c1.contains_key(s1));
            assert(fs2.contains_key(q) == c2.contains_key(s1));
            assert(r.contains_key(s2) == fs1.contains_key(s2));
            assert(fs1.contains_key(s2) == a.contains_key(s2));
        } else if within(tc, q) {
            assert(!fs1.contains_key(q));
            assert(!fs2.contains_key(q));
        } else {
            assert(fs2.contains_key(q) == r.contains_key(q));
        }
    }
    assert(fs2 =~= fs1);
}

/// Whether a switch ended well.
pub open spec fn switched(st: SwitchStage) -> bool {
    st == SwitchStage::Linked || st == SwitchStage::Copied
}

/// Idempotence of switch. Switching a candidate to the same installed version
/// twice in a row, where the first switch succeeds, ends the same way the
/// second time and leaves the filesystem exactly as the first left it, so the
/// same current version resolves after each call, whether the calls link or
/// copy.
pub proof fn law_switch_idempotent(
    fs: Tree,
    root: PathV,
    candidate: Seq<char>,
    version: Seq<char>,
    links_ok: bool,
)
    requires
        root.absolute,
        installable(candidate, version),
        fs.contains_key(version_path_spec(root, candidate, version)),
        fs[version_path_spec(root, candidate, version)] is Dir,
    ensures
        ({
            let (fs1, st1) = set_current_model(fs, root, candidate, version, links_ok);
            let (fs2, st2) = set_current_model(fs1, root, candidate, version, links_ok);
            let p = switch_paths_spec(root, candidate, version);
            &&& links_ok ==> st1 == SwitchStage::Linked && st2 == SwitchStage::Linked
            &&& (!links_ok && scratch_ready(fs, p)) ==> st1 == SwitchStage::Copied && st2
                == SwitchStage::Copied
            &&& switched(st1) ==> st2 == st1 && fs2 == fs1
            &&& switched(st1) ==> resolve_model(fs1, root, candidate) == resolve_model(
                fs2,
                root,
                candidate,
            )
        }),
{
    let p = switch_paths_spec(root, candidate, version);
    let (fs1, st1) = set_current_model(fs, root, candidate, version, links_ok);
    let (fs2, st2) = set_current_model(fs1, root, candidate, version, links_ok);
    law_switch_then_resolve(fs, root, candidate, version, links_ok);
    law_switch_then_resolve(fs1, root, candidate, version, links_ok);
    if st1 == SwitchStage::Linked {
        assert(cleared(fs1, p.current) == fs1.remove(p.current));
        assert(fs2 =~= fs1);
    } else if st1 == SwitchStage::Copied {
        assert(fs1[p.current] is Dir);
        lemma_copy_twice(cleared(fs, p.current), root, candidate, version);
    }
}


/// Whether the candidate's pointer is a link that denotes `version`.
pub open spec fn is_current_version(fs: Tree, root: PathV, candidate: Seq<char>, version: Seq<char>) -> bool {
    match model_pointer(fs, current_path_spec(root, candidate)) {
        PointerV::Linked(t) => denotes(
            candidate_dir_spec(root, candidate),
            t,
            version_path_spec(root, candidate, version),
        ),
        _ => false,
    }
}

/// Guard blocks by default. Where the version is the current one, removing it
/// without the override is refused, and the filesystem is left as it was.
pub proof fn law_guard_blocks(fs: Tree, root: PathV, candidate: Seq<char>, version: Seq<char>)
    requires
        is_current_version(fs, root, candidate, version),
    ensures
        guarded_remove_model(fs, root, candidate, version, false) == (fs, UninstallStage::Protected),
{
    let p = uninstall_paths_spec(root, candidate, version);
    assert(guard_spec(p.candidate_dir, p.version_path, model_pointer(fs, p.current), false)
        == GuardAction::Protected);
    assert(run_uninstall(fs, UninstallStage::Protected, p, 3) == (fs, UninstallStage::Protected));
}

/// The layout facts an uninstall of a plain version of a plain candidate
/// rests on.
proof fn lemma_uninstall_layout(root: PathV, candidate: Seq<char>, version: Seq<char>)
    requires
        installable(candidate, version),
    ensures
        ({
            let p = uninstall_paths_spec(root, candidate, version);
            &&& !within(p.version_path, p.current)
            &&& p.current != p.version_path
            &&& within(p.version_path, p.version_path)
            &&& within(p.current, p.current)
        }),
{
    let p = uninstall_paths_spec(root, candidate, version);
    lemma_layout_paths(root, candidate, version);
    lemma_layout_names();
    let n = root.parts.len() as int;
    assert(p.version_path.parts[n + 2] == version);
    assert(p.current.parts[n + 2] == "current"@);
    lemma_not_within(p.version_path, p.current, n + 2);
    assert(p.version_path.parts.subrange(0, p.version_path.parts.len() as int)
        =~= p.version_path.parts);
    assert(p.current.parts.subrange(0, p.current.parts.len() as int) =~= p.current.parts);
}

/// Guard permits with force. Removing the current version with the override
/// removes both the pointer and the version directory, and afterwards the
/// candidate has no current version.
pub proof fn law_guard_force_removes(fs: Tree, root: PathV, candidate: Seq<char>, version: Seq<char>)
    requires
        installable(candidate, version),
        fs.contains_key(version_path_spec(root, candidate, version)),
        fs[version_path_spec(root, candidate, version)] is Dir,
        is_current_version(fs, root, candidate, version),
    ensures
        ({
            let (fs2, st) = guarded_remove_model(fs, root, candidate, version, true);
            &&& st == UninstallStage::Removed
            &&& !fs2.contains_key(current_path_spec(root, candidate))
            &&& !fs2.contains_key(version_path_spec(root, candidate, version))
            &&& resolve_model(fs2, root, candidate) is None
        }),
{
    let p = uninstall_paths_spec(root, candidate, version);
    lemma_uninstall_layout(root, candidate, version);
    let cur = p.current;
    let vp = p.version_path;
    assert(guard_spec(p.candidate_dir, vp, model_pointer(fs, cur), true) == GuardAction::ClearPointer);
    assert(fs[cur] is Link);
    let fs1 = fs.remove(cur);
    assert(apply(fs, FsOpV::RemoveLink(cur), true) == (fs1, true));
    assert(run_uninstall(fs, UninstallStage::Unlinking, p, 3) == run_uninstall(
        fs1,
        UninstallStage::Deleting,
        p,
        2,
    ));
    let fs2 = remove_within(fs1, vp);
    assert(apply(fs1, FsOpV::RemoveTree(vp), true) == (fs2, true));
    assert(run_uninstall(fs1, UninstallStage::Deleting, p, 2) == run_uninstall(
        fs2,
        UninstallStage::Removed,
        p,
        1,
    ));
    assert(run_uninstall(fs2, UninstallStage::Removed, p, 1) == (fs2, UninstallStage::Removed));
    assert(!fs2.contains_key(cur));
    assert(!fs2.contains_key(vp));
}

/// Non-current uninstall is unaffected by the guard. Removing an installed
/// version that is not the current one succeeds, with or without the
/// override, and leaves the pointer as it was, with all it holds when it is a
/// real directory.
pub proof fn law_non_current_keeps_pointer(
    fs: Tree,
    root: PathV,
    candidate: Seq<char>,
    version: Seq<char>,
    force: bool,
)
    requires
        installable(candidate, version),
        fs.contains_key(version_path_spec(root, candidate, version)),
        fs[version_path_spec(root, candidate, version)] is Dir,
        !is_current_version(fs, root, candidate, version),
    ensures
        ({
            let (fs2, st) = guarded_remove_model(fs, root, candidate, version, force);
            let cur = current_path_spec(root, candidate);
            &&& st == UninstallStage::Removed
            &&& !fs2.contains_key(version_path_spec(root, candidate, version))
            &&& forall|q: PathV|
                within(cur, q) ==> (#[trigger] fs2.contains_key(q) == fs.contains_key(q) && (
                fs.contains_key(q) ==> fs2[q] == fs[q]))
        }),
{
    let p = uninstall_paths_spec(root, candidate, version);
    lemma_uninstall_layout(root, candidate, version);
    let cur = p.current;
    let vp = p.version_path;
    let action = guard_spec(p.candidate_dir, vp, model_pointer(fs, cur), force);
    assert(action == GuardAction::StepOver || action == GuardAction::Proceed);
    assert(uninstall_first(action) == UninstallStage::Deleting);
    let fs2 = remove_within(fs, vp);
    assert(apply(fs, FsOpV::RemoveTree(vp), true) == (fs2, true));
    assert(run_uninstall(fs, UninstallStage::Deleting, p, 3) == run_uninstall(
        fs2,
        UninstallStage::Removed,
        p,
        2,
    ));
    assert(run_uninstall(fs2, UninstallStage::Removed, p, 2) == (fs2, UninstallStage::Removed));
    lemma_layout_paths(root, candidate, version);
    let n = root.parts.len() as int;
    assert forall|q: PathV| within(cur, q) implies !within(vp, q) by {
        assert(q.parts.subrange(0, cur.parts.len() as int)[n + 2] == cur.parts[n + 2]);
        assert(cur.parts[n + 2] == "current"@);
        assert(vp.parts[n + 2] == version);
        lemma_not_within(vp, q, n + 2);
    }
}


/// Resolver round trip through the link's text. A switch that links writes
/// the version path's text as the link's target; that target, read back and
/// inspected, resolves to the version, and the guard then sees that version
/// as the current one.
pub proof fn law_link_text_resolves(root: PathV, candidate: Seq<char>, version: Seq<char>)
    requires
        root.absolute,
        well_formed(root),
        is_plain_name(candidate),
        is_plain_name(version),
    ensures
        ({
            let vp = version_path_spec(root, candidate, version);
            let seen = inspect_spec(true, true, LinkReadV::Target(render_spec(vp)));
            &&& seen == PointerV::Linked(vp)
            &&& resolve_spec(seen) == Some(version)
            &&& guard_spec(candidate_dir_spec(root, candidate), vp, seen, false)
                == GuardAction::Protected
        }),
{
    lemma_layout_paths(root, candidate, version);
    lemma_layout_names();
    let vp = version_path_spec(root, candidate, version);
    let tail = seq!["candidates"@, candidate, version];
    assert forall|i: int| 0 <= i < vp.parts.len() implies is_part(#[trigger] vp.parts[i])
        && !vp.parts[i].contains('/') by {
        if i >= root.parts.len() {
            assert(vp.parts[i] == tail[i - root.parts.len()]);
        } else {
            assert(vp.parts[i] == root.parts[i]);
        }
    }
    lemma_render_parse(vp);
    assert(vp.parts.last() == version);
    assert(join_spec(candidate_dir_spec(root, candidate), vp) == vp);
}

} // verus!
