//! `sdk current`: the current version of one candidate, or of all.
use vstd::prelude::*;
use crate::error::CliError;
use crate::path::opt_view;

verus! {

/// Arguments of `sdk current`.
pub struct Args {
    /// The candidate to ask about; all candidates when absent.
    pub candidate: Option<String>,
}

/// The current version of one candidate, or the error that it has none.
pub fn current_of(candidate: &str, version: Option<String>) -> (r: Result<String, CliError>)
    ensures
        r is Ok <==> version is Some,
        r matches Ok(v) ==> opt_view(version) == Some(v@),
        r matches Err(e) ==> (e matches CliError::NoCurrentVersion { candidate: c } && c@
            == candidate@),
{
    match version {
        Some(v) => Ok(v),
        None => Err(CliError::NoCurrentVersion { candidate: String::from_str(candidate) }),
    }
}


/// Whether `a` comes no later than `b` when their characters are compared in
/// turn by code point, a prefix first.
pub open spec fn text_le(a: Seq<char>, b: Seq<char>) -> bool
    decreases a.len(),
{
    if a.len() == 0 {
        true
    } else if b.len() == 0 {
        false
    } else if a[0] != b[0] {
        (a[0] as int) < (b[0] as int)
    } else {
        text_le(a.drop_first(), b.drop_first())
    }
}

/// Of two texts, one comes no later than the other.
pub proof fn lemma_text_le_total(a: Seq<char>, b: Seq<char>)
    ensures
        text_le(a, b) || text_le(b, a),
    decreases a.len(),
{
    if a.len() > 0 && b.len() > 0 && a[0] == b[0] {
        lemma_text_le_total(a.drop_first(), b.drop_first());
    } else if a.len() > 0 && b.len() > 0 {
        assert((a[0] as int) != (b[0] as int));
    }
}

/// Compares two texts by [`text_le`].
pub fn text_le_exec(a: &String, b: &String) -> (r: bool)
    ensures
        r == text_le(a@, b@),
{
    let n = a.as_str().unicode_len();
    let m = b.as_str().unicode_len();
    let mut i: usize = 0;
    proof {
        assert(a@.subrange(0, n as int) =~= a@);
        assert(b@.subrange(0, m as int) =~= b@);
    }
    while i < n && i < m
        invariant
            n == a@.len(),
            m == b@.len(),
            i <= n,
            i <= m,
            text_le(a@, b@) == text_le(a@.subrange(i as int, n as int), b@.subrange(i as int, m as int)),
        decreases n - i,
    {
        let x = a.as_str().get_char(i);
        let y = b.as_str().get_char(i);
        let ghost sa = a@.subrange(i as int, n as int);
        let ghost sb = b@.subrange(i as int, m as int);
        proof {
            assert(sa[0] == x);
            assert(sb[0] == y);
        }
        if x != y {
            return (x as u32) < (y as u32);
        }
        proof {
            assert(sa.drop_first() =~= a@.subrange(i as int + 1, n as int));
            assert(sb.drop_first() =~= b@.subrange(i as int + 1, m as int));
        }
        i = i + 1;
    }
    proof {
        assert(a@.subrange(0, n as int) =~= a@);
        assert(b@.subrange(0, m as int) =~= b@);
    }
    i == n
}

/// A candidate and its current version.
pub struct Row {
    pub candidate: String,
    pub version: String,
}

impl View for Row {
    type V = (Seq<char>, Seq<char>);

    open spec fn view(&self) -> (Seq<char>, Seq<char>) {
        (self.candidate@, self.version@)
    }
}

/// The candidates that have a current version, each with it, in the order given.
pub open spec fn in_use(candidates: Seq<Seq<char>>, versions: Seq<Option<Seq<char>>>) -> Seq<
    (Seq<char>, Seq<char>),
>
    decreases candidates.len(),
{
    if candidates.len() == 0 || versions.len() == 0 {
        Seq::empty()
    } else {
        let rest = in_use(candidates.drop_last(), versions.drop_last());
        match versions.last() {
            Some(v) => rest.push((candidates.last(), v)),
            None => rest,
        }
    }
}

/// Each row's candidate comes no later than the next one's.
pub open spec fn sorted_rows(rows: Seq<(Seq<char>, Seq<char>)>) -> bool {
    forall|i: int| 0 <= i < rows.len() - 1 ==> text_le(#[trigger] rows[i].0, rows[i + 1].0)
}

/// The candidates in use with their current versions, ordered by candidate.
/// `versions[i]` is the current version of `candidates[i]`, if it has one.
pub fn current_rows(candidates: &Vec<String>, versions: &Vec<Option<String>>) -> (r: Vec<Row>)
    requires
        candidates.len() == versions.len(),
    ensures
        sorted_rows(r@.map_values(|x: Row| x@)),
        r@.map_values(|x: Row| x@).to_multiset() == in_use(
            candidates@.map_values(|p: String| p@),
            versions@.map_values(|o: Option<String>| opt_view(o)),
        ).to_multiset(),
{
    broadcast use vstd::seq_lib::group_to_multiset_ensures;
    let ghost cs = candidates@.map_values(|p: String| p@);
    let ghost vs = versions@.map_values(|o: Option<String>| opt_view(o));
    let mut rows: Vec<Row> = Vec::new();
    let mut i: usize = 0;
    while i < candidates.len()
        invariant
            i <= candidates.len() == versions.len(),
            cs == candidates@.map_values(|p: String| p@),
            vs == versions@.map_values(|o: Option<String>| opt_view(o)),
            sorted_rows(rows@.map_values(|x: Row| x@)),
            rows@.map_values(|x: Row| x@).to_multiset() == in_use(
                cs.subrange(0, i as int),
                vs.subrange(0, i as int),
            ).to_multiset(),
        decreases candidates.len() - i,
    {
        proof {
            assert(cs.subrange(0, i as int + 1).drop_last() =~= cs.subrange(0, i as int));
            assert(vs.subrange(0, i as int + 1).drop_last() =~= vs.subrange(0, i as int));
            assert(vs.subrange(0, i as int + 1).last() == opt_view(versions@[i as int]));
            assert(cs.subrange(0, i as int + 1).last() == candidates@[i as int]@);
        }
        match &versions[i] {
            Some(v) => {
                let cand = candidates[i].clone();
                let mut pos: usize = 0;
                while pos < rows.len() && text_le_exec(&rows[pos].candidate, &cand)
                    invariant
                        pos <= rows.len(),
                        forall|k: int| 0 <= k < pos ==> text_le(#[trigger] rows@[k].candidate@, cand@),
                    decreases rows.len() - pos,
                {
                    pos = pos + 1;
                }
                let ghost before = rows@.map_values(|x: Row| x@);
                let row = Row { candidate: cand, version: v.clone() };
                rows.insert(pos, row);
                proof {
                    let after = rows@.map_values(|x: Row| x@);
                    assert(after =~= before.insert(pos as int, row@));
                    vstd::seq_lib::to_multiset_insert(before, pos as int, row@);
                    assert(opt_view(versions@[i as int]) == Some(v@));
                    assert(row@ == (cs[i as int], v@));
                    assert(after.to_multiset() =~= before.to_multiset().insert(row@));
                    if pos < before.len() {
                        lemma_text_le_total(row@.0, before[pos as int].0);
                    }
                    assert forall|k: int| 0 <= k < after.len() - 1 implies text_le(
                        #[trigger] after[k].0,
                        after[k + 1].0,
                    ) by {
                        if k < pos as int - 1 {
                            assert(after[k] == before[k]);
                            assert(after[k + 1] == before[k + 1]);
                        } else if k == pos as int - 1 {
                            assert(after[k] == before[k]);
                            assert(before[k].0 == rows@[k].candidate@);
                        } else if k == pos as int {
                        } else {
                            assert(after[k] == before[k - 1]);
                            assert(after[k + 1] == before[k]);
                        }
                    }
                    assert(in_use(cs.subrange(0, i as int + 1), vs.subrange(0, i as int + 1))
                        == in_use(cs.subrange(0, i as int), vs.subrange(0, i as int)).push(row@));
                    vstd::seq_lib::to_multiset_build(
                        in_use(cs.subrange(0, i as int), vs.subrange(0, i as int)),
                        row@,
                    );
                }
            },
            None => {
                proof {
                    assert(in_use(cs.subrange(0, i as int + 1), vs.subrange(0, i as int + 1))
                        == in_use(cs.subrange(0, i as int), vs.subrange(0, i as int)));
                }
            },
        }
        i = i + 1;
    }
    proof {
        assert(cs.subrange(0, i as int) =~= cs);
        assert(vs.subrange(0, i as int) =~= vs);
    }
    rows
}

} // verus!
