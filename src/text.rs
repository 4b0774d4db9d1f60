//! Splitting and trimming text.
use vstd::prelude::*;
use crate::path::split_text;
use crate::path::split_on;

verus! {

/// The characters with the Unicode `White_Space` property.
pub open spec fn is_white_space(c: char) -> bool {
    let u = c as u32;
    (9 <= u <= 13) || u == 32 || u == 0x85 || u == 0xA0 || u == 0x1680 || (0x2000 <= u
        <= 0x200A) || u == 0x2028 || u == 0x2029 || u == 0x202F || u == 0x205F || u == 0x3000
}

/// Whether `c` is whitespace.
pub fn white_space(c: char) -> (r: bool)
    ensures
        r == is_white_space(c),
{
    let u = c as u32;
    (9 <= u && u <= 13) || u == 32 || u == 0x85 || u == 0xA0 || u == 0x1680 || (0x2000 <= u
        && u <= 0x200A) || u == 0x2028 || u == 0x2029 || u == 0x202F || u == 0x205F || u
        == 0x3000
}

/// `s` without its leading whitespace.
pub open spec fn trim_start(s: Seq<char>) -> Seq<char>
    decreases s.len(),
{
    if s.len() > 0 && is_white_space(s[0]) {
        trim_start(s.drop_first())
    } else {
        s
    }
}

/// `s` without its trailing whitespace.
pub open spec fn trim_end(s: Seq<char>) -> Seq<char>
    decreases s.len(),
{
    if s.len() > 0 && is_white_space(s.last()) {
        trim_end(s.drop_last())
    } else {
        s
    }
}

/// `s` without whitespace at either end.
pub open spec fn trim_spec(s: Seq<char>) -> Seq<char> {
    trim_end(trim_start(s))
}

/// Removes whitespace at both ends of `s`.
pub fn trim(s: &str) -> (r: String)
    ensures
        r@ == trim_spec(s@),
{
    let n = s.unicode_len();
    let mut i: usize = 0;
    proof {
        assert(s@.subrange(0, n as int) =~= s@);
    }
    while i < n && white_space(s.get_char(i))
        invariant
            n == s@.len(),
            i <= n,
            trim_start(s@) == trim_start(s@.subrange(i as int, n as int)),
        decreases n - i,
    {
        proof {
            assert(s@.subrange(i as int, n as int).drop_first() =~= s@.subrange(
                i as int + 1,
                n as int,
            ));
        }
        i = i + 1;
    }
    proof {
        assert(s@.subrange(0, n as int) =~= s@);
        assert(trim_start(s@) == s@.subrange(i as int, n as int));
    }
    let mut j: usize = n;
    while j > i && white_space(s.get_char(j - 1))
        invariant
            n == s@.len(),
            i <= j <= n,
            trim_spec(s@) == trim_end(s@.subrange(i as int, j as int)),
        decreases j,
    {
        proof {
            assert(s@.subrange(i as int, j as int).drop_last() =~= s@.subrange(
                i as int,
                j as int - 1,
            ));
        }
        j = j - 1;
    }
    String::from_str(s.substring_char(i, j))
}

/// A piece of the manifest, trimmed, if anything is left of it.
pub open spec fn name_of(p: Seq<char>) -> Option<Seq<char>> {
    if trim_spec(p).len() > 0 {
        Some(trim_spec(p))
    } else {
        None
    }
}

/// The candidate names in a manifest: comma-separated, each trimmed, empty ones
/// dropped, in the order written.
pub open spec fn candidate_names(content: Seq<char>) -> Seq<Seq<char>> {
    split_on(content, ',').filter_map(|p: Seq<char>| name_of(p))
}

/// Reads the candidate names of a manifest.
pub fn parse_candidates(content: &str) -> (r: Vec<String>)
    ensures
        r@.map_values(|p: String| p@) == candidate_names(content@),
{
    let pieces = split_text(content, ',');
    let ghost all = pieces@.map_values(|p: String| p@);
    let mut names: Vec<String> = Vec::new();
    let mut i: usize = 0;
    while i < pieces.len()
        invariant
            i <= pieces.len(),
            all == pieces@.map_values(|p: String| p@),
            names@.map_values(|p: String| p@) == all.subrange(0, i as int).filter_map(
                |p: Seq<char>| name_of(p),
            ),
        decreases pieces.len() - i,
    {
        let t = trim(pieces[i].as_str());
        let ghost sub = all.subrange(0, i as int + 1);
        proof {
            assert(sub.drop_last() =~= all.subrange(0, i as int));
            assert(sub.last() == pieces@[i as int]@);
        }
        if t.as_str().unicode_len() > 0 {
            let ghost prev = names@;
            names.push(t);
            proof {
                assert(names@.map_values(|p: String| p@) =~= prev.map_values(|p: String| p@).push(
                    t@,
                ));
                assert(names@.map_values(|p: String| p@) =~= sub.filter_map(
                    |p: Seq<char>| name_of(p),
                ));
            }
        } else {
            proof {
                assert(names@.map_values(|p: String| p@) =~= sub.filter_map(
                    |p: Seq<char>| name_of(p),
                ));
            }
        }
        i = i + 1;
    }
    proof {
        assert(all.subrange(0, pieces.len() as int) =~= all);
    }
    names
}

} // verus!
