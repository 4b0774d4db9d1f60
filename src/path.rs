//! Filesystem paths as sequences of components.
use vstd::prelude::*;

verus! {

/// The pieces of `s` between occurrences of `sep`, scanned from the left.
/// An empty text gives one empty piece.
pub open spec fn split_on(s: Seq<char>, sep: char) -> Seq<Seq<char>>
    decreases s.len(),
{
    if s.len() == 0 {
        seq![Seq::<char>::empty()]
    } else {
        let rest = split_on(s.drop_last(), sep);
        if s.last() == sep {
            rest.push(Seq::<char>::empty())
        } else {
            rest.update(rest.len() - 1, rest.last().push(s.last()))
        }
    }
}

pub proof fn lemma_split_on_nonempty(s: Seq<char>, sep: char)
    ensures
        split_on(s, sep).len() >= 1,
    decreases s.len(),
{
    if s.len() > 0 {
        lemma_split_on_nonempty(s.drop_last(), sep);
    }
}

/// Splits `s` at every `sep`.
pub fn split_text(s: &str, sep: char) -> (r: Vec<String>)
    ensures
        r@.map_values(|p: String| p@) == split_on(s@, sep),
{
    let n = s.unicode_len();
    let mut pieces: Vec<String> = Vec::new();
    let mut start: usize = 0;
    let mut i: usize = 0;
    proof {
        assert(s@.subrange(0, 0) =~= Seq::<char>::empty());
        assert(pieces@.map_values(|p: String| p@).push(s@.subrange(0, 0)) =~= split_on(
            Seq::<char>::empty(),
            sep,
        ));
    }
    while i < n
        invariant
            n == s@.len(),
            start <= i <= n,
            pieces@.map_values(|p: String| p@).push(s@.subrange(start as int, i as int))
                == split_on(s@.subrange(0, i as int), sep),
        decreases n - i,
    {
        let c = s.get_char(i);
        let ghost before = pieces@.map_values(|p: String| p@);
        proof {
            lemma_split_on_nonempty(s@.subrange(0, i as int), sep);
            assert(s@.subrange(0, i as int + 1).drop_last() =~= s@.subrange(0, i as int));
            assert(s@.subrange(0, i as int + 1).last() == c);
        }
        if c == sep {
            let piece = String::from_str(s.substring_char(start, i));
            let ghost prev = pieces@;
            pieces.push(piece);
            proof {
                assert(pieces@.map_values(|p: String| p@) =~= prev.map_values(|p: String| p@).push(piece@));
            }
            start = i + 1;
            proof {
                assert(s@.subrange(start as int, i as int + 1) =~= Seq::<char>::empty());
                assert(pieces@.map_values(|p: String| p@).push(s@.subrange(start as int, i as int + 1))
                    =~= split_on(s@.subrange(0, i as int + 1), sep));
            }
        } else {
            proof {
                assert(s@.subrange(start as int, i as int + 1) =~= s@.subrange(start as int, i as int).push(c));
                assert(before.push(s@.subrange(start as int, i as int + 1))
                    =~= split_on(s@.subrange(0, i as int + 1), sep));
            }
        }
        i = i + 1;
    }
    let piece = String::from_str(s.substring_char(start, n));
    let ghost prev = pieces@;
    pieces.push(piece);
    proof {
        assert(s@.subrange(0, n as int) =~= s@);
        assert(pieces@.map_values(|p: String| p@) =~= prev.map_values(|p: String| p@).push(piece@));
    }
    pieces
}


/// A component that names an entry: neither empty nor `.`.
pub open spec fn is_part(p: Seq<char>) -> bool {
    p.len() > 0 && p != seq!['.']
}

/// The components of a path text, with empty ones and `.` dropped.
pub open spec fn parse_parts(s: Seq<char>) -> Seq<Seq<char>> {
    split_on(s, '/').filter(part_pred())
}

/// [`is_part`] as a predicate value.
pub open spec fn part_pred() -> spec_fn(Seq<char>) -> bool {
    |p: Seq<char>| is_part(p)
}

/// What a path denotes: whether it starts at the root, and its components.
pub struct PathV {
    pub absolute: bool,
    pub parts: Seq<Seq<char>>,
}

/// The meaning of a path text.
pub open spec fn parse_spec(s: Seq<char>) -> PathV {
    PathV { absolute: s.len() > 0 && s[0] == '/', parts: parse_parts(s) }
}

/// `rel` taken relative to `base`; an absolute `rel` replaces `base`.
pub open spec fn join_spec(base: PathV, rel: PathV) -> PathV {
    if rel.absolute {
        rel
    } else {
        PathV { absolute: base.absolute, parts: base.parts + rel.parts }
    }
}

/// `base` extended by the path text `name`.
pub open spec fn child_spec(base: PathV, name: Seq<char>) -> PathV {
    join_spec(base, parse_spec(name))
}

/// The last component, unless there is none or it is `..`.
pub open spec fn file_name_spec(p: PathV) -> Option<Seq<char>> {
    if p.parts.len() == 0 || p.parts.last() == seq!['.', '.'] {
        None
    } else {
        Some(p.parts.last())
    }
}

/// The components joined by `/`.
pub open spec fn join_parts(parts: Seq<Seq<char>>) -> Seq<char>
    decreases parts.len(),
{
    if parts.len() == 0 {
        Seq::empty()
    } else if parts.len() == 1 {
        parts[0]
    } else {
        join_parts(parts.drop_last()) + seq!['/'] + parts.last()
    }
}

/// The text of a path: a leading `/` when absolute, then the components.
pub open spec fn render_spec(p: PathV) -> Seq<char> {
    if p.absolute {
        seq!['/'] + join_parts(p.parts)
    } else {
        join_parts(p.parts)
    }
}

/// A text with no separator that names an entry: a single component.
pub open spec fn is_plain_name(s: Seq<char>) -> bool {
    is_part(s) && s != seq!['.', '.'] && !s.contains('/')
}

/// The text inside an optional string.
pub open spec fn opt_view(o: Option<String>) -> Option<Seq<char>> {
    match o {
        Some(s) => Some(s@),
        None => None,
    }
}

/// Every component names an entry and holds no separator, as the components
/// of a parsed path do.
pub open spec fn well_formed(p: PathV) -> bool {
    forall|i: int| 0 <= i < p.parts.len() ==> is_part(#[trigger] p.parts[i]) && !p.parts[i].contains('/')
}

/// No piece of a split holds the separator.
pub proof fn lemma_split_free(s: Seq<char>, sep: char)
    ensures
        forall|i: int|
            0 <= i < split_on(s, sep).len() ==> !(#[trigger] split_on(s, sep)[i]).contains(sep),
    decreases s.len(),
{
    if s.len() > 0 {
        lemma_split_free(s.drop_last(), sep);
        lemma_split_on_nonempty(s.drop_last(), sep);
        let rest = split_on(s.drop_last(), sep);
        if s.last() != sep {
            let grown = rest.last().push(s.last());
            assert(!grown.contains(sep)) by {
                if grown.contains(sep) {
                    let k = choose|k: int| 0 <= k < grown.len() && grown[k] == sep;
                    if k < rest.last().len() {
                        assert(rest.last()[k] == sep);
                        assert(rest[rest.len() - 1].contains(sep));
                    }
                }
            }
        } else {
            assert(!Seq::<char>::empty().contains(sep));
        }
    }
}

/// The components of a parsed path name entries and hold no separator.
pub proof fn lemma_parse_well_formed(s: Seq<char>)
    ensures
        well_formed(parse_spec(s)),
{
    let pieces = split_on(s, '/');
    let kept = pieces.filter(part_pred());
    lemma_split_free(s, '/');
    assert forall|i: int| 0 <= i < kept.len() implies is_part(#[trigger] kept[i]) && !kept[i].contains(
        '/',
    ) by {
        pieces.lemma_filter_pred(part_pred(), i);
        assert(kept.contains(kept[i]));
        pieces.lemma_filter_contains_rev(part_pred(), kept[i]);
        let j = choose|j: int| 0 <= j < pieces.len() && pieces[j] == kept[i];
        assert(!pieces[j].contains('/'));
    }
}

/// Splitting at a separator splits the two sides apart.
pub proof fn lemma_split_concat(a: Seq<char>, b: Seq<char>, sep: char)
    ensures
        split_on(a + seq![sep] + b, sep) == split_on(a, sep) + split_on(b, sep),
    decreases b.len(),
{
    let s = a + seq![sep] + b;
    if b.len() == 0 {
        assert(s.drop_last() =~= a);
        assert(b =~= Seq::<char>::empty());
        assert(split_on(s, sep) =~= split_on(a, sep) + split_on(b, sep));
    } else {
        assert(s.drop_last() =~= a + seq![sep] + b.drop_last());
        assert(s.last() == b.last());
        lemma_split_concat(a, b.drop_last(), sep);
        lemma_split_on_nonempty(b.drop_last(), sep);
        assert(split_on(s, sep) =~= split_on(a, sep) + split_on(b, sep));
    }
}

/// A text without separators is split into itself.
pub proof fn lemma_split_plain(s: Seq<char>, sep: char)
    requires
        !s.contains(sep),
    ensures
        split_on(s, sep) == seq![s],
    decreases s.len(),
{
    if s.len() == 0 {
        assert(s =~= Seq::<char>::empty());
    } else {
        assert(!s.drop_last().contains(sep)) by {
            if s.drop_last().contains(sep) {
                let i = choose|i: int| 0 <= i < s.drop_last().len() && s.drop_last()[i] == sep;
                assert(s[i] == sep);
            }
        }
        lemma_split_plain(s.drop_last(), sep);
        assert(s.last() != sep) by {
            assert(s[s.len() - 1] == s.last());
        }
        assert(s.drop_last().push(s.last()) =~= s);
        assert(split_on(s, sep) =~= seq![s]);
    }
}

/// Joined components split back into themselves.
pub proof fn lemma_split_joined(parts: Seq<Seq<char>>)
    requires
        parts.len() > 0,
        forall|i: int| 0 <= i < parts.len() ==> !(#[trigger] parts[i]).contains('/'),
    ensures
        split_on(join_parts(parts), '/') == parts,
    decreases parts.len(),
{
    if parts.len() == 1 {
        lemma_split_plain(parts[0], '/');
        assert(parts =~= seq![parts[0]]);
    } else {
        let init = parts.drop_last();
        assert forall|i: int| 0 <= i < init.len() implies !(#[trigger] init[i]).contains('/') by {
            assert(init[i] == parts[i]);
        }
        lemma_split_joined(init);
        lemma_split_concat(join_parts(init), parts.last(), '/');
        lemma_split_plain(parts.last(), '/');
        assert(parts =~= init + seq![parts.last()]);
    }
}

/// Keeping the components that name entries keeps all of them when all do.
proof fn lemma_filter_all(parts: Seq<Seq<char>>)
    requires
        forall|i: int| 0 <= i < parts.len() ==> is_part(#[trigger] parts[i]),
    ensures
        parts.filter(part_pred()) == parts,
    decreases parts.len(),
{
    reveal(Seq::filter);
    if parts.len() > 0 {
        let init = parts.drop_last();
        assert forall|i: int| 0 <= i < init.len() implies is_part(#[trigger] init[i]) by {
            assert(init[i] == parts[i]);
        }
        lemma_filter_all(init);
        assert(part_pred()(parts.last()));
        assert(init.push(parts.last()) =~= parts);
    }
}

/// The text of a well-formed path reads back as the same path.
pub proof fn lemma_render_parse(p: PathV)
    requires
        well_formed(p),
    ensures
        parse_spec(render_spec(p)) == p,
{
    reveal(Seq::filter);
    let j = join_parts(p.parts);
    let empty = Seq::<char>::empty();
    assert(seq![empty].filter(part_pred()) =~= Seq::<Seq<char>>::empty()) by {
        reveal(Seq::filter);
        let one = seq![empty];
        assert(one.drop_last() =~= Seq::<Seq<char>>::empty());
        assert(one.last() == empty);
        assert(!part_pred()(empty));
        assert(one.filter(part_pred()) == one.drop_last().filter(part_pred()));
        assert(Seq::<Seq<char>>::empty().filter(part_pred()) == Seq::<Seq<char>>::empty());
    }
    assert forall|i: int| 0 <= i < p.parts.len() implies !(#[trigger] p.parts[i]).contains('/') by {
        assert(well_formed(p));
    }
    lemma_filter_all(p.parts);
    if p.parts.len() > 0 {
        lemma_split_joined(p.parts);
    } else {
        assert(j =~= empty);
    }
    if p.absolute {
        let t = render_spec(p);
        assert(t =~= empty + seq!['/'] + j);
        lemma_split_concat(empty, j, '/');
        Seq::filter_distributes_over_add(split_on(empty, '/'), split_on(j, '/'), part_pred());
        assert(split_on(empty, '/') =~= seq![empty]);
        if p.parts.len() == 0 {
            assert(split_on(t, '/') =~= seq![empty] + seq![empty]);
            assert(parse_parts(t) =~= p.parts);
        } else {
            assert(parse_parts(t) =~= p.parts);
        }
        assert(t[0] == '/');
    } else {
        if p.parts.len() == 0 {
            assert(parse_parts(j) =~= p.parts);
        } else {
            assert(parse_parts(j) =~= p.parts);
            assert(j.len() > 0 ==> j[0] != '/') by {
                lemma_first_char(p.parts);
            }
        }
    }
    assert(parse_spec(render_spec(p)) =~= p) by {
        assert(parse_spec(render_spec(p)).parts =~= p.parts);
    }
}

/// Joined components start with the first component.
proof fn lemma_first_char(parts: Seq<Seq<char>>)
    requires
        parts.len() > 0,
        is_part(parts[0]),
        !parts[0].contains('/'),
    ensures
        join_parts(parts).len() > 0,
        join_parts(parts)[0] == parts[0][0],
    decreases parts.len(),
{
    if parts.len() > 1 {
        assert(parts.drop_last()[0] == parts[0]);
        lemma_first_char(parts.drop_last());
    }
}

/// A filesystem path held as its components.
pub struct FsPath {
    pub absolute: bool,
    pub parts: Vec<String>,
}

impl View for FsPath {
    type V = PathV;

    open spec fn view(&self) -> PathV {
        PathV { absolute: self.absolute, parts: self.parts@.map_values(|p: String| p@) }
    }
}

fn copy_parts(v: &Vec<String>) -> (r: Vec<String>)
    ensures
        r@.map_values(|p: String| p@) == v@.map_values(|p: String| p@),
{
    let mut r: Vec<String> = Vec::new();
    let mut i: usize = 0;
    while i < v.len()
        invariant
            i <= v.len(),
            r@.map_values(|p: String| p@) =~= v@.subrange(0, i as int).map_values(|p: String| p@),
        decreases v.len() - i,
    {
        let ghost prev = r@;
        let item = v[i].clone();
        r.push(item);
        proof {
            assert(item@ == v@[i as int]@);
            assert(r@.map_values(|p: String| p@) =~= prev.map_values(|p: String| p@).push(item@));
            assert(v@.subrange(0, i as int + 1).map_values(|p: String| p@) =~= v@.subrange(
                0,
                i as int,
            ).map_values(|p: String| p@).push(item@));
        }
        i = i + 1;
    }
    proof {
        assert(v@.subrange(0, v.len() as int) =~= v@);
    }
    r
}

fn is_part_text(p: &String) -> (r: bool)
    ensures
        r == is_part(p@),
{
    let n = p.as_str().unicode_len();
    if n == 0 {
        false
    } else if n == 1 {
        let c = p.as_str().get_char(0);
        proof {
            if c == '.' {
                assert(p@ =~= seq!['.']);
            }
        }
        c != '.'
    } else {
        proof {
            assert(p@.len() != seq!['.'].len());
        }
        true
    }
}

fn is_dot_dot(p: &String) -> (r: bool)
    ensures
        r == (p@ == seq!['.', '.']),
{
    let n = p.as_str().unicode_len();
    if n != 2 {
        proof {
            assert(p@.len() != seq!['.', '.'].len());
        }
        false
    } else {
        let a = p.as_str().get_char(0);
        let b = p.as_str().get_char(1);
        proof {
            if a == '.' && b == '.' {
                assert(p@ =~= seq!['.', '.']);
            }
        }
        a == '.' && b == '.'
    }
}

/// Whether `s` is one component that names an entry.
pub fn is_plain_name_text(s: &str) -> (r: bool)
    ensures
        r == is_plain_name(s@),
{
    let t = String::from_str(s);
    if !is_part_text(&t) || is_dot_dot(&t) {
        return false;
    }
    let n = s.unicode_len();
    let mut i: usize = 0;
    while i < n
        invariant
            n == s@.len(),
            i <= n,
            forall|k: int| 0 <= k < i ==> s@[k] != '/',
        decreases n - i,
    {
        if s.get_char(i) == '/' {
            proof {
                assert(s@.contains('/'));
            }
            return false;
        }
        i = i + 1;
    }
    true
}

impl FsPath {
    /// Reads a path text: `/` separates components, and a leading `/`
    /// makes the path absolute.
    pub fn parse(s: &str) -> (r: FsPath)
        ensures
            r@ == parse_spec(s@),
    {
        let pieces = split_text(s, '/');
        let ghost all = pieces@.map_values(|p: String| p@);
        let mut parts: Vec<String> = Vec::new();
        let mut i: usize = 0;
        while i < pieces.len()
            invariant
                i <= pieces.len(),
                all == pieces@.map_values(|p: String| p@),
                parts@.map_values(|p: String| p@) == all.subrange(0, i as int).filter(part_pred()),
            decreases pieces.len() - i,
        {
            let keep = is_part_text(&pieces[i]);
            proof {
                assert(all[i as int] == pieces@[i as int]@);
                assert(all.subrange(0, i as int + 1).drop_last() =~= all.subrange(0, i as int));
                assert(all.subrange(0, i as int + 1).last() == pieces@[i as int]@);
                assert(part_pred()(all[i as int]) == keep);
                reveal(Seq::filter);
                let sub = all.subrange(0, i as int + 1);
                assert(sub.filter(part_pred()) == (if part_pred()(sub.last()) {
                    sub.drop_last().filter(part_pred()).push(sub.last())
                } else {
                    sub.drop_last().filter(part_pred())
                }));
            }
            if keep {
                let ghost prev = parts@;
                let item = pieces[i].clone();
                parts.push(item);
                proof {
                    assert(parts@.map_values(|p: String| p@) =~= prev.map_values(|p: String| p@).push(
                        item@,
                    ));
                }
            }
            i = i + 1;
        }
        proof {
            assert(all.subrange(0, pieces.len() as int) =~= all);
        }
        let absolute = s.unicode_len() > 0 && s.get_char(0) == '/';
        FsPath { absolute, parts }
    }

    /// A copy of this path.
    pub fn duplicate(&self) -> (r: FsPath)
        ensures
            r@ == self@,
    {
        FsPath { absolute: self.absolute, parts: copy_parts(&self.parts) }
    }

    /// `rel` taken relative to this path; an absolute `rel` stands alone.
    pub fn join(&self, rel: &FsPath) -> (r: FsPath)
        ensures
            r@ == join_spec(self@, rel@),
    {
        if rel.absolute {
            FsPath { absolute: true, parts: copy_parts(&rel.parts) }
        } else {
            let mut parts = copy_parts(&self.parts);
            let mut i: usize = 0;
            while i < rel.parts.len()
                invariant
                    i <= rel.parts.len(),
                    parts@.map_values(|p: String| p@) =~= self@.parts + rel@.parts.subrange(0, i as int),
                decreases rel.parts.len() - i,
            {
                let ghost prev = parts@;
                let item = rel.parts[i].clone();
                parts.push(item);
                proof {
                    assert(parts@.map_values(|p: String| p@) =~= prev.map_values(|p: String| p@).push(
                        item@,
                    ));
                    assert(item@ == rel@.parts[i as int]);
                    assert(rel@.parts.subrange(0, i as int + 1) =~= rel@.parts.subrange(0, i as int).push(
                        item@,
                    ));
                }
                i = i + 1;
            }
            proof {
                assert(rel@.parts.subrange(0, rel.parts.len() as int) =~= rel@.parts);
            }
            FsPath { absolute: self.absolute, parts }
        }
    }

    /// This path extended by the path text `name`.
    pub fn child(&self, name: &str) -> (r: FsPath)
        ensures
            r@ == child_spec(self@, name@),
    {
        self.join(&FsPath::parse(name))
    }

    /// The last component, unless the path has none or ends in `..`.
    pub fn file_name(&self) -> (r: Option<String>)
        ensures
            opt_view(r) == file_name_spec(self@),
    {
        let n = self.parts.len();
        if n == 0 {
            None
        } else if is_dot_dot(&self.parts[n - 1]) {
            None
        } else {
            Some(self.parts[n - 1].clone())
        }
    }

    /// Whether the two paths have the same components and the same root.
    pub fn same_as(&self, other: &FsPath) -> (r: bool)
        ensures
            r == (self@ == other@),
    {
        if self.absolute != other.absolute || self.parts.len() != other.parts.len() {
            proof {
                if self.parts.len() != other.parts.len() {
                    assert(self@.parts.len() != other@.parts.len());
                }
            }
            return false;
        }
        let mut i: usize = 0;
        while i < self.parts.len()
            invariant
                i <= self.parts.len() == other.parts.len(),
                forall|k: int| 0 <= k < i ==> self@.parts[k] == other@.parts[k],
            decreases self.parts.len() - i,
        {
            if self.parts[i] != other.parts[i] {
                proof {
                    assert(self@.parts[i as int] != other@.parts[i as int]);
                }
                return false;
            }
            i = i + 1;
        }
        proof {
            assert(self@.parts =~= other@.parts);
        }
        true
    }

    /// The text of this path, with `/` between components.
    pub fn to_text(&self) -> (r: String)
        ensures
            r@ == render_spec(self@),
    {
        let mut body = String::new();
        let mut i: usize = 0;
        while i < self.parts.len()
            invariant
                i <= self.parts.len(),
                body@ == join_parts(self@.parts.subrange(0, i as int)),
            decreases self.parts.len() - i,
        {
            let ghost sub = self@.parts.subrange(0, i as int + 1);
            proof {
                assert(sub.drop_last() =~= self@.parts.subrange(0, i as int));
                assert(sub.last() == self.parts@[i as int]@);
                reveal_strlit("/");
            }
            if i > 0 {
                body.append("/");
            } else {
                proof {
                    assert(self@.parts.subrange(0, 0) =~= Seq::<Seq<char>>::empty());
                }
            }
            body.append(self.parts[i].as_str());
            proof {
                assert(body@ =~= join_parts(sub));
            }
            i = i + 1;
        }
        proof {
            assert(self@.parts.subrange(0, self.parts.len() as int) =~= self@.parts);
        }
        if self.absolute {
            let mut r = String::from_str("/");
            proof {
                reveal_strlit("/");
            }
            r.append(body.as_str());
            proof {
                assert(r@ =~= render_spec(self@));
            }
            r
        } else {
            body
        }
    }
}

} // verus!
