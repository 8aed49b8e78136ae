//! Character-level helpers on strings, with contracts over `Seq<char>`.
use vstd::prelude::*;
use vstd::string::*;
use crate::numbers::{first_where, lemma_first_where};

verus! {

/// `p` is a prefix of `s`.
pub open spec fn has_prefix(s: Seq<char>, p: Seq<char>) -> bool {
    p.len() <= s.len() && s.subrange(0, p.len() as int) == p
}

/// `p` is a suffix of `s`.
pub open spec fn has_suffix(s: Seq<char>, p: Seq<char>) -> bool {
    p.len() <= s.len() && s.subrange(s.len() - p.len(), s.len() as int) == p
}

/// Character-wise equality.
pub fn str_eq(a: &str, b: &str) -> (r: bool)
    ensures
        r == (a@ == b@),
{
    let n = a.unicode_len();
    if n != b.unicode_len() {
        return false;
    }
    let mut i: usize = 0;
    while i < n
        invariant
            n == a@.len(),
            n == b@.len(),
            i <= n,
            forall|j: int| 0 <= j < i ==> a@[j] == b@[j],
        decreases n - i,
    {
        if a.get_char(i) != b.get_char(i) {
            return false;
        }
        i += 1;
    }
    assert(a@ =~= b@);
    true
}

/// Whether `s` starts with `p`.
pub fn starts_with(s: &str, p: &str) -> (r: bool)
    ensures
        r == has_prefix(s@, p@),
{
    let n = s.unicode_len();
    let m = p.unicode_len();
    if m > n {
        return false;
    }
    let mut i: usize = 0;
    while i < m
        invariant
            n == s@.len(),
            m == p@.len(),
            m <= n,
            i <= m,
            forall|j: int| 0 <= j < i ==> s@[j] == p@[j],
        decreases m - i,
    {
        if s.get_char(i) != p.get_char(i) {
            assert(s@.subrange(0, m as int)[i as int] != p@[i as int]);
            return false;
        }
        i += 1;
    }
    assert(s@.subrange(0, m as int) =~= p@);
    true
}

/// Whether `s` ends with `p`.
pub fn ends_with(s: &str, p: &str) -> (r: bool)
    ensures
        r == has_suffix(s@, p@),
{
    let n = s.unicode_len();
    let m = p.unicode_len();
    if m > n {
        return false;
    }
    let off = n - m;
    let mut i: usize = 0;
    while i < m
        invariant
            n == s@.len(),
            m == p@.len(),
            off == n - m,
            i <= m,
            forall|j: int| 0 <= j < i ==> s@[off + j] == p@[j],
        decreases m - i,
    {
        if s.get_char(off + i) != p.get_char(i) {
            assert(s@.subrange(off as int, n as int)[i as int] != p@[i as int]);
            return false;
        }
        i += 1;
    }
    assert(s@.subrange(off as int, n as int) =~= p@);
    true
}

/// Whether the character `c` occurs in `s`.
pub fn contains_char(s: &str, c: char) -> (r: bool)
    ensures
        r == s@.contains(c),
{
    let n = s.unicode_len();
    let mut i: usize = 0;
    while i < n
        invariant
            n == s@.len(),
            i <= n,
            forall|j: int| 0 <= j < i ==> s@[j] != c,
        decreases n - i,
    {
        if s.get_char(i) == c {
            return true;
        }
        i += 1;
    }
    false
}

/// An owned copy of `s`.
pub fn owned(s: &str) -> (r: String)
    ensures
        r@ == s@,
{
    String::from_str(s)
}

/// `p` followed by `s`.
pub fn prefixed(p: &str, s: &str) -> (r: String)
    ensures
        r@ == p@ + s@,
{
    let mut r = String::from_str(p);
    r.append(s);
    r
}

/// The words of `ws` joined by `sep`.
pub open spec fn joined(ws: Seq<Seq<char>>, sep: Seq<char>) -> Seq<char>
    decreases ws.len(),
{
    if ws.len() == 0 {
        Seq::empty()
    } else if ws.len() == 1 {
        ws[0]
    } else {
        joined(ws.drop_last(), sep) + sep + ws.last()
    }
}

/// The views of a vector of strings.
pub open spec fn views(v: Seq<String>) -> Seq<Seq<char>> {
    v.map_values(|s: String| s@)
}

/// The strings of `v` from index `from` on, joined by `sep`.
pub fn join_from(v: &Vec<String>, from: usize, sep: &str) -> (r: String)
    ensures
        from <= v@.len() ==> r@ == joined(views(v@).subrange(from as int, v@.len() as int), sep@),
        from >= v@.len() ==> r@.len() == 0,
{
    let mut r = String::new();
    if from >= v.len() {
        return r;
    }
    let mut i: usize = from;
    while i < v.len()
        invariant
            from < v@.len(),
            from <= i <= v@.len(),
            r@ == joined(views(v@).subrange(from as int, i as int), sep@),
        decreases v@.len() - i,
    {
        proof {
            let ws = views(v@).subrange(from as int, i as int + 1);
            assert(ws.drop_last() =~= views(v@).subrange(from as int, i as int));
        }
        if i > from {
            r.append(sep);
        }
        r.append(v[i].as_str());
        i += 1;
    }
    r
}

/// Copies of the strings of `v` from index `from` on.
pub fn tail_from(v: &Vec<String>, from: usize) -> (r: Vec<String>)
    ensures
        views(r@) == views(v@).subrange(from as int, v@.len() as int) || from > v@.len(),
        from > v@.len() ==> r@.len() == 0,
{
    let mut r: Vec<String> = Vec::new();
    if from > v.len() {
        return r;
    }
    let mut i: usize = from;
    while i < v.len()
        invariant
            from <= i <= v@.len(),
            r@.len() == i - from,
            forall|k: int| 0 <= k < r@.len() ==> r@[k]@ == v@[from + k]@,
        decreases v@.len() - i,
    {
        let w: String = v[i].clone();
        r.push(w);
        i += 1;
    }
    assert(views(r@) =~= views(v@).subrange(from as int, v@.len() as int));
    r
}

} // verus!

verus! {

/// What `str::to_lowercase` returns for a string: the lowercase mapping of
/// each character, by Unicode's tables.
pub uninterp spec fn lowercase_of(s: Seq<char>) -> Seq<char>;

/// Relies on `str::to_lowercase`, which maps each character to its
/// lowercase form and depends on the characters alone.
#[verifier::external_body]
pub fn to_lowercase(s: &str) -> (r: String)
    ensures
        r@ == lowercase_of(s@),
{
    s.to_lowercase()
}

/// Unicode's White_Space characters, which `str::trim` removes.
pub open spec fn is_white(c: char) -> bool {
    let u = c as u32;
    (0x9 <= u && u <= 0xD) || u == 0x20 || u == 0x85 || u == 0xA0 || u == 0x1680 || (0x2000 <= u
        && u <= 0x200A) || u == 0x2028 || u == 0x2029 || u == 0x202F || u == 0x205F || u == 0x3000
}

/// Index just past the last character of `s` that is not white space (0
/// where there is none).
pub open spec fn last_end(s: Seq<char>) -> int
    decreases s.len(),
{
    if s.len() == 0 {
        0
    } else if !is_white(s.last()) {
        s.len() as int
    } else {
        last_end(s.drop_last())
    }
}

/// `s` without leading and trailing white space.
pub open spec fn trimmed(s: Seq<char>) -> Seq<char> {
    let a = first_where(s, |c: char| !is_white(c));
    if a >= s.len() {
        Seq::empty()
    } else {
        s.subrange(a, last_end(s))
    }
}

proof fn lemma_last_end(s: Seq<char>, z: int)
    requires
        0 <= z <= s.len(),
        z == 0 || !is_white(s[z - 1]),
        forall|j: int| z <= j < s.len() ==> is_white(#[trigger] s[j]),
    ensures
        last_end(s) == z,
    decreases s.len(),
{
    if s.len() > 0 && z < s.len() {
        assert(is_white(s[s.len() - 1]));
        let t = s.drop_last();
        assert forall|j: int| z <= j < t.len() implies is_white(#[trigger] t[j]) by {
            assert(t[j] == s[j]);
        }
        lemma_last_end(t, z);
    }
}

fn white(c: char) -> (r: bool)
    ensures
        r == is_white(c),
{
    let u = c as u32;
    (0x9 <= u && u <= 0xD) || u == 0x20 || u == 0x85 || u == 0xA0 || u == 0x1680 || (0x2000 <= u
        && u <= 0x200A) || u == 0x2028 || u == 0x2029 || u == 0x202F || u == 0x205F || u == 0x3000
}

/// `s` without leading and trailing white space, as `str::trim` gives it.
pub fn trim(s: &str) -> (r: String)
    ensures
        r@ == trimmed(s@),
{
    let n = s.unicode_len();
    let mut a: usize = 0;
    let mut blank = n > 0 && white(s.get_char(0));
    while blank
        invariant
            n == s@.len(),
            a < n || !blank,
            a <= n,
            blank ==> is_white(s@[a as int]),
            !blank ==> a == n || !is_white(s@[a as int]),
            forall|j: int| 0 <= j < a ==> is_white(#[trigger] s@[j]),
        decreases n - a,
    {
        a += 1;
        blank = a < n && white(s.get_char(a));
    }
    proof {
        lemma_first_where(s@, |c: char| !is_white(c), a as int);
    }
    if a == n {
        return String::new();
    }
    let mut z: usize = n;
    let mut tail_blank = z > a + 1 && white(s.get_char(z - 1));
    while tail_blank
        invariant
            n == s@.len(),
            a < z <= n,
            !is_white(s@[a as int]),
            tail_blank ==> z > a + 1 && is_white(s@[z - 1]),
            !tail_blank ==> z == a + 1 || !is_white(s@[z - 1]),
            forall|j: int| z <= j < n ==> is_white(#[trigger] s@[j]),
        decreases z,
    {
        z -= 1;
        tail_blank = z > a + 1 && white(s.get_char(z - 1));
    }
    proof {
        lemma_last_end(s@, z as int);
    }
    String::from_str(s.substring_char(a, z))
}

/// The pieces of `s` between commas, in order; as many pieces as commas
/// plus one.
pub open spec fn comma_pieces(s: Seq<char>) -> Seq<Seq<char>>
    decreases s.len(),
{
    if s.len() == 0 {
        seq![Seq::empty()]
    } else {
        let p = comma_pieces(s.drop_last());
        if s.last() == ',' {
            p.push(Seq::empty())
        } else {
            p.update(p.len() - 1, p.last().push(s.last()))
        }
    }
}

proof fn lemma_comma_pieces_nonempty(s: Seq<char>)
    ensures
        comma_pieces(s).len() >= 1,
    decreases s.len(),
{
    if s.len() > 0 {
        lemma_comma_pieces_nonempty(s.drop_last());
    }
}

/// The pieces of `s` between commas, each trimmed, the empty ones left out.
pub open spec fn list_items(ps: Seq<Seq<char>>) -> Seq<Seq<char>>
    decreases ps.len(),
{
    if ps.len() == 0 {
        Seq::empty()
    } else {
        let rest = list_items(ps.drop_last());
        let t = trimmed(ps.last());
        if t.len() > 0 {
            rest.push(t)
        } else {
            rest
        }
    }
}

/// The pieces of `s` between commas.
pub fn split_commas(s: &str) -> (r: Vec<String>)
    ensures
        views(r@) == comma_pieces(s@),
{
    let n = s.unicode_len();
    let mut pieces: Vec<String> = Vec::new();
    let mut start: usize = 0;
    let mut i: usize = 0;
    assert(views(pieces@) =~= Seq::<Seq<char>>::empty());
    assert(s@.subrange(0, 0) =~= Seq::<char>::empty());
    assert(views(pieces@).push(s@.subrange(0, 0)) =~= seq![Seq::<char>::empty()]);
    assert(comma_pieces(s@.subrange(0, 0)) == seq![Seq::<char>::empty()]);
    while i < n
        invariant
            n == s@.len(),
            start <= i <= n,
            comma_pieces(s@.subrange(0, i as int)) == views(pieces@).push(
                s@.subrange(start as int, i as int),
            ),
        decreases n - i,
    {
        let ghost prefix = s@.subrange(0, i as int + 1);
        assert(prefix.drop_last() =~= s@.subrange(0, i as int));
        if s.get_char(i) == ',' {
            let piece = String::from_str(s.substring_char(start, i));
            pieces.push(piece);
            start = i + 1;
            assert(views(pieces@) =~= views(pieces@).drop_last().push(piece@));
            assert(s@.subrange(start as int, i as int + 1) =~= Seq::empty());
        } else {
            proof {
                lemma_comma_pieces_nonempty(s@.subrange(0, i as int));
                assert(s@.subrange(start as int, i as int + 1) =~= s@.subrange(
                    start as int,
                    i as int,
                ).push(s@[i as int]));
                assert(views(pieces@).push(s@.subrange(start as int, i as int)).update(
                    views(pieces@).len() as int,
                    s@.subrange(start as int, i as int + 1),
                ) =~= views(pieces@).push(s@.subrange(start as int, i as int + 1)));
            }
        }
        i += 1;
    }
    let last = String::from_str(s.substring_char(start, n));
    pieces.push(last);
    assert(s@.subrange(0, n as int) =~= s@);
    assert(views(pieces@) =~= comma_pieces(s@));
    pieces
}

/// Splits a comma-separated list into its trimmed, non-empty items.
pub fn split_list(s: &str) -> (r: Vec<String>)
    ensures
        views(r@) == list_items(comma_pieces(s@)),
{
    let pieces = split_commas(s);
    let mut r: Vec<String> = Vec::new();
    let mut k: usize = 0;
    assert(views(r@) =~= Seq::<Seq<char>>::empty());
    assert(views(pieces@).subrange(0, 0) =~= Seq::<Seq<char>>::empty());
    while k < pieces.len()
        invariant
            k <= pieces@.len(),
            views(pieces@) == comma_pieces(s@),
            views(r@) == list_items(views(pieces@).subrange(0, k as int)),
        decreases pieces@.len() - k,
    {
        let t = trim(pieces[k].as_str());
        let t = t.as_str();
        proof {
            let ps = views(pieces@).subrange(0, k as int + 1);
            assert(ps.drop_last() =~= views(pieces@).subrange(0, k as int));
        }
        if t.unicode_len() > 0 {
            let w = String::from_str(t);
            r.push(w);
            assert(views(r@) =~= views(r@).drop_last().push(w@));
        }
        k += 1;
    }
    assert(views(pieces@).subrange(0, pieces@.len() as int) =~= views(pieces@));
    r
}

} // verus!
