//! Character-level views of text: lines, whitespace trimming and searching.

use vstd::prelude::*;

verus! {

broadcast use vstd::string::axiom_spec_iter;

/// The characters of `s`, in order.
pub fn chars_of(s: &str) -> (v: Vec<char>)
    ensures
        v@ == s@,
{
    let mut v: Vec<char> = Vec::new();
    for c in it: s.chars()
        invariant
            it.seq() == s@,
            v@ == s@.take(it.index() as int),
    {
        v.push(c);
        assert(s@.take(it.index() + 1) =~= s@.take(it.index() as int).push(c));
    }
    assert(v@ =~= s@);
    v
}


/// `char::is_whitespace`: the Unicode `White_Space` property.
pub open spec fn is_ws(c: char) -> bool {
    let n = c as u32;
    (9 <= n <= 13) || n == 32 || n == 0x85 || n == 0xa0 || n == 0x1680 || (0x2000 <= n <= 0x200a)
        || n == 0x2028 || n == 0x2029 || n == 0x202f || n == 0x205f || n == 0x3000
}

/// Whether `c` has the Unicode `White_Space` property.
pub fn is_whitespace(c: char) -> (r: bool)
    ensures
        r == is_ws(c),
{
    let n = c as u32;
    (9 <= n && n <= 13) || n == 32 || n == 0x85 || n == 0xa0 || n == 0x1680 || (0x2000 <= n && n
        <= 0x200a) || n == 0x2028 || n == 0x2029 || n == 0x202f || n == 0x205f || n == 0x3000
}

/// The number of whitespace characters `t` starts with.
pub open spec fn lead_ws(t: Seq<char>) -> nat
    decreases t.len(),
{
    if t.len() == 0 || !is_ws(t[0]) {
        0
    } else {
        1 + lead_ws(t.drop_first())
    }
}

/// The number of whitespace characters `t` ends with.
pub open spec fn trail_ws(t: Seq<char>) -> nat
    decreases t.len(),
{
    if t.len() == 0 || !is_ws(t.last()) {
        0
    } else {
        1 + trail_ws(t.drop_last())
    }
}

/// `str::trim_start`.
pub open spec fn ltrim(t: Seq<char>) -> Seq<char> {
    t.skip(lead_ws(t) as int)
}

/// `str::trim_end`.
pub open spec fn rtrim(t: Seq<char>) -> Seq<char> {
    t.take(t.len() - trail_ws(t))
}

/// `str::trim`.
pub open spec fn trim(t: Seq<char>) -> Seq<char> {
    rtrim(ltrim(t))
}

pub(crate) proof fn lemma_lead_ws_bound(t: Seq<char>)
    ensures
        lead_ws(t) <= t.len(),
    decreases t.len(),
{
    if t.len() > 0 && is_ws(t[0]) {
        lemma_lead_ws_bound(t.drop_first());
    }
}

pub(crate) proof fn lemma_trail_ws_bound(t: Seq<char>)
    ensures
        trail_ws(t) <= t.len(),
    decreases t.len(),
{
    if t.len() > 0 && is_ws(t.last()) {
        lemma_trail_ws_bound(t.drop_last());
    }
}

/// A run of `m` whitespace characters ended by a non-space (or the end) is the
/// leading whitespace.
proof fn lemma_lead_ws_is(t: Seq<char>, m: int)
    requires
        0 <= m <= t.len(),
        forall|k: int| 0 <= k < m ==> is_ws(#[trigger] t[k]),
        m == t.len() || !is_ws(t[m]),
    ensures
        lead_ws(t) == m,
    decreases m,
{
    if m > 0 {
        let u = t.drop_first();
        assert forall|k: int| 0 <= k < m - 1 implies is_ws(#[trigger] u[k]) by {
            assert(u[k] == t[k + 1]);
        }
        if m < t.len() {
            assert(u[m - 1] == t[m]);
        }
        lemma_lead_ws_is(u, m - 1);
    }
}

proof fn lemma_trail_ws_is(t: Seq<char>, m: int)
    requires
        0 <= m <= t.len(),
        forall|k: int| t.len() - m <= k < t.len() ==> is_ws(#[trigger] t[k]),
        m == t.len() || !is_ws(t[t.len() - m - 1]),
    ensures
        trail_ws(t) == m,
    decreases m,
{
    if m > 0 {
        let u = t.drop_last();
        assert forall|k: int| u.len() - (m - 1) <= k < u.len() implies is_ws(#[trigger] u[k]) by {
            assert(u[k] == t[k]);
        }
        if m < t.len() {
            assert(u[u.len() - (m - 1) - 1] == t[t.len() - m - 1]);
        }
        lemma_trail_ws_is(u, m - 1);
    }
}

/// Where `trim_start(v[lo..hi])` begins inside `v`.
pub fn ltrim_start(v: &Vec<char>, lo: usize, hi: usize) -> (a: usize)
    requires
        lo <= hi <= v.len(),
    ensures
        lo <= a <= hi,
        v@.subrange(a as int, hi as int) == ltrim(v@.subrange(lo as int, hi as int)),
{
    let ghost t = v@.subrange(lo as int, hi as int);
    let mut a: usize = lo;
    while a < hi && is_whitespace(v[a])
        invariant
            lo <= a <= hi,
            hi <= v.len(),
            t == v@.subrange(lo as int, hi as int),
            forall|k: int| 0 <= k < a - lo ==> is_ws(#[trigger] t[k]),
        decreases hi - a,
    {
        a = a + 1;
    }
    proof {
        if a < hi {
            assert(t[a - lo] == v@[a as int]);
        }
        lemma_lead_ws_is(t, a - lo);
    }
    assert(v@.subrange(a as int, hi as int) =~= ltrim(t));
    a
}

/// Where `trim_end(v[lo..hi])` ends inside `v`.
pub fn rtrim_end(v: &Vec<char>, lo: usize, hi: usize) -> (b: usize)
    requires
        lo <= hi <= v.len(),
    ensures
        lo <= b <= hi,
        v@.subrange(lo as int, b as int) == rtrim(v@.subrange(lo as int, hi as int)),
{
    let ghost u = v@.subrange(lo as int, hi as int);
    let mut b: usize = hi;
    while b > lo && is_whitespace(v[b - 1])
        invariant
            lo <= b <= hi,
            hi <= v.len(),
            u == v@.subrange(lo as int, hi as int),
            forall|k: int| u.len() - (hi - b) <= k < u.len() ==> is_ws(#[trigger] u[k]),
        decreases b - lo,
    {
        assert(u[(b - 1 - lo) as int] == v@[b - 1]);
        b = b - 1;
    }
    proof {
        if b > lo {
            assert(u[u.len() - (hi - b) - 1] == v@[b - 1]);
        }
        lemma_trail_ws_is(u, hi - b);
    }
    assert(v@.subrange(lo as int, b as int) =~= rtrim(u));
    b
}

/// The bounds `[a, b)` of `trim(v[lo..hi])` inside `v`.
pub fn trim_bounds(v: &Vec<char>, lo: usize, hi: usize) -> (r: (usize, usize))
    requires
        lo <= hi <= v.len(),
    ensures
        lo <= r.0 <= r.1 <= hi,
        v@.subrange(r.0 as int, r.1 as int) == trim(v@.subrange(lo as int, hi as int)),
{
    let a = ltrim_start(v, lo, hi);
    let b = rtrim_end(v, a, hi);
    (a, b)
}


/// The index of the first `\n` in `t`, or `t.len()` when there is none.
pub open spec fn nl_index(t: Seq<char>) -> nat
    decreases t.len(),
{
    if t.len() == 0 || t[0] == '\n' {
        0
    } else {
        1 + nl_index(t.drop_first())
    }
}

/// `t` without one trailing `\r`.
pub open spec fn strip_cr(t: Seq<char>) -> Seq<char> {
    if t.len() > 0 && t.last() == '\r' {
        t.drop_last()
    } else {
        t
    }
}

pub(crate) proof fn lemma_nl_index_bound(t: Seq<char>)
    ensures
        nl_index(t) <= t.len(),
        nl_index(t) < t.len() ==> t[nl_index(t) as int] == '\n',
        forall|k: int| 0 <= k < nl_index(t) ==> t[k] != '\n',
    decreases t.len(),
{
    if t.len() > 0 && t[0] != '\n' {
        let u = t.drop_first();
        lemma_nl_index_bound(u);
        assert forall|k: int| 0 <= k < nl_index(t) implies t[k] != '\n' by {
            if k > 0 {
                assert(t[k] == u[k - 1]);
            }
        }
    }
}

/// `str::lines`: split at `\n`, drop a `\r` before each `\n`, and no empty
/// line after a final `\n`.
pub open spec fn lines(t: Seq<char>) -> Seq<Seq<char>>
    decreases t.len(),
{
    let i = nl_index(t);
    if t.len() == 0 {
        Seq::empty()
    } else if i >= t.len() {
        seq![t]
    } else {
        seq![strip_cr(t.take(i as int))] + lines(t.skip(i as int + 1))
    }
}

/// The character sequences of a list of character vectors.
pub open spec fn views(ls: Seq<Vec<char>>) -> Seq<Seq<char>> {
    ls.map_values(|l: Vec<char>| l@)
}

/// A copy of `v[lo..hi]`.
pub fn slice_vec(v: &Vec<char>, lo: usize, hi: usize) -> (r: Vec<char>)
    requires
        lo <= hi <= v.len(),
    ensures
        r@ == v@.subrange(lo as int, hi as int),
{
    let mut r: Vec<char> = Vec::new();
    let mut i: usize = lo;
    while i < hi
        invariant
            lo <= i <= hi <= v.len(),
            r@ == v@.subrange(lo as int, i as int),
        decreases hi - i,
    {
        r.push(v[i]);
        assert(v@.subrange(lo as int, i + 1) =~= v@.subrange(lo as int, i as int).push(v@[i as int]));
        i = i + 1;
    }
    r
}

/// `v` cut into lines as `str::lines` cuts the text it holds.
pub fn split_lines(v: &Vec<char>) -> (r: Vec<Vec<char>>)
    ensures
        views(r@) == lines(v@),
{
    let mut out: Vec<Vec<char>> = Vec::new();
    let mut pos: usize = 0;
    assert(v@.skip(0) =~= v@);
    assert(views(out@) + lines(v@) =~= lines(v@));
    while pos < v.len()
        invariant
            pos <= v.len(),
            views(out@) + lines(v@.skip(pos as int)) == lines(v@),
        decreases v.len() - pos,
    {
        let ghost t = v@.skip(pos as int);
        let mut j: usize = pos;
        while j < v.len() && v[j] != '\n'
            invariant
                pos <= j <= v.len(),
                t == v@.skip(pos as int),
                forall|k: int| pos <= k < j ==> v@[k] != '\n',
            decreases v.len() - j,
        {
            j = j + 1;
        }
        proof {
            lemma_nl_index_bound(t);
            let m = nl_index(t) as int;
            if m < j - pos {
                assert(t[m] == v@[pos + m]);
            }
            if m > j - pos {
                assert(t[j - pos] == v@[j as int]);
            }
            assert(m == j - pos);
        }
        let piece: Vec<char>;
        if j < v.len() {
            let end: usize = if j > pos && v[j - 1] == '\r' { j - 1 } else { j };
            piece = slice_vec(v, pos, end);
            assert(piece@ =~= strip_cr(t.take(j - pos)));
            assert(v@.skip(j + 1) =~= t.skip(j - pos + 1));
        } else {
            piece = slice_vec(v, pos, j);
            assert(piece@ =~= t);
        }
        let ghost before = views(out@);
        out.push(piece);
        assert(views(out@) =~= before.push(piece@));
        if j < v.len() {
            assert(lines(t) =~= seq![piece@] + lines(v@.skip(j + 1)));
            pos = j + 1;
        } else {
            assert(lines(t) =~= seq![piece@]);
            assert(lines(v@.skip(j as int)) =~= Seq::<Seq<char>>::empty());
            pos = j;
        }
    }
    assert(v@.skip(pos as int) =~= Seq::<char>::empty());
    assert(lines(v@.skip(pos as int)) =~= Seq::<Seq<char>>::empty());
    assert(views(out@) =~= lines(v@));
    out
}

/// `t` occurs in `s` at `i`.
pub open spec fn occurs_at(s: Seq<char>, t: Seq<char>, i: int) -> bool {
    0 <= i && i + t.len() <= s.len() && s.subrange(i, i + t.len()) == t
}

/// `str::find`: the first index at or after `i` where `t` occurs in `s`.
pub open spec fn find_from(s: Seq<char>, t: Seq<char>, i: int) -> Option<int>
    decreases s.len() + 1 - i,
{
    if i < 0 || i + t.len() > s.len() {
        None
    } else if occurs_at(s, t, i) {
        Some(i)
    } else {
        find_from(s, t, i + 1)
    }
}

/// `t` occurs at `v[i..]`.
pub fn occurs_at_exec(v: &Vec<char>, t: &Vec<char>, i: usize) -> (r: bool)
    requires
        i <= v.len(),
    ensures
        r == occurs_at(v@, t@, i as int),
{
    if t.len() > v.len() - i {
        return false;
    }
    let mut k: usize = 0;
    while k < t.len()
        invariant
            k <= t.len(),
            i + t.len() <= v.len(),
            forall|m: int| 0 <= m < k ==> v@[i + m] == t@[m],
        decreases t.len() - k,
    {
        if v[i + k] != t[k] {
            assert(v@.subrange(i as int, i + t.len())[k as int] != t@[k as int]);
            return false;
        }
        k = k + 1;
    }
    assert(v@.subrange(i as int, i + t.len()) =~= t@);
    true
}

/// The first index at or after `from` where `t` occurs in `v`.
pub fn find_in(v: &Vec<char>, t: &Vec<char>, from: usize) -> (r: Option<usize>)
    requires
        from <= v.len(),
    ensures
        match r {
            Some(i) => find_from(v@, t@, from as int) == Some(i as int),
            None => find_from(v@, t@, from as int) is None,
        },
{
    let mut i: usize = from;
    while i < v.len()
        invariant
            from <= i <= v.len(),
            find_from(v@, t@, from as int) == find_from(v@, t@, i as int),
        decreases v.len() - i,
    {
        if t.len() > v.len() - i {
            return None;
        }
        if occurs_at_exec(v, t, i) {
            assert(find_from(v@, t@, i as int) == Some(i as int));
            return Some(i);
        }
        i = i + 1;
    }
    if occurs_at_exec(v, t, i) {
        assert(find_from(v@, t@, i as int) == Some(i as int));
        Some(i)
    } else {
        assert(t@.len() > 0) by {
            if t@.len() == 0 {
                assert(v@.subrange(i as int, i as int) =~= t@);
            }
        }
        None
    }
}

} // verus!
