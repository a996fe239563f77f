//! How far apart two instances are. Texts are split into word tokens,
//! lowercased by Unicode case mapping; each text becomes the set of its runs
//! of `k` consecutive tokens (shingles), and the distance is the share of
//! shingles the two sets do not have in common: `1 - |A ∩ B| / |A ∪ B|`. A rename moves only the few
//! shingles that touch the renamed word.

use vstd::prelude::*;
use vstd::seq_lib::lemma_seq_contains_after_push;
use vstd::seq_lib::seq_to_set_is_finite;
use crate::scan::chars_of;
use crate::text::{push_char, push_str, string_views};
use crate::vocab::string_eq_str;
use crate::diagnostics::{lex_lt, strictly_sorted, insert_sorted, lemma_lex_irreflexive};

verus! {

/// The shingle size instances are compared with.
pub const K: usize = 3;

/// What `char::is_alphanumeric` answers for `c` (the Unicode `Alphabetic` or
/// `Numeric` properties).
pub uninterp spec fn char_alphanumeric(c: char) -> bool;

/// `char::is_alphanumeric`. Its answer is named, not stated: the contract
/// says only that the result is `char_alphanumeric(c)`.
#[verifier::external_body]
fn is_alphanumeric(c: char) -> (r: bool)
    ensures
        r == char_alphanumeric(c),
{
    c.is_alphanumeric()
}

/// A character that belongs to a token.
pub open spec fn word_char(c: char) -> bool {
    char_alphanumeric(c) || c == '_'
}

/// What `char::to_lowercase` yields for `c`: its Unicode lowercase
/// mapping.
pub uninterp spec fn char_lowercase(c: char) -> Seq<char>;

/// `char::to_lowercase`, collected. The mapping is named, not stated; the
/// contract adds what the documentation promises of it: one or more
/// characters.
#[verifier::external_body]
fn to_lowercase(c: char) -> (r: Vec<char>)
    ensures
        r@ == char_lowercase(c),
        r@.len() >= 1,
{
    c.to_lowercase().collect()
}

/// Appends the characters of `v`.
fn push_chars(s: &mut String, v: &Vec<char>)
    ensures
        final(s)@ == old(s)@ + v@,
{
    let ghost start = s@;
    let mut j: usize = 0;
    while j < v.len()
        invariant
            j <= v.len(),
            s@ == start + v@.take(j as int),
        decreases v.len() - j,
    {
        push_char(s, v[j]);
        assert(v@.take(j + 1) =~= v@.take(j as int).push(v@[j as int]));
        assert(start + v@.take(j + 1) =~= (start + v@.take(j as int)).push(v@[j as int]));
        j = j + 1;
    }
    assert(v@.take(v.len() as int) =~= v@);
}

/// The finished tokens of `s`, and the token still being read at its end.
pub open spec fn scan_tokens(s: Seq<char>) -> (Seq<Seq<char>>, Seq<char>)
    decreases s.len(),
{
    if s.len() == 0 {
        (Seq::empty(), Seq::empty())
    } else {
        let prev = scan_tokens(s.drop_last());
        let c = s.last();
        if word_char(c) {
            (prev.0, prev.1 + char_lowercase(c))
        } else if prev.1.len() > 0 {
            (prev.0.push(prev.1), Seq::empty())
        } else {
            prev
        }
    }
}

/// The maximal runs of word characters of `s`, each character replaced by
/// its Unicode lowercase mapping, in order.
pub open spec fn tokens_spec(s: Seq<char>) -> Seq<Seq<char>> {
    let r = scan_tokens(s);
    if r.1.len() > 0 { r.0.push(r.1) } else { r.0 }
}

/// The tokens of `s`.
pub fn tokens(s: &str) -> (r: Vec<String>)
    ensures
        string_views(r@) == tokens_spec(s@),
{
    let v = chars_of(s);
    let mut out: Vec<String> = Vec::new();
    let mut cur = String::new();
    let mut reading = false;
    let mut i: usize = 0;
    assert(v@.take(0) =~= Seq::<char>::empty());
    assert(string_views(out@) =~= Seq::<Seq<char>>::empty());
    while i < v.len()
        invariant
            i <= v.len(),
            v@ == s@,
            (string_views(out@), cur@) == scan_tokens(v@.take(i as int)),
            reading == (cur@.len() > 0),
        decreases v.len() - i,
    {
        let c = v[i];
        assert(v@.take(i + 1).drop_last() =~= v@.take(i as int));
        let ghost before = string_views(out@);
        if is_alphanumeric(c) || c == '_' {
            let low = to_lowercase(c);
            push_chars(&mut cur, &low);
            reading = true;
        } else if reading {
            let done = cur;
            out.push(done);
            cur = String::new();
            reading = false;
            assert(string_views(out@) =~= before.push(done@));
        }
        i = i + 1;
    }
    assert(v@.take(v.len() as int) =~= v@);
    if reading {
        let ghost before = string_views(out@);
        let last = cur;
        out.push(last);
        assert(string_views(out@) =~= before.push(last@));
    }
    out
}

/// Tokens joined by single spaces.
pub open spec fn spaced(t: Seq<Seq<char>>) -> Seq<char>
    decreases t.len(),
{
    if t.len() == 0 {
        Seq::empty()
    } else if t.len() == 1 {
        t[0]
    } else {
        spaced(t.drop_last()) + " "@ + t.last()
    }
}

/// The shingles of a token list: every run of `k` consecutive tokens, joined
/// by spaces; a list shorter than `k` is its own tokens.
pub open spec fn shingle_list(t: Seq<Seq<char>>, k: nat) -> Seq<Seq<char>> {
    if t.len() < k {
        t
    } else {
        Seq::new((t.len() - k + 1) as nat, |i: int| spaced(t.subrange(i, i + k)))
    }
}

/// The shingle set of a text.
pub open spec fn shingle_set(s: Seq<char>, k: nat) -> Set<Seq<char>> {
    shingle_list(tokens_spec(s), k).to_set()
}

fn spaced_string(t: &Vec<String>, lo: usize, hi: usize) -> (r: String)
    requires
        lo < hi <= t.len(),
    ensures
        r@ == spaced(string_views(t@).subrange(lo as int, hi as int)),
{
    let ghost tv = string_views(t@);
    let mut r = String::from_str(t[lo].as_str());
    let mut j: usize = lo + 1;
    assert(tv.subrange(lo as int, lo + 1) =~= seq![tv[lo as int]]);
    while j < hi
        invariant
            lo < j <= hi <= t.len(),
            tv == string_views(t@),
            r@ == spaced(tv.subrange(lo as int, j as int)),
        decreases hi - j,
    {
        push_str(&mut r, " ");
        push_str(&mut r, t[j].as_str());
        assert(tv.subrange(lo as int, j + 1).drop_last() =~= tv.subrange(lo as int, j as int));
        j = j + 1;
    }
    r
}

/// The shingle set of `s`, as a strictly increasing list.
pub fn shingles(s: &str, k: usize) -> (r: Vec<String>)
    requires
        k > 0,
    ensures
        strictly_sorted(string_views(r@)),
        string_views(r@).to_set() == shingle_set(s@, k as nat),
{
    let t = tokens(s);
    let ghost tv = string_views(t@);
    let ghost list = shingle_list(tv, k as nat);
    let mut r: Vec<String> = Vec::new();
    let n: usize = if t.len() < k { t.len() } else { t.len() - k + 1 };
    let mut i: usize = 0;
    while i < n
        invariant
            i <= n,
            k > 0,
            n == list.len(),
            tv == string_views(t@),
            list == shingle_list(tv, k as nat),
            strictly_sorted(string_views(r@)),
            forall|x: Seq<char>| string_views(r@).contains(x) <==> list.take(i as int).contains(x),
        decreases n - i,
    {
        let item = if t.len() < k {
            String::from_str(t[i].as_str())
        } else {
            spaced_string(&t, i, i + k)
        };
        assert(item@ == list[i as int]);
        let ghost before = string_views(r@);
        insert_sorted(&mut r, item);
        assert forall|x: Seq<char>| string_views(r@).contains(x) <==> list.take(i + 1).contains(x) by {
            if list.take(i + 1).contains(x) {
                let q = choose|q: int| 0 <= q < i + 1 && #[trigger] list.take(i + 1)[q] == x;
                if q < i {
                    assert(list.take(i as int)[q] == x);
                }
            }
            if list.take(i as int).contains(x) {
                let q = choose|q: int| 0 <= q < i && #[trigger] list.take(i as int)[q] == x;
                assert(list.take(i + 1)[q] == x);
            }
            if x == list[i as int] {
                assert(list.take(i + 1)[i as int] == x);
            }
        }
        i = i + 1;
    }
    assert(list.take(n as int) =~= list);
    assert(string_views(r@).to_set() =~= list.to_set());
    r
}

/// How two shingle sets overlap: `(|A ∩ B|, |A \ B|, |B \ A|)`. The distance
/// is `(only_a + only_b) / (shared + only_a + only_b)`, and 0 for two empty
/// sets.
pub open spec fn overlap_spec(a: Set<Seq<char>>, b: Set<Seq<char>>) -> (nat, nat, nat) {
    (a.intersect(b).len(), a.difference(b).len(), b.difference(a).len())
}

proof fn lemma_sorted_no_dups(v: Seq<Seq<char>>)
    requires
        strictly_sorted(v),
    ensures
        v.no_duplicates(),
{
    assert forall|i: int, j: int| 0 <= i < v.len() && 0 <= j < v.len() && i != j implies v[i] != v[j] by {
        if i < j {
            assert(lex_lt(v[i], v[j]));
            lemma_lex_irreflexive(v[i]);
        } else {
            assert(lex_lt(v[j], v[i]));
            lemma_lex_irreflexive(v[j]);
        }
    }
}

fn contains_string(v: &Vec<String>, x: &String) -> (r: bool)
    ensures
        r == string_views(v@).contains(x@),
{
    let mut j: usize = 0;
    while j < v.len()
        invariant
            j <= v.len(),
            forall|q: int| 0 <= q < j ==> v@[q]@ != x@,
        decreases v.len() - j,
    {
        if string_eq_str(&v[j], x.as_str()) {
            assert(string_views(v@)[j as int] == x@);
            return true;
        }
        j = j + 1;
    }
    proof {
        if string_views(v@).contains(x@) {
            let q = choose|q: int| 0 <= q < v@.len() && #[trigger] string_views(v@)[q] == x@;
            assert(v@[q]@ == x@);
        }
    }
    false
}

/// The elements of the strictly increasing `a` that `b` holds (`keep`) or
/// does not hold (`!keep`), counted.
fn count_split(a: &Vec<String>, b: &Vec<String>, keep: bool) -> (n: usize)
    requires
        strictly_sorted(string_views(a@)),
    ensures
        n == (if keep {
            string_views(a@).to_set().intersect(string_views(b@).to_set())
        } else {
            string_views(a@).to_set().difference(string_views(b@).to_set())
        }).len(),
{
    let ghost av = string_views(a@);
    let ghost bs = string_views(b@).to_set();
    let mut chosen: Vec<String> = Vec::new();
    let mut i: usize = 0;
    while i < a.len()
        invariant
            i <= a.len(),
            av == string_views(a@),
            bs == string_views(b@).to_set(),
            strictly_sorted(av),
            chosen@.len() <= i,
            forall|p: int, q: int| 0 <= p < chosen@.len() && i <= q < av.len() ==> lex_lt(#[trigger] string_views(chosen@)[p], #[trigger] av[q]),
            strictly_sorted(string_views(chosen@)),
            forall|x: Seq<char>| #[trigger] string_views(chosen@).contains(x) <==> (av.take(i as int).contains(x) && (bs.contains(x) == keep)),
        decreases a.len() - i,
    {
        let ghost before = string_views(chosen@);
        assert(forall|x: Seq<char>| #[trigger] before.contains(x) <==> (av.take(i as int).contains(x) && (bs.contains(x) == keep)));
        let inside = contains_string(b, &a[i]);
        if inside == keep {
            chosen.push(String::from_str(a[i].as_str()));
            assert(string_views(chosen@) =~= before.push(av[i as int]));
        } else {
            assert(string_views(chosen@) =~= before);
        }
        let ghost cv = string_views(chosen@);
        assert(bs.contains(av[i as int]) == inside);
        assert(av.take(i + 1) =~= av.take(i as int).push(av[i as int]));
        assert forall|x: Seq<char>| cv.contains(x) <==> (av.take(i + 1).contains(x) && (bs.contains(x) == keep)) by {
            lemma_seq_contains_after_push(av.take(i as int), av[i as int], x);
            lemma_seq_contains_after_push(before, av[i as int], x);
        }
        assert forall|p: int, q: int| 0 <= p < cv.len() && i + 1 <= q < av.len() implies lex_lt(#[trigger] cv[p], #[trigger] av[q]) by {
            if p < before.len() {
                assert(cv[p] == before[p]);
            } else {
                assert(cv[p] == av[i as int]);
            }
        }
        i = i + 1;
    }
    proof {
        let cv = string_views(chosen@);
        lemma_sorted_no_dups(cv);
        cv.unique_seq_to_set();
        assert(av.take(a.len() as int) =~= av);
        let target = if keep { av.to_set().intersect(bs) } else { av.to_set().difference(bs) };
        assert forall|x: Seq<char>| cv.to_set().contains(x) <==> target.contains(x) by {
            assert(cv.contains(x) <==> (av.take(a.len() as int).contains(x) && (bs.contains(x) == keep)));
            assert(cv.to_set().contains(x) == cv.contains(x));
            assert(av.to_set().contains(x) == av.contains(x));
        }
        assert(cv.to_set() =~= target);
    }
    chosen.len()
}

/// How two strictly increasing shingle lists overlap.
pub fn lists_overlap(sa: &Vec<String>, sb: &Vec<String>) -> (r: (usize, usize, usize))
    requires
        strictly_sorted(string_views(sa@)),
        strictly_sorted(string_views(sb@)),
    ensures
        (r.0 as nat, r.1 as nat, r.2 as nat) == overlap_spec(string_views(sa@).to_set(), string_views(sb@).to_set()),
{
    let shared = count_split(sa, sb, true);
    let only_a = count_split(sa, sb, false);
    let only_b = count_split(sb, sa, false);
    (shared, only_a, only_b)
}

/// `(|A ∩ B|, |A \ B|, |B \ A|)` for the `k`-shingle sets of `a` and `b`.
pub fn shingle_overlap(a: &str, b: &str, k: usize) -> (r: (usize, usize, usize))
    requires
        k > 0,
    ensures
        (r.0 as nat, r.1 as nat, r.2 as nat) == overlap_spec(shingle_set(a@, k as nat), shingle_set(b@, k as nat)),
{
    let sa = shingles(a, k);
    let sb = shingles(b, k);
    lists_overlap(&sa, &sb)
}

/// Two overlaps at least `pct` hundredths apart: `(only_a + only_b) * 100 >=
/// pct * (shared + only_a + only_b)`, where two empty sets are 0 apart.
pub open spec fn far_apart(o: (nat, nat, nat), pct: nat) -> bool {
    let total = o.0 + o.1 + o.2;
    if total == 0 { pct == 0 } else { (o.1 + o.2) * 100 >= pct * total }
}

/// Whether two strictly increasing shingle lists are at least `pct`
/// hundredths apart.
pub fn lists_apart(sa: &Vec<String>, sb: &Vec<String>, pct: u32) -> (r: bool)
    requires
        strictly_sorted(string_views(sa@)),
        strictly_sorted(string_views(sb@)),
    ensures
        r == far_apart(overlap_spec(string_views(sa@).to_set(), string_views(sb@).to_set()), pct as nat),
{
    let (s, x, y) = lists_overlap(sa, sb);
    let total: u128 = s as u128 + x as u128 + y as u128;
    if total == 0 {
        pct == 0
    } else {
        let apart: u128 = (x as u128 + y as u128) * 100;
        assert(total <= 3 * 0xffff_ffff_ffff_ffffu128);
        assert(pct as u128 * total <= 0xffff_ffffu128 * (3 * 0xffff_ffff_ffff_ffffu128)) by (nonlinear_arith)
            requires pct <= 0xffff_ffffu32, total <= 3 * 0xffff_ffff_ffff_ffffu128;
        apart >= pct as u128 * total
    }
}

/// Whether the `k`-shingle distance of `a` and `b` is at least `pct`
/// hundredths.
pub fn at_least_apart(a: &str, b: &str, k: usize, pct: u32) -> (r: bool)
    requires
        k > 0,
    ensures
        r == far_apart(overlap_spec(shingle_set(a@, k as nat), shingle_set(b@, k as nat)), pct as nat),
{
    let sa = shingles(a, k);
    let sb = shingles(b, k);
    lists_apart(&sa, &sb, pct)
}

/// The distance is symmetric: `a` is at least `pct` apart from `b` exactly
/// when `b` is at least `pct` apart from `a`.
pub proof fn law_distance_is_symmetric(a: Seq<char>, b: Seq<char>, k: nat, pct: nat)
    ensures
        far_apart(overlap_spec(shingle_set(a, k), shingle_set(b, k)), pct) == far_apart(
            overlap_spec(shingle_set(b, k), shingle_set(a, k)),
            pct,
        ),
{
    let sa = shingle_set(a, k);
    let sb = shingle_set(b, k);
    assert(sa.intersect(sb) =~= sb.intersect(sa));
}

/// A text is at distance 0 from itself: it is at least `pct` apart from
/// itself only for `pct == 0`.
pub proof fn law_identical_is_zero(a: Seq<char>, k: nat, pct: nat)
    ensures
        far_apart(overlap_spec(shingle_set(a, k), shingle_set(a, k)), pct) <==> pct == 0,
{
    let sa = shingle_set(a, k);
    seq_to_set_is_finite(shingle_list(tokens_spec(a), k));
    assert(sa.difference(sa) =~= Set::<Seq<char>>::empty());
    assert(sa.intersect(sa) =~= sa);
    let o = overlap_spec(sa, sa);
    assert(o.1 == 0 && o.2 == 0);
    if o.0 > 0 && pct > 0 {
        assert(pct * o.0 > 0) by (nonlinear_arith)
            requires pct > 0, o.0 > 0;
    }
}

/// Texts with no shingle in common, and some shingle at all, are at
/// distance 1: at least 100 hundredths apart.
pub proof fn law_disjoint_is_one(a: Seq<char>, b: Seq<char>, k: nat)
    requires
        shingle_set(a, k).disjoint(shingle_set(b, k)),
        shingle_set(a, k).len() + shingle_set(b, k).len() > 0,
    ensures
        far_apart(overlap_spec(shingle_set(a, k), shingle_set(b, k)), 100),
{
    let sa = shingle_set(a, k);
    let sb = shingle_set(b, k);
    seq_to_set_is_finite(shingle_list(tokens_spec(a), k));
    seq_to_set_is_finite(shingle_list(tokens_spec(b), k));
    assert(sa.intersect(sb) =~= Set::<Seq<char>>::empty());
    assert(sa.difference(sb) =~= sa);
    assert(sb.difference(sa) =~= sb);
}

} // verus!
