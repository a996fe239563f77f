//! Reading `cargo --message-format=json` output: the rustc error codes and
//! warning count of a build, and the clippy lints of a lint run, each code
//! reported once, in order.

use vstd::prelude::*;
use crate::scan::{chars_of, lines, split_lines, views};
use crate::text::string_views;

verus! {

/// Strict lexicographic order on characters by code point (the order of
/// `str`'s `Ord`, since UTF-8 keeps code point order).
pub open spec fn lex_lt(a: Seq<char>, b: Seq<char>) -> bool
    decreases a.len(),
{
    if a.len() == 0 {
        b.len() > 0
    } else if b.len() == 0 {
        false
    } else if a[0] != b[0] {
        a[0] < b[0]
    } else {
        lex_lt(a.drop_first(), b.drop_first())
    }
}

/// Strictly increasing: sorted, and nothing twice.
pub open spec fn strictly_sorted(v: Seq<Seq<char>>) -> bool {
    forall|i: int, j: int| 0 <= i < j < v.len() ==> lex_lt(#[trigger] v[i], #[trigger] v[j])
}

pub proof fn lemma_lex_irreflexive(a: Seq<char>)
    ensures
        !lex_lt(a, a),
    decreases a.len(),
{
    if a.len() > 0 {
        lemma_lex_irreflexive(a.drop_first());
    }
}

proof fn lemma_lex_total(a: Seq<char>, b: Seq<char>)
    ensures
        a != b ==> lex_lt(a, b) || lex_lt(b, a),
    decreases a.len(),
{
    if a.len() > 0 && b.len() > 0 && a[0] == b[0] {
        lemma_lex_total(a.drop_first(), b.drop_first());
        if a.drop_first() == b.drop_first() {
            assert(a =~= seq![a[0]] + a.drop_first());
            assert(b =~= seq![b[0]] + b.drop_first());
        }
    } else if a.len() == 0 && b.len() == 0 {
        assert(a =~= b);
    }
}

proof fn lemma_lex_asymmetric(a: Seq<char>, b: Seq<char>)
    ensures
        lex_lt(a, b) ==> !lex_lt(b, a),
    decreases a.len(),
{
    if a.len() > 0 && b.len() > 0 && a[0] == b[0] {
        lemma_lex_asymmetric(a.drop_first(), b.drop_first());
    }
}

proof fn lemma_lex_transitive(a: Seq<char>, b: Seq<char>, c: Seq<char>)
    ensures
        lex_lt(a, b) && lex_lt(b, c) ==> lex_lt(a, c),
    decreases a.len(),
{
    if a.len() > 0 && b.len() > 0 && c.len() > 0 && a[0] == b[0] && b[0] == c[0] {
        lemma_lex_transitive(a.drop_first(), b.drop_first(), c.drop_first());
    }
}

/// `lex_lt(a, b)`.
pub fn lex_less(a: &Vec<char>, b: &Vec<char>) -> (r: bool)
    ensures
        r == lex_lt(a@, b@),
{
    let mut i: usize = 0;
    assert(a@.skip(0) =~= a@);
    assert(b@.skip(0) =~= b@);
    while i < a.len() && i < b.len() && a[i] == b[i]
        invariant
            i <= a.len(),
            i <= b.len(),
            lex_lt(a@, b@) == lex_lt(a@.skip(i as int), b@.skip(i as int)),
        decreases a.len() - i,
    {
        assert(a@.skip(i as int).drop_first() =~= a@.skip(i + 1));
        assert(b@.skip(i as int).drop_first() =~= b@.skip(i + 1));
        i = i + 1;
    }
    if i == a.len() {
        i < b.len()
    } else if i == b.len() {
        false
    } else {
        a[i] < b[i]
    }
}

fn less_at(v: &Vec<String>, i: usize, x: &Vec<char>) -> (r: bool)
    requires
        i < v.len(),
    ensures
        r == lex_lt(v@[i as int]@, x@),
{
    let cur = chars_of(v[i].as_str());
    lex_less(&cur, x)
}

/// Add `x` to the strictly sorted `v`, keeping it strictly sorted; nothing
/// changes when `x` is already there.
pub fn insert_sorted(v: &mut Vec<String>, x: String)
    requires
        strictly_sorted(string_views(old(v)@)),
    ensures
        strictly_sorted(string_views(final(v)@)),
        forall|c: Seq<char>|
            string_views(final(v)@).contains(c) <==> (string_views(old(v)@).contains(c) || c == x@),
{
    let ghost old_v = string_views(v@);
    let xv = chars_of(x.as_str());
    let mut i: usize = 0;
    while i < v.len() && less_at(v, i, &xv)
        invariant
            i <= v.len(),
            old_v == string_views(v@),
            strictly_sorted(old_v),
            xv@ == x@,
            forall|k: int| 0 <= k < i ==> lex_lt(#[trigger] old_v[k], x@),
        decreases v.len() - i,
    {
        i = i + 1;
    }
    if i < v.len() {
        assert(v@[i as int]@ == old_v[i as int]);
        if v[i] == x {
            assert(old_v[i as int] == x@);
            assert(old_v.contains(x@));
            return;
        }
        proof {
            lemma_lex_total(old_v[i as int], x@);
        }
    }
    let ghost xx = x@;
    v.insert(i, x);
    let ghost nv = string_views(v@);
    assert(nv =~= old_v.insert(i as int, xx));
    assert forall|a: int, b: int| 0 <= a < b < nv.len() implies lex_lt(#[trigger] nv[a], #[trigger] nv[b]) by {
        if b < i {
            assert(nv[a] == old_v[a] && nv[b] == old_v[b]);
        } else if b == i {
            assert(nv[a] == old_v[a] && nv[b] == xx);
        } else if a < i {
            assert(nv[a] == old_v[a] && nv[b] == old_v[b - 1]);
            lemma_lex_transitive(old_v[a], xx, old_v[b - 1]);
            if i < old_v.len() {
                lemma_lex_transitive(xx, old_v[i as int], old_v[b - 1]);
                if b - 1 > i {
                    assert(lex_lt(old_v[i as int], old_v[b - 1]));
                }
            }
        } else if a == i {
            assert(nv[a] == xx && nv[b] == old_v[b - 1]);
            if b - 1 > i {
                assert(lex_lt(old_v[i as int], old_v[b - 1]));
                lemma_lex_transitive(xx, old_v[i as int], old_v[b - 1]);
            }
        } else {
            assert(nv[a] == old_v[a - 1] && nv[b] == old_v[b - 1]);
            assert(lex_lt(old_v[a - 1], old_v[b - 1]));
        }
    }
    assert forall|c: Seq<char>| nv.contains(c) <==> (old_v.contains(c) || c == xx) by {
        if nv.contains(c) {
            let k = choose|k: int| 0 <= k < nv.len() && nv[k] == c;
            if k < i {
                assert(old_v[k] == c);
            } else if k > i {
                assert(old_v[k - 1] == c);
            }
        }
        if old_v.contains(c) {
            let k = choose|k: int| 0 <= k < old_v.len() && old_v[k] == c;
            if k < i {
                assert(nv[k] == c);
            } else {
                assert(nv[k + 1] == c);
            }
        }
        if c == xx {
            assert(nv[i as int] == c);
        }
    }
}

// ---- cargo's JSON messages -------------------------------------------------

/// What `serde_json` reads from one line of `cargo --message-format=json`
/// output: `None` when the line is not JSON; else the top-level `reason`
/// string, and the `message.level` and `message.code.code` strings, each
/// `None` where that field is missing or is not a string.
pub uninterp spec fn json_fields(line: Seq<char>) -> Option<(Option<Seq<char>>, Option<Seq<char>>, Option<Seq<char>>)>;

/// The characters of an optional string.
pub open spec fn opt_chars(o: Option<String>) -> Option<Seq<char>> {
    match o {
        Some(x) => Some(x@),
        None => None,
    }
}

/// The characters of the fields the wrapper below returns.
pub open spec fn fields_view(r: Option<(Option<String>, Option<String>, Option<String>)>) -> Option<
    (Option<Seq<char>>, Option<Seq<char>>, Option<Seq<char>>),
> {
    match r {
        Some((a, b, c)) => Some((opt_chars(a), opt_chars(b), opt_chars(c))),
        None => None,
    }
}

/// Parses `line` with `serde_json::from_str` into a `serde_json::Value` and
/// picks `reason`, `message.level` and `message.code.code` with `get` and
/// `as_str`. The contract claims only that the result is the parse's
/// `json_fields` of the line: nothing is stated of how JSON is parsed.
#[verifier::external_body]
fn read_json_fields(line: &str) -> (r: Option<(Option<String>, Option<String>, Option<String>)>)
    ensures
        fields_view(r) == json_fields(line@),
{
    let v: serde_json::Value = match serde_json::from_str(line) {
        Ok(v) => v,
        Err(_) => return None,
    };
    let reason = v.get("reason").and_then(|r| r.as_str()).map(|s| s.to_string());
    let msg = v.get("message");
    let level = msg.and_then(|m| m.get("level")).and_then(|l| l.as_str()).map(|s| s.to_string());
    let code = msg.and_then(|m| m.get("code")).and_then(|c| c.get("code")).and_then(|c| c.as_str()).map(
        |s| s.to_string(),
    );
    Some((reason, level, code))
}

/// The code of a compiler message at `level`, given its fields; `None` when
/// the fields are not such a message.
pub open spec fn message_code(
    f: Option<(Option<Seq<char>>, Option<Seq<char>>, Option<Seq<char>>)>,
    level: Seq<char>,
) -> Option<Option<Seq<char>>> {
    match f {
        Some((Some(reason), Some(lv), code)) => if reason == "compiler-message"@ && lv == level {
            Some(code)
        } else {
            None
        },
        _ => None,
    }
}

/// The code of line `l` when it is a compiler message at `level`.
pub open spec fn message_at(l: Seq<char>, level: Seq<char>) -> Option<Option<Seq<char>>> {
    message_code(json_fields(l), level)
}

/// The number of warning-level compiler messages among `ls`.
pub open spec fn warn_total(ls: Seq<Seq<char>>) -> nat
    decreases ls.len(),
{
    if ls.len() == 0 {
        0
    } else {
        warn_total(ls.drop_last()) + if message_at(ls.last(), "warning"@) is Some {
            1nat
        } else {
            0nat
        }
    }
}

/// Some error-level compiler message among `ls` carries code `c`.
pub open spec fn has_error_code(ls: Seq<Seq<char>>, c: Seq<char>) -> bool {
    exists|i: int| 0 <= i < ls.len() && #[trigger] message_at(ls[i], "error"@) == Some(Some(c))
}

/// `t` starts with `p`.
pub open spec fn starts_with(t: Seq<char>, p: Seq<char>) -> bool {
    p.len() <= t.len() && t.take(p.len() as int) == p
}

/// Some warning-level compiler message among `ls` carries the clippy lint
/// code `c`.
pub open spec fn has_lint(ls: Seq<Seq<char>>, c: Seq<char>) -> bool {
    starts_with(c, "clippy::"@) && exists|i: int|
        0 <= i < ls.len() && #[trigger] message_at(ls[i], "warning"@) == Some(Some(c))
}

proof fn lemma_lines_len(t: Seq<char>)
    ensures
        crate::scan::lines(t).len() <= t.len(),
    decreases t.len(),
{
    let i = crate::scan::nl_index(t);
    if t.len() > 0 && i < t.len() {
        lemma_lines_len(t.skip(i as int + 1));
    }
}

/// The characters of an optional optional string.
pub open spec fn opt_opt_chars(o: Option<Option<String>>) -> Option<Option<Seq<char>>> {
    match o {
        Some(c) => Some(opt_chars(c)),
        None => None,
    }
}

fn message_level(f: &Option<(Option<String>, Option<String>, Option<String>)>, level: &str) -> (r: Option<
    Option<String>,
>)
    ensures
        opt_opt_chars(r) == message_code(fields_view(*f), level@),
{
    match f {
        Some((Some(reason), Some(lv), code)) => {
            if crate::vocab::string_eq_str(reason, "compiler-message") && crate::vocab::string_eq_str(lv, level) {
                Some(code.clone())
            } else {
                None
            }
        },
        _ => None,
    }
}

/// `t` starts with `clippy::`.
fn is_clippy_code(t: &String) -> (r: bool)
    ensures
        r == starts_with(t@, "clippy::"@),
{
    let v = chars_of(t.as_str());
    let p = chars_of("clippy::");
    if p.len() > v.len() {
        return false;
    }
    let mut k: usize = 0;
    while k < p.len()
        invariant
            k <= p.len() <= v.len(),
            v@ == t@,
            p@ == "clippy::"@,
            forall|m: int| 0 <= m < k ==> v@[m] == p@[m],
        decreases p.len() - k,
    {
        if v[k] != p[k] {
            assert(v@ == t@);
            assert(t@.take(p@.len() as int)[k as int] != p@[k as int]);
            assert(t@.take(p@.len() as int) != p@);
            return false;
        }
        k = k + 1;
    }
    assert(v@.take(p@.len() as int) =~= p@);
    true
}

/// Read `cargo build --message-format=json` output: every rustc error code,
/// sorted and each once, and the number of warnings. Every code is kept: the
/// histogram of codes is the grader's richest diagnostic signal.
pub fn parse_diagnostics(stdout: &str) -> (r: (Vec<String>, u32))
    requires
        stdout@.len() <= u32::MAX,
    ensures
        strictly_sorted(string_views(r.0@)),
        forall|c: Seq<char>| string_views(r.0@).contains(c) <==> has_error_code(lines(stdout@), c),
        r.1 == warn_total(lines(stdout@)),
{
    let v = chars_of(stdout);
    let ls = split_lines(&v);
    let ghost vs = views(ls@);
    proof {
        lemma_lines_len(stdout@);
    }
    let mut codes: Vec<String> = Vec::new();
    let mut warns: u32 = 0;
    let mut i: usize = 0;
    assert(vs.take(0) =~= Seq::<Seq<char>>::empty());
    while i < ls.len()
        invariant
            i <= ls.len(),
            ls.len() <= u32::MAX,
            vs == views(ls@),
            vs == lines(stdout@),
            strictly_sorted(string_views(codes@)),
            forall|c: Seq<char>| string_views(codes@).contains(c) <==> has_error_code(vs.take(i as int), c),
            warns == warn_total(vs.take(i as int)),
            warns <= i,
        decreases ls.len() - i,
    {
        let line = string_from_chars(&ls[i]);
        assert(line@ == vs[i as int]);
        let f = read_json_fields(line.as_str());
        let ghost before = vs.take(i as int);
        let ghost after = vs.take(i + 1);
        assert(after.drop_last() =~= before);
        assert(after.last() == vs[i as int]);
        if message_level(&f, "warning").is_some() {
            warns = warns + 1;
        }
        let e = message_level(&f, "error");
        let ghost old_codes = string_views(codes@);
        match e {
            Some(Some(code)) => {
                let ghost cv = code@;
                insert_sorted(&mut codes, code);
                assert forall|c: Seq<char>| string_views(codes@).contains(c) <==> has_error_code(after, c) by {
                    if has_error_code(after, c) {
                        let k = choose|k: int| 0 <= k < after.len() && #[trigger] message_at(after[k], "error"@) == Some(Some(c));
                        if k < i {
                            assert(before[k] == after[k]);
                            assert(has_error_code(before, c));
                        }
                    }
                    if has_error_code(before, c) {
                        let k = choose|k: int| 0 <= k < before.len() && #[trigger] message_at(before[k], "error"@) == Some(Some(c));
                        assert(after[k] == before[k]);
                    }
                    if c == cv {
                        assert(message_at(after[i as int], "error"@) == Some(Some(c)));
                    }
                }
            },
            _ => {
                assert forall|c: Seq<char>| string_views(codes@).contains(c) <==> has_error_code(after, c) by {
                    if has_error_code(after, c) {
                        let k = choose|k: int| 0 <= k < after.len() && #[trigger] message_at(after[k], "error"@) == Some(Some(c));
                        if k < i {
                            assert(before[k] == after[k]);
                            assert(has_error_code(before, c));
                        }
                    }
                    if has_error_code(before, c) {
                        let k = choose|k: int| 0 <= k < before.len() && #[trigger] message_at(before[k], "error"@) == Some(Some(c));
                        assert(after[k] == before[k]);
                    }
                }
            },
        }
        i = i + 1;
    }
    assert(vs.take(ls.len() as int) =~= vs);
    (codes, warns)
}

/// Read `cargo clippy --message-format=json` output: the `clippy::` lint codes
/// of warning-level messages, sorted and each once (ordinary rustc warnings do
/// not count). Empty means clippy-clean.
pub fn parse_clippy_lints(stdout: &str) -> (r: Vec<String>)
    ensures
        strictly_sorted(string_views(r@)),
        forall|c: Seq<char>| string_views(r@).contains(c) <==> has_lint(lines(stdout@), c),
{
    let v = chars_of(stdout);
    let ls = split_lines(&v);
    let ghost vs = views(ls@);
    let mut lints: Vec<String> = Vec::new();
    let mut i: usize = 0;
    assert(vs.take(0) =~= Seq::<Seq<char>>::empty());
    while i < ls.len()
        invariant
            i <= ls.len(),
            vs == views(ls@),
            vs == lines(stdout@),
            strictly_sorted(string_views(lints@)),
            forall|c: Seq<char>| string_views(lints@).contains(c) <==> has_lint(vs.take(i as int), c),
        decreases ls.len() - i,
    {
        let line = string_from_chars(&ls[i]);
        assert(line@ == vs[i as int]);
        let f = read_json_fields(line.as_str());
        let ghost before = vs.take(i as int);
        let ghost after = vs.take(i + 1);
        assert(after.drop_last() =~= before);
        assert(after.last() == vs[i as int]);
        let w = message_level(&f, "warning");
        let mut added = false;
        let ghost mut cv: Seq<char> = Seq::empty();
        match w {
            Some(Some(code)) => {
                if is_clippy_code(&code) {
                    proof {
                        cv = code@;
                    }
                    insert_sorted(&mut lints, code);
                    added = true;
                }
            },
            _ => {},
        }
        assert forall|c: Seq<char>| string_views(lints@).contains(c) <==> has_lint(after, c) by {
            if has_lint(after, c) {
                let k = choose|k: int| 0 <= k < after.len() && #[trigger] message_at(after[k], "warning"@) == Some(Some(c));
                if k < i {
                    assert(before[k] == after[k]);
                    assert(has_lint(before, c));
                }
            }
            if has_lint(before, c) {
                let k = choose|k: int| 0 <= k < before.len() && #[trigger] message_at(before[k], "warning"@) == Some(Some(c));
                assert(after[k] == before[k]);
            }
            if added && c == cv {
                assert(message_at(after[i as int], "warning"@) == Some(Some(c)));
            }
        }
        i = i + 1;
    }
    assert(vs.take(ls.len() as int) =~= vs);
    lints
}

/// A `String` holding the characters of `v`.
fn string_from_chars(v: &Vec<char>) -> (r: String)
    ensures
        r@ == v@,
{
    let mut s = String::new();
    let mut i: usize = 0;
    while i < v.len()
        invariant
            i <= v.len(),
            s@ == v@.take(i as int),
        decreases v.len() - i,
    {
        crate::text::push_char(&mut s, v[i]);
        assert(v@.take(i + 1) =~= v@.take(i as int).push(v@[i as int]));
        i = i + 1;
    }
    assert(v@.take(v.len() as int) =~= v@);
    s
}

} // verus!
