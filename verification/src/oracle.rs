//! The grader's own logic: pulling the answer out of a model response,
//! reading libtest summaries and rustc diagnostics, and the order and scoring
//! of the grading layers.

use vstd::prelude::*;
use crate::scan::{
    chars_of, find_from, find_in, occurs_at, lines, ltrim, ltrim_start, rtrim, rtrim_end, split_lines,
    trim, trim_bounds, views, nl_index, strip_cr, lead_ws, trail_ws, is_ws,
};
use crate::text::{push_char, terminated};

verus! {

/// Why grading could not run.
pub enum OracleError {
    /// A file or process operation failed; the operating system's message.
    Io(String),
    /// The grading workspace given was not an empty directory.
    DirtyWorkspace(String),
}

/// The text of an `OracleError`.
pub open spec fn oracle_error_text(e: OracleError) -> Seq<char> {
    match e {
        OracleError::Io(m) => "io: "@ + m@,
        OracleError::DirtyWorkspace(w) => "workspace "@ + w@ + " is not an empty directory"@,
    }
}

impl OracleError {
    /// The human-readable text of the error.
    pub fn message(&self) -> (r: String)
        ensures
            r@ == oracle_error_text(*self),
    {
        match self {
            OracleError::Io(m) => {
                let mut s = crate::text::string_of("io: ");
                crate::text::push_str(&mut s, m.as_str());
                s
            },
            OracleError::DirtyWorkspace(w) => {
                let mut s = crate::text::string_of("workspace ");
                crate::text::push_str(&mut s, w.as_str());
                crate::text::push_str(&mut s, " is not an empty directory");
                s
            },
        }
    }
}

/// A line that opens or closes a fenced block: three backticks after any
/// leading whitespace.
pub open spec fn is_fence(l: Seq<char>) -> bool {
    let t = ltrim(l);
    t.len() >= 3 && t[0] == '`' && t[1] == '`' && t[2] == '`'
}

/// The index of the first fence line at or after `i`, or `ls.len()`.
pub open spec fn fence_from(ls: Seq<Seq<char>>, i: int) -> int
    decreases ls.len() - i,
{
    if i < 0 || i >= ls.len() {
        ls.len() as int
    } else if is_fence(ls[i]) {
        i
    } else {
        fence_from(ls, i + 1)
    }
}

/// The lines strictly between the first fence line and the next one, each
/// followed by `\n`; `None` when no second fence line follows the first.
pub open spec fn fenced_block(ls: Seq<Seq<char>>) -> Option<Seq<char>> {
    let a = fence_from(ls, 0);
    let b = fence_from(ls, a + 1);
    if b < ls.len() {
        Some(terminated(ls.subrange(a + 1, b)))
    } else {
        None
    }
}

/// `trim(t)`, or `None` when that is empty.
pub open spec fn nonblank(t: Seq<char>) -> Option<Seq<char>> {
    if trim(t).len() == 0 {
        None
    } else {
        Some(trim(t))
    }
}

/// The answer in a model response: the trimmed first fenced block when there
/// is one, else the whole trimmed response; `None` when that is empty.
pub open spec fn extracted(s: Seq<char>) -> Option<Seq<char>> {
    match fenced_block(lines(s)) {
        Some(b) => nonblank(b),
        None => nonblank(s),
    }
}

/// The characters of an optional string.
pub open spec fn opt_view(o: Option<String>) -> Option<Seq<char>> {
    match o {
        Some(x) => Some(x@),
        None => None,
    }
}

fn is_fence_line(l: &Vec<char>) -> (r: bool)
    ensures
        r == is_fence(l@),
{
    let a = ltrim_start(l, 0, l.len());
    assert(l@.subrange(0, l.len() as int) =~= l@);
    let ghost t = ltrim(l@);
    assert(t =~= l@.subrange(a as int, l.len() as int));
    if l.len() - a >= 3 {
        assert(t[0] == l@[a as int] && t[1] == l@[a + 1] && t[2] == l@[a + 2]);
        l[a] == '`' && l[a + 1] == '`' && l[a + 2] == '`'
    } else {
        false
    }
}

fn fence_index(ls: &Vec<Vec<char>>, from: usize) -> (r: usize)
    requires
        from <= ls.len(),
    ensures
        r as int == fence_from(views(ls@), from as int),
        from <= r <= ls.len(),
{
    let ghost vs = views(ls@);
    let mut i: usize = from;
    while i < ls.len()
        invariant
            from <= i <= ls.len(),
            vs == views(ls@),
            fence_from(vs, from as int) == fence_from(vs, i as int),
        decreases ls.len() - i,
    {
        assert(vs[i as int] == ls@[i as int]@);
        if is_fence_line(&ls[i]) {
            return i;
        }
        i = i + 1;
    }
    i
}

/// Appends `src` to `out`.
fn append_chars(out: &mut Vec<char>, src: &Vec<char>)
    ensures
        final(out)@ == old(out)@ + src@,
{
    let ghost start = out@;
    let mut i: usize = 0;
    while i < src.len()
        invariant
            i <= src.len(),
            out@ == start + src@.take(i as int),
        decreases src.len() - i,
    {
        out.push(src[i]);
        assert(src@.take(i + 1) =~= src@.take(i as int).push(src@[i as int]));
        i = i + 1;
    }
    assert(src@.take(src.len() as int) =~= src@);
}

/// The first fenced block of `ls`, as `fenced_block` describes it.
fn first_fenced_block(ls: &Vec<Vec<char>>) -> (r: Option<Vec<char>>)
    ensures
        match r {
            Some(b) => fenced_block(views(ls@)) == Some(b@),
            None => fenced_block(views(ls@)) is None,
        },
{
    let ghost vs = views(ls@);
    let a = fence_index(ls, 0);
    if a >= ls.len() {
        return None;
    }
    let b = fence_index(ls, a + 1);
    if b >= ls.len() {
        return None;
    }
    let mut out: Vec<char> = Vec::new();
    let mut k: usize = a + 1;
    assert(vs.subrange(a + 1, a + 1) =~= Seq::<Seq<char>>::empty());
    while k < b
        invariant
            a + 1 <= k <= b < ls.len(),
            vs == views(ls@),
            out@ == terminated(vs.subrange(a + 1, k as int)),
        decreases b - k,
    {
        proof {
            reveal_strlit("\n");
        }
        append_chars(&mut out, &ls[k]);
        out.push('\n');
        assert(vs.subrange(a + 1, k + 1).drop_last() =~= vs.subrange(a + 1, k as int));
        assert(vs.subrange(a + 1, k + 1).last() == ls@[k as int]@);
        assert(out@ =~= terminated(vs.subrange(a + 1, k + 1)));
        k = k + 1;
    }
    Some(out)
}

/// A `String` holding `v[lo..hi]`.
fn string_from(v: &Vec<char>, lo: usize, hi: usize) -> (r: String)
    requires
        lo <= hi <= v.len(),
    ensures
        r@ == v@.subrange(lo as int, hi as int),
{
    let mut s = String::new();
    let mut i: usize = lo;
    while i < hi
        invariant
            lo <= i <= hi <= v.len(),
            s@ == v@.subrange(lo as int, i as int),
        decreases hi - i,
    {
        push_char(&mut s, v[i]);
        assert(v@.subrange(lo as int, i + 1) =~= v@.subrange(lo as int, i as int).push(v@[i as int]));
        i = i + 1;
    }
    s
}

fn nonblank_string(v: &Vec<char>) -> (r: Option<String>)
    ensures
        opt_view(r) == nonblank(v@),
{
    let (a, b) = trim_bounds(v, 0, v.len());
    assert(v@.subrange(0, v.len() as int) =~= v@);
    if a == b {
        None
    } else {
        Some(string_from(v, a, b))
    }
}

/// Extract the answer from a model response. Prefers the first fenced code
/// block (three backticks, optionally tagged `rust`); falls back to the whole
/// trimmed response when the model returned bare code.
pub fn extract_code(response: &str) -> (r: Option<String>)
    ensures
        opt_view(r) == extracted(response@),
{
    let v = chars_of(response);
    let ls = split_lines(&v);
    match first_fenced_block(&ls) {
        Some(b) => nonblank_string(&b),
        None => nonblank_string(&v),
    }
}

// ---- libtest summaries -----------------------------------------------------

/// An ASCII decimal digit.
pub open spec fn is_digit(c: char) -> bool {
    48 <= (c as u32) <= 57
}

/// The number of digits `t` ends with.
pub open spec fn trail_digits(t: Seq<char>) -> nat
    decreases t.len(),
{
    if t.len() == 0 || !is_digit(t.last()) {
        0
    } else {
        1 + trail_digits(t.drop_last())
    }
}

/// The number a run of decimal digits spells.
pub open spec fn digits_value(d: Seq<char>) -> int
    decreases d.len(),
{
    if d.len() == 0 {
        0
    } else {
        10 * digits_value(d.drop_last()) + (d.last() as u32 - 48)
    }
}

/// The number written just before the first `label` in `s` (whitespace
/// between them skipped), when it is there and fits in `u32`.
pub open spec fn count_before(s: Seq<char>, label: Seq<char>) -> Option<int> {
    match find_from(s, label, 0) {
        None => None,
        Some(idx) => {
            let p = rtrim(s.take(idx));
            let d = p.skip(p.len() - trail_digits(p));
            if d.len() == 0 || digits_value(d) > u32::MAX {
                None
            } else {
                Some(digits_value(d))
            }
        },
    }
}

proof fn lemma_trail_digits_is(t: Seq<char>, m: int)
    requires
        0 <= m <= t.len(),
        forall|k: int| t.len() - m <= k < t.len() ==> is_digit(#[trigger] t[k]),
        m == t.len() || !is_digit(t[t.len() - m - 1]),
    ensures
        trail_digits(t) == m,
    decreases m,
{
    if m > 0 {
        let u = t.drop_last();
        assert forall|k: int| u.len() - (m - 1) <= k < u.len() implies is_digit(#[trigger] u[k]) by {
            assert(u[k] == t[k]);
        }
        if m < t.len() {
            assert(u[u.len() - (m - 1) - 1] == t[t.len() - m - 1]);
        }
        lemma_trail_digits_is(u, m - 1);
    }
}

proof fn lemma_digits_grow(d: Seq<char>, k: int)
    requires
        0 <= k <= d.len(),
        forall|i: int| 0 <= i < d.len() ==> is_digit(#[trigger] d[i]),
    ensures
        0 <= digits_value(d.take(k)) <= digits_value(d),
    decreases d.len(),
{
    if d.len() > 0 {
        let u = d.drop_last();
        assert forall|i: int| 0 <= i < u.len() implies is_digit(#[trigger] u[i]) by {
            assert(u[i] == d[i]);
        }
        if k == d.len() {
            assert(d.take(k) =~= d);
            lemma_digits_grow(u, u.len() as int);
            assert(u.take(u.len() as int) =~= u);
        } else {
            lemma_digits_grow(u, k);
            assert(u.take(k) =~= d.take(k));
            lemma_digits_grow(u, u.len() as int);
            assert(u.take(u.len() as int) =~= u);
        }
        assert(is_digit(d.last()));
    }
}

/// The value of the digits `v[lo..hi]`, when it fits in `u32`.
fn digits_u32(v: &Vec<char>, lo: usize, hi: usize) -> (r: Option<u32>)
    requires
        lo <= hi <= v.len(),
        forall|k: int| lo <= k < hi ==> is_digit(#[trigger] v@[k]),
    ensures
        match r {
            Some(n) => n == digits_value(v@.subrange(lo as int, hi as int)),
            None => digits_value(v@.subrange(lo as int, hi as int)) > u32::MAX,
        },
{
    let ghost d = v@.subrange(lo as int, hi as int);
    assert forall|i: int| 0 <= i < d.len() implies is_digit(#[trigger] d[i]) by {
        assert(d[i] == v@[lo + i]);
    }
    let mut acc: u64 = 0;
    let mut i: usize = lo;
    assert(d.take(0) =~= Seq::<char>::empty());
    while i < hi
        invariant
            lo <= i <= hi <= v.len(),
            d == v@.subrange(lo as int, hi as int),
            forall|k: int| 0 <= k < d.len() ==> is_digit(#[trigger] d[k]),
            acc == digits_value(d.take(i - lo)),
            acc <= u32::MAX,
        decreases hi - i,
    {
        let c = v[i];
        assert(c == d[i - lo]);
        assert(is_digit(d[i - lo]));
        let x = (c as u32 - 48) as u64;
        assert(d.take(i - lo + 1).drop_last() =~= d.take(i - lo));
        assert(d.take(i - lo + 1).last() == c);
        let next = acc * 10 + x;
        proof {
            lemma_digits_grow(d, i - lo + 1);
        }
        if next > 0xFFFF_FFFF {
            return None;
        }
        acc = next;
        i = i + 1;
    }
    assert(d.take(hi - lo) =~= d);
    Some(acc as u32)
}

/// The count written before the first `label` in `s`.
pub fn extract_count(s: &Vec<char>, label: &Vec<char>) -> (r: Option<u32>)
    ensures
        match r {
            Some(n) => count_before(s@, label@) == Some(n as int),
            None => count_before(s@, label@) is None,
        },
{
    let idx = match find_in(s, label, 0) {
        Some(i) => i,
        None => {
            return None;
        },
    };
    proof {
        let i = find_from(s@, label@, 0)->0;
        assert(i == idx);
        lemma_find_bound(s@, label@, 0);
    }
    let b = rtrim_end(s, 0, idx);
    let ghost p = rtrim(s@.take(idx as int));
    assert(s@.subrange(0, idx as int) =~= s@.take(idx as int));
    assert(p =~= s@.subrange(0, b as int));
    let mut c: usize = b;
    while c > 0 && is_ascii_digit(s[c - 1])
        invariant
            c <= b <= s.len(),
            p == s@.subrange(0, b as int),
            forall|k: int| c <= k < b ==> is_digit(#[trigger] s@[k]),
        decreases c,
    {
        c = c - 1;
    }
    proof {
        assert forall|k: int| p.len() - (b - c) <= k < p.len() implies is_digit(#[trigger] p[k]) by {
            assert(p[k] == s@[k]);
        }
        if c > 0 {
            assert(p[p.len() - (b - c) - 1] == s@[c - 1]);
        }
        lemma_trail_digits_is(p, b - c);
        assert(p.skip(p.len() - trail_digits(p)) =~= s@.subrange(c as int, b as int));
    }
    if c == b {
        return None;
    }
    digits_u32(s, c, b)
}

proof fn lemma_find_bound(s: Seq<char>, t: Seq<char>, i: int)
    ensures
        find_from(s, t, i) is Some ==> i <= find_from(s, t, i)->0 && find_from(s, t, i)->0 + t.len()
            <= s.len(),
    decreases s.len() + 1 - i,
{
    if !(i < 0 || i + t.len() > s.len()) && !occurs_at(s, t, i) {
        lemma_find_bound(s, t, i + 1);
    }
}

fn is_ascii_digit(c: char) -> (r: bool)
    ensures
        r == is_digit(c),
{
    let n = c as u32;
    48 <= n && n <= 57
}

/// The `(passed, failed)` counts on one libtest summary line: the text after
/// the first `test result:` must carry both a `passed` and a `failed` count.
pub open spec fn line_counts(l: Seq<char>) -> Option<(int, int)> {
    match find_from(l, "test result:"@, 0) {
        None => None,
        Some(pos) => {
            let after = l.skip(pos + "test result:"@.len());
            match (count_before(after, "passed"@), count_before(after, "failed"@)) {
                (Some(p), Some(f)) => Some((p, f)),
                _ => None,
            }
        },
    }
}

/// Over `ls`: whether a summary line was seen, the passed counts summed and
/// the passed-plus-failed counts summed.
pub open spec fn summary(ls: Seq<Seq<char>>) -> (bool, int, int)
    decreases ls.len(),
{
    if ls.len() == 0 {
        (false, 0, 0)
    } else {
        let (seen, p, t) = summary(ls.drop_last());
        match line_counts(ls.last()) {
            Some((a, b)) => (true, p + a, t + a + b),
            None => (seen, p, t),
        }
    }
}

/// libtest's summary lines of `s`, summed across every section.
pub open spec fn test_summary(s: Seq<char>) -> Option<(int, int)> {
    let (seen, p, t) = summary(lines(s));
    if seen {
        Some((p, t))
    } else {
        None
    }
}

/// The summed totals of `s` fit in `u32`.
pub open spec fn summary_fits(s: Seq<char>) -> bool {
    summary(lines(s)).2 <= u32::MAX
}

proof fn lemma_summary_grows(ls: Seq<Seq<char>>, k: int)
    requires
        0 <= k <= ls.len(),
    ensures
        0 <= summary(ls).1 <= summary(ls).2,
        summary(ls.take(k)).2 <= summary(ls).2,
    decreases ls.len(),
{
    if ls.len() > 0 {
        let u = ls.drop_last();
        lemma_line_counts_nonneg(ls.last());
        if k == ls.len() {
            assert(ls.take(k) =~= ls);
            lemma_summary_grows(u, 0);
        } else {
            lemma_summary_grows(u, k);
            assert(u.take(k) =~= ls.take(k));
        }
    } else {
        assert(ls.take(k) =~= ls);
    }
}

proof fn lemma_line_counts_nonneg(l: Seq<char>)
    ensures
        line_counts(l) matches Some((a, b)) ==> 0 <= a && 0 <= b,
{
    if let Some(pos) = find_from(l, "test result:"@, 0) {
        let after = l.skip(pos + "test result:"@.len());
        lemma_count_nonneg(after, "passed"@);
        lemma_count_nonneg(after, "failed"@);
    }
}

proof fn lemma_count_nonneg(s: Seq<char>, label: Seq<char>)
    ensures
        count_before(s, label) matches Some(n) ==> 0 <= n <= u32::MAX,
{
    if let Some(idx) = find_from(s, label, 0) {
        let p = rtrim(s.take(idx));
        let d = p.skip(p.len() - trail_digits(p));
        lemma_trail_digits_all(p);
        assert forall|i: int| 0 <= i < d.len() implies is_digit(#[trigger] d[i]) by {
            assert(d[i] == p[p.len() - trail_digits(p) + i]);
        }
        lemma_digits_grow(d, 0);
    }
}

proof fn lemma_trail_digits_all(t: Seq<char>)
    ensures
        trail_digits(t) <= t.len(),
        forall|k: int| t.len() - trail_digits(t) <= k < t.len() ==> is_digit(#[trigger] t[k]),
    decreases t.len(),
{
    if t.len() > 0 && is_digit(t.last()) {
        let u = t.drop_last();
        lemma_trail_digits_all(u);
        assert forall|k: int| t.len() - trail_digits(t) <= k < t.len() implies is_digit(#[trigger] t[k]) by {
            if k < t.len() - 1 {
                assert(t[k] == u[k]);
            }
        }
    }
}

/// The counts on one line, as `line_counts` describes them.
fn line_counts_exec(l: &Vec<char>, marker: &Vec<char>, passed: &Vec<char>, failed: &Vec<char>) -> (r:
    Option<(u32, u32)>)
    requires
        marker@ == "test result:"@,
        passed@ == "passed"@,
        failed@ == "failed"@,
    ensures
        match r {
            Some((a, b)) => line_counts(l@) == Some((a as int, b as int)),
            None => line_counts(l@) is None,
        },
{
    let pos = match find_in(l, marker, 0) {
        Some(i) => i,
        None => {
            return None;
        },
    };
    proof {
        lemma_find_bound(l@, marker@, 0);
        let j = find_from(l@, marker@, 0)->0;
        assert(j == pos);
        assert(pos + marker@.len() <= l@.len());
    }
    assert(marker@.len() == marker.len());
    assert(pos + marker.len() <= l.len());
    let start: usize = pos + marker.len();
    let after = crate::scan::slice_vec(l, start, l.len());
    assert(after@ =~= l@.skip(pos + marker@.len()));
    let p = extract_count(&after, passed);
    let f = extract_count(&after, failed);
    match (p, f) {
        (Some(a), Some(b)) => Some((a, b)),
        _ => None,
    }
}

/// Parse libtest's human summary lines, `test result: ok. 3 passed; 0 failed;
/// ...`. Returns `(passed, passed + failed)` summed across every section: a
/// `cargo test` run prints one summary per target (unit tests, each
/// integration test, doc tests), and the last alone is often the empty
/// doc-test section.
pub fn parse_test_summary(s: &str) -> (r: Option<(u32, u32)>)
    requires
        summary_fits(s@),
    ensures
        match r {
            Some((p, t)) => test_summary(s@) == Some((p as int, t as int)),
            None => test_summary(s@) is None,
        },
{
    let v = chars_of(s);
    let ls = split_lines(&v);
    let marker = chars_of("test result:");
    let passed_label = chars_of("passed");
    let failed_label = chars_of("failed");
    let ghost vs = views(ls@);
    let mut passed: u32 = 0;
    let mut total: u32 = 0;
    let mut seen = false;
    let mut i: usize = 0;
    assert(vs.take(0) =~= Seq::<Seq<char>>::empty());
    while i < ls.len()
        invariant
            i <= ls.len(),
            vs == views(ls@),
            vs == lines(s@),
            summary(vs).2 <= u32::MAX,
            marker@ == "test result:"@,
            passed_label@ == "passed"@,
            failed_label@ == "failed"@,
            summary(vs.take(i as int)) == (seen, passed as int, total as int),
        decreases ls.len() - i,
    {
        assert(vs.take(i + 1).drop_last() =~= vs.take(i as int));
        assert(vs.take(i + 1).last() == ls@[i as int]@);
        proof {
            lemma_summary_grows(vs, i + 1);
            lemma_summary_grows(vs.take(i + 1), 0);
            lemma_line_counts_nonneg(ls@[i as int]@);
        }
        match line_counts_exec(&ls[i], &marker, &passed_label, &failed_label) {
            Some((a, b)) => {
                passed = passed + a;
                total = total + (a + b);
                seen = true;
            },
            None => {},
        }
        i = i + 1;
    }
    assert(vs.take(ls.len() as int) =~= vs);
    if seen {
        Some((passed, total))
    } else {
        None
    }
}

/// Whether `parse_test_summary` can sum the summaries of `s` in `u32`.
pub fn test_summary_fits(s: &str) -> (r: bool)
    ensures
        r == summary_fits(s@),
{
    let v = chars_of(s);
    let ls = split_lines(&v);
    let marker = chars_of("test result:");
    let passed_label = chars_of("passed");
    let failed_label = chars_of("failed");
    let ghost vs = views(ls@);
    let mut total: u64 = 0;
    let mut i: usize = 0;
    assert(vs.take(0) =~= Seq::<Seq<char>>::empty());
    while i < ls.len()
        invariant
            i <= ls.len(),
            vs == views(ls@),
            vs == lines(s@),
            marker@ == "test result:"@,
            passed_label@ == "passed"@,
            failed_label@ == "failed"@,
            summary(vs.take(i as int)).2 == total as int,
            total <= u32::MAX,
        decreases ls.len() - i,
    {
        assert(vs.take(i + 1).drop_last() =~= vs.take(i as int));
        assert(vs.take(i + 1).last() == ls@[i as int]@);
        proof {
            lemma_summary_grows(vs, i + 1);
            lemma_line_counts_nonneg(ls@[i as int]@);
        }
        match line_counts_exec(&ls[i], &marker, &passed_label, &failed_label) {
            Some((a, b)) => {
                total = total + (a as u64 + b as u64);
            },
            None => {},
        }
        if total > 0xFFFF_FFFF {
            return false;
        }
        i = i + 1;
    }
    assert(vs.take(ls.len() as int) =~= vs);
    true
}

// ---- re-extraction -----------------------------------------------------------

/// The fence lines among `ls`.
pub open spec fn fence_count(ls: Seq<Seq<char>>) -> nat
    decreases ls.len(),
{
    if ls.len() == 0 {
        0
    } else {
        (if is_fence(ls[0]) { 1nat } else { 0nat }) + fence_count(ls.drop_first())
    }
}

proof fn lemma_count_cons(x: Seq<char>, r: Seq<Seq<char>>)
    ensures
        fence_count(seq![x] + r) == (if is_fence(x) { 1nat } else { 0nat }) + fence_count(r),
{
    assert((seq![x] + r).drop_first() =~= r);
}

proof fn lemma_count_add(a: Seq<Seq<char>>, b: Seq<Seq<char>>)
    ensures
        fence_count(a + b) == fence_count(a) + fence_count(b),
    decreases a.len(),
{
    if a.len() > 0 {
        lemma_count_add(a.drop_first(), b);
        assert((a + b).drop_first() =~= a.drop_first() + b);
    } else {
        assert(a + b =~= b);
    }
}

proof fn lemma_fence_from_count(ls: Seq<Seq<char>>, i: int)
    requires
        0 <= i <= ls.len(),
    ensures
        i <= fence_from(ls, i) <= ls.len(),
        fence_from(ls, i) == ls.len() ==> fence_count(ls.skip(i)) == 0,
        fence_from(ls, i) < ls.len() ==> fence_count(ls.skip(i)) == 1 + fence_count(ls.skip(fence_from(ls, i) + 1)),
        fence_count(ls.subrange(i, fence_from(ls, i))) == 0,
    decreases ls.len() - i,
{
    if i < ls.len() {
        lemma_fence_from_count(ls, i + 1);
        assert(ls.skip(i).drop_first() =~= ls.skip(i + 1));
        assert(ls.skip(i)[0] == ls[i]);
        if !is_fence(ls[i]) {
            let f = fence_from(ls, i);
            assert(ls.subrange(i, f).drop_first() =~= ls.subrange(i + 1, f));
        } else {
            assert(ls.subrange(i, i).len() == 0);
        }
    } else {
        assert(ls.skip(i).len() == 0);
        assert(ls.subrange(i, i).len() == 0);
    }
}

/// There is no first fenced block exactly when fewer than two lines are
/// fences.
proof fn lemma_block_none_iff(ls: Seq<Seq<char>>)
    ensures
        (fenced_block(ls) is None) <==> fence_count(ls) < 2,
{
    lemma_fence_from_count(ls, 0);
    assert(ls.skip(0) =~= ls);
    let a = fence_from(ls, 0);
    if a < ls.len() {
        lemma_fence_from_count(ls, a + 1);
    }
}

proof fn lemma_lead_ws_push(y: Seq<char>, c: char)
    ensures
        lead_ws(y.push(c)) == (if lead_ws(y) < y.len() {
            lead_ws(y)
        } else if is_ws(c) {
            y.len() + 1
        } else {
            y.len() as nat
        }),
    decreases y.len(),
{
    crate::scan::lemma_lead_ws_bound(y);
    let t = y.push(c);
    if y.len() == 0 {
        assert(t[0] == c);
        assert(t.drop_first() =~= Seq::<char>::empty());
        assert(lead_ws(Seq::<char>::empty()) == 0);
        assert(lead_ws(y) == 0);
    } else {
        assert(t[0] == y[0]);
        if is_ws(y[0]) {
            assert(t.drop_first() =~= y.drop_first().push(c));
            lemma_lead_ws_push(y.drop_first(), c);
            assert(lead_ws(y) == 1 + lead_ws(y.drop_first()));
            assert(lead_ws(t) == 1 + lead_ws(t.drop_first()));
        } else {
            assert(lead_ws(y) == 0);
            assert(lead_ws(t) == 0);
        }
    }
}

/// A trailing `\r` never decides whether a line is a fence.
proof fn lemma_fence_strip_cr(x: Seq<char>)
    ensures
        is_fence(strip_cr(x)) == is_fence(x),
{
    if x.len() > 0 && x.last() == '\r' {
        let y = x.drop_last();
        assert(y.push('\r') =~= x);
        lemma_lead_ws_push(y, '\r');
        crate::scan::lemma_lead_ws_bound(y);
        let n = lead_ws(y);
        if n < y.len() {
            assert(ltrim(x) =~= ltrim(y).push('\r'));
        }
    }
}

/// Appending a character never turns a fence into a non-fence.
proof fn lemma_fence_push(x: Seq<char>, c: char)
    ensures
        is_fence(x) ==> is_fence(x.push(c)),
{
    lemma_lead_ws_push(x, c);
    crate::scan::lemma_lead_ws_bound(x);
    if lead_ws(x) < x.len() {
        assert(ltrim(x.push(c)) =~= ltrim(x).push(c));
    }
}

/// Leading whitespace never decides whether a line is a fence.
proof fn lemma_ltrim_front(c: char, x: Seq<char>)
    requires
        is_ws(c),
    ensures
        ltrim(seq![c] + x) == ltrim(x),
{
    let t = seq![c] + x;
    assert(t[0] == c);
    assert(t.drop_first() =~= x);
    assert(lead_ws(t) == 1 + lead_ws(x));
    crate::scan::lemma_lead_ws_bound(x);
    assert(t.skip(1 + lead_ws(x) as int) =~= x.skip(lead_ws(x) as int));
}

proof fn lemma_nl_push(u: Seq<char>, c: char)
    ensures
        nl_index(u) < u.len() ==> nl_index(u.push(c)) == nl_index(u),
        nl_index(u) >= u.len() ==> nl_index(u.push(c)) == (if c == '\n' { u.len() } else { u.len() + 1 }),
    decreases u.len(),
{
    crate::scan::lemma_nl_index_bound(u);
    let t = u.push(c);
    if u.len() == 0 {
        assert(t[0] == c);
        assert(t.drop_first() =~= Seq::<char>::empty());
        assert(nl_index(Seq::<char>::empty()) == 0);
        assert(nl_index(u) == 0);
    } else {
        assert(t[0] == u[0]);
        if u[0] != '\n' {
            assert(t.drop_first() =~= u.drop_first().push(c));
            lemma_nl_push(u.drop_first(), c);
            assert(nl_index(u) == 1 + nl_index(u.drop_first()));
            assert(nl_index(t) == 1 + nl_index(t.drop_first()));
        } else {
            assert(nl_index(u) == 0);
            assert(nl_index(t) == 0);
        }
    }
}

/// Whitespace in front of a text never changes how many fence lines it has.
proof fn lemma_ws_front(c: char, u: Seq<char>)
    requires
        is_ws(c),
    ensures
        fence_count(lines(seq![c] + u)) == fence_count(lines(u)),
{
    let t = seq![c] + u;
    assert(t[0] == c);
    assert(t.drop_first() =~= u);
    crate::scan::lemma_nl_index_bound(u);
    if c == '\n' {
        assert(nl_index(t) == 0);
        assert(t.take(0) =~= Seq::<char>::empty());
        assert(t.skip(1) =~= u);
        assert(!is_fence(strip_cr(t.take(0))));
        lemma_count_cons(strip_cr(t.take(0)), lines(u));
    } else {
        let j = nl_index(u) as int;
        assert(nl_index(t) == 1 + j);
        if j >= u.len() {
            assert(lines(t) == seq![t]);
            lemma_ltrim_front(c, u);
            lemma_count_cons(t, Seq::<Seq<char>>::empty());
            if u.len() > 0 {
                assert(lines(u) == seq![u]);
                lemma_count_cons(u, Seq::<Seq<char>>::empty());
            } else {
                assert(ltrim(u).len() == 0);
            }
        } else {
            let x = u.take(j as int);
            assert(t.take(j + 1) =~= seq![c] + x);
            assert(t.skip(j + 2) =~= u.skip(j + 1));
            lemma_fence_strip_cr(seq![c] + x);
            lemma_fence_strip_cr(x);
            lemma_ltrim_front(c, x);
            lemma_count_cons(strip_cr(t.take(j + 1)), lines(t.skip(j + 2)));
            lemma_count_cons(strip_cr(x), lines(u.skip(j + 1)));
        }
    }
}

/// Whitespace at the end of a text never removes a fence line.
proof fn lemma_ws_back(u: Seq<char>, c: char)
    requires
        is_ws(c),
    ensures
        fence_count(lines(u.push(c))) >= fence_count(lines(u)),
    decreases u.len(),
{
    let t = u.push(c);
    crate::scan::lemma_nl_index_bound(u);
    lemma_nl_push(u, c);
    let j = nl_index(u) as int;
    if u.len() == 0 {
    } else if j >= u.len() {
        assert(lines(u) == seq![u]);
        lemma_count_cons(u, Seq::<Seq<char>>::empty());
        if c == '\n' {
            assert(t.take(u.len() as int) =~= u);
            assert(t.skip(u.len() as int + 1).len() == 0);
            lemma_fence_strip_cr(u);
            lemma_count_cons(strip_cr(u), lines(t.skip(u.len() as int + 1)));
        } else {
            assert(lines(t) == seq![t]);
            lemma_fence_push(u, c);
            lemma_count_cons(t, Seq::<Seq<char>>::empty());
        }
    } else {
        assert(t.take(j as int) =~= u.take(j as int));
        assert(t.skip(j + 1) =~= u.skip(j + 1).push(c));
        lemma_ws_back(u.skip(j + 1), c);
        lemma_count_cons(strip_cr(u.take(j as int)), lines(t.skip(j + 1)));
        lemma_count_cons(strip_cr(u.take(j as int)), lines(u.skip(j + 1)));
    }
}

proof fn lemma_ltrim_count(t: Seq<char>)
    ensures
        fence_count(lines(ltrim(t))) == fence_count(lines(t)),
    decreases t.len(),
{
    crate::scan::lemma_lead_ws_bound(t);
    if t.len() > 0 && is_ws(t[0]) {
        let u = t.drop_first();
        lemma_ltrim_count(u);
        crate::scan::lemma_lead_ws_bound(u);
        assert(seq![t[0]] + u =~= t);
        lemma_ws_front(t[0], u);
        assert(lead_ws(t) == 1 + lead_ws(u));
        assert(ltrim(t) =~= ltrim(u));
    } else {
        assert(lead_ws(t) == 0);
        assert(ltrim(t) =~= t);
    }
}

/// Trimming a text never adds a fence line.
proof fn lemma_trim_count(t: Seq<char>)
    ensures
        fence_count(lines(trim(t))) <= fence_count(lines(t)),
{
    lemma_ltrim_count(t);
    lemma_rtrim_le(ltrim(t));
}

proof fn lemma_rtrim_le(t: Seq<char>)
    ensures
        fence_count(lines(rtrim(t))) <= fence_count(lines(t)),
    decreases t.len(),
{
    crate::scan::lemma_trail_ws_bound(t);
    if t.len() > 0 && is_ws(t.last()) {
        let u = t.drop_last();
        lemma_rtrim_le(u);
        crate::scan::lemma_trail_ws_bound(u);
        assert(u.push(t.last()) =~= t);
        lemma_ws_back(u, t.last());
        assert(trail_ws(t) == 1 + trail_ws(u));
        assert(rtrim(t) =~= rtrim(u));
    } else {
        assert(trail_ws(t) == 0);
        assert(rtrim(t) =~= t);
    }
}

/// `lines` of a text that ends its last line splits at that boundary.
proof fn lemma_lines_append(p: Seq<char>, q: Seq<char>)
    requires
        p.len() == 0 || p.last() == '\n',
    ensures
        lines(p + q) == lines(p) + lines(q),
    decreases p.len(),
{
    if p.len() == 0 {
        assert(p + q =~= q);
        assert(lines(p) =~= Seq::<Seq<char>>::empty());
        assert(lines(p) + lines(q) =~= lines(q));
    } else {
        crate::scan::lemma_nl_index_bound(p);
        let j = nl_index(p) as int;
        assert(j < p.len());
        lemma_nl_prefix(p, q);
        let r = p.skip(j + 1);
        assert((p + q).take(j as int) =~= p.take(j as int));
        assert((p + q).skip(j + 1) =~= r + q);
        if r.len() > 0 {
            assert(r.last() == p.last());
        }
        lemma_lines_append(r, q);
        assert(lines(p + q) =~= seq![strip_cr(p.take(j as int))] + (lines(r) + lines(q)));
        assert(lines(p) =~= seq![strip_cr(p.take(j as int))] + lines(r));
    }
}

proof fn lemma_nl_prefix(p: Seq<char>, q: Seq<char>)
    requires
        nl_index(p) < p.len(),
    ensures
        nl_index(p + q) == nl_index(p),
    decreases p.len(),
{
    let t = p + q;
    assert(t[0] == p[0]);
    if p[0] != '\n' {
        assert(t.drop_first() =~= p.drop_first() + q);
        lemma_nl_prefix(p.drop_first(), q);
    }
}

proof fn lemma_nl_no_newline(x: Seq<char>)
    requires
        forall|k: int| 0 <= k < x.len() ==> x[k] != '\n',
    ensures
        nl_index(x + "\n"@) == x.len(),
    decreases x.len(),
{
    reveal_strlit("\n");
    let t = x + "\n"@;
    if x.len() == 0 {
        assert(t[0] == '\n');
    } else {
        assert(t[0] == x[0]);
        assert(t.drop_first() =~= x.drop_first() + "\n"@);
        lemma_nl_no_newline(x.drop_first());
    }
}

/// Lines of text, each ended by `\n`, read back as the same lines up to a
/// trailing `\r`, so with the same fences.
proof fn lemma_terminated_count(ls: Seq<Seq<char>>)
    requires
        forall|i: int, k: int| 0 <= i < ls.len() && 0 <= k < ls[i].len() ==> ls[i][k] != '\n',
    ensures
        fence_count(lines(terminated(ls))) == fence_count(ls),
    decreases ls.len(),
{
    reveal_strlit("\n");
    if ls.len() > 0 {
        let init = ls.drop_last();
        let l = ls.last();
        lemma_terminated_count(init);
        let p = terminated(init);
        if init.len() > 0 {
            assert(p.last() == '\n');
        }
        let q = l + "\n"@;
        assert(terminated(ls) =~= p + q);
        lemma_lines_append(p, q);
        assert forall|k: int| 0 <= k < l.len() implies l[k] != '\n' by {
            assert(l == ls[ls.len() - 1]);
        }
        lemma_lines_line(l);
        lemma_fence_strip_cr(l);
        lemma_count_add(lines(p), lines(q));
        lemma_count_cons(strip_cr(l), Seq::<Seq<char>>::empty());
        assert(init + seq![l] =~= ls);
        lemma_count_add(init, seq![l]);
        lemma_count_cons(l, Seq::<Seq<char>>::empty());
    }
}

proof fn lemma_lines_line(l: Seq<char>)
    requires
        forall|k: int| 0 <= k < l.len() ==> l[k] != '\n',
    ensures
        lines(l + "\n"@) == seq![strip_cr(l)],
{
    reveal_strlit("\n");
    let q = l + "\n"@;
    lemma_nl_no_newline(l);
    assert(q.len() == l.len() + 1);
    assert(q.take(l.len() as int) =~= l);
    let e = q.skip(l.len() as int + 1);
    assert(e =~= Seq::<char>::empty());
    assert(lines(e) =~= Seq::<Seq<char>>::empty());
    assert(lines(q) == seq![strip_cr(q.take(l.len() as int))] + lines(e));
    assert(seq![strip_cr(l)] + Seq::<Seq<char>>::empty() =~= seq![strip_cr(l)]);
}

/// No line of `lines(t)` holds a `\n`.
proof fn lemma_lines_no_newline(t: Seq<char>)
    ensures
        forall|i: int, k: int|
            0 <= i < lines(t).len() && 0 <= k < lines(t)[i].len() ==> lines(t)[i][k] != '\n',
    decreases t.len(),
{
    crate::scan::lemma_nl_index_bound(t);
    let j = nl_index(t) as int;
    if t.len() > 0 && j < t.len() {
        lemma_lines_no_newline(t.skip(j + 1));
        let first = strip_cr(t.take(j as int));
        let ls = lines(t);
        assert(ls == seq![first] + lines(t.skip(j + 1)));
        assert forall|i: int, k: int| 0 <= i < ls.len() && 0 <= k < ls[i].len() implies ls[i][k] != '\n' by {
            if i == 0 {
                assert(first[k] == t[k]);
            } else {
                assert(ls[i] == lines(t.skip(j + 1))[i - 1]);
            }
        }
    }
}

/// Trimming twice trims once.
proof fn lemma_trim_idempotent(t: Seq<char>)
    ensures
        trim(trim(t)) == trim(t),
{
    let v = ltrim(t);
    let u = trim(t);
    crate::scan::lemma_lead_ws_bound(t);
    crate::scan::lemma_trail_ws_bound(v);
    lemma_lead_ws_stop(t);
    lemma_trail_ws_stop(v);
    if u.len() > 0 {
        assert(u[0] == v[0]);
        assert(!is_ws(u[0]));
        assert(lead_ws(u) == 0);
        assert(ltrim(u) =~= u);
        assert(u.last() == v[v.len() - trail_ws(v) - 1]);
        assert(trail_ws(u) == 0);
        assert(rtrim(u) =~= u);
    } else {
        assert(trim(u) =~= u);
    }
}

proof fn lemma_lead_ws_stop(t: Seq<char>)
    ensures
        lead_ws(t) < t.len() ==> !is_ws(t[lead_ws(t) as int]),
    decreases t.len(),
{
    if t.len() > 0 && is_ws(t[0]) {
        lemma_lead_ws_stop(t.drop_first());
    }
}

proof fn lemma_trail_ws_stop(t: Seq<char>)
    ensures
        trail_ws(t) < t.len() ==> !is_ws(t[t.len() - trail_ws(t) - 1]),
    decreases t.len(),
{
    if t.len() > 0 && is_ws(t.last()) {
        lemma_trail_ws_stop(t.drop_last());
    }
}

/// Extracting from an extracted answer gives it back: an answer holds no
/// fenced block and is already trimmed.
pub proof fn law_extraction_is_idempotent(s: Seq<char>)
    requires
        extracted(s) is Some,
    ensures
        extracted(extracted(s)->0) == extracted(s),
{
    let ls = lines(s);
    let c = extracted(s)->0;
    lemma_block_none_iff(ls);
    match fenced_block(ls) {
        Some(b) => {
            let a = fence_from(ls, 0);
            lemma_fence_from_count(ls, 0);
            let bb = fence_from(ls, a + 1);
            lemma_fence_from_count(ls, a + 1);
            let sub = ls.subrange(a + 1, bb);
            lemma_lines_no_newline(s);
            assert forall|i: int, k: int| 0 <= i < sub.len() && 0 <= k < sub[i].len() implies sub[i][k] != '\n' by {
                assert(sub[i] == ls[a + 1 + i]);
            }
            lemma_terminated_count(sub);
            lemma_trim_count(b);
            lemma_trim_idempotent(b);
            assert(c == trim(b));
        },
        None => {
            lemma_trim_count(s);
            lemma_trim_idempotent(s);
            assert(c == trim(s));
        },
    }
    lemma_block_none_iff(lines(c));
}

/// Each libtest section line adds its counts, whatever they are: a line
/// carrying `p` passed and `f` failed adds `p` to the passed sum and `p + f`
/// to the total (a section where every test failed included); any other
/// line changes nothing.
pub proof fn law_summary_line_step(ls: Seq<Seq<char>>, l: Seq<char>)
    ensures
        line_counts(l) matches Some((p, f)) ==> summary(ls.push(l)) == (true, summary(ls).1 + p, summary(ls).2 + p + f),
        line_counts(l) is None ==> summary(ls.push(l)) == summary(ls),
{
    assert(ls.push(l).drop_last() =~= ls);
    assert(ls.push(l).last() == l);
}

/// Sections add up: the summary of two runs of lines is their summed counts.
pub proof fn law_summary_sections_add(a: Seq<Seq<char>>, b: Seq<Seq<char>>)
    ensures
        summary(a + b) == (summary(a).0 || summary(b).0, summary(a).1 + summary(b).1, summary(a).2 + summary(b).2),
    decreases b.len(),
{
    if b.len() == 0 {
        assert(a + b =~= a);
    } else {
        law_summary_sections_add(a, b.drop_last());
        assert((a + b).drop_last() =~= a + b.drop_last());
        assert((a + b).last() == b.last());
    }
}

/// A single summary line reads as its own counts: `p` passed and `p + f` in
/// all, also when `p` is 0.
pub proof fn law_single_summary_line(l: Seq<char>)
    requires
        forall|k: int| 0 <= k < l.len() ==> l[k] != '\n',
        line_counts(l) is Some,
    ensures
        line_counts(l) matches Some((p, f)) && test_summary(l) == Some((p, p + f)),
{
    crate::scan::lemma_nl_index_bound(l);
    assert(l.len() > 0) by {
        if l.len() == 0 {
            assert(find_from(l, "test result:"@, 0) is None) by {
                reveal_strlit("test result:");
            }
        }
    }
    assert(lines(l) == seq![l]);
    law_summary_line_step(Seq::<Seq<char>>::empty(), l);
    assert(Seq::<Seq<char>>::empty().push(l) =~= seq![l]);
}

/// Texts made of whole lines add up: the test summary of `a` followed by
/// `b` sums the sections of both.
pub proof fn law_test_summary_adds(a: Seq<char>, b: Seq<char>)
    requires
        a.len() == 0 || a.last() == '\n',
    ensures
        summary(lines(a + b)) == (
            summary(lines(a)).0 || summary(lines(b)).0,
            summary(lines(a)).1 + summary(lines(b)).1,
            summary(lines(a)).2 + summary(lines(b)).2,
        ),
{
    lemma_lines_append(a, b);
    law_summary_sections_add(lines(a), lines(b));
}

} // verus!
