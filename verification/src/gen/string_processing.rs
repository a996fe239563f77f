//! The `str-transform` family (category `string-processing`).
//!
//! The model implements `fn f(s: &str) -> String` as a seed-selected
//! three-stage pipeline over the characters of `s`: a filter (letters,
//! letters and digits, non-space, all), an ASCII case map (upper, lower,
//! swap), and an order (as is, reversed). Four by three by two: twenty-four
//! distinct skills.

use vstd::prelude::*;
use crate::rng::{Rng, draw};
use crate::digest::{mint_canary, canary_text};
use crate::scan::{is_ws, is_whitespace};
use crate::text::{push_str, push_char, push_u64, push_doc_block, push_terminated, dec_nat, doc_block,
    terminated, string_views, string_of};
use crate::gen::{GeneratedTask, Weights, cargo_toml, cargo_toml_text, task_id, task_id_text,
    push_prompt_tail, prompt_tail};

verus! {

/// Stage 1: which characters are kept.
#[derive(Clone, Copy, Debug, PartialEq, Eq, Structural)]
pub enum Filter {
    Alpha,
    Alnum,
    NonSpace,
    All,
}

/// Stage 2: how each kept character's case changes.
#[derive(Clone, Copy, Debug, PartialEq, Eq, Structural)]
pub enum CaseMap {
    Upper,
    Lower,
    SwapCase,
}

pub struct Spec {
    pub filter: Filter,
    pub map: CaseMap,
    pub reversed: bool,
    pub fn_name: &'static str,
}

// ---- semantics -------------------------------------------------------------

pub open spec fn is_upper(c: char) -> bool {
    65 <= (c as u32) <= 90
}

pub open spec fn is_lower(c: char) -> bool {
    97 <= (c as u32) <= 122
}

pub open spec fn is_digit(c: char) -> bool {
    48 <= (c as u32) <= 57
}

/// `char::to_ascii_uppercase`.
pub open spec fn to_upper(c: char) -> char {
    if is_lower(c) {
        ((c as u32) - 32) as char
    } else {
        c
    }
}

/// `char::to_ascii_lowercase`.
pub open spec fn to_lower(c: char) -> char {
    if is_upper(c) {
        ((c as u32) + 32) as char
    } else {
        c
    }
}

pub open spec fn kept(f: Filter, c: char) -> bool {
    match f {
        Filter::Alpha => is_upper(c) || is_lower(c),
        Filter::Alnum => is_upper(c) || is_lower(c) || is_digit(c),
        Filter::NonSpace => !is_ws(c),
        Filter::All => true,
    }
}

pub open spec fn mapped(m: CaseMap, c: char) -> char {
    match m {
        CaseMap::Upper => to_upper(c),
        CaseMap::Lower => to_lower(c),
        CaseMap::SwapCase => if is_upper(c) {
            to_lower(c)
        } else if is_lower(c) {
            to_upper(c)
        } else {
            c
        },
    }
}

/// The kept characters of `s`, case-mapped, in order.
pub open spec fn filtered(f: Filter, m: CaseMap, s: Seq<char>) -> Seq<char>
    decreases s.len(),
{
    if s.len() == 0 {
        Seq::empty()
    } else if kept(f, s.last()) {
        filtered(f, m, s.drop_last()).push(mapped(m, s.last()))
    } else {
        filtered(f, m, s.drop_last())
    }
}

/// `t` back to front.
pub open spec fn backwards(t: Seq<char>) -> Seq<char>
    decreases t.len(),
{
    if t.len() == 0 {
        Seq::empty()
    } else {
        seq![t.last()] + backwards(t.drop_last())
    }
}

/// The answer for input `s`.
pub open spec fn eval_spec(f: Filter, m: CaseMap, rev: bool, s: Seq<char>) -> Seq<char> {
    if rev {
        backwards(filtered(f, m, s))
    } else {
        filtered(f, m, s)
    }
}

fn upper(c: char) -> (r: char)
    ensures
        r == to_upper(c),
{
    let n = c as u32;
    if 97 <= n && n <= 122 {
        ((n - 32) as u8) as char
    } else {
        c
    }
}

fn lower(c: char) -> (r: char)
    ensures
        r == to_lower(c),
{
    let n = c as u32;
    if 65 <= n && n <= 90 {
        ((n + 32) as u8) as char
    } else {
        c
    }
}

pub fn keep(f: Filter, c: char) -> (r: bool)
    ensures
        r == kept(f, c),
{
    let n = c as u32;
    let alpha = (65 <= n && n <= 90) || (97 <= n && n <= 122);
    match f {
        Filter::Alpha => alpha,
        Filter::Alnum => alpha || (48 <= n && n <= 57),
        Filter::NonSpace => !is_whitespace(c),
        Filter::All => true,
    }
}

pub fn map_char(m: CaseMap, c: char) -> (r: char)
    ensures
        r == mapped(m, c),
{
    let n = c as u32;
    match m {
        CaseMap::Upper => upper(c),
        CaseMap::Lower => lower(c),
        CaseMap::SwapCase => {
            if 65 <= n && n <= 90 {
                lower(c)
            } else if 97 <= n && n <= 122 {
                upper(c)
            } else {
                c
            }
        },
    }
}

/// The answer: filter, case-map, then optionally reverse.
pub fn eval(spec: &Spec, s: &str) -> (r: String)
    ensures
        r@ == eval_spec(spec.filter, spec.map, spec.reversed, s@),
{
    let v = crate::scan::chars_of(s);
    let mut kept_chars: Vec<char> = Vec::new();
    let mut i: usize = 0;
    assert(v@.take(0) =~= Seq::<char>::empty());
    while i < v.len()
        invariant
            i <= v.len(),
            kept_chars@ == filtered(spec.filter, spec.map, v@.take(i as int)),
        decreases v.len() - i,
    {
        assert(v@.take(i + 1).drop_last() =~= v@.take(i as int));
        assert(v@.take(i + 1).last() == v@[i as int]);
        if keep(spec.filter, v[i]) {
            kept_chars.push(map_char(spec.map, v[i]));
        }
        i = i + 1;
    }
    assert(v@.take(v.len() as int) =~= v@);
    let mut out = String::new();
    if spec.reversed {
        let mut j: usize = kept_chars.len();
        assert(backwards(kept_chars@.take(kept_chars.len() as int).skip(j as int)) =~= Seq::<char>::empty());
        while j > 0
            invariant
                j <= kept_chars.len(),
                out@ == backwards(kept_chars@.skip(j as int)),
            decreases j,
        {
            proof {
                let t = kept_chars@.skip(j - 1);
                assert(t.drop_last() =~= kept_chars@.skip(j - 1).drop_last());
                lemma_backwards_front(kept_chars@.skip(j - 1));
                assert(kept_chars@.skip(j - 1).drop_first() =~= kept_chars@.skip(j as int));
            }
            push_char(&mut out, kept_chars[j - 1]);
            j = j - 1;
        }
        assert(kept_chars@.skip(0) =~= kept_chars@);
    } else {
        let mut j: usize = 0;
        while j < kept_chars.len()
            invariant
                j <= kept_chars.len(),
                out@ == kept_chars@.take(j as int),
            decreases kept_chars.len() - j,
        {
            push_char(&mut out, kept_chars[j]);
            assert(kept_chars@.take(j + 1) =~= kept_chars@.take(j as int).push(kept_chars@[j as int]));
            j = j + 1;
        }
        assert(kept_chars@.take(kept_chars.len() as int) =~= kept_chars@);
    }
    out
}

/// Reading `t` backwards ends with its first character.
proof fn lemma_backwards_front(t: Seq<char>)
    requires
        t.len() > 0,
    ensures
        backwards(t) == backwards(t.drop_first()).push(t[0]),
    decreases t.len(),
{
    if t.len() == 1 {
        assert(t.drop_first() =~= Seq::<char>::empty());
        assert(t.drop_last() =~= Seq::<char>::empty());
        assert(backwards(t.drop_last()) =~= Seq::<char>::empty());
        assert(backwards(t.drop_first()) =~= Seq::<char>::empty());
        assert(backwards(t) =~= seq![t[0]]);
    } else {
        let u = t.drop_last();
        lemma_backwards_front(u);
        assert(t.drop_first().drop_last() =~= u.drop_first());
        assert(t.drop_first().last() == t.last());
        assert(backwards(t) =~= seq![t.last()] + backwards(u));
        assert(backwards(t.drop_first()) =~= seq![t.last()] + backwards(u.drop_first()));
        assert(u[0] == t[0]);
    }
}

// ---- sampling --------------------------------------------------------------

pub open spec fn filter_of(k: u64) -> Filter {
    if k == 0 {
        Filter::Alpha
    } else if k == 1 {
        Filter::Alnum
    } else if k == 2 {
        Filter::NonSpace
    } else {
        Filter::All
    }
}

pub open spec fn map_of(k: u64) -> CaseMap {
    if k == 0 {
        CaseMap::Upper
    } else if k == 1 {
        CaseMap::Lower
    } else {
        CaseMap::SwapCase
    }
}

pub open spec fn name_text(i: u64) -> Seq<char> {
    if i == 0 {
        "f"@
    } else if i == 1 {
        "process"@
    } else if i == 2 {
        "normalize"@
    } else if i == 3 {
        "clean"@
    } else if i == 4 {
        "transform_text"@
    } else {
        "sift_chars"@
    }
}

pub open spec fn sample_filter(seed: u64) -> Filter {
    filter_of(draw(seed, 0) % 4)
}

pub open spec fn sample_map(seed: u64) -> CaseMap {
    map_of(draw(seed, 1) % 3)
}

pub open spec fn sample_reversed(seed: u64) -> bool {
    draw(seed, 2) % 2 == 1
}

pub open spec fn sample_name(seed: u64) -> Seq<char> {
    name_text(draw(seed, 3) % 6)
}

fn name_at(i: u64) -> (r: &'static str)
    requires
        i < 6,
    ensures
        r@ == name_text(i),
{
    if i == 0 {
        "f"
    } else if i == 1 {
        "process"
    } else if i == 2 {
        "normalize"
    } else if i == 3 {
        "clean"
    } else if i == 4 {
        "transform_text"
    } else {
        "sift_chars"
    }
}

/// The spec for `seed`: every choice is a function of the seed's stream.
pub fn sample(seed: u64) -> (r: Spec)
    ensures
        r.filter == sample_filter(seed),
        r.map == sample_map(seed),
        r.reversed == sample_reversed(seed),
        r.fn_name@ == sample_name(seed),
{
    let mut rng = Rng::new(seed);
    let f = rng.below(4);
    let filter = if f == 0 {
        Filter::Alpha
    } else if f == 1 {
        Filter::Alnum
    } else if f == 2 {
        Filter::NonSpace
    } else {
        Filter::All
    };
    let m = rng.below(3);
    let map = if m == 0 {
        CaseMap::Upper
    } else if m == 1 {
        CaseMap::Lower
    } else {
        CaseMap::SwapCase
    };
    let reversed = rng.below(2) == 1;
    let fn_name = name_at(rng.below(6));
    Spec { filter, map, reversed, fn_name }
}

// ---- emitted-source fragments ----------------------------------------------

pub open spec fn filter_closure_text(f: Filter) -> Seq<char> {
    match f {
        Filter::Alpha => "|&c| c.is_ascii_alphabetic()"@,
        Filter::Alnum => "|&c| c.is_ascii_alphanumeric()"@,
        Filter::NonSpace => "|&c| !c.is_whitespace()"@,
        Filter::All => "|&_c| true"@,
    }
}

pub fn filter_closure(f: Filter) -> (r: &'static str)
    ensures
        r@ == filter_closure_text(f),
{
    match f {
        Filter::Alpha => "|&c| c.is_ascii_alphabetic()",
        Filter::Alnum => "|&c| c.is_ascii_alphanumeric()",
        Filter::NonSpace => "|&c| !c.is_whitespace()",
        Filter::All => "|&_c| true",
    }
}

pub open spec fn map_closure_text(m: CaseMap) -> Seq<char> {
    match m {
        CaseMap::Upper => "|c| c.to_ascii_uppercase()"@,
        CaseMap::Lower => "|c| c.to_ascii_lowercase()"@,
        CaseMap::SwapCase => "|c| if c.is_ascii_uppercase() { c.to_ascii_lowercase() } else if c.is_ascii_lowercase() { c.to_ascii_uppercase() } else { c }"@,
    }
}

pub fn map_closure(m: CaseMap) -> (r: &'static str)
    ensures
        r@ == map_closure_text(m),
{
    match m {
        CaseMap::Upper => "|c| c.to_ascii_uppercase()",
        CaseMap::Lower => "|c| c.to_ascii_lowercase()",
        CaseMap::SwapCase => "|c| if c.is_ascii_uppercase() { c.to_ascii_lowercase() } else if c.is_ascii_lowercase() { c.to_ascii_uppercase() } else { c }",
    }
}

pub open spec fn filter_prose_text(f: Filter) -> Seq<char> {
    match f {
        Filter::Alpha => "keep only the ASCII letters (drop everything else)"@,
        Filter::Alnum => "keep only the ASCII letters and digits"@,
        Filter::NonSpace => "keep every character that is not whitespace"@,
        Filter::All => "keep every character"@,
    }
}

pub fn filter_prose(f: Filter) -> (r: &'static str)
    ensures
        r@ == filter_prose_text(f),
{
    match f {
        Filter::Alpha => "keep only the ASCII letters (drop everything else)",
        Filter::Alnum => "keep only the ASCII letters and digits",
        Filter::NonSpace => "keep every character that is not whitespace",
        Filter::All => "keep every character",
    }
}

pub open spec fn map_prose_text(m: CaseMap) -> Seq<char> {
    match m {
        CaseMap::Upper => "convert each kept character to ASCII uppercase"@,
        CaseMap::Lower => "convert each kept character to ASCII lowercase"@,
        CaseMap::SwapCase => "swap the case of each kept ASCII letter (leave others unchanged)"@,
    }
}

pub fn map_prose(m: CaseMap) -> (r: &'static str)
    ensures
        r@ == map_prose_text(m),
{
    match m {
        CaseMap::Upper => "convert each kept character to ASCII uppercase",
        CaseMap::Lower => "convert each kept character to ASCII lowercase",
        CaseMap::SwapCase => "swap the case of each kept ASCII letter (leave others unchanged)",
    }
}

pub open spec fn order_prose_text(rev: bool) -> Seq<char> {
    if rev {
        "Finally, reverse the order of the resulting characters."@
    } else {
        "Keep the characters in their original order."@
    }
}

pub fn order_prose(rev: bool) -> (r: &'static str)
    ensures
        r@ == order_prose_text(rev),
{
    if rev {
        "Finally, reverse the order of the resulting characters."
    } else {
        "Keep the characters in their original order."
    }
}

/// The reference after its name.
pub open spec fn ref_tail_text(f: Filter, m: CaseMap, rev: bool) -> Seq<char> {
    "(s: &str) -> String {\n    let filtered: String = s.chars().filter("@ + filter_closure_text(f) + ").map("@
        + map_closure_text(m) + ").collect();\n    "@ + (if rev {
        "filtered.chars().rev().collect()"@
    } else {
        "filtered"@
    }) + "\n}\n"@
}

fn ref_tail(spec: &Spec) -> (r: String)
    ensures
        r@ == ref_tail_text(spec.filter, spec.map, spec.reversed),
{
    let mut s = string_of("(s: &str) -> String {\n    let filtered: String = s.chars().filter(");
    push_str(&mut s, filter_closure(spec.filter));
    push_str(&mut s, ").map(");
    push_str(&mut s, map_closure(spec.map));
    push_str(&mut s, ").collect();\n    ");
    if spec.reversed {
        push_str(&mut s, "filtered.chars().rev().collect()");
    } else {
        push_str(&mut s, "filtered");
    }
    push_str(&mut s, "\n}\n");
    s
}

pub open spec fn reference_text(name: Seq<char>, f: Filter, m: CaseMap, rev: bool) -> Seq<char> {
    "pub fn "@ + name + ref_tail_text(f, m, rev)
}

/// The correct reference, mirroring `eval`.
pub fn reference_src(spec: &Spec) -> (r: String)
    ensures
        r@ == reference_text(spec.fn_name@, spec.filter, spec.map, spec.reversed),
{
    let mut s = string_of("pub fn ");
    push_str(&mut s, spec.fn_name);
    let t = ref_tail(spec);
    push_str(&mut s, t.as_str());
    s
}

// ---- strings as Rust literals ------------------------------------------------

/// A character as it appears inside a string literal: `"` and `\` escaped.
pub open spec fn escaped_char(c: char) -> Seq<char> {
    if c == '"' {
        seq!['\\', '"']
    } else if c == '\\' {
        seq!['\\', '\\']
    } else {
        seq![c]
    }
}

pub open spec fn escaped(t: Seq<char>) -> Seq<char>
    decreases t.len(),
{
    if t.len() == 0 {
        Seq::empty()
    } else {
        escaped(t.drop_last()) + escaped_char(t.last())
    }
}

/// A quoted string literal of `t`; for printable ASCII this is `{:?}`.
pub open spec fn quoted(t: Seq<char>) -> Seq<char> {
    seq!['"'] + escaped(t) + seq!['"']
}

fn push_quoted(s: &mut String, t: &str)
    ensures
        final(s)@ == old(s)@ + quoted(t@),
{
    let ghost start = s@;
    let v = crate::scan::chars_of(t);
    push_char(s, '"');
    let mut i: usize = 0;
    assert(v@.take(0) =~= Seq::<char>::empty());
    while i < v.len()
        invariant
            i <= v.len(),
            s@ == start + seq!['"'] + escaped(v@.take(i as int)),
        decreases v.len() - i,
    {
        let c = v[i];
        if c == '"' {
            push_char(s, '\\');
            push_char(s, '"');
        } else if c == '\\' {
            push_char(s, '\\');
            push_char(s, '\\');
        } else {
            push_char(s, c);
        }
        assert(v@.take(i + 1).drop_last() =~= v@.take(i as int));
        assert(v@.take(i + 1).last() == c);
        i = i + 1;
    }
    assert(v@.take(v.len() as int) =~= v@);
    assert(v@ == t@);
    push_char(s, '"');
}

// ---- worked examples -------------------------------------------------------

pub open spec fn example_seed(seed: u64) -> u64 {
    seed ^ 0x57ED_0000_0000_0023u64
}

/// The fixed first input, `Hello, World!`: both cases, punctuation and a space.
pub open spec fn canonical() -> Seq<char> {
    seq!['H', 'e', 'l', 'l', 'o', ',', ' ', 'W', 'o', 'r', 'l', 'd', '!']
}

pub open spec fn text_len(s: u64, k: nat) -> nat {
    (3 + draw(s, k) % 8) as nat
}

/// The random printable-ASCII input whose draws start at `k`: a length
/// `3..=10`, then that many characters in `0x20..=0x7e`.
pub open spec fn random_text(s: u64, k: nat) -> Seq<char> {
    Seq::new(text_len(s, k), |j: int| ((0x20 + draw(s, (k + 1 + j) as nat) % 95) as u8) as char)
}

pub open spec fn text_next(s: u64, k: nat) -> nat {
    k + 1 + text_len(s, k)
}

pub open spec fn example_inputs(seed: u64) -> Seq<Seq<char>> {
    let s = example_seed(seed);
    let k1 = text_next(s, 0);
    let k2 = text_next(s, k1);
    seq![canonical(), random_text(s, 0), random_text(s, k1), random_text(s, k2)]
}

pub open spec fn example_line(input: Seq<char>, out: Seq<char>) -> Seq<char> {
    "  "@ + quoted(input) + "  ->  "@ + quoted(out)
}

pub open spec fn example_lines(f: Filter, m: CaseMap, rev: bool, seed: u64) -> Seq<Seq<char>> {
    example_inputs(seed).map_values(|x: Seq<char>| example_line(x, eval_spec(f, m, rev, x)))
}

/// One worked example: (input, expected output).
pub type ExampleCase = (String, String);

pub open spec fn example_cases(f: Filter, m: CaseMap, rev: bool, seed: u64) -> Seq<(Seq<char>, Seq<char>)> {
    example_inputs(seed).map_values(|x: Seq<char>| (x, eval_spec(f, m, rev, x)))
}

pub open spec fn case_view(c: ExampleCase) -> (Seq<char>, Seq<char>) {
    (c.0@, c.1@)
}

fn random_text_string(rng: &mut Rng) -> (r: String)
    ensures
        final(rng).seed() == old(rng).seed(),
        r@ == random_text(old(rng).seed(), old(rng).count()),
        final(rng).count() == text_next(old(rng).seed(), old(rng).count()),
{
    let ghost s = rng.seed();
    let ghost k = rng.count();
    let len = 3 + rng.below(8) as usize;
    let mut out = String::new();
    let mut j: usize = 0;
    while j < len
        invariant
            j <= len,
            len == text_len(s, k),
            rng.seed() == s,
            rng.count() == k + 1 + j,
            out@ =~= random_text(s, k).take(j as int),
        decreases len - j,
    {
        let c = (0x20u8 + rng.below(95) as u8) as char;
        push_char(&mut out, c);
        j = j + 1;
    }
    out
}

fn example_input_strings(seed: u64) -> (r: Vec<String>)
    ensures
        r@.len() == 4,
        forall|i: int| 0 <= i < 4 ==> (#[trigger] r@[i])@ == example_inputs(seed)[i],
{
    let mut rng = Rng::new(seed ^ 0x57ED_0000_0000_0023);
    let mut inputs: Vec<String> = Vec::new();
    let c = string_of("Hello, World!");
    proof {
        reveal_strlit("Hello, World!");
    }
    assert(c@ =~= canonical());
    inputs.push(c);
    let a = random_text_string(&mut rng);
    let b = random_text_string(&mut rng);
    let d = random_text_string(&mut rng);
    inputs.push(a);
    inputs.push(b);
    inputs.push(d);
    inputs
}

fn example_line_string(input: &String, out: &String) -> (r: String)
    ensures
        r@ == example_line(input@, out@),
{
    let mut s = string_of("  ");
    push_quoted(&mut s, input.as_str());
    push_str(&mut s, "  ->  ");
    push_quoted(&mut s, out.as_str());
    s
}

/// The worked examples as lines (without newlines) and cases.
pub fn example_data(spec: &Spec, seed: u64) -> (r: (Vec<String>, Vec<ExampleCase>))
    ensures
        string_views(r.0@) == example_lines(spec.filter, spec.map, spec.reversed, seed),
        r.1@.len() == 4,
        forall|i: int| 0 <= i < 4 ==> case_view(#[trigger] r.1@[i]) == example_cases(spec.filter, spec.map, spec.reversed, seed)[i],
{
    let inputs = example_input_strings(seed);
    let mut lines: Vec<String> = Vec::new();
    let mut cases: Vec<ExampleCase> = Vec::new();
    let mut j: usize = 0;
    while j < inputs.len()
        invariant
            j <= inputs.len(),
            inputs@.len() == 4,
            forall|i: int| 0 <= i < 4 ==> (#[trigger] inputs@[i])@ == example_inputs(seed)[i],
            lines@.len() == j,
            cases@.len() == j,
            forall|q: int| 0 <= q < j ==> #[trigger] lines@[q]@ == example_lines(spec.filter, spec.map, spec.reversed, seed)[q],
            forall|q: int| 0 <= q < j ==> case_view(#[trigger] cases@[q]) == example_cases(spec.filter, spec.map, spec.reversed, seed)[q],
        decreases inputs.len() - j,
    {
        let input = inputs[j].clone();
        let out = eval(spec, input.as_str());
        lines.push(example_line_string(&input, &out));
        cases.push((input, out));
        j = j + 1;
    }
    assert(string_views(lines@) =~= example_lines(spec.filter, spec.map, spec.reversed, seed));
    (lines, cases)
}

/// Worked examples: the prose block and the cases.
pub fn worked_examples(spec: &Spec, seed: u64) -> (r: (String, Vec<ExampleCase>))
    ensures
        r.0@ == terminated(example_lines(spec.filter, spec.map, spec.reversed, seed)),
        r.1@.len() == 4,
        forall|i: int| 0 <= i < 4 ==> case_view(#[trigger] r.1@[i]) == example_cases(spec.filter, spec.map, spec.reversed, seed)[i],
{
    let (lines, cases) = example_data(spec, seed);
    let mut prose = String::new();
    push_terminated(&mut prose, &lines);
    (prose, cases)
}

// ---- the files of an instance ----------------------------------------------

pub open spec fn skeleton_text(name: Seq<char>, f: Filter, m: CaseMap, rev: bool, seed: u64) -> Seq<char> {
    "//! Implement `"@ + name + "` below.\n//!\n"@ + doc_block(example_lines(f, m, rev, seed)) + "\npub fn "@
        + name + "(s: &str) -> String {\n    todo!()\n}\n"@
}

pub fn skeleton_src(spec: &Spec, seed: u64) -> (r: String)
    ensures
        r@ == skeleton_text(spec.fn_name@, spec.filter, spec.map, spec.reversed, seed),
{
    let (lines, _) = example_data(spec, seed);
    let mut s = string_of("//! Implement `");
    push_str(&mut s, spec.fn_name);
    push_str(&mut s, "` below.\n//!\n");
    push_doc_block(&mut s, &lines);
    push_str(&mut s, "\npub fn ");
    push_str(&mut s, spec.fn_name);
    push_str(&mut s, "(s: &str) -> String {\n    todo!()\n}\n");
    s
}

pub open spec fn prompt_text(name: Seq<char>, f: Filter, m: CaseMap, rev: bool, seed: u64, canary: Seq<char>) -> Seq<
    char,
> {
    "Implement the function `"@ + name
        + "` in `src/lib.rs`.\n\nProcess the characters of `s` in three steps and return the result as a `String`:\n\n1. **Filter** \u{2014} "@
        + filter_prose_text(f) + ".\n2. **Map** \u{2014} "@ + map_prose_text(m) + ".\n3. **Order** \u{2014} "@
        + order_prose_text(rev)
        + "\n\nAll inputs are ASCII. A character that is dropped by the filter does not appear in the output.\n\nConstraints:\n- Do not use `unsafe`.\n- The input may be empty; the result is then the empty string.\n\nSignature:\n```rust\npub fn "@
        + name + "(s: &str) -> String\n```\n\nExamples:\n"@ + terminated(example_lines(f, m, rev, seed)) + "\n"@
        + prompt_tail(canary)
}

pub fn prompt(spec: &Spec, seed: u64, canary: &str) -> (r: String)
    ensures
        r@ == prompt_text(spec.fn_name@, spec.filter, spec.map, spec.reversed, seed, canary@),
{
    let (examples, _) = worked_examples(spec, seed);
    let mut s = string_of("Implement the function `");
    push_str(&mut s, spec.fn_name);
    push_str(
        &mut s,
        "` in `src/lib.rs`.\n\nProcess the characters of `s` in three steps and return the result as a `String`:\n\n1. **Filter** \u{2014} ",
    );
    push_str(&mut s, filter_prose(spec.filter));
    push_str(&mut s, ".\n2. **Map** \u{2014} ");
    push_str(&mut s, map_prose(spec.map));
    push_str(&mut s, ".\n3. **Order** \u{2014} ");
    push_str(&mut s, order_prose(spec.reversed));
    push_str(
        &mut s,
        "\n\nAll inputs are ASCII. A character that is dropped by the filter does not appear in the output.\n\nConstraints:\n- Do not use `unsafe`.\n- The input may be empty; the result is then the empty string.\n\nSignature:\n```rust\npub fn ",
    );
    push_str(&mut s, spec.fn_name);
    push_str(&mut s, "(s: &str) -> String\n```\n\nExamples:\n");
    push_str(&mut s, examples.as_str());
    push_str(&mut s, "\n");
    push_prompt_tail(&mut s, canary);
    s
}

pub open spec fn case_test_text(name: Seq<char>, i: nat, c: (Seq<char>, Seq<char>)) -> Seq<char> {
    "#[test]\nfn ex"@ + dec_nat(i) + "() {\n    assert_eq!("@ + name + "("@ + quoted(c.0) + "), "@ + quoted(c.1)
        + ");\n}\n\n"@
}

pub open spec fn case_tests_text(name: Seq<char>, cases: Seq<(Seq<char>, Seq<char>)>) -> Seq<char>
    decreases cases.len(),
{
    if cases.len() == 0 {
        Seq::empty()
    } else {
        case_tests_text(name, cases.drop_last()) + case_test_text(name, (cases.len() - 1) as nat, cases.last())
    }
}

fn case_test_string(name: &str, i: usize, c: &ExampleCase) -> (r: String)
    ensures
        r@ == case_test_text(name@, i as nat, case_view(*c)),
{
    let mut s = string_of("#[test]\nfn ex");
    push_u64(&mut s, i as u64);
    push_str(&mut s, "() {\n    assert_eq!(");
    push_str(&mut s, name);
    push_str(&mut s, "(");
    push_quoted(&mut s, c.0.as_str());
    push_str(&mut s, "), ");
    push_quoted(&mut s, c.1.as_str());
    push_str(&mut s, ");\n}\n\n");
    s
}

pub open spec fn behavior_text(name: Seq<char>, f: Filter, m: CaseMap, rev: bool, seed: u64) -> Seq<char> {
    "use task::"@ + name + ";\n\n"@ + case_tests_text(name, example_cases(f, m, rev, seed))
        + "#[test]\nfn empty_input() {\n    assert_eq!("@ + name + "(\"\"), \"\");\n}\n"@
}

pub fn behavior_test_src(spec: &Spec, seed: u64) -> (r: String)
    ensures
        r@ == behavior_text(spec.fn_name@, spec.filter, spec.map, spec.reversed, seed),
{
    let (_, cases) = worked_examples(spec, seed);
    let ghost cs = example_cases(spec.filter, spec.map, spec.reversed, seed);
    assert forall|q: int| 0 <= q < 4 implies #[trigger] cs[q] == case_view(cases@[q]) by {}
    let mut s = string_of("use task::");
    push_str(&mut s, spec.fn_name);
    push_str(&mut s, ";\n\n");
    let ghost start = s@;
    let mut i: usize = 0;
    while i < cases.len()
        invariant
            i <= cases.len(),
            cases@.len() == 4,
            cs.len() == 4,
            forall|q: int| 0 <= q < 4 ==> #[trigger] cs[q] == case_view(cases@[q]),
            s@ == start + case_tests_text(spec.fn_name@, cs.take(i as int)),
        decreases cases.len() - i,
    {
        let t = case_test_string(spec.fn_name, i, &cases[i]);
        push_str(&mut s, t.as_str());
        assert(cs.take(i + 1).drop_last() =~= cs.take(i as int));
        i = i + 1;
    }
    assert(cs.take(4) =~= cs);
    push_str(&mut s, "#[test]\nfn empty_input() {\n    assert_eq!(");
    push_str(&mut s, spec.fn_name);
    push_str(&mut s, "(\"\"), \"\");\n}\n");
    s
}

pub open spec fn differential_text(name: Seq<char>, f: Filter, m: CaseMap, rev: bool) -> Seq<char> {
    "use task::"@ + name + ";\n\n"@ + "fn reference"@ + ref_tail_text(f, m, rev)
        + "\n#[test]\nfn differential_vs_reference() {\n    let mut state: u64 = 0x57ED_ED00_0000_0042;\n    let mut next = || {\n        state = state.wrapping_mul(6364136223846793005).wrapping_add(1442695040888963407);\n        (state >> 33) as u64\n    };\n    for _ in 0..3000 {\n        let len = (next() % 12) as usize;\n        let s: String = (0..len).map(|_| (0x20u8 + (next() % 95) as u8) as char).collect();\n        assert_eq!("@
        + name + "(&s), reference(&s), \"mismatch on {s:?}\");\n    }\n}\n"@
}

/// The hidden differential test: the reference, renamed, against the answer
/// on random printable-ASCII strings.
pub fn differential_test_src(spec: &Spec) -> (r: String)
    ensures
        r@ == differential_text(spec.fn_name@, spec.filter, spec.map, spec.reversed),
{
    let mut s = string_of("use task::");
    push_str(&mut s, spec.fn_name);
    push_str(&mut s, ";\n\n");
    push_str(&mut s, "fn reference");
    let t = ref_tail(spec);
    push_str(&mut s, t.as_str());
    push_str(
        &mut s,
        "\n#[test]\nfn differential_vs_reference() {\n    let mut state: u64 = 0x57ED_ED00_0000_0042;\n    let mut next = || {\n        state = state.wrapping_mul(6364136223846793005).wrapping_add(1442695040888963407);\n        (state >> 33) as u64\n    };\n    for _ in 0..3000 {\n        let len = (next() % 12) as usize;\n        let s: String = (0..len).map(|_| (0x20u8 + (next() % 95) as u8) as char).collect();\n        assert_eq!(",
    );
    push_str(&mut s, spec.fn_name);
    push_str(&mut s, "(&s), reference(&s), \"mismatch on {s:?}\");\n    }\n}\n");
    s
}

pub open spec fn identity_text(name: Seq<char>) -> Seq<char> {
    "pub fn "@ + name + "(s: &str) -> String { s.to_string() }\n"@
}

/// Degenerate answer: the input unchanged.
pub fn identity(spec: &Spec) -> (r: String)
    ensures
        r@ == identity_text(spec.fn_name@),
{
    let mut s = string_of("pub fn ");
    push_str(&mut s, spec.fn_name);
    push_str(&mut s, "(s: &str) -> String { s.to_string() }\n");
    s
}

pub open spec fn empty_text(name: Seq<char>) -> Seq<char> {
    "pub fn "@ + name + "(s: &str) -> String { let _ = s; String::new() }\n"@
}

/// Degenerate answer: always empty.
pub fn empty(spec: &Spec) -> (r: String)
    ensures
        r@ == empty_text(spec.fn_name@),
{
    let mut s = string_of("pub fn ");
    push_str(&mut s, spec.fn_name);
    push_str(&mut s, "(s: &str) -> String { let _ = s; String::new() }\n");
    s
}

/// The hidden behaviour tests of the task `seed` gives.
pub closed spec fn behavior_file(seed: u64) -> Seq<char> {
    behavior_text(sample_name(seed), sample_filter(seed), sample_map(seed), sample_reversed(seed), seed)
}

/// The hidden differential test of the task `seed` gives.
pub closed spec fn differential_file(seed: u64) -> Seq<char> {
    differential_text(sample_name(seed), sample_filter(seed), sample_map(seed), sample_reversed(seed))
}

// ---- the family ------------------------------------------------------------

pub open spec fn filter_kind_text(f: Filter) -> Seq<char> {
    match f {
        Filter::Alpha => "keep_alpha"@,
        Filter::Alnum => "keep_alnum"@,
        Filter::NonSpace => "keep_nonspace"@,
        Filter::All => "keep_all"@,
    }
}

pub open spec fn map_kind_text(m: CaseMap) -> Seq<char> {
    match m {
        CaseMap::Upper => "upper"@,
        CaseMap::Lower => "lower"@,
        CaseMap::SwapCase => "swapcase"@,
    }
}

pub struct StringProcessingFamily;

impl StringProcessingFamily {
    pub fn id(&self) -> (r: &'static str)
        ensures
            r@ == "str-transform"@,
    {
        "str-transform"
    }

    pub fn category(&self) -> (r: &'static str)
        ensures
            r@ == "string-processing"@,
    {
        "string-processing"
    }

    /// The instance for `seed`: a pure function of the seed. Building the
    /// result `String` allocates, so there is no allocation check.
    pub fn generate(&self, seed: u64) -> (r: GeneratedTask)
        ensures
            r.id@ == task_id_text("str-transform"@, seed),
            r.category@ == "string-processing"@,
            r.canary@ == canary_text("str-transform"@, seed),
            r.prompt@ == prompt_text(sample_name(seed), sample_filter(seed), sample_map(seed), sample_reversed(seed), seed, r.canary@),
            r.answer_path@ == "src/lib.rs"@,
            r.files@.len() == 2,
            r.files@[0].0@ == "Cargo.toml"@,
            r.files@[0].1@ == cargo_toml_text(),
            r.files@[1].0@ == "src/lib.rs"@,
            r.files@[1].1@ == skeleton_text(sample_name(seed), sample_filter(seed), sample_map(seed), sample_reversed(seed), seed),
            r.hidden@.len() == 2,
            r.hidden@[0].0@ == "tests/behavior.rs"@,
            r.hidden@[0].1@ == behavior_text(sample_name(seed), sample_filter(seed), sample_map(seed), sample_reversed(seed), seed),
            r.hidden@[1].0@ == "tests/differential.rs"@,
            r.hidden@[1].1@ == differential_text(sample_name(seed), sample_filter(seed), sample_map(seed), sample_reversed(seed)),
            r.behavior_test@ == "behavior"@,
            r.hidden@[0].1@ == behavior_file(seed),
            r.hidden@[1].1@ == differential_file(seed),
            r.differential_test@ == "differential"@,
            r.alloc_test@ == Seq::<char>::empty(),
            r.max_unsafe == Some(0u32),
            r.forbidden_paths@.len() == 0,
            !r.check_clippy,
            r.clippy_allow@.len() == 0,
            r.weights == (Weights { behavior: 70, constraint: 20, quality: 10 }),
    {
        let spec = sample(seed);
        let canary = mint_canary("str-transform", seed);
        let mut files: Vec<(String, String)> = Vec::new();
        files.push((string_of("Cargo.toml"), cargo_toml()));
        files.push((string_of("src/lib.rs"), skeleton_src(&spec, seed)));
        let mut hidden: Vec<(String, String)> = Vec::new();
        hidden.push((string_of("tests/behavior.rs"), behavior_test_src(&spec, seed)));
        hidden.push((string_of("tests/differential.rs"), differential_test_src(&spec)));
        let prompt = prompt(&spec, seed, canary.as_str());
        GeneratedTask {
            id: task_id("str-transform", seed),
            category: string_of("string-processing"),
            prompt,
            canary,
            answer_path: string_of("src/lib.rs"),
            files,
            hidden,
            behavior_test: string_of("behavior"),
            differential_test: string_of("differential"),
            alloc_test: String::new(),
            max_unsafe: Some(0),
            forbidden_paths: Vec::new(),
            check_clippy: false,
            clippy_allow: Vec::new(),
            weights: Weights { behavior: 70, constraint: 20, quality: 10 },
        }
    }

    pub fn reference_code(&self, seed: u64) -> (r: String)
        ensures
            r@ == reference_text(sample_name(seed), sample_filter(seed), sample_map(seed), sample_reversed(seed)),
    {
        reference_src(&sample(seed))
    }

    pub fn skeleton_code(&self, seed: u64) -> (r: String)
        ensures
            r@ == skeleton_text(sample_name(seed), sample_filter(seed), sample_map(seed), sample_reversed(seed), seed),
    {
        skeleton_src(&sample(seed), seed)
    }

    /// Degenerate answers `(label, code)` that must fail grading.
    pub fn trivial_baselines(&self, seed: u64) -> (r: Vec<(String, String)>)
        ensures
            r@.len() == 2,
            r@[0].0@ == "identity"@,
            r@[0].1@ == identity_text(sample_name(seed)),
            r@[1].0@ == "empty"@,
            r@[1].1@ == empty_text(sample_name(seed)),
    {
        let spec = sample(seed);
        let mut v: Vec<(String, String)> = Vec::new();
        v.push((string_of("identity"), identity(&spec)));
        v.push((string_of("empty"), empty(&spec)));
        v
    }

    /// The structural identity: the (filter, map, order) trio.
    pub fn spec_signature(&self, seed: u64) -> (r: Vec<String>)
        ensures
            r@.len() == 3,
            r@[0]@ == "filter:"@ + filter_kind_text(sample_filter(seed)),
            r@[1]@ == "map:"@ + map_kind_text(sample_map(seed)),
            r@[2]@ == "order:"@ + (if sample_reversed(seed) { "reversed"@ } else { "inorder"@ }),
    {
        let spec = sample(seed);
        let filter = match spec.filter {
            Filter::Alpha => "keep_alpha",
            Filter::Alnum => "keep_alnum",
            Filter::NonSpace => "keep_nonspace",
            Filter::All => "keep_all",
        };
        let map = match spec.map {
            CaseMap::Upper => "upper",
            CaseMap::Lower => "lower",
            CaseMap::SwapCase => "swapcase",
        };
        let order = if spec.reversed { "reversed" } else { "inorder" };
        let mut a = string_of("filter:");
        push_str(&mut a, filter);
        let mut b = string_of("map:");
        push_str(&mut b, map);
        let mut c = string_of("order:");
        push_str(&mut c, order);
        let mut v: Vec<String> = Vec::new();
        v.push(a);
        v.push(b);
        v.push(c);
        v
    }
}

// ---- the canonical example catches both trivial baselines -----------------

proof fn lemma_filtered_len(f: Filter, m: CaseMap, s: Seq<char>)
    ensures
        filtered(f, m, s).len() <= s.len(),
        (exists|i: int| 0 <= i < s.len() && !kept(f, #[trigger] s[i])) ==> filtered(f, m, s).len() < s.len(),
        (exists|i: int| 0 <= i < s.len() && kept(f, #[trigger] s[i])) ==> filtered(f, m, s).len() > 0,
    decreases s.len(),
{
    if s.len() > 0 {
        let u = s.drop_last();
        lemma_filtered_len(f, m, u);
        if exists|i: int| 0 <= i < s.len() && !kept(f, #[trigger] s[i]) {
            let i = choose|i: int| 0 <= i < s.len() && !kept(f, #[trigger] s[i]);
            if i < s.len() - 1 {
                assert(u[i] == s[i]);
            }
        }
        if exists|i: int| 0 <= i < s.len() && kept(f, #[trigger] s[i]) {
            let i = choose|i: int| 0 <= i < s.len() && kept(f, #[trigger] s[i]);
            if i < s.len() - 1 {
                assert(u[i] == s[i]);
            }
        }
    }
}

proof fn lemma_filtered_all(m: CaseMap, s: Seq<char>)
    ensures
        filtered(Filter::All, m, s).len() == s.len(),
        forall|i: int| 0 <= i < s.len() ==> #[trigger] filtered(Filter::All, m, s)[i] == mapped(m, s[i]),
    decreases s.len(),
{
    if s.len() > 0 {
        let u = s.drop_last();
        lemma_filtered_all(m, u);
        assert forall|i: int| 0 <= i < s.len() implies #[trigger] filtered(Filter::All, m, s)[i] == mapped(m, s[i]) by {
            if i < s.len() - 1 {
                assert(u[i] == s[i]);
            }
        }
    }
}

proof fn lemma_backwards(t: Seq<char>)
    ensures
        backwards(t).len() == t.len(),
        forall|i: int| 0 <= i < t.len() ==> #[trigger] backwards(t)[i] == t[t.len() - 1 - i],
    decreases t.len(),
{
    if t.len() > 0 {
        let u = t.drop_last();
        lemma_backwards(u);
        assert forall|i: int| 0 <= i < t.len() implies #[trigger] backwards(t)[i] == t[t.len() - 1 - i] by {
            if i > 0 {
                assert(backwards(t)[i] == backwards(u)[i - 1]);
                assert(u[u.len() - 1 - (i - 1)] == t[t.len() - 1 - i]);
            }
        }
    }
}

/// Every (filter, map, order) combination changes `Hello, World!` and leaves
/// it non-empty: the `identity` and `empty` baselines fail the first worked
/// example of every instance.
pub proof fn law_canonical_changes(f: Filter, m: CaseMap, rev: bool)
    ensures
        eval_spec(f, m, rev, canonical()).len() > 0,
        eval_spec(f, m, rev, canonical()) != canonical(),
{
    let c = canonical();
    let t = filtered(f, m, c);
    assert(kept(f, c[0]));
    lemma_filtered_len(f, m, c);
    lemma_backwards(t);
    if f == Filter::Alpha || f == Filter::Alnum {
        assert(!kept(f, c[5]));
    } else if f == Filter::NonSpace {
        assert(!kept(f, c[6]));
        assert(is_ws(c[6]));
    } else {
        lemma_filtered_all(m, c);
        if rev {
            assert(backwards(t)[0] == t[12]);
            assert(t[12] == mapped(m, c[12]));
            assert(backwards(t)[0] != c[0]);
        } else if m == CaseMap::Upper {
            assert(t[1] == mapped(m, c[1]));
            assert(t[1] != c[1]);
        } else {
            assert(t[0] == mapped(m, c[0]));
            assert(t[0] != c[0]);
        }
    }
}

} // verus!
