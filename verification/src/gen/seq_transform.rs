//! The `seq-transform` family (category `iterators`).
//!
//! The model implements `fn(xs: &[i64]) -> Vec<i64>`, a seed-selected
//! three-stage pipeline applied left to right: a filter (positive, even, above
//! a threshold, nonzero), a map (double, negate, square, add a constant) and a
//! terminal fold (collect, running sum, collapse consecutive duplicates).
//! The threshold and the constant are numeric parameters of the same skill.

use vstd::prelude::*;
use crate::rng::{Rng, draw};
use crate::digest::{mint_canary, canary_text};
use crate::text::{push_str, push_u64, push_i64, push_debug_list, push_doc_block, push_terminated, dec_nat,
    dec_int, debug_list, doc_block, terminated, string_views, string_of};
use crate::gen::{GeneratedTask, Weights, cargo_toml, cargo_toml_text, task_id, task_id_text,
    push_prompt_tail, prompt_tail};
use crate::gen::fold::{all_small, small_input, small_next, random_small_input};

verus! {

/// Stage 1: which elements are kept.
#[derive(Clone, Copy, Debug, PartialEq, Eq, Structural)]
pub enum Filter {
    Positive,
    Even,
    AboveThreshold(i64),
    NonZero,
}

/// Stage 2: how each kept element is transformed.
#[derive(Clone, Copy, Debug, PartialEq, Eq, Structural)]
pub enum SeqMap {
    Double,
    Negate,
    Square,
    AddK(i64),
}

/// Stage 3: how the transformed values are folded into the result.
#[derive(Clone, Copy, Debug, PartialEq, Eq, Structural)]
pub enum Terminal {
    Collect,
    RunningSum,
    DedupConsecutive,
}

pub struct Spec {
    pub filter: Filter,
    pub map: SeqMap,
    pub terminal: Terminal,
    pub fn_name: &'static str,
}

// ---- semantics -------------------------------------------------------------

pub open spec fn in_i64(x: int) -> bool {
    i64::MIN <= x <= i64::MAX
}

pub open spec fn kept(f: Filter, x: int) -> bool {
    match f {
        Filter::Positive => x > 0,
        Filter::Even => x % 2 == 0,
        Filter::AboveThreshold(t) => x > t,
        Filter::NonZero => x != 0,
    }
}

pub open spec fn mapped(m: SeqMap, x: int) -> int {
    match m {
        SeqMap::Double => x * 2,
        SeqMap::Negate => -x,
        SeqMap::Square => x * x,
        SeqMap::AddK(k) => x + k,
    }
}

/// The result so far after one more transformed value `v`.
pub open spec fn fold_step(t: Terminal, out: Seq<int>, v: int) -> Seq<int> {
    match t {
        Terminal::Collect => out.push(v),
        Terminal::RunningSum => out.push((if out.len() == 0 { 0 } else { out.last() }) + v),
        Terminal::DedupConsecutive => if out.len() > 0 && out.last() == v { out } else { out.push(v) },
    }
}

/// The pipeline's result on `xs`, as integers.
pub open spec fn run(f: Filter, m: SeqMap, t: Terminal, xs: Seq<i64>) -> Seq<int>
    decreases xs.len(),
{
    if xs.len() == 0 {
        Seq::empty()
    } else {
        let out = run(f, m, t, xs.drop_last());
        let x = xs.last() as int;
        if kept(f, x) { fold_step(t, out, mapped(m, x)) } else { out }
    }
}

/// Element `i` is processed without leaving `i64`: its transformed value and
/// the value the terminal appends both fit.
pub open spec fn step_fits(f: Filter, m: SeqMap, t: Terminal, xs: Seq<i64>, i: int) -> bool {
    kept(f, xs[i] as int) ==> in_i64(mapped(m, xs[i] as int)) && in_i64(
        fold_step(t, run(f, m, t, xs.take(i)), mapped(m, xs[i] as int)).last(),
    )
}

/// No value the pipeline computes on `xs` leaves `i64`.
pub open spec fn pipeline_fits(f: Filter, m: SeqMap, t: Terminal, xs: Seq<i64>) -> bool {
    forall|i: int| 0 <= i < xs.len() ==> #[trigger] step_fits(f, m, t, xs, i)
}

/// A list of `i64` as integers.
pub open spec fn ints(v: Seq<i64>) -> Seq<int> {
    v.map_values(|x: i64| x as int)
}

/// The pipeline's result as `i64` values.
pub open spec fn outputs(f: Filter, m: SeqMap, t: Terminal, xs: Seq<i64>) -> Seq<i64> {
    run(f, m, t, xs).map_values(|v: int| v as i64)
}

pub fn keep(f: Filter, x: i64) -> (r: bool)
    ensures
        r == kept(f, x as int),
{
    match f {
        Filter::Positive => x > 0,
        Filter::Even => x % 2 == 0,
        Filter::AboveThreshold(t) => x > t,
        Filter::NonZero => x != 0,
    }
}

pub fn map_val(m: SeqMap, x: i64) -> (r: i64)
    requires
        in_i64(mapped(m, x as int)),
    ensures
        r == mapped(m, x as int),
{
    match m {
        SeqMap::Double => x * 2,
        SeqMap::Negate => -x,
        SeqMap::Square => x * x,
        SeqMap::AddK(k) => x + k,
    }
}

/// The answer: filter, map and fold `xs` left to right.
pub fn eval(spec: &Spec, xs: &[i64]) -> (r: Vec<i64>)
    requires
        pipeline_fits(spec.filter, spec.map, spec.terminal, xs@),
    ensures
        ints(r@) == run(spec.filter, spec.map, spec.terminal, xs@),
{
    let ghost f = spec.filter;
    let ghost m = spec.map;
    let ghost t = spec.terminal;
    let mut out: Vec<i64> = Vec::new();
    let mut i: usize = 0;
    assert(xs@.take(0) =~= Seq::<i64>::empty());
    assert(ints(out@) =~= Seq::<int>::empty());
    while i < xs.len()
        invariant
            i <= xs.len(),
            f == spec.filter && m == spec.map && t == spec.terminal,
            pipeline_fits(f, m, t, xs@),
            ints(out@) == run(f, m, t, xs@.take(i as int)),
        decreases xs.len() - i,
    {
        assert(xs@.take(i + 1).drop_last() =~= xs@.take(i as int));
        assert(xs@.take(i + 1).last() == xs@[i as int]);
        assert(step_fits(f, m, t, xs@, i as int));
        let x = xs[i];
        if keep(spec.filter, x) {
            let v = map_val(spec.map, x);
            let ghost before = out@;
            match spec.terminal {
                Terminal::Collect => {
                    out.push(v);
                },
                Terminal::RunningSum => {
                    let base: i64 = if out.len() == 0 { 0 } else { out[out.len() - 1] };
                    assert(fold_step(t, ints(before), v as int).last() == base + v);
                    out.push(base + v);
                },
                Terminal::DedupConsecutive => {
                    if out.len() == 0 || out[out.len() - 1] != v {
                        out.push(v);
                    } else {
                        assert(ints(before).last() == v as int);
                    }
                },
            }
            assert(ints(out@) =~= fold_step(t, ints(before), v as int));
        }
        i = i + 1;
    }
    assert(xs@.take(xs.len() as int) =~= xs@);
    out
}


// ---- sampling --------------------------------------------------------------

/// The seed-chosen thresholds for `AboveThreshold`.
pub open spec fn threshold_at(i: u64) -> i64 {
    if i == 0 { -2i64 } else if i == 1 { 0i64 } else if i == 2 { 3i64 } else { 5i64 }
}

fn threshold_of(i: u64) -> (r: i64)
    ensures
        r == threshold_at(i),
{
    if i == 0 { -2 } else if i == 1 { 0 } else if i == 2 { 3 } else { 5 }
}

pub open spec fn sample_filter(seed: u64) -> Filter {
    let kind = draw(seed, 0) % 4;
    if kind == 0 {
        Filter::Positive
    } else if kind == 1 {
        Filter::Even
    } else if kind == 2 {
        Filter::AboveThreshold(threshold_at(draw(seed, 1) % 4))
    } else {
        Filter::NonZero
    }
}

/// How many draws the filter consumed.
pub open spec fn filter_draws(seed: u64) -> nat {
    if draw(seed, 0) % 4 == 2 { 2 } else { 1 }
}

pub open spec fn sample_map(seed: u64) -> SeqMap {
    let k = filter_draws(seed);
    let kind = draw(seed, k) % 4;
    if kind == 0 {
        SeqMap::Double
    } else if kind == 1 {
        SeqMap::Negate
    } else if kind == 2 {
        SeqMap::Square
    } else {
        SeqMap::AddK((1 + draw(seed, k + 1) % 3) as i64)
    }
}

/// How many draws the filter and the map consumed.
pub open spec fn map_draws(seed: u64) -> nat {
    let k = filter_draws(seed);
    if draw(seed, k) % 4 == 3 { k + 2 } else { k + 1 }
}

pub open spec fn sample_terminal(seed: u64) -> Terminal {
    let kind = draw(seed, map_draws(seed)) % 3;
    if kind == 0 {
        Terminal::Collect
    } else if kind == 1 {
        Terminal::RunningSum
    } else {
        Terminal::DedupConsecutive
    }
}

pub open spec fn name_text(i: u64) -> Seq<char> {
    if i == 0 { "transform"@ }
    else if i == 1 { "process_seq"@ }
    else if i == 2 { "refine"@ }
    else if i == 3 { "sift"@ }
    else if i == 4 { "transform_values"@ }
    else { "pipeline"@ }
}

pub open spec fn sample_name(seed: u64) -> Seq<char> {
    name_text(draw(seed, map_draws(seed) + 1) % 6)
}

fn name_at(i: u64) -> (r: &'static str)
    requires
        i < 6,
    ensures
        r@ == name_text(i),
{
    if i == 0 { "transform" }
    else if i == 1 { "process_seq" }
    else if i == 2 { "refine" }
    else if i == 3 { "sift" }
    else if i == 4 { "transform_values" }
    else { "pipeline" }
}

/// The parameters a seed can choose: a threshold among `-2, 0, 3, 5` and a
/// constant among `1, 2, 3`.
pub open spec fn valid_filter(f: Filter) -> bool {
    match f {
        Filter::AboveThreshold(t) => t == -2 || t == 0 || t == 3 || t == 5,
        _ => true,
    }
}

pub open spec fn valid_map(m: SeqMap) -> bool {
    match m {
        SeqMap::AddK(k) => 1 <= k <= 3,
        _ => true,
    }
}

/// The spec for `seed`: every choice is a function of the seed's stream.
pub fn sample(seed: u64) -> (r: Spec)
    ensures
        r.filter == sample_filter(seed),
        r.map == sample_map(seed),
        r.terminal == sample_terminal(seed),
        r.fn_name@ == sample_name(seed),
        valid_filter(r.filter),
        valid_map(r.map),
{
    let mut rng = Rng::new(seed);
    let fk = rng.below(4);
    let filter = if fk == 0 {
        Filter::Positive
    } else if fk == 1 {
        Filter::Even
    } else if fk == 2 {
        Filter::AboveThreshold(threshold_of(rng.below(4)))
    } else {
        Filter::NonZero
    };
    let mk = rng.below(4);
    let map = if mk == 0 {
        SeqMap::Double
    } else if mk == 1 {
        SeqMap::Negate
    } else if mk == 2 {
        SeqMap::Square
    } else {
        SeqMap::AddK(1 + rng.below(3) as i64)
    };
    let tk = rng.below(3);
    let terminal = if tk == 0 {
        Terminal::Collect
    } else if tk == 1 {
        Terminal::RunningSum
    } else {
        Terminal::DedupConsecutive
    };
    let fn_name = name_at(rng.below(6));
    Spec { filter, map, terminal, fn_name }
}


// ---- emitted-source fragments ----------------------------------------------

pub open spec fn filter_expr_text(f: Filter) -> Seq<char> {
    match f {
        Filter::Positive => "x > 0"@,
        Filter::Even => "x % 2 == 0"@,
        Filter::AboveThreshold(t) => "x > "@ + dec_int(t as int),
        Filter::NonZero => "x != 0"@,
    }
}

pub fn filter_expr(f: Filter) -> (r: String)
    ensures
        r@ == filter_expr_text(f),
{
    match f {
        Filter::Positive => string_of("x > 0"),
        Filter::Even => string_of("x % 2 == 0"),
        Filter::AboveThreshold(t) => {
            let mut s = string_of("x > ");
            push_i64(&mut s, t);
            s
        },
        Filter::NonZero => string_of("x != 0"),
    }
}

pub open spec fn map_expr_text(m: SeqMap) -> Seq<char> {
    match m {
        SeqMap::Double => "x * 2"@,
        SeqMap::Negate => "-x"@,
        SeqMap::Square => "x * x"@,
        SeqMap::AddK(k) => "x + "@ + dec_int(k as int),
    }
}

pub fn map_expr(m: SeqMap) -> (r: String)
    ensures
        r@ == map_expr_text(m),
{
    match m {
        SeqMap::Double => string_of("x * 2"),
        SeqMap::Negate => string_of("-x"),
        SeqMap::Square => string_of("x * x"),
        SeqMap::AddK(k) => {
            let mut s = string_of("x + ");
            push_i64(&mut s, k);
            s
        },
    }
}

pub open spec fn terminal_body_text(t: Terminal) -> Seq<char> {
    match t {
        Terminal::Collect => "out.push(m);"@,
        Terminal::RunningSum => "let base = out.last().copied().unwrap_or(0);\n        out.push(base + m);"@,
        Terminal::DedupConsecutive => "if out.last().copied() != Some(m) { out.push(m); }"@,
    }
}

pub fn terminal_body(t: Terminal) -> (r: &'static str)
    ensures
        r@ == terminal_body_text(t),
{
    match t {
        Terminal::Collect => "out.push(m);",
        Terminal::RunningSum => "let base = out.last().copied().unwrap_or(0);\n        out.push(base + m);",
        Terminal::DedupConsecutive => "if out.last().copied() != Some(m) { out.push(m); }",
    }
}

pub open spec fn filter_prose_text(f: Filter) -> Seq<char> {
    match f {
        Filter::Positive => "keep the elements that are strictly positive (`x > 0`)"@,
        Filter::Even => "keep the elements that are even (`x % 2 == 0`)"@,
        Filter::AboveThreshold(t) => "keep the elements that are strictly greater than `"@ + dec_int(t as int)
            + "` (`x > "@ + dec_int(t as int) + "`)"@,
        Filter::NonZero => "keep the elements that are not zero (`x != 0`)"@,
    }
}

pub fn filter_prose(f: Filter) -> (r: String)
    ensures
        r@ == filter_prose_text(f),
{
    match f {
        Filter::Positive => string_of("keep the elements that are strictly positive (`x > 0`)"),
        Filter::Even => string_of("keep the elements that are even (`x % 2 == 0`)"),
        Filter::AboveThreshold(t) => {
            let mut s = string_of("keep the elements that are strictly greater than `");
            push_i64(&mut s, t);
            push_str(&mut s, "` (`x > ");
            push_i64(&mut s, t);
            push_str(&mut s, "`)");
            s
        },
        Filter::NonZero => string_of("keep the elements that are not zero (`x != 0`)"),
    }
}

pub open spec fn map_prose_text(m: SeqMap) -> Seq<char> {
    match m {
        SeqMap::Double => "double each kept element (`x * 2`)"@,
        SeqMap::Negate => "negate each kept element (`-x`)"@,
        SeqMap::Square => "square each kept element (`x * x`)"@,
        SeqMap::AddK(k) => "add `"@ + dec_int(k as int) + "` to each kept element (`x + "@ + dec_int(k as int)
            + "`)"@,
    }
}

pub fn map_prose(m: SeqMap) -> (r: String)
    ensures
        r@ == map_prose_text(m),
{
    match m {
        SeqMap::Double => string_of("double each kept element (`x * 2`)"),
        SeqMap::Negate => string_of("negate each kept element (`-x`)"),
        SeqMap::Square => string_of("square each kept element (`x * x`)"),
        SeqMap::AddK(k) => {
            let mut s = string_of("add `");
            push_i64(&mut s, k);
            push_str(&mut s, "` to each kept element (`x + ");
            push_i64(&mut s, k);
            push_str(&mut s, "`)");
            s
        },
    }
}

pub open spec fn terminal_prose_text(t: Terminal) -> Seq<char> {
    match t {
        Terminal::Collect => "collect the transformed values into the result in their original order"@,
        Terminal::RunningSum => "replace the sequence with its running prefix sums: the first value stays as-is, and each later value is the sum of every transformed value up to and including it"@,
        Terminal::DedupConsecutive => "collapse consecutive equal transformed values, keeping only the first of each run"@,
    }
}

pub fn terminal_prose(t: Terminal) -> (r: &'static str)
    ensures
        r@ == terminal_prose_text(t),
{
    match t {
        Terminal::Collect => "collect the transformed values into the result in their original order",
        Terminal::RunningSum => "replace the sequence with its running prefix sums: the first value stays as-is, and each later value is the sum of every transformed value up to and including it",
        Terminal::DedupConsecutive => "collapse consecutive equal transformed values, keeping only the first of each run",
    }
}

/// The reference implementation, headed by `head`.
pub open spec fn reference_text(head: Seq<char>, f: Filter, m: SeqMap, t: Terminal) -> Seq<char> {
    head + "(xs: &[i64]) -> Vec<i64> {\n    let mut out: Vec<i64> = Vec::new();\n    for &x in xs {\n        if !("@
        + filter_expr_text(f) + ") {\n            continue;\n        }\n        let m = "@ + map_expr_text(m)
        + ";\n        "@ + terminal_body_text(t) + "\n    }\n    out\n}\n"@
}

fn reference_with_head(spec: &Spec, head: &str) -> (r: String)
    ensures
        r@ == reference_text(head@, spec.filter, spec.map, spec.terminal),
{
    let mut s = string_of(head);
    push_str(&mut s, "(xs: &[i64]) -> Vec<i64> {\n    let mut out: Vec<i64> = Vec::new();\n    for &x in xs {\n        if !(");
    let fe = filter_expr(spec.filter);
    push_str(&mut s, fe.as_str());
    push_str(&mut s, ") {\n            continue;\n        }\n        let m = ");
    let me = map_expr(spec.map);
    push_str(&mut s, me.as_str());
    push_str(&mut s, ";\n        ");
    push_str(&mut s, terminal_body(spec.terminal));
    push_str(&mut s, "\n    }\n    out\n}\n");
    s
}

pub fn reference_src(spec: &Spec) -> (r: String)
    ensures
        r@ == reference_text("pub fn "@ + spec.fn_name@, spec.filter, spec.map, spec.terminal),
{
    let mut head = string_of("pub fn ");
    push_str(&mut head, spec.fn_name);
    reference_with_head(spec, head.as_str())
}

// ---- worked examples -------------------------------------------------------

/// Every transformed value is at most 81 in size, so after `n` elements no
/// value of the result exceeds `81 * n`.
pub proof fn lemma_run_bound(f: Filter, m: SeqMap, t: Terminal, xs: Seq<i64>)
    requires
        all_small(xs),
        valid_map(m),
    ensures
        run(f, m, t, xs).len() <= xs.len(),
        forall|j: int| 0 <= j < run(f, m, t, xs).len() ==> -81 * xs.len() <= #[trigger] run(f, m, t, xs)[j]
            <= 81 * xs.len(),
    decreases xs.len(),
{
    if xs.len() > 0 {
        let p = xs.drop_last();
        assert(all_small(p));
        lemma_run_bound(f, m, t, p);
        let x = xs.last() as int;
        assert(-9 <= x <= 9);
        lemma_mapped_small(m, x);
    }
}

pub proof fn lemma_mapped_small(m: SeqMap, x: int)
    requires
        -9 <= x <= 9,
        valid_map(m),
    ensures
        -81 <= mapped(m, x) <= 81,
{
    assert(0 <= x * x <= 81) by (nonlinear_arith)
        requires -9 <= x <= 9;
}

/// Small inputs of at most eight elements never leave `i64`.
pub proof fn lemma_small_fits(f: Filter, m: SeqMap, t: Terminal, xs: Seq<i64>)
    requires
        all_small(xs),
        xs.len() <= 8,
        valid_map(m),
    ensures
        pipeline_fits(f, m, t, xs),
{
    assert forall|i: int| 0 <= i < xs.len() implies #[trigger] step_fits(f, m, t, xs, i) by {
        let p = xs.take(i);
        assert(all_small(p));
        lemma_run_bound(f, m, t, p);
        lemma_mapped_small(m, xs[i] as int);
    }
}

/// Distinct positives, one even, one above every threshold.
pub open spec fn canonical() -> Seq<i64> {
    seq![2i64, 5, 8]
}

pub open spec fn example_seed(seed: u64) -> u64 {
    seed ^ 0x5EED_0000_0000_0017u64
}

/// The example inputs: the canonical `[2, 5, 8]`, then three random ones.
pub open spec fn example_inputs(seed: u64) -> Seq<Seq<i64>> {
    let s = example_seed(seed);
    let k1 = small_next(s, 0);
    let k2 = small_next(s, k1);
    seq![canonical(), small_input(s, 0), small_input(s, k1), small_input(s, k2)]
}

pub open spec fn example_line(input: Seq<i64>, out: Seq<i64>) -> Seq<char> {
    "  "@ + debug_list(input) + "  ->  "@ + debug_list(out)
}

pub open spec fn example_lines(f: Filter, m: SeqMap, t: Terminal, seed: u64) -> Seq<Seq<char>> {
    example_inputs(seed).map_values(|x: Seq<i64>| example_line(x, outputs(f, m, t, x)))
}

/// One worked example: (input, expected output).
pub type ExampleCase = (Vec<i64>, Vec<i64>);

pub open spec fn example_cases(f: Filter, m: SeqMap, t: Terminal, seed: u64) -> Seq<(Seq<i64>, Seq<i64>)> {
    example_inputs(seed).map_values(|x: Seq<i64>| (x, outputs(f, m, t, x)))
}

pub open spec fn case_view(c: ExampleCase) -> (Seq<i64>, Seq<i64>) {
    (c.0@, c.1@)
}

fn example_input_vecs(seed: u64) -> (r: Vec<Vec<i64>>)
    ensures
        r@.len() == 4,
        forall|i: int| 0 <= i < 4 ==> (#[trigger] r@[i])@ == example_inputs(seed)[i],
        forall|i: int| 0 <= i < 4 ==> all_small(#[trigger] r@[i]@) && r@[i]@.len() <= 8,
{
    let mut rng = Rng::new(seed ^ 0x5EED_0000_0000_0017);
    let mut inputs: Vec<Vec<i64>> = Vec::new();
    let c: Vec<i64> = vec![2, 5, 8];
    assert(c@ =~= canonical());
    inputs.push(c);
    let a = random_small_input(&mut rng);
    let b = random_small_input(&mut rng);
    let d = random_small_input(&mut rng);
    inputs.push(a);
    inputs.push(b);
    inputs.push(d);
    inputs
}

fn example_line_string(input: &Vec<i64>, out: &Vec<i64>) -> (r: String)
    ensures
        r@ == example_line(input@, out@),
{
    let mut s = string_of("  ");
    push_debug_list(&mut s, input.as_slice());
    push_str(&mut s, "  ->  ");
    push_debug_list(&mut s, out.as_slice());
    s
}

/// The worked examples as lines (without newlines) and cases.
pub fn example_data(spec: &Spec, seed: u64) -> (r: (Vec<String>, Vec<ExampleCase>))
    requires
        valid_map(spec.map),
    ensures
        string_views(r.0@) == example_lines(spec.filter, spec.map, spec.terminal, seed),
        r.1@.len() == 4,
        forall|i: int| 0 <= i < 4 ==> case_view(#[trigger] r.1@[i]) == example_cases(spec.filter, spec.map, spec.terminal, seed)[i],
{
    let inputs = example_input_vecs(seed);
    let ghost f = spec.filter;
    let ghost m = spec.map;
    let ghost t = spec.terminal;
    let mut lines: Vec<String> = Vec::new();
    let mut cases: Vec<ExampleCase> = Vec::new();
    let mut j: usize = 0;
    while j < inputs.len()
        invariant
            j <= inputs.len(),
            inputs@.len() == 4,
            f == spec.filter && m == spec.map && t == spec.terminal,
            valid_map(m),
            forall|i: int| 0 <= i < 4 ==> (#[trigger] inputs@[i])@ == example_inputs(seed)[i],
            forall|i: int| 0 <= i < 4 ==> all_small(#[trigger] inputs@[i]@) && inputs@[i]@.len() <= 8,
            lines@.len() == j,
            cases@.len() == j,
            forall|q: int| 0 <= q < j ==> #[trigger] lines@[q]@ == example_lines(f, m, t, seed)[q],
            forall|q: int| 0 <= q < j ==> case_view(#[trigger] cases@[q]) == example_cases(f, m, t, seed)[q],
        decreases inputs.len() - j,
    {
        let input = inputs[j].clone();
        proof {
            lemma_small_fits(f, m, t, input@);
        }
        let out = eval(spec, input.as_slice());
        assert(out@ =~= outputs(f, m, t, input@)) by {
            assert forall|q: int| 0 <= q < out@.len() implies #[trigger] out@[q] == outputs(f, m, t, input@)[q] by {
                assert(ints(out@)[q] == out@[q] as int);
            }
        }
        lines.push(example_line_string(&input, &out));
        cases.push((input, out));
        j = j + 1;
    }
    assert(string_views(lines@) =~= example_lines(f, m, t, seed));
    (lines, cases)
}

/// Worked examples: the prose block and the cases.
pub fn worked_examples(spec: &Spec, seed: u64) -> (r: (String, Vec<ExampleCase>))
    requires
        valid_map(spec.map),
    ensures
        r.0@ == terminated(example_lines(spec.filter, spec.map, spec.terminal, seed)),
        r.1@.len() == 4,
        forall|i: int| 0 <= i < 4 ==> case_view(#[trigger] r.1@[i]) == example_cases(spec.filter, spec.map, spec.terminal, seed)[i],
{
    let (lines, cases) = example_data(spec, seed);
    let mut prose = String::new();
    push_terminated(&mut prose, &lines);
    (prose, cases)
}


// ---- the files of an instance ----------------------------------------------

pub open spec fn skeleton_text(name: Seq<char>, f: Filter, m: SeqMap, t: Terminal, seed: u64) -> Seq<char> {
    "//! Implement `"@ + name + "` below.\n//!\n"@ + doc_block(example_lines(f, m, t, seed)) + "\npub fn "@
        + name + "(xs: &[i64]) -> Vec<i64> {\n    todo!()\n}\n"@
}

pub fn skeleton_src(spec: &Spec, seed: u64) -> (r: String)
    requires
        valid_map(spec.map),
    ensures
        r@ == skeleton_text(spec.fn_name@, spec.filter, spec.map, spec.terminal, seed),
{
    let (lines, _) = example_data(spec, seed);
    let mut s = string_of("//! Implement `");
    push_str(&mut s, spec.fn_name);
    push_str(&mut s, "` below.\n//!\n");
    push_doc_block(&mut s, &lines);
    push_str(&mut s, "\npub fn ");
    push_str(&mut s, spec.fn_name);
    push_str(&mut s, "(xs: &[i64]) -> Vec<i64> {\n    todo!()\n}\n");
    s
}

pub open spec fn prompt_text(name: Seq<char>, f: Filter, m: SeqMap, t: Terminal, seed: u64, canary: Seq<char>) -> Seq<char> {
    "Implement the function `"@ + name
        + "` in `src/lib.rs`.\n\nApply a three-stage pipeline to `xs`, processing the elements left to right:\n\n1. **Filter** \u{2014} "@
        + filter_prose_text(f) + ".\n2. **Map** \u{2014} "@ + map_prose_text(m) + ".\n3. **Terminal** \u{2014} "@
        + terminal_prose_text(t)
        + ".\n\nAn element that fails the filter is skipped entirely; only the kept elements are transformed and fed to the terminal operation.\n\nConstraints:\n- Do not use `unsafe`.\n- The input may be empty; the result is then empty.\n\nSignature:\n```rust\npub fn "@
        + name + "(xs: &[i64]) -> Vec<i64>\n```\n\nExamples:\n"@ + terminated(example_lines(f, m, t, seed)) + "\n"@
        + prompt_tail(canary)
}

pub fn prompt(spec: &Spec, seed: u64, canary: &str) -> (r: String)
    requires
        valid_map(spec.map),
    ensures
        r@ == prompt_text(spec.fn_name@, spec.filter, spec.map, spec.terminal, seed, canary@),
{
    let (examples, _) = worked_examples(spec, seed);
    let mut s = string_of("Implement the function `");
    push_str(&mut s, spec.fn_name);
    push_str(&mut s, "` in `src/lib.rs`.\n\nApply a three-stage pipeline to `xs`, processing the elements left to right:\n\n1. **Filter** \u{2014} ");
    let fp = filter_prose(spec.filter);
    push_str(&mut s, fp.as_str());
    push_str(&mut s, ".\n2. **Map** \u{2014} ");
    let mp = map_prose(spec.map);
    push_str(&mut s, mp.as_str());
    push_str(&mut s, ".\n3. **Terminal** \u{2014} ");
    push_str(&mut s, terminal_prose(spec.terminal));
    push_str(&mut s, ".\n\nAn element that fails the filter is skipped entirely; only the kept elements are transformed and fed to the terminal operation.\n\nConstraints:\n- Do not use `unsafe`.\n- The input may be empty; the result is then empty.\n\nSignature:\n```rust\npub fn ");
    push_str(&mut s, spec.fn_name);
    push_str(&mut s, "(xs: &[i64]) -> Vec<i64>\n```\n\nExamples:\n");
    push_str(&mut s, examples.as_str());
    push_str(&mut s, "\n");
    push_prompt_tail(&mut s, canary);
    s
}

pub open spec fn case_test_text(name: Seq<char>, i: nat, c: (Seq<i64>, Seq<i64>)) -> Seq<char> {
    "#[test]\nfn ex"@ + dec_nat(i) + "() {\n    let xs: Vec<i64> = vec!"@ + debug_list(c.0) + ";\n    assert_eq!("@
        + name + "(&xs), vec!"@ + debug_list(c.1) + ");\n}\n\n"@
}

pub open spec fn case_tests_text(name: Seq<char>, cases: Seq<(Seq<i64>, Seq<i64>)>) -> Seq<char>
    decreases cases.len(),
{
    if cases.len() == 0 {
        Seq::empty()
    } else {
        case_tests_text(name, cases.drop_last()) + case_test_text(name, (cases.len() - 1) as nat, cases.last())
    }
}

pub open spec fn behavior_text(name: Seq<char>, f: Filter, m: SeqMap, t: Terminal, seed: u64) -> Seq<char> {
    "use task::"@ + name + ";\n\n"@ + case_tests_text(name, example_cases(f, m, t, seed))
        + "#[test]\nfn empty_input() {\n    let xs: Vec<i64> = Vec::new();\n    assert_eq!("@ + name
        + "(&xs), Vec::<i64>::new());\n}\n"@
}

fn case_test_string(name: &str, i: usize, c: &ExampleCase) -> (r: String)
    ensures
        r@ == case_test_text(name@, i as nat, case_view(*c)),
{
    let mut s = string_of("#[test]\nfn ex");
    push_u64(&mut s, i as u64);
    push_str(&mut s, "() {\n    let xs: Vec<i64> = vec!");
    push_debug_list(&mut s, c.0.as_slice());
    push_str(&mut s, ";\n    assert_eq!(");
    push_str(&mut s, name);
    push_str(&mut s, "(&xs), vec!");
    push_debug_list(&mut s, c.1.as_slice());
    push_str(&mut s, ");\n}\n\n");
    s
}

pub fn behavior_test_src(spec: &Spec, seed: u64) -> (r: String)
    requires
        valid_map(spec.map),
    ensures
        r@ == behavior_text(spec.fn_name@, spec.filter, spec.map, spec.terminal, seed),
{
    let (_, cases) = worked_examples(spec, seed);
    let ghost cs = example_cases(spec.filter, spec.map, spec.terminal, seed);
    let mut s = string_of("use task::");
    push_str(&mut s, spec.fn_name);
    push_str(&mut s, ";\n\n");
    let ghost start = s@;
    let mut i: usize = 0;
    while i < cases.len()
        invariant
            i <= cases.len(),
            cases@.len() == 4,
            cs.len() == 4,
            forall|q: int| 0 <= q < 4 ==> #[trigger] cs[q] == case_view(cases@[q]),
            s@ == start + case_tests_text(spec.fn_name@, cs.take(i as int)),
        decreases cases.len() - i,
    {
        let t = case_test_string(spec.fn_name, i, &cases[i]);
        push_str(&mut s, t.as_str());
        assert(cs.take(i + 1).drop_last() =~= cs.take(i as int));
        i = i + 1;
    }
    assert(cs.take(4) =~= cs);
    push_str(&mut s, "#[test]\nfn empty_input() {\n    let xs: Vec<i64> = Vec::new();\n    assert_eq!(");
    push_str(&mut s, spec.fn_name);
    push_str(&mut s, "(&xs), Vec::<i64>::new());\n}\n");
    s
}

pub open spec fn differential_text(name: Seq<char>, f: Filter, m: SeqMap, t: Terminal) -> Seq<char> {
    "use task::"@ + name + ";\n\n"@ + reference_text("fn reference"@, f, m, t)
        + "\n#[test]\nfn differential_vs_reference() {\n    let mut state: u64 = 0x5A11_ED00_0000_0042;\n    let mut next = || {\n        state = state.wrapping_mul(6364136223846793005).wrapping_add(1442695040888963407);\n        (state >> 33) as u64\n    };\n    for _ in 0..3000 {\n        let len = (next() % 12) as usize;\n        let xs: Vec<i64> = (0..len).map(|_| (next() % 19) as i64 - 9).collect();\n        assert_eq!("@
        + name + "(&xs), reference(&xs), \"mismatch: {xs:?}\");\n    }\n}\n"@
}

pub fn differential_test_src(spec: &Spec) -> (r: String)
    ensures
        r@ == differential_text(spec.fn_name@, spec.filter, spec.map, spec.terminal),
{
    let mut s = string_of("use task::");
    push_str(&mut s, spec.fn_name);
    push_str(&mut s, ";\n\n");
    let reference = reference_with_head(spec, "fn reference");
    push_str(&mut s, reference.as_str());
    push_str(&mut s, "\n#[test]\nfn differential_vs_reference() {\n    let mut state: u64 = 0x5A11_ED00_0000_0042;\n    let mut next = || {\n        state = state.wrapping_mul(6364136223846793005).wrapping_add(1442695040888963407);\n        (state >> 33) as u64\n    };\n    for _ in 0..3000 {\n        let len = (next() % 12) as usize;\n        let xs: Vec<i64> = (0..len).map(|_| (next() % 19) as i64 - 9).collect();\n        assert_eq!(");
    push_str(&mut s, spec.fn_name);
    push_str(&mut s, "(&xs), reference(&xs), \"mismatch: {xs:?}\");\n    }\n}\n");
    s
}

pub open spec fn identity_text(name: Seq<char>) -> Seq<char> {
    "pub fn "@ + name + "(xs: &[i64]) -> Vec<i64> { xs.to_vec() }\n"@
}

/// Degenerate answer: the input unchanged.
pub fn identity(spec: &Spec) -> (r: String)
    ensures
        r@ == identity_text(spec.fn_name@),
{
    let mut s = string_of("pub fn ");
    push_str(&mut s, spec.fn_name);
    push_str(&mut s, "(xs: &[i64]) -> Vec<i64> { xs.to_vec() }\n");
    s
}

pub open spec fn empty_text(name: Seq<char>) -> Seq<char> {
    "pub fn "@ + name + "(xs: &[i64]) -> Vec<i64> { let _ = xs; Vec::new() }\n"@
}

/// Degenerate answer: always empty.
pub fn empty(spec: &Spec) -> (r: String)
    ensures
        r@ == empty_text(spec.fn_name@),
{
    let mut s = string_of("pub fn ");
    push_str(&mut s, spec.fn_name);
    push_str(&mut s, "(xs: &[i64]) -> Vec<i64> { let _ = xs; Vec::new() }\n");
    s
}

/// The hidden behaviour tests of the task `seed` gives.
pub closed spec fn behavior_file(seed: u64) -> Seq<char> {
    behavior_text(sample_name(seed), sample_filter(seed), sample_map(seed), sample_terminal(seed), seed)
}

/// The hidden differential test of the task `seed` gives.
pub closed spec fn differential_file(seed: u64) -> Seq<char> {
    differential_text(sample_name(seed), sample_filter(seed), sample_map(seed), sample_terminal(seed))
}

// ---- the family ------------------------------------------------------------

pub open spec fn filter_kind_text(f: Filter) -> Seq<char> {
    match f {
        Filter::Positive => "positive"@,
        Filter::Even => "even"@,
        Filter::AboveThreshold(_) => "above_threshold"@,
        Filter::NonZero => "nonzero"@,
    }
}

pub open spec fn map_kind_text(m: SeqMap) -> Seq<char> {
    match m {
        SeqMap::Double => "double"@,
        SeqMap::Negate => "negate"@,
        SeqMap::Square => "square"@,
        SeqMap::AddK(_) => "add_k"@,
    }
}

pub open spec fn terminal_kind_text(t: Terminal) -> Seq<char> {
    match t {
        Terminal::Collect => "collect"@,
        Terminal::RunningSum => "running_sum"@,
        Terminal::DedupConsecutive => "dedup_consecutive"@,
    }
}

pub struct SeqTransformFamily;

impl SeqTransformFamily {
    pub fn id(&self) -> (r: &'static str)
        ensures
            r@ == "seq-transform"@,
    {
        "seq-transform"
    }

    pub fn category(&self) -> (r: &'static str)
        ensures
            r@ == "iterators"@,
    {
        "iterators"
    }

    /// The instance for `seed`: a pure function of the seed.
    pub fn generate(&self, seed: u64) -> (r: GeneratedTask)
        ensures
            r.id@ == task_id_text("seq-transform"@, seed),
            r.category@ == "iterators"@,
            r.canary@ == canary_text("seq-transform"@, seed),
            r.prompt@ == prompt_text(sample_name(seed), sample_filter(seed), sample_map(seed), sample_terminal(seed), seed, r.canary@),
            r.answer_path@ == "src/lib.rs"@,
            r.files@.len() == 2,
            r.files@[0].0@ == "Cargo.toml"@,
            r.files@[0].1@ == cargo_toml_text(),
            r.files@[1].0@ == "src/lib.rs"@,
            r.files@[1].1@ == skeleton_text(sample_name(seed), sample_filter(seed), sample_map(seed), sample_terminal(seed), seed),
            r.hidden@.len() == 2,
            r.hidden@[0].0@ == "tests/behavior.rs"@,
            r.hidden@[0].1@ == behavior_text(sample_name(seed), sample_filter(seed), sample_map(seed), sample_terminal(seed), seed),
            r.hidden@[1].0@ == "tests/differential.rs"@,
            r.hidden@[1].1@ == differential_text(sample_name(seed), sample_filter(seed), sample_map(seed), sample_terminal(seed)),
            r.behavior_test@ == "behavior"@,
            r.hidden@[0].1@ == behavior_file(seed),
            r.hidden@[1].1@ == differential_file(seed),
            r.differential_test@ == "differential"@,
            r.alloc_test@.len() == 0,
            r.max_unsafe == Some(0u32),
            r.forbidden_paths@.len() == 0,
            !r.check_clippy,
            r.clippy_allow@.len() == 0,
            r.weights == (Weights { behavior: 70, constraint: 20, quality: 10 }),
    {
        let spec = sample(seed);
        let canary = mint_canary("seq-transform", seed);
        let mut files: Vec<(String, String)> = Vec::new();
        files.push((string_of("Cargo.toml"), cargo_toml()));
        files.push((string_of("src/lib.rs"), skeleton_src(&spec, seed)));
        let mut hidden: Vec<(String, String)> = Vec::new();
        hidden.push((string_of("tests/behavior.rs"), behavior_test_src(&spec, seed)));
        hidden.push((string_of("tests/differential.rs"), differential_test_src(&spec)));
        let prompt = prompt(&spec, seed, canary.as_str());
        GeneratedTask {
            id: task_id("seq-transform", seed),
            category: string_of("iterators"),
            prompt,
            canary,
            answer_path: string_of("src/lib.rs"),
            files,
            hidden,
            behavior_test: string_of("behavior"),
            differential_test: string_of("differential"),
            alloc_test: String::new(),
            max_unsafe: Some(0),
            forbidden_paths: Vec::new(),
            check_clippy: false,
            clippy_allow: Vec::new(),
            weights: Weights { behavior: 70, constraint: 20, quality: 10 },
        }
    }

    pub fn reference_code(&self, seed: u64) -> (r: String)
        ensures
            r@ == reference_text("pub fn "@ + sample_name(seed), sample_filter(seed), sample_map(seed), sample_terminal(seed)),
    {
        reference_src(&sample(seed))
    }

    pub fn skeleton_code(&self, seed: u64) -> (r: String)
        ensures
            r@ == skeleton_text(sample_name(seed), sample_filter(seed), sample_map(seed), sample_terminal(seed), seed),
    {
        skeleton_src(&sample(seed), seed)
    }

    /// Degenerate answers `(label, code)` that must fail grading.
    pub fn trivial_baselines(&self, seed: u64) -> (r: Vec<(String, String)>)
        ensures
            r@.len() == 2,
            r@[0].0@ == "identity"@,
            r@[0].1@ == identity_text(sample_name(seed)),
            r@[1].0@ == "empty"@,
            r@[1].1@ == empty_text(sample_name(seed)),
    {
        let spec = sample(seed);
        let mut v: Vec<(String, String)> = Vec::new();
        v.push((string_of("identity"), identity(&spec)));
        v.push((string_of("empty"), empty(&spec)));
        v
    }

    /// The structural identity: the three stages, without the threshold, the
    /// constant or the name.
    pub fn spec_signature(&self, seed: u64) -> (r: Vec<String>)
        ensures
            r@.len() == 3,
            r@[0]@ == "filter:"@ + filter_kind_text(sample_filter(seed)),
            r@[1]@ == "map:"@ + map_kind_text(sample_map(seed)),
            r@[2]@ == "terminal:"@ + terminal_kind_text(sample_terminal(seed)),
    {
        let spec = sample(seed);
        let filter = match spec.filter {
            Filter::Positive => "positive",
            Filter::Even => "even",
            Filter::AboveThreshold(_) => "above_threshold",
            Filter::NonZero => "nonzero",
        };
        let map = match spec.map {
            SeqMap::Double => "double",
            SeqMap::Negate => "negate",
            SeqMap::Square => "square",
            SeqMap::AddK(_) => "add_k",
        };
        let terminal = match spec.terminal {
            Terminal::Collect => "collect",
            Terminal::RunningSum => "running_sum",
            Terminal::DedupConsecutive => "dedup_consecutive",
        };
        let mut a = string_of("filter:");
        push_str(&mut a, filter);
        let mut b = string_of("map:");
        push_str(&mut b, map);
        let mut c = string_of("terminal:");
        push_str(&mut c, terminal);
        let mut v: Vec<String> = Vec::new();
        v.push(a);
        v.push(b);
        v.push(c);
        v
    }
}

/// The empty input gives the empty result, whatever the pipeline.
pub proof fn law_empty_input_empty_result(f: Filter, m: SeqMap, t: Terminal)
    ensures
        run(f, m, t, Seq::<i64>::empty()) == Seq::<int>::empty(),
{
}

/// Under every pipeline a seed can choose, the canonical `[2, 5, 8]` gives a
/// non-empty result that differs from the input: both the `identity` and the
/// `empty` baselines fail the first worked example of every instance.
pub proof fn law_canonical_changes(f: Filter, m: SeqMap, t: Terminal)
    requires
        valid_filter(f),
        valid_map(m),
    ensures
        run(f, m, t, canonical()).len() > 0,
        run(f, m, t, canonical()) != seq![2int, 5, 8],
{
    let c = canonical();
    assert(c.drop_last() =~= seq![2i64, 5]);
    assert(seq![2i64, 5].drop_last() =~= seq![2i64]);
    assert(seq![2i64].drop_last() =~= Seq::<i64>::empty());
    let r0 = run(f, m, t, Seq::<i64>::empty());
    let r1 = run(f, m, t, seq![2i64]);
    let r2 = run(f, m, t, seq![2i64, 5]);
    let r3 = run(f, m, t, c);
    assert(r0 == Seq::<int>::empty());
    assert(r1 == if kept(f, 2) { fold_step(t, r0, mapped(m, 2)) } else { r0 });
    assert(r2 == if kept(f, 5) { fold_step(t, r1, mapped(m, 5)) } else { r1 });
    assert(r3 == if kept(f, 8) { fold_step(t, r2, mapped(m, 8)) } else { r2 });
    assert(2int % 2 == 0 && 8int % 2 == 0 && 5int % 2 == 1);
    if r3 == seq![2int, 5, 8] {
        assert(r3[0] == 2);
        assert(r3.len() == 3);
        assert(false);
    }
}

/// Each filter keeps exactly the elements its emitted condition accepts: the
/// condition the prompt, reference and tests show (`x > 0`, `x % 2 == 0` with
/// zero even, `x > t`, `x != 0`) is the one the worked examples apply.
pub proof fn law_filters_keep_what_they_say(x: int, t: i64)
    ensures
        kept(Filter::Positive, x) <==> x > 0,
        kept(Filter::Even, x) <==> x % 2 == 0,
        kept(Filter::Even, 0),
        kept(Filter::AboveThreshold(t), x) <==> x > t,
        kept(Filter::NonZero, x) <==> x != 0,
        filter_expr_text(Filter::Positive) == "x > 0"@,
        filter_expr_text(Filter::Even) == "x % 2 == 0"@,
        filter_expr_text(Filter::NonZero) == "x != 0"@,
{
}

/// Each map transforms a kept element as its name says.
pub proof fn law_maps_do_what_they_say(x: int, k: i64)
    ensures
        mapped(SeqMap::Double, x) == 2 * x,
        mapped(SeqMap::Negate, x) == -x,
        mapped(SeqMap::Square, x) == x * x,
        mapped(SeqMap::AddK(k), x) == x + k,
{
}

/// Appending one input element: a dropped element leaves the result as it
/// was; a kept one is transformed and folded in by the terminal (collected,
/// added to the running sum, or collected unless it repeats the last value).
pub proof fn law_pipeline_step(f: Filter, m: SeqMap, xs: Seq<i64>, x: i64)
    ensures
        !kept(f, x as int) ==> run(f, m, Terminal::Collect, xs.push(x)) == run(f, m, Terminal::Collect, xs)
            && run(f, m, Terminal::RunningSum, xs.push(x)) == run(f, m, Terminal::RunningSum, xs)
            && run(f, m, Terminal::DedupConsecutive, xs.push(x)) == run(f, m, Terminal::DedupConsecutive, xs),
        kept(f, x as int) ==> run(f, m, Terminal::Collect, xs.push(x)) == run(f, m, Terminal::Collect, xs).push(
            mapped(m, x as int),
        ),
        kept(f, x as int) ==> ({
            let before = run(f, m, Terminal::RunningSum, xs);
            run(f, m, Terminal::RunningSum, xs.push(x)) == before.push(
                (if before.len() == 0 { 0 } else { before.last() }) + mapped(m, x as int),
            )
        }),
        kept(f, x as int) ==> ({
            let before = run(f, m, Terminal::DedupConsecutive, xs);
            run(f, m, Terminal::DedupConsecutive, xs.push(x)) == (if before.len() > 0 && before.last()
                == mapped(m, x as int) {
                before
            } else {
                before.push(mapped(m, x as int))
            })
        }),
{
    assert(xs.push(x).drop_last() =~= xs);
    assert(xs.push(x).last() == x);
}

} // verus!
