//! The `idiom-loop` family (category `idiom-refactor`).
//!
//! The model is given a working but non-idiomatic function, an explicit
//! `for i in 0..xs.len()` index loop, and must rewrite it in clippy-clean
//! iterator style with the same behaviour. The loop sums a seed-selected map
//! (identity, double, square, negate) of the elements a seed-selected filter
//! keeps (all, positive, even, nonzero): sixteen distinct skills.

use vstd::prelude::*;
use crate::rng::{Rng, draw};
use crate::digest::{mint_canary, canary_text};
use crate::text::{push_str, push_u64, push_i64, push_debug_list, push_doc_block, push_terminated, dec_nat,
    dec_int, debug_list, doc_block, terminated, string_views, string_of};
use crate::gen::{GeneratedTask, Weights, cargo_toml, cargo_toml_text, task_id, task_id_text,
    push_prompt_tail, prompt_tail};

verus! {

/// Axis 1: which elements contribute to the sum.
#[derive(Clone, Copy, Debug, PartialEq, Eq, Structural)]
pub enum Filter {
    All,
    Positive,
    Even,
    Nonzero,
}

/// Axis 2: how each contributing element changes before it is summed.
#[derive(Clone, Copy, Debug, PartialEq, Eq, Structural)]
pub enum ElemMap {
    Identity,
    Double,
    Square,
    Negate,
}

pub struct Spec {
    pub filter: Filter,
    pub map: ElemMap,
    pub fn_name: &'static str,
}

// ---- semantics -------------------------------------------------------------

pub open spec fn in_i64(x: int) -> bool {
    i64::MIN <= x <= i64::MAX
}

pub open spec fn keep_spec(f: Filter, x: int) -> bool {
    match f {
        Filter::All => true,
        Filter::Positive => x > 0,
        Filter::Even => x % 2 == 0,
        Filter::Nonzero => x != 0,
    }
}

pub open spec fn map_spec(m: ElemMap, x: int) -> int {
    match m {
        ElemMap::Identity => x,
        ElemMap::Double => x * 2,
        ElemMap::Square => x * x,
        ElemMap::Negate => -x,
    }
}

/// The sum of the mapped kept elements.
pub open spec fn total(f: Filter, m: ElemMap, xs: Seq<i64>) -> int
    decreases xs.len(),
{
    if xs.len() == 0 {
        0
    } else if keep_spec(f, xs.last() as int) {
        total(f, m, xs.drop_last()) + map_spec(m, xs.last() as int)
    } else {
        total(f, m, xs.drop_last())
    }
}

/// Every mapped element and every running total fits in `i64`.
pub open spec fn total_fits(f: Filter, m: ElemMap, xs: Seq<i64>) -> bool {
    forall|k: int|
        0 <= k < xs.len() && keep_spec(f, xs[k] as int) ==> in_i64(map_spec(m, xs[k] as int)) && in_i64(
            #[trigger] total(f, m, xs.take(k + 1)),
        )
}

pub fn keep(f: Filter, x: i64) -> (r: bool)
    ensures
        r == keep_spec(f, x as int),
{
    match f {
        Filter::All => true,
        Filter::Positive => x > 0,
        Filter::Even => x % 2 == 0,
        Filter::Nonzero => x != 0,
    }
}

pub fn map_val(m: ElemMap, x: i64) -> (r: i64)
    requires
        in_i64(map_spec(m, x as int)),
    ensures
        r == map_spec(m, x as int),
{
    match m {
        ElemMap::Identity => x,
        ElemMap::Double => x * 2,
        ElemMap::Square => x * x,
        ElemMap::Negate => -x,
    }
}

/// The answer: the sum of `map(x)` over the elements `filter` keeps.
pub fn eval(spec: &Spec, xs: &[i64]) -> (r: i64)
    requires
        total_fits(spec.filter, spec.map, xs@),
    ensures
        r == total(spec.filter, spec.map, xs@),
{
    let mut acc: i64 = 0;
    let mut i: usize = 0;
    assert(xs@.take(0) =~= Seq::<i64>::empty());
    while i < xs.len()
        invariant
            i <= xs.len(),
            total_fits(spec.filter, spec.map, xs@),
            acc == total(spec.filter, spec.map, xs@.take(i as int)),
        decreases xs.len() - i,
    {
        assert(xs@.take(i + 1).drop_last() =~= xs@.take(i as int));
        assert(xs@.take(i + 1).last() == xs@[i as int]);
        if keep(spec.filter, xs[i]) {
            assert(in_i64(total(spec.filter, spec.map, xs@.take(i + 1))));
            acc = acc + map_val(spec.map, xs[i]);
        }
        i = i + 1;
    }
    assert(xs@.take(xs.len() as int) =~= xs@);
    acc
}

/// Values in `-10..=10` map to at most `100` in size, so their totals stay
/// within `100` per element.
proof fn lemma_small_total(f: Filter, m: ElemMap, xs: Seq<i64>)
    requires
        forall|i: int| 0 <= i < xs.len() ==> -10 <= #[trigger] xs[i] <= 10,
    ensures
        -100 * xs.len() <= total(f, m, xs) <= 100 * xs.len(),
    decreases xs.len(),
{
    if xs.len() > 0 {
        let u = xs.drop_last();
        lemma_small_total(f, m, u);
        let x = xs.last() as int;
        assert(-10 <= x <= 10);
        assert(-100 <= x * x <= 100) by (nonlinear_arith)
            requires -10 <= x <= 10;
    }
}

proof fn lemma_small_fits(f: Filter, m: ElemMap, xs: Seq<i64>)
    requires
        forall|i: int| 0 <= i < xs.len() ==> -10 <= #[trigger] xs[i] <= 10,
        xs.len() <= 8,
    ensures
        total_fits(f, m, xs),
{
    assert forall|k: int| 0 <= k < xs.len() && keep_spec(f, xs[k] as int) implies in_i64(map_spec(m, xs[k] as int))
        && in_i64(#[trigger] total(f, m, xs.take(k + 1))) by {
        let t = xs.take(k + 1);
        lemma_small_total(f, m, t);
        let x = xs[k] as int;
        assert(-100 <= x * x <= 100) by (nonlinear_arith)
            requires -10 <= x <= 10;
        assert(in_i64(map_spec(m, x)));
        assert(in_i64(total(f, m, t)));
    }
}

// ---- sampling --------------------------------------------------------------

pub open spec fn filter_of(k: u64) -> Filter {
    if k == 0 {
        Filter::All
    } else if k == 1 {
        Filter::Positive
    } else if k == 2 {
        Filter::Even
    } else {
        Filter::Nonzero
    }
}

pub open spec fn map_of(k: u64) -> ElemMap {
    if k == 0 {
        ElemMap::Identity
    } else if k == 1 {
        ElemMap::Double
    } else if k == 2 {
        ElemMap::Square
    } else {
        ElemMap::Negate
    }
}

pub open spec fn name_text(i: u64) -> Seq<char> {
    if i == 0 {
        "compute"@
    } else if i == 1 {
        "total"@
    } else if i == 2 {
        "aggregate"@
    } else if i == 3 {
        "reduce_xs"@
    } else if i == 4 {
        "tally"@
    } else {
        "fold_slice"@
    }
}

pub open spec fn sample_filter(seed: u64) -> Filter {
    filter_of(draw(seed, 0) % 4)
}

pub open spec fn sample_map(seed: u64) -> ElemMap {
    map_of(draw(seed, 1) % 4)
}

pub open spec fn sample_name(seed: u64) -> Seq<char> {
    name_text(draw(seed, 2) % 6)
}

fn name_at(i: u64) -> (r: &'static str)
    requires
        i < 6,
    ensures
        r@ == name_text(i),
{
    if i == 0 {
        "compute"
    } else if i == 1 {
        "total"
    } else if i == 2 {
        "aggregate"
    } else if i == 3 {
        "reduce_xs"
    } else if i == 4 {
        "tally"
    } else {
        "fold_slice"
    }
}

/// The spec for `seed`: every choice is a function of the seed's stream.
pub fn sample(seed: u64) -> (r: Spec)
    ensures
        r.filter == sample_filter(seed),
        r.map == sample_map(seed),
        r.fn_name@ == sample_name(seed),
{
    let mut rng = Rng::new(seed);
    let f = rng.below(4);
    let filter = if f == 0 {
        Filter::All
    } else if f == 1 {
        Filter::Positive
    } else if f == 2 {
        Filter::Even
    } else {
        Filter::Nonzero
    };
    let m = rng.below(4);
    let map = if m == 0 {
        ElemMap::Identity
    } else if m == 1 {
        ElemMap::Double
    } else if m == 2 {
        ElemMap::Square
    } else {
        ElemMap::Negate
    };
    let fn_name = name_at(rng.below(6));
    Spec { filter, map, fn_name }
}

// ---- shared source fragments -------------------------------------------------

/// The filter as source over operand `op`; `None` for `All`.
pub open spec fn pred_text(f: Filter, op: Seq<char>) -> Option<Seq<char>> {
    match f {
        Filter::All => None,
        Filter::Positive => Some(op + " > 0"@),
        Filter::Even => Some(op + " % 2 == 0"@),
        Filter::Nonzero => Some(op + " != 0"@),
    }
}

/// The map as source over operand `op`; `None` for `Identity`.
pub open spec fn map_text(m: ElemMap, op: Seq<char>) -> Option<Seq<char>> {
    match m {
        ElemMap::Identity => None,
        ElemMap::Double => Some(op + " * 2"@),
        ElemMap::Square => Some(op + " * "@ + op),
        ElemMap::Negate => Some("-"@ + op),
    }
}

/// The map as source, the operand itself for `Identity`.
pub open spec fn map_always_text(m: ElemMap, op: Seq<char>) -> Seq<char> {
    match map_text(m, op) {
        Some(t) => t,
        None => op,
    }
}

pub open spec fn opt_view(o: Option<String>) -> Option<Seq<char>> {
    match o {
        Some(s) => Some(s@),
        None => None,
    }
}

fn pred_src(f: Filter, op: &str) -> (r: Option<String>)
    ensures
        opt_view(r) == pred_text(f, op@),
{
    match f {
        Filter::All => None,
        Filter::Positive => {
            let mut s = string_of(op);
            push_str(&mut s, " > 0");
            Some(s)
        },
        Filter::Even => {
            let mut s = string_of(op);
            push_str(&mut s, " % 2 == 0");
            Some(s)
        },
        Filter::Nonzero => {
            let mut s = string_of(op);
            push_str(&mut s, " != 0");
            Some(s)
        },
    }
}

pub fn map_src(m: ElemMap, op: &str) -> (r: Option<String>)
    ensures
        opt_view(r) == map_text(m, op@),
{
    match m {
        ElemMap::Identity => None,
        ElemMap::Double => {
            let mut s = string_of(op);
            push_str(&mut s, " * 2");
            Some(s)
        },
        ElemMap::Square => {
            let mut s = string_of(op);
            push_str(&mut s, " * ");
            push_str(&mut s, op);
            Some(s)
        },
        ElemMap::Negate => {
            let mut s = string_of("-");
            push_str(&mut s, op);
            Some(s)
        },
    }
}

pub fn map_always(m: ElemMap, op: &str) -> (r: String)
    ensures
        r@ == map_always_text(m, op@),
{
    match map_src(m, op) {
        Some(t) => t,
        None => string_of(op),
    }
}

// ---- the idiomatic reference -----------------------------------------------

/// The iterator chain: `copied`, then `filter` and `map` where present, then
/// `sum`.
pub open spec fn chain_text(f: Filter, m: ElemMap) -> Seq<char> {
    "xs.iter().copied()"@ + (match pred_text(f, "x"@) {
        Some(p) => ".filter(|&x| "@ + p + ")"@,
        None => Seq::empty(),
    }) + (match map_text(m, "x"@) {
        Some(t) => ".map(|x| "@ + t + ")"@,
        None => Seq::empty(),
    }) + ".sum()"@
}

pub open spec fn reference_text(name: Seq<char>, f: Filter, m: ElemMap) -> Seq<char> {
    "pub fn "@ + name + "(xs: &[i64]) -> i64 {\n    "@ + chain_text(f, m) + "\n}\n"@
}

/// The idiomatic reference: one iterator chain.
pub fn reference_src(spec: &Spec) -> (r: String)
    ensures
        r@ == reference_text(spec.fn_name@, spec.filter, spec.map),
{
    let mut chain = string_of("xs.iter().copied()");
    match pred_src(spec.filter, "x") {
        Some(p) => {
            push_str(&mut chain, ".filter(|&x| ");
            push_str(&mut chain, p.as_str());
            push_str(&mut chain, ")");
        },
        None => {},
    }
    match map_src(spec.map, "x") {
        Some(t) => {
            push_str(&mut chain, ".map(|x| ");
            push_str(&mut chain, t.as_str());
            push_str(&mut chain, ")");
        },
        None => {},
    }
    push_str(&mut chain, ".sum()");
    let mut s = string_of("pub fn ");
    push_str(&mut s, spec.fn_name);
    push_str(&mut s, "(xs: &[i64]) -> i64 {\n    ");
    push_str(&mut s, chain.as_str());
    push_str(&mut s, "\n}\n");
    s
}

// ---- the de-idiomatised loop ---------------------------------------------

/// The loop body over `xs[i]`.
pub open spec fn loop_body_text(f: Filter, m: ElemMap) -> Seq<char> {
    match pred_text(f, "xs[i]"@) {
        Some(p) => "if "@ + p + " {\n            total += "@ + map_always_text(m, "xs[i]"@) + ";\n        }"@,
        None => "total += "@ + map_always_text(m, "xs[i]"@) + ";"@,
    }
}

/// The index loop, without its final newline.
pub open spec fn deidiom_core_text(name: Seq<char>, f: Filter, m: ElemMap) -> Seq<char> {
    "pub fn "@ + name + "(xs: &[i64]) -> i64 {\n    let mut total = 0;\n    for i in 0..xs.len() {\n        "@
        + loop_body_text(f, m) + "\n    }\n    total\n}"@
}

fn deidiom_core(spec: &Spec) -> (r: String)
    ensures
        r@ == deidiom_core_text(spec.fn_name@, spec.filter, spec.map),
{
    let mut s = string_of("pub fn ");
    push_str(&mut s, spec.fn_name);
    push_str(&mut s, "(xs: &[i64]) -> i64 {\n    let mut total = 0;\n    for i in 0..xs.len() {\n        ");
    let m = map_always(spec.map, "xs[i]");
    match pred_src(spec.filter, "xs[i]") {
        Some(p) => {
            push_str(&mut s, "if ");
            push_str(&mut s, p.as_str());
            push_str(&mut s, " {\n            total += ");
            push_str(&mut s, m.as_str());
            push_str(&mut s, ";\n        }");
        },
        None => {
            push_str(&mut s, "total += ");
            push_str(&mut s, m.as_str());
            push_str(&mut s, ";");
        },
    }
    push_str(&mut s, "\n    }\n    total\n}");
    s
}

/// The behaviourally correct but non-idiomatic index loop the model starts
/// from: it trips `clippy::needless_range_loop`.
pub fn deidiom_src(spec: &Spec) -> (r: String)
    ensures
        r@ == deidiom_core_text(spec.fn_name@, spec.filter, spec.map) + "\n"@,
{
    let mut s = deidiom_core(spec);
    push_str(&mut s, "\n");
    s
}

// ---- worked examples -------------------------------------------------------

pub open spec fn example_seed(seed: u64) -> u64 {
    seed ^ 0x1D10_0000_0000_0037u64
}

/// The fixed first input of the worked examples.
pub open spec fn canonical() -> Seq<i64> {
    seq![1i64, 2, 3, 4]
}

pub open spec fn input_len(s: u64, k: nat) -> nat {
    (2 + draw(s, k) % 7) as nat
}

/// The random input whose draws start at `k`: a length `2..=8`, then that
/// many values in `-10..=10`.
pub open spec fn random_input(s: u64, k: nat) -> Seq<i64> {
    Seq::new(input_len(s, k), |j: int| ((draw(s, (k + 1 + j) as nat) % 21) as int - 10) as i64)
}

pub open spec fn input_next(s: u64, k: nat) -> nat {
    k + 1 + input_len(s, k)
}

pub open spec fn example_inputs(seed: u64) -> Seq<Seq<i64>> {
    let s = example_seed(seed);
    let k1 = input_next(s, 0);
    let k2 = input_next(s, k1);
    seq![canonical(), random_input(s, 0), random_input(s, k1), random_input(s, k2)]
}

pub open spec fn example_line(input: Seq<i64>, out: int) -> Seq<char> {
    "  "@ + debug_list(input) + "  ->  "@ + dec_int(out)
}

pub open spec fn example_lines(f: Filter, m: ElemMap, seed: u64) -> Seq<Seq<char>> {
    example_inputs(seed).map_values(|x: Seq<i64>| example_line(x, total(f, m, x)))
}

/// One worked example: (input, expected total).
pub type ExampleCase = (Vec<i64>, i64);

pub open spec fn example_cases(f: Filter, m: ElemMap, seed: u64) -> Seq<(Seq<i64>, int)> {
    example_inputs(seed).map_values(|x: Seq<i64>| (x, total(f, m, x)))
}

pub open spec fn case_view(c: ExampleCase) -> (Seq<i64>, int) {
    (c.0@, c.1 as int)
}

fn random_input_vec(rng: &mut Rng) -> (r: Vec<i64>)
    ensures
        final(rng).seed() == old(rng).seed(),
        r@ == random_input(old(rng).seed(), old(rng).count()),
        final(rng).count() == input_next(old(rng).seed(), old(rng).count()),
{
    let ghost s = rng.seed();
    let ghost k = rng.count();
    let len = 2 + rng.below(7) as usize;
    let mut v: Vec<i64> = Vec::new();
    let mut j: usize = 0;
    while j < len
        invariant
            j <= len,
            len == input_len(s, k),
            rng.seed() == s,
            rng.count() == k + 1 + j,
            v@ =~= random_input(s, k).take(j as int),
        decreases len - j,
    {
        let x = rng.below(21) as i64 - 10;
        v.push(x);
        j = j + 1;
    }
    v
}

fn example_input_vecs(seed: u64) -> (r: Vec<Vec<i64>>)
    ensures
        r@.len() == 4,
        forall|i: int| 0 <= i < 4 ==> (#[trigger] r@[i])@ == example_inputs(seed)[i],
{
    let mut rng = Rng::new(seed ^ 0x1D10_0000_0000_0037);
    let mut inputs: Vec<Vec<i64>> = Vec::new();
    let c: Vec<i64> = vec![1, 2, 3, 4];
    assert(c@ =~= canonical());
    inputs.push(c);
    let a = random_input_vec(&mut rng);
    let b = random_input_vec(&mut rng);
    let d = random_input_vec(&mut rng);
    inputs.push(a);
    inputs.push(b);
    inputs.push(d);
    inputs
}

proof fn lemma_example_small(seed: u64, i: int)
    requires
        0 <= i < 4,
    ensures
        forall|q: int| 0 <= q < example_inputs(seed)[i].len() ==> -10 <= #[trigger] example_inputs(seed)[i][q] <= 10,
        example_inputs(seed)[i].len() <= 8,
{
    let x = example_inputs(seed)[i];
    assert forall|q: int| 0 <= q < x.len() implies -10 <= #[trigger] x[q] <= 10 by {
        if i > 0 {
            let s = example_seed(seed);
            let k = if i == 1 { 0 } else if i == 2 { input_next(s, 0) } else { input_next(s, input_next(s, 0)) };
            assert(x == random_input(s, k));
            let d = draw(s, (k + 1 + q) as nat) % 21;
            assert(0 <= d < 21);
        }
    }
}

fn example_line_string(input: &Vec<i64>, out: i64) -> (r: String)
    ensures
        r@ == example_line(input@, out as int),
{
    let mut s = string_of("  ");
    push_debug_list(&mut s, input.as_slice());
    push_str(&mut s, "  ->  ");
    push_i64(&mut s, out);
    s
}

/// The worked examples as lines (without newlines) and cases.
pub fn example_data(spec: &Spec, seed: u64) -> (r: (Vec<String>, Vec<ExampleCase>))
    ensures
        string_views(r.0@) == example_lines(spec.filter, spec.map, seed),
        r.1@.len() == 4,
        forall|i: int| 0 <= i < 4 ==> case_view(#[trigger] r.1@[i]) == example_cases(spec.filter, spec.map, seed)[i],
{
    let inputs = example_input_vecs(seed);
    let mut lines: Vec<String> = Vec::new();
    let mut cases: Vec<ExampleCase> = Vec::new();
    let mut j: usize = 0;
    while j < inputs.len()
        invariant
            j <= inputs.len(),
            inputs@.len() == 4,
            forall|i: int| 0 <= i < 4 ==> (#[trigger] inputs@[i])@ == example_inputs(seed)[i],
            lines@.len() == j,
            cases@.len() == j,
            forall|q: int| 0 <= q < j ==> #[trigger] lines@[q]@ == example_lines(spec.filter, spec.map, seed)[q],
            forall|q: int| 0 <= q < j ==> case_view(#[trigger] cases@[q]) == example_cases(spec.filter, spec.map, seed)[q],
        decreases inputs.len() - j,
    {
        let input = inputs[j].clone();
        proof {
            lemma_example_small(seed, j as int);
            lemma_small_fits(spec.filter, spec.map, input@);
        }
        let out = eval(spec, input.as_slice());
        lines.push(example_line_string(&input, out));
        cases.push((input, out));
        j = j + 1;
    }
    assert(string_views(lines@) =~= example_lines(spec.filter, spec.map, seed));
    (lines, cases)
}

/// Worked examples: the prose block and the cases.
pub fn worked_examples(spec: &Spec, seed: u64) -> (r: (String, Vec<ExampleCase>))
    ensures
        r.0@ == terminated(example_lines(spec.filter, spec.map, seed)),
        r.1@.len() == 4,
        forall|i: int| 0 <= i < 4 ==> case_view(#[trigger] r.1@[i]) == example_cases(spec.filter, spec.map, seed)[i],
{
    let (lines, cases) = example_data(spec, seed);
    let mut prose = String::new();
    push_terminated(&mut prose, &lines);
    (prose, cases)
}

// ---- the files of an instance ----------------------------------------------

/// The model's starting file is the working index loop itself, with the
/// worked examples as a doc comment.
pub open spec fn skeleton_text(name: Seq<char>, f: Filter, m: ElemMap, seed: u64) -> Seq<char> {
    "//! Rewrite `"@ + name + "` below in idiomatic, clippy-clean Rust, preserving its\n//! exact behaviour.\n//!\n"@
        + doc_block(example_lines(f, m, seed)) + "\n"@ + deidiom_core_text(name, f, m) + "\n"@
}

pub fn skeleton_src(spec: &Spec, seed: u64) -> (r: String)
    ensures
        r@ == skeleton_text(spec.fn_name@, spec.filter, spec.map, seed),
{
    let (lines, _) = example_data(spec, seed);
    let mut s = string_of("//! Rewrite `");
    push_str(&mut s, spec.fn_name);
    push_str(&mut s, "` below in idiomatic, clippy-clean Rust, preserving its\n//! exact behaviour.\n//!\n");
    push_doc_block(&mut s, &lines);
    push_str(&mut s, "\n");
    let d = deidiom_src(spec);
    push_str(&mut s, d.as_str());
    s
}

pub open spec fn prompt_text(name: Seq<char>, f: Filter, m: ElemMap, seed: u64, canary: Seq<char>) -> Seq<char> {
    "The function `"@ + name
        + "` in `src/lib.rs` works but is written in a\nnon-idiomatic, imperative style. Rewrite it in **idiomatic Rust** \u{2014} iterator\nadaptors rather than an index loop \u{2014} so that it is `clippy`-clean, while\npreserving its exact behaviour and its signature.\n\nHere is the current implementation:\n\n```rust\n"@
        + deidiom_core_text(name, f, m)
        + "\n```\n\nIt computes the same value for these inputs, which your rewrite must match:\n"@
        + terminated(example_lines(f, m, seed)) + "\nConstraints:\n- Keep the signature `pub fn "@ + name
        + "(xs: &[i64]) -> i64` exactly.\n- The rewrite must produce **no** `clippy` warnings.\n- Do not use `unsafe`.\n\n"@
        + prompt_tail(canary)
}

pub fn prompt(spec: &Spec, seed: u64, canary: &str) -> (r: String)
    ensures
        r@ == prompt_text(spec.fn_name@, spec.filter, spec.map, seed, canary@),
{
    let (examples, _) = worked_examples(spec, seed);
    let mut s = string_of("The function `");
    push_str(&mut s, spec.fn_name);
    push_str(
        &mut s,
        "` in `src/lib.rs` works but is written in a\nnon-idiomatic, imperative style. Rewrite it in **idiomatic Rust** \u{2014} iterator\nadaptors rather than an index loop \u{2014} so that it is `clippy`-clean, while\npreserving its exact behaviour and its signature.\n\nHere is the current implementation:\n\n```rust\n",
    );
    let d = deidiom_core(spec);
    push_str(&mut s, d.as_str());
    push_str(&mut s, "\n```\n\nIt computes the same value for these inputs, which your rewrite must match:\n");
    push_str(&mut s, examples.as_str());
    push_str(&mut s, "\nConstraints:\n- Keep the signature `pub fn ");
    push_str(&mut s, spec.fn_name);
    push_str(
        &mut s,
        "(xs: &[i64]) -> i64` exactly.\n- The rewrite must produce **no** `clippy` warnings.\n- Do not use `unsafe`.\n\n",
    );
    push_prompt_tail(&mut s, canary);
    s
}

pub open spec fn case_test_text(name: Seq<char>, i: nat, c: (Seq<i64>, int)) -> Seq<char> {
    "#[test]\nfn ex"@ + dec_nat(i) + "() {\n    let xs: Vec<i64> = vec!"@ + debug_list(c.0) + ";\n    assert_eq!("@
        + name + "(&xs), "@ + dec_int(c.1) + ");\n}\n\n"@
}

pub open spec fn case_tests_text(name: Seq<char>, cases: Seq<(Seq<i64>, int)>) -> Seq<char>
    decreases cases.len(),
{
    if cases.len() == 0 {
        Seq::empty()
    } else {
        case_tests_text(name, cases.drop_last()) + case_test_text(name, (cases.len() - 1) as nat, cases.last())
    }
}

fn case_test_string(name: &str, i: usize, c: &ExampleCase) -> (r: String)
    ensures
        r@ == case_test_text(name@, i as nat, case_view(*c)),
{
    let mut s = string_of("#[test]\nfn ex");
    push_u64(&mut s, i as u64);
    push_str(&mut s, "() {\n    let xs: Vec<i64> = vec!");
    push_debug_list(&mut s, c.0.as_slice());
    push_str(&mut s, ";\n    assert_eq!(");
    push_str(&mut s, name);
    push_str(&mut s, "(&xs), ");
    push_i64(&mut s, c.1);
    push_str(&mut s, ");\n}\n\n");
    s
}

pub open spec fn behavior_text(name: Seq<char>, f: Filter, m: ElemMap, seed: u64) -> Seq<char> {
    "use task::"@ + name + ";\n\n"@ + case_tests_text(name, example_cases(f, m, seed))
        + "#[test]\nfn empty_is_zero() {\n    assert_eq!("@ + name + "(&[]), 0);\n}\n"@
}

pub fn behavior_test_src(spec: &Spec, seed: u64) -> (r: String)
    ensures
        r@ == behavior_text(spec.fn_name@, spec.filter, spec.map, seed),
{
    let (_, cases) = worked_examples(spec, seed);
    let ghost cs = example_cases(spec.filter, spec.map, seed);
    assert forall|q: int| 0 <= q < 4 implies #[trigger] cs[q] == case_view(cases@[q]) by {}
    let mut s = string_of("use task::");
    push_str(&mut s, spec.fn_name);
    push_str(&mut s, ";\n\n");
    let ghost start = s@;
    let mut i: usize = 0;
    while i < cases.len()
        invariant
            i <= cases.len(),
            cases@.len() == 4,
            cs.len() == 4,
            forall|q: int| 0 <= q < 4 ==> #[trigger] cs[q] == case_view(cases@[q]),
            s@ == start + case_tests_text(spec.fn_name@, cs.take(i as int)),
        decreases cases.len() - i,
    {
        let t = case_test_string(spec.fn_name, i, &cases[i]);
        push_str(&mut s, t.as_str());
        assert(cs.take(i + 1).drop_last() =~= cs.take(i as int));
        i = i + 1;
    }
    assert(cs.take(4) =~= cs);
    push_str(&mut s, "#[test]\nfn empty_is_zero() {\n    assert_eq!(");
    push_str(&mut s, spec.fn_name);
    push_str(&mut s, "(&[]), 0);\n}\n");
    s
}

/// The differential's plain-loop body over `x`.
pub open spec fn diff_body_text(f: Filter, m: ElemMap) -> Seq<char> {
    match pred_text(f, "x"@) {
        Some(p) => "if "@ + p + " { total += "@ + map_always_text(m, "x"@) + "; }"@,
        None => "total += "@ + map_always_text(m, "x"@) + ";"@,
    }
}

pub open spec fn differential_text(name: Seq<char>, f: Filter, m: ElemMap) -> Seq<char> {
    "use task::"@ + name
        + ";\n\nfn reference(xs: &[i64]) -> i64 {\n    let mut total = 0i64;\n    for &x in xs {\n        "@
        + diff_body_text(f, m)
        + "\n    }\n    total\n}\n\n#[test]\nfn differential_vs_reference() {\n    let mut state: u64 = 0x1D10_ED00_0000_0042;\n    let mut next = || {\n        state = state.wrapping_mul(6364136223846793005).wrapping_add(1442695040888963407);\n        (state >> 33) as u64\n    };\n    for _ in 0..3000 {\n        let len = (next() % 20) as usize;\n        let xs: Vec<i64> = (0..len).map(|_| (next() % 101) as i64 - 50).collect();\n        assert_eq!("@
        + name + "(&xs), reference(&xs), \"mismatch: {xs:?}\");\n    }\n}\n"@
}

/// The hidden differential test, against a plain loop (a test file is never
/// linted).
pub fn differential_test_src(spec: &Spec) -> (r: String)
    ensures
        r@ == differential_text(spec.fn_name@, spec.filter, spec.map),
{
    let mut s = string_of("use task::");
    push_str(&mut s, spec.fn_name);
    push_str(&mut s, ";\n\nfn reference(xs: &[i64]) -> i64 {\n    let mut total = 0i64;\n    for &x in xs {\n        ");
    let m = map_always(spec.map, "x");
    match pred_src(spec.filter, "x") {
        Some(p) => {
            push_str(&mut s, "if ");
            push_str(&mut s, p.as_str());
            push_str(&mut s, " { total += ");
            push_str(&mut s, m.as_str());
            push_str(&mut s, "; }");
        },
        None => {
            push_str(&mut s, "total += ");
            push_str(&mut s, m.as_str());
            push_str(&mut s, ";");
        },
    }
    push_str(
        &mut s,
        "\n    }\n    total\n}\n\n#[test]\nfn differential_vs_reference() {\n    let mut state: u64 = 0x1D10_ED00_0000_0042;\n    let mut next = || {\n        state = state.wrapping_mul(6364136223846793005).wrapping_add(1442695040888963407);\n        (state >> 33) as u64\n    };\n    for _ in 0..3000 {\n        let len = (next() % 20) as usize;\n        let xs: Vec<i64> = (0..len).map(|_| (next() % 101) as i64 - 50).collect();\n        assert_eq!(",
    );
    push_str(&mut s, spec.fn_name);
    push_str(&mut s, "(&xs), reference(&xs), \"mismatch: {xs:?}\");\n    }\n}\n");
    s
}

pub open spec fn const_zero_text(name: Seq<char>) -> Seq<char> {
    "pub fn "@ + name + "(xs: &[i64]) -> i64 { let _ = xs; 0 }\n"@
}

/// A behaviourally wrong answer: always `0`.
pub fn const_zero(spec: &Spec) -> (r: String)
    ensures
        r@ == const_zero_text(spec.fn_name@),
{
    let mut s = string_of("pub fn ");
    push_str(&mut s, spec.fn_name);
    push_str(&mut s, "(xs: &[i64]) -> i64 { let _ = xs; 0 }\n");
    s
}

/// The hidden behaviour tests of the task `seed` gives.
pub closed spec fn behavior_file(seed: u64) -> Seq<char> {
    behavior_text(sample_name(seed), sample_filter(seed), sample_map(seed), seed)
}

/// The hidden differential test of the task `seed` gives.
pub closed spec fn differential_file(seed: u64) -> Seq<char> {
    differential_text(sample_name(seed), sample_filter(seed), sample_map(seed))
}

// ---- the family ------------------------------------------------------------

pub open spec fn filter_kind_text(f: Filter) -> Seq<char> {
    match f {
        Filter::All => "all"@,
        Filter::Positive => "positive"@,
        Filter::Even => "even"@,
        Filter::Nonzero => "nonzero"@,
    }
}

pub open spec fn map_kind_text(m: ElemMap) -> Seq<char> {
    match m {
        ElemMap::Identity => "identity"@,
        ElemMap::Double => "double"@,
        ElemMap::Square => "square"@,
        ElemMap::Negate => "negate"@,
    }
}

pub struct IdiomRefactorFamily;

impl IdiomRefactorFamily {
    pub fn id(&self) -> (r: &'static str)
        ensures
            r@ == "idiom-loop"@,
    {
        "idiom-loop"
    }

    pub fn category(&self) -> (r: &'static str)
        ensures
            r@ == "idiom-refactor"@,
    {
        "idiom-refactor"
    }

    /// The instance for `seed`: a pure function of the seed. The constraint
    /// layer is clippy alone, and it dominates the weights.
    pub fn generate(&self, seed: u64) -> (r: GeneratedTask)
        ensures
            r.id@ == task_id_text("idiom-loop"@, seed),
            r.category@ == "idiom-refactor"@,
            r.canary@ == canary_text("idiom-loop"@, seed),
            r.prompt@ == prompt_text(sample_name(seed), sample_filter(seed), sample_map(seed), seed, r.canary@),
            r.answer_path@ == "src/lib.rs"@,
            r.files@.len() == 2,
            r.files@[0].0@ == "Cargo.toml"@,
            r.files@[0].1@ == cargo_toml_text(),
            r.files@[1].0@ == "src/lib.rs"@,
            r.files@[1].1@ == skeleton_text(sample_name(seed), sample_filter(seed), sample_map(seed), seed),
            r.hidden@.len() == 2,
            r.hidden@[0].0@ == "tests/behavior.rs"@,
            r.hidden@[0].1@ == behavior_text(sample_name(seed), sample_filter(seed), sample_map(seed), seed),
            r.hidden@[1].0@ == "tests/differential.rs"@,
            r.hidden@[1].1@ == differential_text(sample_name(seed), sample_filter(seed), sample_map(seed)),
            r.behavior_test@ == "behavior"@,
            r.hidden@[0].1@ == behavior_file(seed),
            r.hidden@[1].1@ == differential_file(seed),
            r.differential_test@ == "differential"@,
            r.alloc_test@ == Seq::<char>::empty(),
            r.max_unsafe is None,
            r.forbidden_paths@.len() == 0,
            r.check_clippy,
            r.clippy_allow@.len() == 0,
            r.weights == (Weights { behavior: 30, constraint: 60, quality: 10 }),
    {
        let spec = sample(seed);
        let canary = mint_canary("idiom-loop", seed);
        let mut files: Vec<(String, String)> = Vec::new();
        files.push((string_of("Cargo.toml"), cargo_toml()));
        files.push((string_of("src/lib.rs"), skeleton_src(&spec, seed)));
        let mut hidden: Vec<(String, String)> = Vec::new();
        hidden.push((string_of("tests/behavior.rs"), behavior_test_src(&spec, seed)));
        hidden.push((string_of("tests/differential.rs"), differential_test_src(&spec)));
        let prompt = prompt(&spec, seed, canary.as_str());
        GeneratedTask {
            id: task_id("idiom-loop", seed),
            category: string_of("idiom-refactor"),
            prompt,
            canary,
            answer_path: string_of("src/lib.rs"),
            files,
            hidden,
            behavior_test: string_of("behavior"),
            differential_test: string_of("differential"),
            alloc_test: String::new(),
            max_unsafe: None,
            forbidden_paths: Vec::new(),
            check_clippy: true,
            clippy_allow: Vec::new(),
            weights: Weights { behavior: 30, constraint: 60, quality: 10 },
        }
    }

    pub fn reference_code(&self, seed: u64) -> (r: String)
        ensures
            r@ == reference_text(sample_name(seed), sample_filter(seed), sample_map(seed)),
    {
        reference_src(&sample(seed))
    }

    pub fn skeleton_code(&self, seed: u64) -> (r: String)
        ensures
            r@ == skeleton_text(sample_name(seed), sample_filter(seed), sample_map(seed), seed),
    {
        skeleton_src(&sample(seed), seed)
    }

    /// Degenerate answers `(label, code)`: the unchanged loop (correct, but
    /// caught by clippy) and a constant.
    pub fn trivial_baselines(&self, seed: u64) -> (r: Vec<(String, String)>)
        ensures
            r@.len() == 2,
            r@[0].0@ == "unchanged"@,
            r@[0].1@ == deidiom_core_text(sample_name(seed), sample_filter(seed), sample_map(seed)) + "\n"@,
            r@[1].0@ == "const-zero"@,
            r@[1].1@ == const_zero_text(sample_name(seed)),
    {
        let spec = sample(seed);
        let mut v: Vec<(String, String)> = Vec::new();
        v.push((string_of("unchanged"), deidiom_src(&spec)));
        v.push((string_of("const-zero"), const_zero(&spec)));
        v
    }

    /// The structural identity: the (filter, map) pair.
    pub fn spec_signature(&self, seed: u64) -> (r: Vec<String>)
        ensures
            r@.len() == 2,
            r@[0]@ == "filter:"@ + filter_kind_text(sample_filter(seed)),
            r@[1]@ == "map:"@ + map_kind_text(sample_map(seed)),
    {
        let spec = sample(seed);
        let filter = match spec.filter {
            Filter::All => "all",
            Filter::Positive => "positive",
            Filter::Even => "even",
            Filter::Nonzero => "nonzero",
        };
        let map = match spec.map {
            ElemMap::Identity => "identity",
            ElemMap::Double => "double",
            ElemMap::Square => "square",
            ElemMap::Negate => "negate",
        };
        let mut a = string_of("filter:");
        push_str(&mut a, filter);
        let mut b = string_of("map:");
        push_str(&mut b, map);
        let mut v: Vec<String> = Vec::new();
        v.push(a);
        v.push(b);
        v
    }
}

/// Under every (filter, map) pair the canonical `[1, 2, 3, 4]` totals to a
/// non-zero value: the `const-zero` baseline fails the first worked example
/// of every instance.
pub proof fn law_canonical_nonzero(f: Filter, m: ElemMap)
    ensures
        total(f, m, canonical()) != 0,
{
    let c = canonical();
    assert(c.drop_last() =~= seq![1i64, 2, 3]);
    assert(seq![1i64, 2, 3].drop_last() =~= seq![1i64, 2]);
    assert(seq![1i64, 2].drop_last() =~= seq![1i64]);
    assert(seq![1i64].drop_last() =~= Seq::<i64>::empty());
    let t0 = total(f, m, Seq::<i64>::empty());
    let t1 = total(f, m, seq![1i64]);
    let t2 = total(f, m, seq![1i64, 2]);
    let t3 = total(f, m, seq![1i64, 2, 3]);
    assert(t0 == 0);
    assert(t1 == if keep_spec(f, 1) { map_spec(m, 1) } else { 0 });
    assert(t2 == t1 + if keep_spec(f, 2) { map_spec(m, 2) } else { 0 });
    assert(t3 == t2 + if keep_spec(f, 3) { map_spec(m, 3) } else { 0 });
    assert(total(f, m, c) == t3 + if keep_spec(f, 4) { map_spec(m, 4) } else { 0 });
    assert(2int % 2 == 0 && 4int % 2 == 0 && 1int % 2 == 1 && 3int % 2 == 1);
}

} // verus!
