//! The `idiom-counter` family (category `idiom-refactor`).
//!
//! The model is given a working function built around an explicit running
//! counter (`let mut i = 0; for &x in xs { ...; i += 1; }`, which trips
//! `clippy::explicit_counter_loop`) and must rewrite it with iterator
//! adaptors, same behaviour. The function sums a seed-selected weight of each
//! index (position, distance from the end, alternating sign) times a
//! seed-selected map of the element: twelve distinct skills.

use vstd::prelude::*;
use crate::rng::{Rng, draw};
use crate::digest::{mint_canary, canary_text};
use crate::text::{push_str, push_u64, push_i64, push_debug_list, push_doc_block, push_terminated, dec_nat,
    dec_int, debug_list, doc_block, terminated, string_views, string_of};
use crate::gen::{GeneratedTask, Weights, cargo_toml, cargo_toml_text, task_id, task_id_text,
    push_prompt_tail, prompt_tail};
use crate::gen::idiom_refactor::{ElemMap, map_spec, map_val, map_always, map_always_text, input_len,
    random_input, input_next};

verus! {

/// Axis 1: how an element's index weighs it.
#[derive(Clone, Copy, Debug, PartialEq, Eq, Structural)]
pub enum Weight {
    /// Position from the front: `i + 1`.
    Linear,
    /// Distance from the end: `n - i`.
    Reverse,
    /// `+1` at even indices, `-1` at odd.
    Parity,
}

pub struct Spec {
    pub weight: Weight,
    pub map: ElemMap,
    pub fn_name: &'static str,
}

// ---- semantics -------------------------------------------------------------

pub open spec fn in_i64(x: int) -> bool {
    i64::MIN <= x <= i64::MAX
}

/// The weight of index `i` in a list of length `len`.
pub open spec fn weight_spec(w: Weight, i: int, len: int) -> int {
    match w {
        Weight::Linear => i + 1,
        Weight::Reverse => len - i,
        Weight::Parity => if i % 2 == 0 { 1 } else { -1 },
    }
}

/// The weighted sum over the first `n` elements of `xs`.
pub open spec fn partial(w: Weight, m: ElemMap, xs: Seq<i64>, n: int) -> int
    decreases n,
{
    if n <= 0 {
        0
    } else {
        partial(w, m, xs, n - 1) + weight_spec(w, n - 1, xs.len() as int) * map_spec(m, xs[n - 1] as int)
    }
}

/// The answer: the weighted sum over all of `xs`.
pub open spec fn weighted(w: Weight, m: ElemMap, xs: Seq<i64>) -> int {
    partial(w, m, xs, xs.len() as int)
}

/// Element `k`'s mapped value, its term and the running total through it
/// fit in `i64`.
pub open spec fn step_fits(w: Weight, m: ElemMap, xs: Seq<i64>, k: int) -> bool {
    &&& in_i64(map_spec(m, xs[k] as int))
    &&& in_i64(weight_spec(w, k, xs.len() as int) * map_spec(m, xs[k] as int))
    &&& in_i64(partial(w, m, xs, k + 1))
}

/// Every step of the weighted sum fits in `i64`.
pub open spec fn weighted_fits(w: Weight, m: ElemMap, xs: Seq<i64>) -> bool {
    &&& xs.len() < i64::MAX
    &&& forall|k: int| 0 <= k < xs.len() ==> #[trigger] step_fits(w, m, xs, k)
}

pub fn weight_val(w: Weight, i: usize, len: usize) -> (r: i64)
    requires
        i < len < i64::MAX,
    ensures
        r == weight_spec(w, i as int, len as int),
{
    match w {
        Weight::Linear => i as i64 + 1,
        Weight::Reverse => len as i64 - i as i64,
        Weight::Parity => if i % 2 == 0 { 1 } else { -1 },
    }
}

/// The answer: the sum of `weight(i) * map(xs[i])`.
pub fn eval(spec: &Spec, xs: &[i64]) -> (r: i64)
    requires
        weighted_fits(spec.weight, spec.map, xs@),
    ensures
        r == weighted(spec.weight, spec.map, xs@),
{
    let mut total: i64 = 0;
    let mut i: usize = 0;
    while i < xs.len()
        invariant
            i <= xs.len(),
            weighted_fits(spec.weight, spec.map, xs@),
            total == partial(spec.weight, spec.map, xs@, i as int),
        decreases xs.len() - i,
    {
        assert(step_fits(spec.weight, spec.map, xs@, i as int));
        let w = weight_val(spec.weight, i, xs.len());
        let m = map_val(spec.map, xs[i]);
        total = total + w * m;
        i = i + 1;
    }
    total
}

/// Eight or fewer values in `-10..=10` keep every total within `6400`.
proof fn lemma_small_fits(w: Weight, m: ElemMap, xs: Seq<i64>)
    requires
        forall|i: int| 0 <= i < xs.len() ==> -10 <= #[trigger] xs[i] <= 10,
        xs.len() <= 8,
    ensures
        weighted_fits(w, m, xs),
{
    assert forall|k: int| 0 <= k < xs.len() implies #[trigger] step_fits(w, m, xs, k) by {
        lemma_partial_bound(w, m, xs, k + 1);
        let x = xs[k] as int;
        let y = map_spec(m, x);
        let c = weight_spec(w, k, xs.len() as int);
        assert(-100 <= x * x <= 100) by (nonlinear_arith)
            requires -10 <= x <= 10;
        assert(-800 <= c * y <= 800) by (nonlinear_arith)
            requires -8 <= c <= 8, -100 <= y <= 100;
    }
}

proof fn lemma_partial_bound(w: Weight, m: ElemMap, xs: Seq<i64>, n: int)
    requires
        forall|i: int| 0 <= i < xs.len() ==> -10 <= #[trigger] xs[i] <= 10,
        xs.len() <= 8,
        0 <= n <= xs.len(),
    ensures
        -800 * n <= partial(w, m, xs, n) <= 800 * n,
    decreases n,
{
    if n > 0 {
        lemma_partial_bound(w, m, xs, n - 1);
        let x = xs[n - 1] as int;
        let y = map_spec(m, x);
        let c = weight_spec(w, n - 1, xs.len() as int);
        assert(-10 <= x <= 10);
        assert(-100 <= x * x <= 100) by (nonlinear_arith)
            requires -10 <= x <= 10;
        assert(-800 <= c * y <= 800) by (nonlinear_arith)
            requires -8 <= c <= 8, -100 <= y <= 100;
    }
}

// ---- sampling --------------------------------------------------------------

pub open spec fn weight_of(k: u64) -> Weight {
    if k == 0 {
        Weight::Linear
    } else if k == 1 {
        Weight::Reverse
    } else {
        Weight::Parity
    }
}

pub open spec fn map_of(k: u64) -> ElemMap {
    if k == 0 {
        ElemMap::Identity
    } else if k == 1 {
        ElemMap::Double
    } else if k == 2 {
        ElemMap::Square
    } else {
        ElemMap::Negate
    }
}

pub open spec fn name_text(i: u64) -> Seq<char> {
    if i == 0 {
        "weighted_sum"@
    } else if i == 1 {
        "score"@
    } else if i == 2 {
        "tally"@
    } else if i == 3 {
        "accumulate"@
    } else if i == 4 {
        "fold_weights"@
    } else {
        "measure"@
    }
}

pub open spec fn sample_weight(seed: u64) -> Weight {
    weight_of(draw(seed, 0) % 3)
}

pub open spec fn sample_map(seed: u64) -> ElemMap {
    map_of(draw(seed, 1) % 4)
}

pub open spec fn sample_name(seed: u64) -> Seq<char> {
    name_text(draw(seed, 2) % 6)
}

fn name_at(i: u64) -> (r: &'static str)
    requires
        i < 6,
    ensures
        r@ == name_text(i),
{
    if i == 0 {
        "weighted_sum"
    } else if i == 1 {
        "score"
    } else if i == 2 {
        "tally"
    } else if i == 3 {
        "accumulate"
    } else if i == 4 {
        "fold_weights"
    } else {
        "measure"
    }
}

/// The spec for `seed`: every choice is a function of the seed's stream.
pub fn sample(seed: u64) -> (r: Spec)
    ensures
        r.weight == sample_weight(seed),
        r.map == sample_map(seed),
        r.fn_name@ == sample_name(seed),
{
    let mut rng = Rng::new(seed);
    let a = rng.below(3);
    let weight = if a == 0 {
        Weight::Linear
    } else if a == 1 {
        Weight::Reverse
    } else {
        Weight::Parity
    };
    let b = rng.below(4);
    let map = if b == 0 {
        ElemMap::Identity
    } else if b == 1 {
        ElemMap::Double
    } else if b == 2 {
        ElemMap::Square
    } else {
        ElemMap::Negate
    };
    let fn_name = name_at(rng.below(6));
    Spec { weight, map, fn_name }
}

// ---- the idiomatic reference -----------------------------------------------

/// The iterator chain after `xs`, per weight.
pub open spec fn chain_text(w: Weight, m: ElemMap) -> Seq<char> {
    match w {
        Weight::Linear => "\n        .iter()\n        .copied()\n        .enumerate()\n        .map(|(i, x)| (i as i64 + 1) * "@
            + map_always_text(m, "x"@) + ")\n        .sum()"@,
        Weight::Reverse => "\n        .iter()\n        .rev()\n        .enumerate()\n        .map(|(r, &x)| (r as i64 + 1) * "@
            + map_always_text(m, "x"@) + ")\n        .sum()"@,
        Weight::Parity => "\n        .iter()\n        .enumerate()\n        .map(|(i, &x)| {\n            let w: i64 = if i % 2 == 0 { 1 } else { -1 };\n            w * "@
            + map_always_text(m, "x"@) + "\n        })\n        .sum()"@,
    }
}

pub open spec fn reference_text(name: Seq<char>, w: Weight, m: ElemMap) -> Seq<char> {
    "pub fn "@ + name + "(xs: &[i64]) -> i64 {\n    xs"@ + chain_text(w, m) + "\n}\n"@
}

/// The idiomatic reference: one iterator chain.
pub fn reference_src(spec: &Spec) -> (r: String)
    ensures
        r@ == reference_text(spec.fn_name@, spec.weight, spec.map),
{
    let mv = map_always(spec.map, "x");
    let mut s = string_of("pub fn ");
    push_str(&mut s, spec.fn_name);
    push_str(&mut s, "(xs: &[i64]) -> i64 {\n    xs");
    match spec.weight {
        Weight::Linear => {
            push_str(&mut s, "\n        .iter()\n        .copied()\n        .enumerate()\n        .map(|(i, x)| (i as i64 + 1) * ");
            push_str(&mut s, mv.as_str());
            push_str(&mut s, ")\n        .sum()");
        },
        Weight::Reverse => {
            push_str(&mut s, "\n        .iter()\n        .rev()\n        .enumerate()\n        .map(|(r, &x)| (r as i64 + 1) * ");
            push_str(&mut s, mv.as_str());
            push_str(&mut s, ")\n        .sum()");
        },
        Weight::Parity => {
            push_str(
                &mut s,
                "\n        .iter()\n        .enumerate()\n        .map(|(i, &x)| {\n            let w: i64 = if i % 2 == 0 { 1 } else { -1 };\n            w * ",
            );
            push_str(&mut s, mv.as_str());
            push_str(&mut s, "\n        })\n        .sum()");
        },
    }
    push_str(&mut s, "\n}\n");
    s
}

// ---- the running-counter loop ----------------------------------------------

pub open spec fn counter_head_text(w: Weight) -> Seq<char> {
    match w {
        Weight::Reverse => "    let n = xs.len() as i64;\n"@,
        _ => Seq::empty(),
    }
}

pub open spec fn counter_step_text(w: Weight, m: ElemMap) -> Seq<char> {
    match w {
        Weight::Linear => "total += (i as i64 + 1) * "@ + map_always_text(m, "x"@) + ";"@,
        Weight::Reverse => "total += (n - i as i64) * "@ + map_always_text(m, "x"@) + ";"@,
        Weight::Parity => "let w: i64 = if i % 2 == 0 { 1 } else { -1 };\n        total += w * "@ + map_always_text(m, "x"@)
            + ";"@,
    }
}

/// The counter loop, without its final newline.
pub open spec fn deidiom_core_text(name: Seq<char>, w: Weight, m: ElemMap) -> Seq<char> {
    "pub fn "@ + name + "(xs: &[i64]) -> i64 {\n    let mut total = 0;\n"@ + counter_head_text(w)
        + "    let mut i = 0usize;\n    for &x in xs {\n        "@ + counter_step_text(w, m)
        + "\n        i += 1;\n    }\n    total\n}"@
}

fn deidiom_core(spec: &Spec) -> (r: String)
    ensures
        r@ == deidiom_core_text(spec.fn_name@, spec.weight, spec.map),
{
    let mv = map_always(spec.map, "x");
    let mut s = string_of("pub fn ");
    push_str(&mut s, spec.fn_name);
    push_str(&mut s, "(xs: &[i64]) -> i64 {\n    let mut total = 0;\n");
    match spec.weight {
        Weight::Reverse => push_str(&mut s, "    let n = xs.len() as i64;\n"),
        _ => push_str(&mut s, ""),
    }
    proof {
        reveal_strlit("");
    }
    push_str(&mut s, "    let mut i = 0usize;\n    for &x in xs {\n        ");
    match spec.weight {
        Weight::Linear => push_str(&mut s, "total += (i as i64 + 1) * "),
        Weight::Reverse => push_str(&mut s, "total += (n - i as i64) * "),
        Weight::Parity => push_str(&mut s, "let w: i64 = if i % 2 == 0 { 1 } else { -1 };\n        total += w * "),
    }
    push_str(&mut s, mv.as_str());
    push_str(&mut s, ";");
    push_str(&mut s, "\n        i += 1;\n    }\n    total\n}");
    s
}

/// The behaviourally correct running-counter loop the model starts from: it
/// trips `clippy::explicit_counter_loop`.
pub fn deidiom_src(spec: &Spec) -> (r: String)
    ensures
        r@ == deidiom_core_text(spec.fn_name@, spec.weight, spec.map) + "\n"@,
{
    let mut s = deidiom_core(spec);
    push_str(&mut s, "\n");
    s
}

// ---- worked examples -------------------------------------------------------

pub open spec fn example_seed(seed: u64) -> u64 {
    seed ^ 0x1D20_0000_0000_0067u64
}

/// The fixed first input of the worked examples.
pub open spec fn canonical() -> Seq<i64> {
    seq![3i64, 1, 4, 2]
}

pub open spec fn example_inputs(seed: u64) -> Seq<Seq<i64>> {
    let s = example_seed(seed);
    let k1 = input_next(s, 0);
    let k2 = input_next(s, k1);
    seq![canonical(), random_input(s, 0), random_input(s, k1), random_input(s, k2)]
}

pub open spec fn example_line(input: Seq<i64>, out: int) -> Seq<char> {
    "  "@ + debug_list(input) + "  ->  "@ + dec_int(out)
}

pub open spec fn example_lines(w: Weight, m: ElemMap, seed: u64) -> Seq<Seq<char>> {
    example_inputs(seed).map_values(|x: Seq<i64>| example_line(x, weighted(w, m, x)))
}

/// One worked example: (input, expected weighted sum).
pub type ExampleCase = (Vec<i64>, i64);

pub open spec fn example_cases(w: Weight, m: ElemMap, seed: u64) -> Seq<(Seq<i64>, int)> {
    example_inputs(seed).map_values(|x: Seq<i64>| (x, weighted(w, m, x)))
}

pub open spec fn case_view(c: ExampleCase) -> (Seq<i64>, int) {
    (c.0@, c.1 as int)
}

fn random_input_vec(rng: &mut Rng) -> (r: Vec<i64>)
    ensures
        final(rng).seed() == old(rng).seed(),
        r@ == random_input(old(rng).seed(), old(rng).count()),
        final(rng).count() == input_next(old(rng).seed(), old(rng).count()),
{
    let ghost s = rng.seed();
    let ghost k = rng.count();
    let len = 2 + rng.below(7) as usize;
    let mut v: Vec<i64> = Vec::new();
    let mut j: usize = 0;
    while j < len
        invariant
            j <= len,
            len == input_len(s, k),
            rng.seed() == s,
            rng.count() == k + 1 + j,
            v@ =~= random_input(s, k).take(j as int),
        decreases len - j,
    {
        let x = rng.below(21) as i64 - 10;
        v.push(x);
        j = j + 1;
    }
    v
}

fn example_input_vecs(seed: u64) -> (r: Vec<Vec<i64>>)
    ensures
        r@.len() == 4,
        forall|i: int| 0 <= i < 4 ==> (#[trigger] r@[i])@ == example_inputs(seed)[i],
{
    let mut rng = Rng::new(seed ^ 0x1D20_0000_0000_0067);
    let mut inputs: Vec<Vec<i64>> = Vec::new();
    let c: Vec<i64> = vec![3, 1, 4, 2];
    assert(c@ =~= canonical());
    inputs.push(c);
    let a = random_input_vec(&mut rng);
    let b = random_input_vec(&mut rng);
    let d = random_input_vec(&mut rng);
    inputs.push(a);
    inputs.push(b);
    inputs.push(d);
    inputs
}

proof fn lemma_example_small(seed: u64, i: int)
    requires
        0 <= i < 4,
    ensures
        forall|q: int| 0 <= q < example_inputs(seed)[i].len() ==> -10 <= #[trigger] example_inputs(seed)[i][q] <= 10,
        example_inputs(seed)[i].len() <= 8,
{
    let x = example_inputs(seed)[i];
    assert forall|q: int| 0 <= q < x.len() implies -10 <= #[trigger] x[q] <= 10 by {
        if i > 0 {
            let s = example_seed(seed);
            let k = if i == 1 { 0 } else if i == 2 { input_next(s, 0) } else { input_next(s, input_next(s, 0)) };
            assert(x == random_input(s, k));
            let d = draw(s, (k + 1 + q) as nat) % 21;
            assert(0 <= d < 21);
        }
    }
}

fn example_line_string(input: &Vec<i64>, out: i64) -> (r: String)
    ensures
        r@ == example_line(input@, out as int),
{
    let mut s = string_of("  ");
    push_debug_list(&mut s, input.as_slice());
    push_str(&mut s, "  ->  ");
    push_i64(&mut s, out);
    s
}

/// The worked examples as lines (without newlines) and cases.
pub fn example_data(spec: &Spec, seed: u64) -> (r: (Vec<String>, Vec<ExampleCase>))
    ensures
        string_views(r.0@) == example_lines(spec.weight, spec.map, seed),
        r.1@.len() == 4,
        forall|i: int| 0 <= i < 4 ==> case_view(#[trigger] r.1@[i]) == example_cases(spec.weight, spec.map, seed)[i],
{
    let inputs = example_input_vecs(seed);
    let mut lines: Vec<String> = Vec::new();
    let mut cases: Vec<ExampleCase> = Vec::new();
    let mut j: usize = 0;
    while j < inputs.len()
        invariant
            j <= inputs.len(),
            inputs@.len() == 4,
            forall|i: int| 0 <= i < 4 ==> (#[trigger] inputs@[i])@ == example_inputs(seed)[i],
            lines@.len() == j,
            cases@.len() == j,
            forall|q: int| 0 <= q < j ==> #[trigger] lines@[q]@ == example_lines(spec.weight, spec.map, seed)[q],
            forall|q: int| 0 <= q < j ==> case_view(#[trigger] cases@[q]) == example_cases(spec.weight, spec.map, seed)[q],
        decreases inputs.len() - j,
    {
        let input = inputs[j].clone();
        proof {
            lemma_example_small(seed, j as int);
            lemma_small_fits(spec.weight, spec.map, input@);
        }
        let out = eval(spec, input.as_slice());
        lines.push(example_line_string(&input, out));
        cases.push((input, out));
        j = j + 1;
    }
    assert(string_views(lines@) =~= example_lines(spec.weight, spec.map, seed));
    (lines, cases)
}

/// Worked examples: the prose block and the cases.
pub fn worked_examples(spec: &Spec, seed: u64) -> (r: (String, Vec<ExampleCase>))
    ensures
        r.0@ == terminated(example_lines(spec.weight, spec.map, seed)),
        r.1@.len() == 4,
        forall|i: int| 0 <= i < 4 ==> case_view(#[trigger] r.1@[i]) == example_cases(spec.weight, spec.map, seed)[i],
{
    let (lines, cases) = example_data(spec, seed);
    let mut prose = String::new();
    push_terminated(&mut prose, &lines);
    (prose, cases)
}

// ---- the files of an instance ----------------------------------------------

/// The model's starting file is the working counter loop itself, with the
/// worked examples as a doc comment.
pub open spec fn skeleton_text(name: Seq<char>, w: Weight, m: ElemMap, seed: u64) -> Seq<char> {
    "//! Rewrite `"@ + name + "` below in idiomatic, clippy-clean Rust, preserving its\n//! exact behaviour.\n//!\n"@
        + doc_block(example_lines(w, m, seed)) + "\n"@ + deidiom_core_text(name, w, m) + "\n"@
}

pub fn skeleton_src(spec: &Spec, seed: u64) -> (r: String)
    ensures
        r@ == skeleton_text(spec.fn_name@, spec.weight, spec.map, seed),
{
    let (lines, _) = example_data(spec, seed);
    let mut s = string_of("//! Rewrite `");
    push_str(&mut s, spec.fn_name);
    push_str(&mut s, "` below in idiomatic, clippy-clean Rust, preserving its\n//! exact behaviour.\n//!\n");
    push_doc_block(&mut s, &lines);
    push_str(&mut s, "\n");
    let d = deidiom_src(spec);
    push_str(&mut s, d.as_str());
    s
}

pub open spec fn prompt_text(name: Seq<char>, w: Weight, m: ElemMap, seed: u64, canary: Seq<char>) -> Seq<char> {
    "The function `"@ + name
        + "` in `src/lib.rs` works but is written in a\nnon-idiomatic, imperative style built around a manually incremented index\ncounter. Rewrite it in **idiomatic Rust** \u{2014} iterator adaptors rather than a\nrunning counter \u{2014} so that it is `clippy`-clean, while preserving its exact\nbehaviour and its signature.\n\nHere is the current implementation:\n\n```rust\n"@
        + deidiom_core_text(name, w, m)
        + "\n```\n\nIt computes the same value for these inputs, which your rewrite must match:\n"@
        + terminated(example_lines(w, m, seed)) + "\nConstraints:\n- Keep the signature `pub fn "@ + name
        + "(xs: &[i64]) -> i64` exactly.\n- The rewrite must produce **no** `clippy` warnings.\n- Do not use `unsafe`.\n\n"@
        + prompt_tail(canary)
}

pub fn prompt(spec: &Spec, seed: u64, canary: &str) -> (r: String)
    ensures
        r@ == prompt_text(spec.fn_name@, spec.weight, spec.map, seed, canary@),
{
    let (examples, _) = worked_examples(spec, seed);
    let mut s = string_of("The function `");
    push_str(&mut s, spec.fn_name);
    push_str(
        &mut s,
        "` in `src/lib.rs` works but is written in a\nnon-idiomatic, imperative style built around a manually incremented index\ncounter. Rewrite it in **idiomatic Rust** \u{2014} iterator adaptors rather than a\nrunning counter \u{2014} so that it is `clippy`-clean, while preserving its exact\nbehaviour and its signature.\n\nHere is the current implementation:\n\n```rust\n",
    );
    let d = deidiom_core(spec);
    push_str(&mut s, d.as_str());
    push_str(&mut s, "\n```\n\nIt computes the same value for these inputs, which your rewrite must match:\n");
    push_str(&mut s, examples.as_str());
    push_str(&mut s, "\nConstraints:\n- Keep the signature `pub fn ");
    push_str(&mut s, spec.fn_name);
    push_str(
        &mut s,
        "(xs: &[i64]) -> i64` exactly.\n- The rewrite must produce **no** `clippy` warnings.\n- Do not use `unsafe`.\n\n",
    );
    push_prompt_tail(&mut s, canary);
    s
}

pub open spec fn case_test_text(name: Seq<char>, i: nat, c: (Seq<i64>, int)) -> Seq<char> {
    "#[test]\nfn ex"@ + dec_nat(i) + "() {\n    let xs: Vec<i64> = vec!"@ + debug_list(c.0) + ";\n    assert_eq!("@
        + name + "(&xs), "@ + dec_int(c.1) + ");\n}\n\n"@
}

pub open spec fn case_tests_text(name: Seq<char>, cases: Seq<(Seq<i64>, int)>) -> Seq<char>
    decreases cases.len(),
{
    if cases.len() == 0 {
        Seq::empty()
    } else {
        case_tests_text(name, cases.drop_last()) + case_test_text(name, (cases.len() - 1) as nat, cases.last())
    }
}

fn case_test_string(name: &str, i: usize, c: &ExampleCase) -> (r: String)
    ensures
        r@ == case_test_text(name@, i as nat, case_view(*c)),
{
    let mut s = string_of("#[test]\nfn ex");
    push_u64(&mut s, i as u64);
    push_str(&mut s, "() {\n    let xs: Vec<i64> = vec!");
    push_debug_list(&mut s, c.0.as_slice());
    push_str(&mut s, ";\n    assert_eq!(");
    push_str(&mut s, name);
    push_str(&mut s, "(&xs), ");
    push_i64(&mut s, c.1);
    push_str(&mut s, ");\n}\n\n");
    s
}

pub open spec fn behavior_text(name: Seq<char>, w: Weight, m: ElemMap, seed: u64) -> Seq<char> {
    "use task::"@ + name + ";\n\n"@ + case_tests_text(name, example_cases(w, m, seed))
        + "#[test]\nfn empty_is_zero() {\n    assert_eq!("@ + name + "(&[]), 0);\n}\n"@
}

pub fn behavior_test_src(spec: &Spec, seed: u64) -> (r: String)
    ensures
        r@ == behavior_text(spec.fn_name@, spec.weight, spec.map, seed),
{
    let (_, cases) = worked_examples(spec, seed);
    let ghost cs = example_cases(spec.weight, spec.map, seed);
    assert forall|q: int| 0 <= q < 4 implies #[trigger] cs[q] == case_view(cases@[q]) by {}
    let mut s = string_of("use task::");
    push_str(&mut s, spec.fn_name);
    push_str(&mut s, ";\n\n");
    let ghost start = s@;
    let mut i: usize = 0;
    while i < cases.len()
        invariant
            i <= cases.len(),
            cases@.len() == 4,
            cs.len() == 4,
            forall|q: int| 0 <= q < 4 ==> #[trigger] cs[q] == case_view(cases@[q]),
            s@ == start + case_tests_text(spec.fn_name@, cs.take(i as int)),
        decreases cases.len() - i,
    {
        let t = case_test_string(spec.fn_name, i, &cases[i]);
        push_str(&mut s, t.as_str());
        assert(cs.take(i + 1).drop_last() =~= cs.take(i as int));
        i = i + 1;
    }
    assert(cs.take(4) =~= cs);
    push_str(&mut s, "#[test]\nfn empty_is_zero() {\n    assert_eq!(");
    push_str(&mut s, spec.fn_name);
    push_str(&mut s, "(&[]), 0);\n}\n");
    s
}

/// The weight as source inside the differential's plain loop.
pub open spec fn weight_expr_text(w: Weight) -> Seq<char> {
    match w {
        Weight::Linear => "(i as i64 + 1)"@,
        Weight::Reverse => "(xs.len() as i64 - i as i64)"@,
        Weight::Parity => "(if i % 2 == 0 { 1 } else { -1 })"@,
    }
}

pub fn weight_expr(w: Weight) -> (r: &'static str)
    ensures
        r@ == weight_expr_text(w),
{
    match w {
        Weight::Linear => "(i as i64 + 1)",
        Weight::Reverse => "(xs.len() as i64 - i as i64)",
        Weight::Parity => "(if i % 2 == 0 { 1 } else { -1 })",
    }
}

pub open spec fn differential_text(name: Seq<char>, w: Weight, m: ElemMap) -> Seq<char> {
    "use task::"@ + name
        + ";\n\nfn reference(xs: &[i64]) -> i64 {\n    let mut total = 0i64;\n    for (i, &x) in xs.iter().enumerate() {\n        total += "@
        + weight_expr_text(w) + " * "@ + map_always_text(m, "x"@)
        + ";\n    }\n    total\n}\n\n#[test]\nfn differential_vs_reference() {\n    let mut state: u64 = 0x1D20_ED00_0000_0043;\n    let mut next = || {\n        state = state.wrapping_mul(6364136223846793005).wrapping_add(1442695040888963407);\n        (state >> 33) as u64\n    };\n    for _ in 0..3000 {\n        let len = (next() % 20) as usize;\n        let xs: Vec<i64> = (0..len).map(|_| (next() % 101) as i64 - 50).collect();\n        assert_eq!("@
        + name + "(&xs), reference(&xs), \"mismatch: {xs:?}\");\n    }\n}\n"@
}

/// The hidden differential test, against a plain enumerate loop.
pub fn differential_test_src(spec: &Spec) -> (r: String)
    ensures
        r@ == differential_text(spec.fn_name@, spec.weight, spec.map),
{
    let mv = map_always(spec.map, "x");
    let mut s = string_of("use task::");
    push_str(&mut s, spec.fn_name);
    push_str(
        &mut s,
        ";\n\nfn reference(xs: &[i64]) -> i64 {\n    let mut total = 0i64;\n    for (i, &x) in xs.iter().enumerate() {\n        total += ",
    );
    push_str(&mut s, weight_expr(spec.weight));
    push_str(&mut s, " * ");
    push_str(&mut s, mv.as_str());
    push_str(
        &mut s,
        ";\n    }\n    total\n}\n\n#[test]\nfn differential_vs_reference() {\n    let mut state: u64 = 0x1D20_ED00_0000_0043;\n    let mut next = || {\n        state = state.wrapping_mul(6364136223846793005).wrapping_add(1442695040888963407);\n        (state >> 33) as u64\n    };\n    for _ in 0..3000 {\n        let len = (next() % 20) as usize;\n        let xs: Vec<i64> = (0..len).map(|_| (next() % 101) as i64 - 50).collect();\n        assert_eq!(",
    );
    push_str(&mut s, spec.fn_name);
    push_str(&mut s, "(&xs), reference(&xs), \"mismatch: {xs:?}\");\n    }\n}\n");
    s
}

pub open spec fn const_zero_text(name: Seq<char>) -> Seq<char> {
    "pub fn "@ + name + "(xs: &[i64]) -> i64 { let _ = xs; 0 }\n"@
}

/// A behaviourally wrong answer: always `0`.
pub fn const_zero(spec: &Spec) -> (r: String)
    ensures
        r@ == const_zero_text(spec.fn_name@),
{
    let mut s = string_of("pub fn ");
    push_str(&mut s, spec.fn_name);
    push_str(&mut s, "(xs: &[i64]) -> i64 { let _ = xs; 0 }\n");
    s
}

// ---- the family ------------------------------------------------------------

pub open spec fn weight_kind_text(w: Weight) -> Seq<char> {
    match w {
        Weight::Linear => "linear"@,
        Weight::Reverse => "reverse"@,
        Weight::Parity => "parity"@,
    }
}

pub open spec fn map_kind_text(m: ElemMap) -> Seq<char> {
    match m {
        ElemMap::Identity => "identity"@,
        ElemMap::Double => "double"@,
        ElemMap::Square => "square"@,
        ElemMap::Negate => "negate"@,
    }
}

pub struct IdiomCounterFamily;

impl IdiomCounterFamily {
    pub fn id(&self) -> (r: &'static str)
        ensures
            r@ == "idiom-counter"@,
    {
        "idiom-counter"
    }

    pub fn category(&self) -> (r: &'static str)
        ensures
            r@ == "idiom-refactor"@,
    {
        "idiom-refactor"
    }

    /// The instance for `seed`: a pure function of the seed. The constraint
    /// layer is clippy alone, and it dominates the weights.
    pub fn generate(&self, seed: u64) -> (r: GeneratedTask)
        ensures
            r.id@ == task_id_text("idiom-counter"@, seed),
            r.category@ == "idiom-refactor"@,
            r.canary@ == canary_text("idiom-counter"@, seed),
            r.prompt@ == prompt_text(sample_name(seed), sample_weight(seed), sample_map(seed), seed, r.canary@),
            r.answer_path@ == "src/lib.rs"@,
            r.files@.len() == 2,
            r.files@[0].0@ == "Cargo.toml"@,
            r.files@[0].1@ == cargo_toml_text(),
            r.files@[1].0@ == "src/lib.rs"@,
            r.files@[1].1@ == skeleton_text(sample_name(seed), sample_weight(seed), sample_map(seed), seed),
            r.hidden@.len() == 2,
            r.hidden@[0].0@ == "tests/behavior.rs"@,
            r.hidden@[0].1@ == behavior_text(sample_name(seed), sample_weight(seed), sample_map(seed), seed),
            r.hidden@[1].0@ == "tests/differential.rs"@,
            r.hidden@[1].1@ == differential_text(sample_name(seed), sample_weight(seed), sample_map(seed)),
            r.behavior_test@ == "behavior"@,
            r.differential_test@ == "differential"@,
            r.alloc_test@ == Seq::<char>::empty(),
            r.max_unsafe is None,
            r.forbidden_paths@.len() == 0,
            r.check_clippy,
            r.clippy_allow@.len() == 0,
            r.weights == (Weights { behavior: 30, constraint: 60, quality: 10 }),
    {
        let spec = sample(seed);
        let canary = mint_canary("idiom-counter", seed);
        let mut files: Vec<(String, String)> = Vec::new();
        files.push((string_of("Cargo.toml"), cargo_toml()));
        files.push((string_of("src/lib.rs"), skeleton_src(&spec, seed)));
        let mut hidden: Vec<(String, String)> = Vec::new();
        hidden.push((string_of("tests/behavior.rs"), behavior_test_src(&spec, seed)));
        hidden.push((string_of("tests/differential.rs"), differential_test_src(&spec)));
        let prompt = prompt(&spec, seed, canary.as_str());
        GeneratedTask {
            id: task_id("idiom-counter", seed),
            category: string_of("idiom-refactor"),
            prompt,
            canary,
            answer_path: string_of("src/lib.rs"),
            files,
            hidden,
            behavior_test: string_of("behavior"),
            differential_test: string_of("differential"),
            alloc_test: String::new(),
            max_unsafe: None,
            forbidden_paths: Vec::new(),
            check_clippy: true,
            clippy_allow: Vec::new(),
            weights: Weights { behavior: 30, constraint: 60, quality: 10 },
        }
    }

    pub fn reference_code(&self, seed: u64) -> (r: String)
        ensures
            r@ == reference_text(sample_name(seed), sample_weight(seed), sample_map(seed)),
    {
        reference_src(&sample(seed))
    }

    pub fn skeleton_code(&self, seed: u64) -> (r: String)
        ensures
            r@ == skeleton_text(sample_name(seed), sample_weight(seed), sample_map(seed), seed),
    {
        skeleton_src(&sample(seed), seed)
    }

    /// Degenerate answers `(label, code)`: the unchanged loop (correct, but
    /// caught by clippy) and a constant.
    pub fn trivial_baselines(&self, seed: u64) -> (r: Vec<(String, String)>)
        ensures
            r@.len() == 2,
            r@[0].0@ == "unchanged"@,
            r@[0].1@ == deidiom_core_text(sample_name(seed), sample_weight(seed), sample_map(seed)) + "\n"@,
            r@[1].0@ == "const-zero"@,
            r@[1].1@ == const_zero_text(sample_name(seed)),
    {
        let spec = sample(seed);
        let mut v: Vec<(String, String)> = Vec::new();
        v.push((string_of("unchanged"), deidiom_src(&spec)));
        v.push((string_of("const-zero"), const_zero(&spec)));
        v
    }

    /// The structural identity: the (weight, map) pair.
    pub fn spec_signature(&self, seed: u64) -> (r: Vec<String>)
        ensures
            r@.len() == 2,
            r@[0]@ == "weight:"@ + weight_kind_text(sample_weight(seed)),
            r@[1]@ == "map:"@ + map_kind_text(sample_map(seed)),
    {
        let spec = sample(seed);
        let weight = match spec.weight {
            Weight::Linear => "linear",
            Weight::Reverse => "reverse",
            Weight::Parity => "parity",
        };
        let map = match spec.map {
            ElemMap::Identity => "identity",
            ElemMap::Double => "double",
            ElemMap::Square => "square",
            ElemMap::Negate => "negate",
        };
        let mut a = string_of("weight:");
        push_str(&mut a, weight);
        let mut b = string_of("map:");
        push_str(&mut b, map);
        let mut v: Vec<String> = Vec::new();
        v.push(a);
        v.push(b);
        v
    }
}

/// Under every (weight, map) pair the canonical `[3, 1, 4, 2]` sums to a
/// non-zero value: the `const-zero` baseline fails the first worked example
/// of every instance.
pub proof fn law_canonical_nonzero(w: Weight, m: ElemMap)
    ensures
        weighted(w, m, canonical()) != 0,
{
    let c = canonical();
    let p1 = partial(w, m, c, 1);
    let p2 = partial(w, m, c, 2);
    let p3 = partial(w, m, c, 3);
    let p4 = partial(w, m, c, 4);
    assert(partial(w, m, c, 0) == 0);
    assert(p1 == weight_spec(w, 0, 4) * map_spec(m, 3));
    assert(p2 == p1 + weight_spec(w, 1, 4) * map_spec(m, 1));
    assert(p3 == p2 + weight_spec(w, 2, 4) * map_spec(m, 4));
    assert(p4 == p3 + weight_spec(w, 3, 4) * map_spec(m, 2));
    assert(0int % 2 == 0 && 1int % 2 == 1 && 2int % 2 == 0 && 3int % 2 == 1);
    let (a, b, d, e) = (map_spec(m, 3), map_spec(m, 1), map_spec(m, 4), map_spec(m, 2));
    if m == ElemMap::Identity {
        assert(a == 3 && b == 1 && d == 4 && e == 2);
    } else if m == ElemMap::Double {
        assert(a == 6 && b == 2 && d == 8 && e == 4);
    } else if m == ElemMap::Square {
        assert(a == 9 && b == 1 && d == 16 && e == 4);
    } else {
        assert(a == -3 && b == -1 && d == -4 && e == -2);
    }
    if w == Weight::Linear {
        assert(p4 == a + 2 * b + 3 * d + 4 * e);
    } else if w == Weight::Reverse {
        assert(p4 == 4 * a + 3 * b + 2 * d + e);
    } else {
        assert(weight_spec(w, 0, 4) == 1 && weight_spec(w, 1, 4) == -1);
        assert(weight_spec(w, 2, 4) == 1 && weight_spec(w, 3, 4) == -1);
        let (w0, w1, w2, w3) = (weight_spec(w, 0, 4), weight_spec(w, 1, 4), weight_spec(w, 2, 4), weight_spec(w, 3, 4));
        assert(p4 == w0 * a + w1 * b + w2 * d + w3 * e);
        assert(w0 * a + w1 * b + w2 * d + w3 * e == a - b + d - e) by (nonlinear_arith)
            requires w0 == 1, w1 == -1, w2 == 1, w3 == -1;
    }
}

} // verus!
