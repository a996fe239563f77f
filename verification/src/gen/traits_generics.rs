//! The `trait-impl` family (category `traits-generics`).
//!
//! The model implements a pinned `Aggregate` trait for a struct: `keep`,
//! `identity` and `combine`, which a provided generic driver folds a slice
//! through. The seed selects which elements are kept (positive, even,
//! non-negative, odd) and how they reduce (sum, product, count, sum of squares,
//! sum of absolute values), plus the cosmetic struct and driver names.

use vstd::prelude::*;
use crate::rng::{Rng, draw};
use crate::digest::{mint_canary, canary_text};
use crate::text::{push_str, push_u64, push_i64, push_debug_list, push_doc_block, push_terminated,
    dec_nat, dec_int, debug_list, doc_block, terminated, string_views, string_of};
use crate::gen::{GeneratedTask, Weights, cargo_toml, cargo_toml_text, task_id, task_id_text,
    push_prompt_tail, prompt_tail};
use crate::gen::fold::{pow100, all_small, lemma_small_step, lemma_pow100_mono, lemma_pow100_8,
    small_input, small_next, random_small_input};

verus! {

/// Axis 1: which elements are folded.
#[derive(Clone, Copy, Debug, PartialEq, Eq, Structural)]
pub enum Keep {
    Positive,
    Even,
    NonNegative,
    Odd,
}

/// Axis 2: how kept elements combine (with an identity element).
#[derive(Clone, Copy, Debug, PartialEq, Eq, Structural)]
pub enum Reduce {
    Sum,
    Product,
    Count,
    SumOfSquares,
    SumOfAbs,
}

pub struct Spec {
    pub keep: Keep,
    pub reduce: Reduce,
    /// The aggregator struct's name (cosmetic).
    pub struct_name: &'static str,
    /// The generic driver function's name (cosmetic).
    pub driver_name: &'static str,
}

// ---- semantics -------------------------------------------------------------

pub open spec fn kept_spec(k: Keep, x: int) -> bool {
    match k {
        Keep::Positive => x > 0,
        Keep::Even => x % 2 == 0,
        Keep::NonNegative => x >= 0,
        Keep::Odd => x % 2 != 0,
    }
}

pub open spec fn identity_spec(r: Reduce) -> int {
    match r {
        Reduce::Product => 1,
        _ => 0,
    }
}

pub open spec fn step_int(r: Reduce, acc: int, x: int) -> int {
    match r {
        Reduce::Sum => acc + x,
        Reduce::Product => acc * x,
        Reduce::Count => acc + 1,
        Reduce::SumOfSquares => acc + x * x,
        Reduce::SumOfAbs => acc + (if x < 0 { -x } else { x }),
    }
}

pub open spec fn in_i64(x: int) -> bool {
    i64::MIN <= x <= i64::MAX
}

/// The step's intermediate values and result fit in `i64`.
pub open spec fn step_fits(r: Reduce, acc: int, x: int) -> bool {
    match r {
        Reduce::SumOfSquares => in_i64(x * x) && in_i64(acc + x * x),
        Reduce::SumOfAbs => in_i64(-x) && in_i64(step_int(r, acc, x)),
        _ => in_i64(step_int(r, acc, x)),
    }
}

/// Fold every kept element of `xs`, left to right, from the identity.
pub open spec fn fold_kept(k: Keep, r: Reduce, xs: Seq<i64>) -> int
    decreases xs.len(),
{
    if xs.len() == 0 {
        identity_spec(r)
    } else {
        let acc = fold_kept(k, r, xs.drop_last());
        if kept_spec(k, xs.last() as int) { step_int(r, acc, xs.last() as int) } else { acc }
    }
}

/// No step of the fold overflows.
pub open spec fn fold_fits(k: Keep, r: Reduce, xs: Seq<i64>) -> bool
    decreases xs.len(),
{
    if xs.len() == 0 {
        true
    } else {
        fold_fits(k, r, xs.drop_last()) && (kept_spec(k, xs.last() as int) ==> step_fits(r,
            fold_kept(k, r, xs.drop_last()), xs.last() as int))
    }
}

pub fn kept(keep: Keep, x: i64) -> (r: bool)
    ensures
        r == kept_spec(keep, x as int),
{
    match keep {
        Keep::Positive => x > 0,
        Keep::Even => x % 2 == 0,
        Keep::NonNegative => x >= 0,
        Keep::Odd => x % 2 != 0,
    }
}

pub fn identity_val(reduce: Reduce) -> (r: i64)
    ensures
        r == identity_spec(reduce),
{
    match reduce {
        Reduce::Product => 1,
        _ => 0,
    }
}

pub fn step(reduce: Reduce, acc: i64, x: i64) -> (r: i64)
    requires
        step_fits(reduce, acc as int, x as int),
    ensures
        r == step_int(reduce, acc as int, x as int),
{
    match reduce {
        Reduce::Sum => acc + x,
        Reduce::Product => acc * x,
        Reduce::Count => acc + 1,
        Reduce::SumOfSquares => acc + x * x,
        Reduce::SumOfAbs => acc + x.abs(),
    }
}

proof fn lemma_fits_prefix(k: Keep, r: Reduce, xs: Seq<i64>, n: nat)
    requires
        fold_fits(k, r, xs),
        n <= xs.len(),
    ensures
        fold_fits(k, r, xs.take(n as int)),
    decreases xs.len(),
{
    if n < xs.len() {
        lemma_fits_prefix(k, r, xs.drop_last(), n);
        assert(xs.drop_last().take(n as int) =~= xs.take(n as int));
    } else {
        assert(xs.take(n as int) =~= xs);
    }
}

/// The answer: fold every kept element left to right from the identity.
pub fn eval(spec: &Spec, xs: &[i64]) -> (r: i64)
    requires
        fold_fits(spec.keep, spec.reduce, xs@),
    ensures
        r == fold_kept(spec.keep, spec.reduce, xs@),
{
    let mut acc = identity_val(spec.reduce);
    let mut i: usize = 0;
    while i < xs.len()
        invariant
            i <= xs.len(),
            fold_fits(spec.keep, spec.reduce, xs@),
            acc == fold_kept(spec.keep, spec.reduce, xs@.take(i as int)),
        decreases xs.len() - i,
    {
        let x = xs[i];
        proof {
            let t = xs@.take(i + 1);
            assert(t.drop_last() =~= xs@.take(i as int));
            lemma_fits_prefix(spec.keep, spec.reduce, xs@, (i + 1) as nat);
        }
        if kept(spec.keep, x) {
            acc = step(spec.reduce, acc, x);
        }
        i = i + 1;
    }
    assert(xs@.take(xs.len() as int) =~= xs@);
    acc
}

/// Small values (`|v| <= 9`, at most 8 of them) never overflow.
pub proof fn lemma_small_fold_fits(k: Keep, r: Reduce, xs: Seq<i64>)
    requires
        all_small(xs),
        xs.len() <= 8,
    ensures
        fold_fits(k, r, xs),
        -pow100(xs.len()) <= fold_kept(k, r, xs) <= pow100(xs.len()),
    decreases xs.len(),
{
    if xs.len() > 0 {
        let init = xs.drop_last();
        assert(all_small(init));
        lemma_small_fold_fits(k, r, init);
        let acc = fold_kept(k, r, init);
        let v = xs.last() as int;
        lemma_small_step(acc, v, init.len());
        lemma_pow100_mono(init.len(), xs.len());
        lemma_pow100_mono(xs.len(), 8);
        lemma_pow100_8();
    } else {
        lemma_pow100_mono(0, 0);
    }
}

// ---- sampling --------------------------------------------------------------

pub open spec fn keep_of(i: u64) -> Keep {
    if i == 0 { Keep::Positive } else if i == 1 { Keep::Even } else if i == 2 { Keep::NonNegative } else { Keep::Odd }
}

pub open spec fn reduce_of(i: u64) -> Reduce {
    if i == 0 { Reduce::Sum }
    else if i == 1 { Reduce::Product }
    else if i == 2 { Reduce::Count }
    else if i == 3 { Reduce::SumOfSquares }
    else { Reduce::SumOfAbs }
}

pub open spec fn struct_name_text(i: u64) -> Seq<char> {
    if i == 0 { "Agg"@ }
    else if i == 1 { "Reducer"@ }
    else if i == 2 { "Folder"@ }
    else if i == 3 { "Tally"@ }
    else if i == 4 { "Collector"@ }
    else { "Combiner"@ }
}

pub open spec fn driver_name_text(i: u64) -> Seq<char> {
    if i == 0 { "aggregate"@ }
    else if i == 1 { "run_fold"@ }
    else if i == 2 { "reduce_slice"@ }
    else if i == 3 { "fold_all"@ }
    else if i == 4 { "drive"@ }
    else { "apply"@ }
}

pub open spec fn sample_keep(seed: u64) -> Keep {
    keep_of(draw(seed, 0) % 4)
}

pub open spec fn sample_reduce(seed: u64) -> Reduce {
    reduce_of(draw(seed, 1) % 5)
}

pub open spec fn sample_struct(seed: u64) -> Seq<char> {
    struct_name_text(draw(seed, 2) % 6)
}

pub open spec fn sample_driver(seed: u64) -> Seq<char> {
    driver_name_text(draw(seed, 3) % 6)
}

fn struct_name_at(i: u64) -> (r: &'static str)
    requires
        i < 6,
    ensures
        r@ == struct_name_text(i),
{
    if i == 0 { "Agg" }
    else if i == 1 { "Reducer" }
    else if i == 2 { "Folder" }
    else if i == 3 { "Tally" }
    else if i == 4 { "Collector" }
    else { "Combiner" }
}

fn driver_name_at(i: u64) -> (r: &'static str)
    requires
        i < 6,
    ensures
        r@ == driver_name_text(i),
{
    if i == 0 { "aggregate" }
    else if i == 1 { "run_fold" }
    else if i == 2 { "reduce_slice" }
    else if i == 3 { "fold_all" }
    else if i == 4 { "drive" }
    else { "apply" }
}

/// The spec for `seed`: every choice is a function of the seed's stream.
pub fn sample(seed: u64) -> (r: Spec)
    ensures
        r.keep == sample_keep(seed),
        r.reduce == sample_reduce(seed),
        r.struct_name@ == sample_struct(seed),
        r.driver_name@ == sample_driver(seed),
{
    let mut rng = Rng::new(seed);
    let a = rng.below(4);
    let keep = if a == 0 { Keep::Positive } else if a == 1 { Keep::Even } else if a == 2 { Keep::NonNegative } else { Keep::Odd };
    let b = rng.below(5);
    let reduce = if b == 0 {
        Reduce::Sum
    } else if b == 1 {
        Reduce::Product
    } else if b == 2 {
        Reduce::Count
    } else if b == 3 {
        Reduce::SumOfSquares
    } else {
        Reduce::SumOfAbs
    };
    let struct_name = struct_name_at(rng.below(6));
    let driver_name = driver_name_at(rng.below(6));
    Spec { keep, reduce, struct_name, driver_name }
}

// ---- emitted-source fragments ----------------------------------------------

pub open spec fn keep_expr_text(k: Keep, op: Seq<char>) -> Seq<char> {
    match k {
        Keep::Positive => op + " > 0"@,
        Keep::Even => op + " % 2 == 0"@,
        Keep::NonNegative => op + " >= 0"@,
        Keep::Odd => op + " % 2 != 0"@,
    }
}

pub fn keep_expr(keep: Keep, operand: &str) -> (r: String)
    ensures
        r@ == keep_expr_text(keep, operand@),
{
    let mut s = string_of(operand);
    match keep {
        Keep::Positive => push_str(&mut s, " > 0"),
        Keep::Even => push_str(&mut s, " % 2 == 0"),
        Keep::NonNegative => push_str(&mut s, " >= 0"),
        Keep::Odd => push_str(&mut s, " % 2 != 0"),
    }
    s
}

pub open spec fn identity_expr_text(r: Reduce) -> Seq<char> {
    match r {
        Reduce::Product => "1"@,
        _ => "0"@,
    }
}

pub fn identity_expr(reduce: Reduce) -> (r: &'static str)
    ensures
        r@ == identity_expr_text(reduce),
{
    match reduce {
        Reduce::Product => "1",
        _ => "0",
    }
}

pub open spec fn combine_expr_text(r: Reduce, op: Seq<char>) -> Seq<char> {
    match r {
        Reduce::Sum => "acc + "@ + op,
        Reduce::Product => "acc * "@ + op,
        Reduce::Count => "acc + 1"@,
        Reduce::SumOfSquares => "acc + "@ + op + " * "@ + op,
        Reduce::SumOfAbs => "acc + "@ + op + ".abs()"@,
    }
}

pub fn combine_expr(reduce: Reduce, operand: &str) -> (r: String)
    ensures
        r@ == combine_expr_text(reduce, operand@),
{
    match reduce {
        Reduce::Sum => {
            let mut s = string_of("acc + ");
            push_str(&mut s, operand);
            s
        },
        Reduce::Product => {
            let mut s = string_of("acc * ");
            push_str(&mut s, operand);
            s
        },
        Reduce::Count => string_of("acc + 1"),
        Reduce::SumOfSquares => {
            let mut s = string_of("acc + ");
            push_str(&mut s, operand);
            push_str(&mut s, " * ");
            push_str(&mut s, operand);
            s
        },
        Reduce::SumOfAbs => {
            let mut s = string_of("acc + ");
            push_str(&mut s, operand);
            push_str(&mut s, ".abs()");
            s
        },
    }
}

pub open spec fn keep_prose_text(k: Keep) -> Seq<char> {
    match k {
        Keep::Positive => "strictly positive (`x > 0`)"@,
        Keep::Even => "even (`x % 2 == 0`)"@,
        Keep::NonNegative => "non-negative (`x >= 0`)"@,
        Keep::Odd => "odd (`x % 2 != 0`)"@,
    }
}

pub fn keep_prose(keep: Keep) -> (r: &'static str)
    ensures
        r@ == keep_prose_text(keep),
{
    match keep {
        Keep::Positive => "strictly positive (`x > 0`)",
        Keep::Even => "even (`x % 2 == 0`)",
        Keep::NonNegative => "non-negative (`x >= 0`)",
        Keep::Odd => "odd (`x % 2 != 0`)",
    }
}

pub open spec fn reduce_prose_text(r: Reduce) -> Seq<char> {
    match r {
        Reduce::Sum => "their sum (identity `0`)"@,
        Reduce::Product => "their product (identity `1`)"@,
        Reduce::Count => "the count of kept elements (identity `0`)"@,
        Reduce::SumOfSquares => "the sum of their squares (identity `0`)"@,
        Reduce::SumOfAbs => "the sum of their absolute values (identity `0`)"@,
    }
}

pub fn reduce_prose(reduce: Reduce) -> (r: &'static str)
    ensures
        r@ == reduce_prose_text(reduce),
{
    match reduce {
        Reduce::Sum => "their sum (identity `0`)",
        Reduce::Product => "their product (identity `1`)",
        Reduce::Count => "the count of kept elements (identity `0`)",
        Reduce::SumOfSquares => "the sum of their squares (identity `0`)",
        Reduce::SumOfAbs => "the sum of their absolute values (identity `0`)",
    }
}

/// The pinned trait: the provided interface the model must keep.
pub open spec fn trait_text() -> Seq<char> {
    "pub trait Aggregate {\n    /// The element type consumed from the slice.\n    type Item;\n    /// Keep this element in the fold?\n    fn keep(&self, item: &Self::Item) -> bool;\n    /// The accumulator's starting value.\n    fn identity(&self) -> i64;\n    /// Fold one kept element into the accumulator.\n    fn combine(&self, acc: i64, item: Self::Item) -> i64;\n}\n"@
}

pub fn trait_src() -> (r: &'static str)
    ensures
        r@ == trait_text(),
{
    "pub trait Aggregate {\n    /// The element type consumed from the slice.\n    type Item;\n    /// Keep this element in the fold?\n    fn keep(&self, item: &Self::Item) -> bool;\n    /// The accumulator's starting value.\n    fn identity(&self) -> i64;\n    /// Fold one kept element into the accumulator.\n    fn combine(&self, acc: i64, item: Self::Item) -> i64;\n}\n"
}

/// The pinned generic driver.
pub open spec fn driver_text(driver: Seq<char>) -> Seq<char> {
    "/// Fold `xs` through `agg`: start at `identity`, then `combine` every kept\n/// element left to right. (Provided \u{2014} keep it as-is.)\npub fn "@
        + driver + "<A: Aggregate<Item = i64>>(agg: &A, xs: &[i64]) -> i64 {\n    let mut acc = agg.identity();\n    for &x in xs {\n        if agg.keep(&x) {\n            acc = agg.combine(acc, x);\n        }\n    }\n    acc\n}\n"@
}

pub fn driver_src(spec: &Spec) -> (r: String)
    ensures
        r@ == driver_text(spec.driver_name@),
{
    let mut s = string_of("/// Fold `xs` through `agg`: start at `identity`, then `combine` every kept\n/// element left to right. (Provided \u{2014} keep it as-is.)\npub fn ");
    push_str(&mut s, spec.driver_name);
    push_str(&mut s, "<A: Aggregate<Item = i64>>(agg: &A, xs: &[i64]) -> i64 {\n    let mut acc = agg.identity();\n    for &x in xs {\n        if agg.keep(&x) {\n            acc = agg.combine(acc, x);\n        }\n    }\n    acc\n}\n");
    s
}

pub open spec fn combine_body_text(r: Reduce) -> Seq<char> {
    match r {
        Reduce::Count => "let _ = item;\n        acc + 1"@,
        _ => combine_expr_text(r, "item"@),
    }
}

/// The trait `impl` the model must write.
pub open spec fn impl_text(name: Seq<char>, k: Keep, r: Reduce) -> Seq<char> {
    "impl Aggregate for "@ + name
        + " {\n    type Item = i64;\n    fn keep(&self, item: &Self::Item) -> bool {\n        "@
        + keep_expr_text(k, "*item"@) + "\n    }\n    fn identity(&self) -> i64 {\n        "@
        + identity_expr_text(r) + "\n    }\n    fn combine(&self, acc: i64, item: Self::Item) -> i64 {\n        "@
        + combine_body_text(r) + "\n    }\n}\n"@
}

pub fn impl_src(spec: &Spec) -> (r: String)
    ensures
        r@ == impl_text(spec.struct_name@, spec.keep, spec.reduce),
{
    let combine_body = match spec.reduce {
        Reduce::Count => string_of("let _ = item;\n        acc + 1"),
        r => combine_expr(r, "item"),
    };
    let mut s = string_of("impl Aggregate for ");
    push_str(&mut s, spec.struct_name);
    push_str(&mut s, " {\n    type Item = i64;\n    fn keep(&self, item: &Self::Item) -> bool {\n        ");
    let k = keep_expr(spec.keep, "*item");
    push_str(&mut s, k.as_str());
    push_str(&mut s, "\n    }\n    fn identity(&self) -> i64 {\n        ");
    push_str(&mut s, identity_expr(spec.reduce));
    push_str(&mut s, "\n    }\n    fn combine(&self, acc: i64, item: Self::Item) -> i64 {\n        ");
    push_str(&mut s, combine_body.as_str());
    push_str(&mut s, "\n    }\n}\n");
    s
}

pub open spec fn reference_text(name: Seq<char>, driver: Seq<char>, k: Keep, r: Reduce) -> Seq<char> {
    trait_text() + "\n"@ + driver_text(driver) + "\n/// The aggregator to implement `Aggregate` for.\npub struct "@
        + name + ";\n\n"@ + impl_text(name, k, r)
}

/// The correct reference: trait, driver, struct and `impl`.
pub fn reference_src(spec: &Spec) -> (r: String)
    ensures
        r@ == reference_text(spec.struct_name@, spec.driver_name@, spec.keep, spec.reduce),
{
    let mut s = string_of(trait_src());
    push_str(&mut s, "\n");
    let d = driver_src(spec);
    push_str(&mut s, d.as_str());
    push_str(&mut s, "\n/// The aggregator to implement `Aggregate` for.\npub struct ");
    push_str(&mut s, spec.struct_name);
    push_str(&mut s, ";\n\n");
    let i = impl_src(spec);
    push_str(&mut s, i.as_str());
    s
}

// ---- worked examples -------------------------------------------------------

/// Two evens, two odds, all positive.
pub open spec fn canonical() -> Seq<i64> {
    seq![2i64, 3, 4, 5]
}

pub open spec fn example_seed(seed: u64) -> u64 {
    seed ^ 0x7A17_0000_0000_0011u64
}

/// The example inputs: the canonical `[2, 3, 4, 5]`, then three random ones.
pub open spec fn example_inputs(seed: u64) -> Seq<Seq<i64>> {
    let s = example_seed(seed);
    let k1 = small_next(s, 0);
    let k2 = small_next(s, k1);
    seq![canonical(), small_input(s, 0), small_input(s, k1), small_input(s, k2)]
}

pub open spec fn example_line(input: Seq<i64>, out: int) -> Seq<char> {
    "  "@ + debug_list(input) + "  ->  "@ + dec_int(out)
}

pub open spec fn example_lines(k: Keep, r: Reduce, seed: u64) -> Seq<Seq<char>> {
    example_inputs(seed).map_values(|x: Seq<i64>| example_line(x, fold_kept(k, r, x)))
}

/// One worked example: (input, expected scalar).
pub type ExampleCase = (Vec<i64>, i64);

pub open spec fn example_cases(k: Keep, r: Reduce, seed: u64) -> Seq<(Seq<i64>, int)> {
    example_inputs(seed).map_values(|x: Seq<i64>| (x, fold_kept(k, r, x)))
}

pub open spec fn case_view(c: ExampleCase) -> (Seq<i64>, int) {
    (c.0@, c.1 as int)
}

fn example_input_vecs(seed: u64) -> (r: Vec<Vec<i64>>)
    ensures
        r@.len() == 4,
        forall|i: int| 0 <= i < 4 ==> (#[trigger] r@[i])@ == example_inputs(seed)[i],
        forall|i: int| 0 <= i < 4 ==> all_small(#[trigger] r@[i]@) && r@[i]@.len() <= 8,
{
    let mut rng = Rng::new(seed ^ 0x7A17_0000_0000_0011);
    let mut inputs: Vec<Vec<i64>> = Vec::new();
    let c: Vec<i64> = vec![2, 3, 4, 5];
    assert(c@ =~= canonical());
    inputs.push(c);
    let a = random_small_input(&mut rng);
    let b = random_small_input(&mut rng);
    let d = random_small_input(&mut rng);
    inputs.push(a);
    inputs.push(b);
    inputs.push(d);
    inputs
}

fn example_line_string(input: &Vec<i64>, out: i64) -> (r: String)
    ensures
        r@ == example_line(input@, out as int),
{
    let mut s = string_of("  ");
    push_debug_list(&mut s, input.as_slice());
    push_str(&mut s, "  ->  ");
    push_i64(&mut s, out);
    s
}

/// The worked examples as lines (without newlines) and cases.
pub fn example_data(spec: &Spec, seed: u64) -> (r: (Vec<String>, Vec<ExampleCase>))
    ensures
        string_views(r.0@) == example_lines(spec.keep, spec.reduce, seed),
        r.1@.len() == 4,
        forall|i: int| 0 <= i < 4 ==> case_view(#[trigger] r.1@[i]) == example_cases(spec.keep, spec.reduce, seed)[i],
{
    let inputs = example_input_vecs(seed);
    let mut lines: Vec<String> = Vec::new();
    let mut cases: Vec<ExampleCase> = Vec::new();
    let mut j: usize = 0;
    while j < inputs.len()
        invariant
            j <= inputs.len(),
            inputs@.len() == 4,
            forall|i: int| 0 <= i < 4 ==> (#[trigger] inputs@[i])@ == example_inputs(seed)[i],
            forall|i: int| 0 <= i < 4 ==> all_small(#[trigger] inputs@[i]@) && inputs@[i]@.len() <= 8,
            lines@.len() == j,
            cases@.len() == j,
            forall|q: int| 0 <= q < j ==> #[trigger] lines@[q]@ == example_lines(spec.keep, spec.reduce, seed)[q],
            forall|q: int| 0 <= q < j ==> case_view(#[trigger] cases@[q]) == example_cases(spec.keep, spec.reduce, seed)[q],
        decreases inputs.len() - j,
    {
        let input = inputs[j].clone();
        proof {
            lemma_small_fold_fits(spec.keep, spec.reduce, input@);
        }
        let out = eval(spec, input.as_slice());
        lines.push(example_line_string(&input, out));
        cases.push((input, out));
        j = j + 1;
    }
    assert(string_views(lines@) =~= example_lines(spec.keep, spec.reduce, seed));
    (lines, cases)
}

/// Worked examples: the prose block and the cases.
pub fn worked_examples(spec: &Spec, seed: u64) -> (r: (String, Vec<ExampleCase>))
    ensures
        r.0@ == terminated(example_lines(spec.keep, spec.reduce, seed)),
        r.1@.len() == 4,
        forall|i: int| 0 <= i < 4 ==> case_view(#[trigger] r.1@[i]) == example_cases(spec.keep, spec.reduce, seed)[i],
{
    let (lines, cases) = example_data(spec, seed);
    let mut prose = String::new();
    push_terminated(&mut prose, &lines);
    (prose, cases)
}

// ---- the files of an instance ----------------------------------------------

pub open spec fn skeleton_text(name: Seq<char>, driver: Seq<char>, k: Keep, r: Reduce, seed: u64) -> Seq<char> {
    "//! Implement `Aggregate` for `"@ + name
        + "` below (fill in the three method\n//! bodies). The trait and the `"@ + driver
        + "` driver are provided \u{2014} keep them.\n//!\n"@ + doc_block(example_lines(k, r, seed)) + "\n"@
        + trait_text() + "\n"@ + driver_text(driver)
        + "\n/// The aggregator to implement `Aggregate` for.\npub struct "@ + name + ";\n\nimpl Aggregate for "@
        + name
        + " {\n    type Item = i64;\n    fn keep(&self, item: &Self::Item) -> bool {\n        todo!()\n    }\n    fn identity(&self) -> i64 {\n        todo!()\n    }\n    fn combine(&self, acc: i64, item: Self::Item) -> i64 {\n        todo!()\n    }\n}\n"@
}

pub fn skeleton_src(spec: &Spec, seed: u64) -> (r: String)
    ensures
        r@ == skeleton_text(spec.struct_name@, spec.driver_name@, spec.keep, spec.reduce, seed),
{
    let (lines, _) = example_data(spec, seed);
    let mut s = string_of("//! Implement `Aggregate` for `");
    push_str(&mut s, spec.struct_name);
    push_str(&mut s, "` below (fill in the three method\n//! bodies). The trait and the `");
    push_str(&mut s, spec.driver_name);
    push_str(&mut s, "` driver are provided \u{2014} keep them.\n//!\n");
    push_doc_block(&mut s, &lines);
    push_str(&mut s, "\n");
    push_str(&mut s, trait_src());
    push_str(&mut s, "\n");
    let d = driver_src(spec);
    push_str(&mut s, d.as_str());
    push_str(&mut s, "\n/// The aggregator to implement `Aggregate` for.\npub struct ");
    push_str(&mut s, spec.struct_name);
    push_str(&mut s, ";\n\nimpl Aggregate for ");
    push_str(&mut s, spec.struct_name);
    push_str(&mut s, " {\n    type Item = i64;\n    fn keep(&self, item: &Self::Item) -> bool {\n        todo!()\n    }\n    fn identity(&self) -> i64 {\n        todo!()\n    }\n    fn combine(&self, acc: i64, item: Self::Item) -> i64 {\n        todo!()\n    }\n}\n");
    s
}

pub open spec fn prompt_text(name: Seq<char>, driver: Seq<char>, k: Keep, r: Reduce, seed: u64, canary: Seq<char>) -> Seq<char> {
    "Implement the `Aggregate` trait for the `"@ + name
        + "` struct in `src/lib.rs`. The trait and the generic `"@ + driver
        + "` driver are already provided; keep them unchanged and fill in the three method bodies of the `impl`.\n\n`"@
        + driver
        + "` folds a slice by starting from `identity()`, then calling `combine(acc, x)` for every element `x` that `keep(&x)` returns true for, left to right. Implement the three methods so that the aggregation keeps the elements that are "@
        + keep_prose_text(k) + " and reduces them to "@ + reduce_prose_text(r)
        + ".\n\nSo `keep` returns whether an element is kept, `identity` returns the starting accumulator, and `combine` folds one kept element into the accumulator. An empty slice (or one where nothing is kept) yields the identity.\n\nConstraints:\n- Keep the associated type as `type Item = i64;` and keep every method signature exactly as given.\n- Do not use `unsafe`.\n\nProvided interface (in `src/lib.rs`):\n```rust\npub trait Aggregate {\n    type Item;\n    fn keep(&self, item: &Self::Item) -> bool;\n    fn identity(&self) -> i64;\n    fn combine(&self, acc: i64, item: Self::Item) -> i64;\n}\npub fn "@
        + driver + "<A: Aggregate<Item = i64>>(agg: &A, xs: &[i64]) -> i64;\npub struct "@ + name
        + ";\n```\n\nExamples (`"@ + driver + "(&"@ + name + ", xs)`):\n"@ + terminated(example_lines(k, r, seed))
        + "\n"@ + prompt_tail(canary)
}

pub fn prompt(spec: &Spec, seed: u64, canary: &str) -> (r: String)
    ensures
        r@ == prompt_text(spec.struct_name@, spec.driver_name@, spec.keep, spec.reduce, seed, canary@),
{
    let (examples, _) = worked_examples(spec, seed);
    let mut s = string_of("Implement the `Aggregate` trait for the `");
    push_str(&mut s, spec.struct_name);
    push_str(&mut s, "` struct in `src/lib.rs`. The trait and the generic `");
    push_str(&mut s, spec.driver_name);
    push_str(&mut s, "` driver are already provided; keep them unchanged and fill in the three method bodies of the `impl`.\n\n`");
    push_str(&mut s, spec.driver_name);
    push_str(&mut s, "` folds a slice by starting from `identity()`, then calling `combine(acc, x)` for every element `x` that `keep(&x)` returns true for, left to right. Implement the three methods so that the aggregation keeps the elements that are ");
    push_str(&mut s, keep_prose(spec.keep));
    push_str(&mut s, " and reduces them to ");
    push_str(&mut s, reduce_prose(spec.reduce));
    push_str(&mut s, ".\n\nSo `keep` returns whether an element is kept, `identity` returns the starting accumulator, and `combine` folds one kept element into the accumulator. An empty slice (or one where nothing is kept) yields the identity.\n\nConstraints:\n- Keep the associated type as `type Item = i64;` and keep every method signature exactly as given.\n- Do not use `unsafe`.\n\nProvided interface (in `src/lib.rs`):\n```rust\npub trait Aggregate {\n    type Item;\n    fn keep(&self, item: &Self::Item) -> bool;\n    fn identity(&self) -> i64;\n    fn combine(&self, acc: i64, item: Self::Item) -> i64;\n}\npub fn ");
    push_str(&mut s, spec.driver_name);
    push_str(&mut s, "<A: Aggregate<Item = i64>>(agg: &A, xs: &[i64]) -> i64;\npub struct ");
    push_str(&mut s, spec.struct_name);
    push_str(&mut s, ";\n```\n\nExamples (`");
    push_str(&mut s, spec.driver_name);
    push_str(&mut s, "(&");
    push_str(&mut s, spec.struct_name);
    push_str(&mut s, ", xs)`):\n");
    push_str(&mut s, examples.as_str());
    push_str(&mut s, "\n");
    push_prompt_tail(&mut s, canary);
    s
}

pub open spec fn case_test_text(name: Seq<char>, driver: Seq<char>, i: nat, c: (Seq<i64>, int)) -> Seq<char> {
    "#[test]\nfn ex"@ + dec_nat(i) + "() {\n    let xs: Vec<i64> = vec!"@ + debug_list(c.0) + ";\n    assert_eq!("@
        + driver + "(&"@ + name + ", &xs), "@ + dec_int(c.1) + ");\n}\n\n"@
}

pub open spec fn case_tests_text(name: Seq<char>, driver: Seq<char>, cases: Seq<(Seq<i64>, int)>) -> Seq<char>
    decreases cases.len(),
{
    if cases.len() == 0 {
        Seq::empty()
    } else {
        case_tests_text(name, driver, cases.drop_last()) + case_test_text(name, driver, (cases.len() - 1) as nat, cases.last())
    }
}

fn case_test_string(name: &str, driver: &str, i: usize, c: &ExampleCase) -> (r: String)
    ensures
        r@ == case_test_text(name@, driver@, i as nat, case_view(*c)),
{
    let mut s = string_of("#[test]\nfn ex");
    push_u64(&mut s, i as u64);
    push_str(&mut s, "() {\n    let xs: Vec<i64> = vec!");
    push_debug_list(&mut s, c.0.as_slice());
    push_str(&mut s, ";\n    assert_eq!(");
    push_str(&mut s, driver);
    push_str(&mut s, "(&");
    push_str(&mut s, name);
    push_str(&mut s, ", &xs), ");
    push_i64(&mut s, c.1);
    push_str(&mut s, ");\n}\n\n");
    s
}

pub open spec fn behavior_text(name: Seq<char>, driver: Seq<char>, k: Keep, r: Reduce, seed: u64) -> Seq<char> {
    "use task::{"@ + name + ", "@ + driver + "};\n\n"@ + case_tests_text(name, driver, example_cases(k, r, seed))
        + "#[test]\nfn empty_input() {\n    let xs: Vec<i64> = Vec::new();\n    assert_eq!("@ + driver + "(&"@
        + name + ", &xs), "@ + dec_int(identity_spec(r)) + ");\n}\n"@
}

pub fn behavior_test_src(spec: &Spec, seed: u64) -> (r: String)
    ensures
        r@ == behavior_text(spec.struct_name@, spec.driver_name@, spec.keep, spec.reduce, seed),
{
    let (_, cases) = worked_examples(spec, seed);
    let ghost cs = example_cases(spec.keep, spec.reduce, seed);
    assert forall|q: int| 0 <= q < 4 implies #[trigger] cs[q] == case_view(cases@[q]) by {}
    let mut s = string_of("use task::{");
    push_str(&mut s, spec.struct_name);
    push_str(&mut s, ", ");
    push_str(&mut s, spec.driver_name);
    push_str(&mut s, "};\n\n");
    let ghost start = s@;
    let mut i: usize = 0;
    while i < cases.len()
        invariant
            i <= cases.len(),
            cases@.len() == 4,
            cs.len() == 4,
            forall|q: int| 0 <= q < 4 ==> #[trigger] cs[q] == case_view(cases@[q]),
            s@ == start + case_tests_text(spec.struct_name@, spec.driver_name@, cs.take(i as int)),
        decreases cases.len() - i,
    {
        let t = case_test_string(spec.struct_name, spec.driver_name, i, &cases[i]);
        push_str(&mut s, t.as_str());
        assert(cs.take(i + 1).drop_last() =~= cs.take(i as int));
        i = i + 1;
    }
    assert(cs.take(4) =~= cs);
    push_str(&mut s, "#[test]\nfn empty_input() {\n    let xs: Vec<i64> = Vec::new();\n    assert_eq!(");
    push_str(&mut s, spec.driver_name);
    push_str(&mut s, "(&");
    push_str(&mut s, spec.struct_name);
    push_str(&mut s, ", &xs), ");
    push_i64(&mut s, identity_val(spec.reduce));
    push_str(&mut s, ");\n}\n");
    s
}

/// The free reference the differential test compares against.
pub open spec fn free_reference_text(k: Keep, r: Reduce) -> Seq<char> {
    "fn reference(xs: &[i64]) -> i64 {\n    let mut acc: i64 = "@ + identity_expr_text(r)
        + ";\n    for &x in xs {\n        if "@ + keep_expr_text(k, "x"@) + " {\n            acc = "@
        + combine_expr_text(r, "x"@) + ";\n        }\n    }\n    acc\n}\n"@
}

pub open spec fn differential_text(name: Seq<char>, driver: Seq<char>, k: Keep, r: Reduce) -> Seq<char> {
    "use task::{"@ + name + ", "@ + driver + "};\n\n"@ + free_reference_text(k, r)
        + "\n#[test]\nfn differential_vs_reference() {\n    let mut state: u64 = 0x7A17_ED00_0000_0042;\n    let mut next = || {\n        state = state.wrapping_mul(6364136223846793005).wrapping_add(1442695040888963407);\n        (state >> 33) as u64\n    };\n    for _ in 0..3000 {\n        let len = (next() % 12) as usize;\n        let xs: Vec<i64> = (0..len).map(|_| (next() % 19) as i64 - 9).collect();\n        assert_eq!("@
        + driver + "(&"@ + name + ", &xs), reference(&xs), \"mismatch: {xs:?}\");\n    }\n}\n"@
}

fn free_reference_src(k: Keep, r: Reduce) -> (out: String)
    ensures
        out@ == free_reference_text(k, r),
{
    let mut s = string_of("fn reference(xs: &[i64]) -> i64 {\n    let mut acc: i64 = ");
    push_str(&mut s, identity_expr(r));
    push_str(&mut s, ";\n    for &x in xs {\n        if ");
    let ke = keep_expr(k, "x");
    push_str(&mut s, ke.as_str());
    push_str(&mut s, " {\n            acc = ");
    let c = combine_expr(r, "x");
    push_str(&mut s, c.as_str());
    push_str(&mut s, ";\n        }\n    }\n    acc\n}\n");
    s
}

pub fn differential_test_src(spec: &Spec) -> (r: String)
    ensures
        r@ == differential_text(spec.struct_name@, spec.driver_name@, spec.keep, spec.reduce),
{
    let mut s = string_of("use task::{");
    push_str(&mut s, spec.struct_name);
    push_str(&mut s, ", ");
    push_str(&mut s, spec.driver_name);
    push_str(&mut s, "};\n\n");
    let f = free_reference_src(spec.keep, spec.reduce);
    push_str(&mut s, f.as_str());
    push_str(&mut s, "\n#[test]\nfn differential_vs_reference() {\n    let mut state: u64 = 0x7A17_ED00_0000_0042;\n    let mut next = || {\n        state = state.wrapping_mul(6364136223846793005).wrapping_add(1442695040888963407);\n        (state >> 33) as u64\n    };\n    for _ in 0..3000 {\n        let len = (next() % 12) as usize;\n        let xs: Vec<i64> = (0..len).map(|_| (next() % 19) as i64 - 9).collect();\n        assert_eq!(");
    push_str(&mut s, spec.driver_name);
    push_str(&mut s, "(&");
    push_str(&mut s, spec.struct_name);
    push_str(&mut s, ", &xs), reference(&xs), \"mismatch: {xs:?}\");\n    }\n}\n");
    s
}

/// A degenerate answer: keeps nothing, so the driver returns `identity`.
pub open spec fn degenerate_text(name: Seq<char>, driver: Seq<char>, identity: Seq<char>) -> Seq<char> {
    trait_text() + "\n"@ + driver_text(driver) + "\npub struct "@ + name + ";\n\nimpl Aggregate for "@ + name
        + " {\n    type Item = i64;\n    fn keep(&self, _item: &Self::Item) -> bool { false }\n    fn identity(&self) -> i64 { "@
        + identity + " }\n    fn combine(&self, acc: i64, _item: Self::Item) -> i64 { acc }\n}\n"@
}

pub fn degenerate(spec: &Spec, identity: &str) -> (r: String)
    ensures
        r@ == degenerate_text(spec.struct_name@, spec.driver_name@, identity@),
{
    let mut s = string_of(trait_src());
    push_str(&mut s, "\n");
    let d = driver_src(spec);
    push_str(&mut s, d.as_str());
    push_str(&mut s, "\npub struct ");
    push_str(&mut s, spec.struct_name);
    push_str(&mut s, ";\n\nimpl Aggregate for ");
    push_str(&mut s, spec.struct_name);
    push_str(&mut s, " {\n    type Item = i64;\n    fn keep(&self, _item: &Self::Item) -> bool { false }\n    fn identity(&self) -> i64 { ");
    push_str(&mut s, identity);
    push_str(&mut s, " }\n    fn combine(&self, acc: i64, _item: Self::Item) -> i64 { acc }\n}\n");
    s
}

/// Degenerate answer: the driver returns `0` whatever the input.
pub fn const_zero(spec: &Spec) -> (r: String)
    ensures
        r@ == degenerate_text(spec.struct_name@, spec.driver_name@, "0"@),
{
    degenerate(spec, "0")
}

/// Degenerate answer: the driver returns `1` whatever the input.
pub fn const_one(spec: &Spec) -> (r: String)
    ensures
        r@ == degenerate_text(spec.struct_name@, spec.driver_name@, "1"@),
{
    degenerate(spec, "1")
}

/// The hidden behaviour tests of the task `seed` gives.
pub closed spec fn behavior_file(seed: u64) -> Seq<char> {
    behavior_text(sample_struct(seed), sample_driver(seed), sample_keep(seed), sample_reduce(seed), seed)
}

/// The hidden differential test of the task `seed` gives.
pub closed spec fn differential_file(seed: u64) -> Seq<char> {
    differential_text(sample_struct(seed), sample_driver(seed), sample_keep(seed), sample_reduce(seed))
}

// ---- the family ------------------------------------------------------------

pub open spec fn keep_kind_text(k: Keep) -> Seq<char> {
    match k {
        Keep::Positive => "positive"@,
        Keep::Even => "even"@,
        Keep::NonNegative => "nonnegative"@,
        Keep::Odd => "odd"@,
    }
}

pub open spec fn reduce_kind_text(r: Reduce) -> Seq<char> {
    match r {
        Reduce::Sum => "sum"@,
        Reduce::Product => "product"@,
        Reduce::Count => "count"@,
        Reduce::SumOfSquares => "sum_of_squares"@,
        Reduce::SumOfAbs => "sum_of_abs"@,
    }
}

pub struct TraitsGenericsFamily;

impl TraitsGenericsFamily {
    pub fn id(&self) -> (r: &'static str)
        ensures
            r@ == "trait-impl"@,
    {
        "trait-impl"
    }

    pub fn category(&self) -> (r: &'static str)
        ensures
            r@ == "traits-generics"@,
    {
        "traits-generics"
    }

    /// The instance for `seed`: a pure function of the seed.
    pub fn generate(&self, seed: u64) -> (r: GeneratedTask)
        ensures
            r.id@ == task_id_text("trait-impl"@, seed),
            r.category@ == "traits-generics"@,
            r.canary@ == canary_text("trait-impl"@, seed),
            r.prompt@ == prompt_text(sample_struct(seed), sample_driver(seed), sample_keep(seed), sample_reduce(seed), seed, r.canary@),
            r.answer_path@ == "src/lib.rs"@,
            r.files@.len() == 2,
            r.files@[0].0@ == "Cargo.toml"@,
            r.files@[0].1@ == cargo_toml_text(),
            r.files@[1].0@ == "src/lib.rs"@,
            r.files@[1].1@ == skeleton_text(sample_struct(seed), sample_driver(seed), sample_keep(seed), sample_reduce(seed), seed),
            r.hidden@.len() == 2,
            r.hidden@[0].0@ == "tests/behavior.rs"@,
            r.hidden@[0].1@ == behavior_text(sample_struct(seed), sample_driver(seed), sample_keep(seed), sample_reduce(seed), seed),
            r.hidden@[1].0@ == "tests/differential.rs"@,
            r.hidden@[1].1@ == differential_text(sample_struct(seed), sample_driver(seed), sample_keep(seed), sample_reduce(seed)),
            r.behavior_test@ == "behavior"@,
            r.hidden@[0].1@ == behavior_file(seed),
            r.hidden@[1].1@ == differential_file(seed),
            r.differential_test@ == "differential"@,
            r.alloc_test@ == Seq::<char>::empty(),
            r.max_unsafe == Some(0u32),
            r.forbidden_paths@.len() == 0,
            !r.check_clippy,
            r.clippy_allow@.len() == 0,
            r.weights == (Weights { behavior: 70, constraint: 20, quality: 10 }),
    {
        let spec = sample(seed);
        let canary = mint_canary("trait-impl", seed);
        let mut files: Vec<(String, String)> = Vec::new();
        files.push((string_of("Cargo.toml"), cargo_toml()));
        files.push((string_of("src/lib.rs"), skeleton_src(&spec, seed)));
        let mut hidden: Vec<(String, String)> = Vec::new();
        hidden.push((string_of("tests/behavior.rs"), behavior_test_src(&spec, seed)));
        hidden.push((string_of("tests/differential.rs"), differential_test_src(&spec)));
        let prompt = prompt(&spec, seed, canary.as_str());
        GeneratedTask {
            id: task_id("trait-impl", seed),
            category: string_of("traits-generics"),
            prompt,
            canary,
            answer_path: string_of("src/lib.rs"),
            files,
            hidden,
            behavior_test: string_of("behavior"),
            differential_test: string_of("differential"),
            alloc_test: String::new(),
            max_unsafe: Some(0),
            forbidden_paths: Vec::new(),
            check_clippy: false,
            clippy_allow: Vec::new(),
            weights: Weights { behavior: 70, constraint: 20, quality: 10 },
        }
    }

    pub fn reference_code(&self, seed: u64) -> (r: String)
        ensures
            r@ == reference_text(sample_struct(seed), sample_driver(seed), sample_keep(seed), sample_reduce(seed)),
    {
        reference_src(&sample(seed))
    }

    pub fn skeleton_code(&self, seed: u64) -> (r: String)
        ensures
            r@ == skeleton_text(sample_struct(seed), sample_driver(seed), sample_keep(seed), sample_reduce(seed), seed),
    {
        skeleton_src(&sample(seed), seed)
    }

    /// Degenerate answers `(label, code)` that must fail grading.
    pub fn trivial_baselines(&self, seed: u64) -> (r: Vec<(String, String)>)
        ensures
            r@.len() == 2,
            r@[0].0@ == "const-zero"@,
            r@[0].1@ == degenerate_text(sample_struct(seed), sample_driver(seed), "0"@),
            r@[1].0@ == "const-one"@,
            r@[1].1@ == degenerate_text(sample_struct(seed), sample_driver(seed), "1"@),
    {
        let spec = sample(seed);
        let mut v: Vec<(String, String)> = Vec::new();
        v.push((string_of("const-zero"), const_zero(&spec)));
        v.push((string_of("const-one"), const_one(&spec)));
        v
    }

    /// The structural identity: the (keep, reduce) pair.
    pub fn spec_signature(&self, seed: u64) -> (r: Vec<String>)
        ensures
            r@.len() == 2,
            r@[0]@ == "keep:"@ + keep_kind_text(sample_keep(seed)),
            r@[1]@ == "reduce:"@ + reduce_kind_text(sample_reduce(seed)),
    {
        let spec = sample(seed);
        let keep = match spec.keep {
            Keep::Positive => "positive",
            Keep::Even => "even",
            Keep::NonNegative => "nonnegative",
            Keep::Odd => "odd",
        };
        let reduce = match spec.reduce {
            Reduce::Sum => "sum",
            Reduce::Product => "product",
            Reduce::Count => "count",
            Reduce::SumOfSquares => "sum_of_squares",
            Reduce::SumOfAbs => "sum_of_abs",
        };
        let mut a = string_of("keep:");
        push_str(&mut a, keep);
        let mut b = string_of("reduce:");
        push_str(&mut b, reduce);
        let mut v: Vec<String> = Vec::new();
        v.push(a);
        v.push(b);
        v
    }
}

// ---- the canonical example catches both trivial baselines -----------------

proof fn lemma_fold4(k: Keep, r: Reduce, a: i64, b: i64, c: i64, d: i64)
    ensures
        fold_kept(k, r, seq![a, b, c, d]) == {
            let s0 = identity_spec(r);
            let s1 = if kept_spec(k, a as int) { step_int(r, s0, a as int) } else { s0 };
            let s2 = if kept_spec(k, b as int) { step_int(r, s1, b as int) } else { s1 };
            let s3 = if kept_spec(k, c as int) { step_int(r, s2, c as int) } else { s2 };
            if kept_spec(k, d as int) { step_int(r, s3, d as int) } else { s3 }
        },
{
    let s4 = seq![a, b, c, d];
    let s3 = seq![a, b, c];
    let s2 = seq![a, b];
    let s1 = seq![a];
    let s0 = Seq::<i64>::empty();
    assert(s4.drop_last() =~= s3);
    assert(s3.drop_last() =~= s2);
    assert(s2.drop_last() =~= s1);
    assert(s1.drop_last() =~= s0);
    assert(fold_kept(k, r, s0) == identity_spec(r));
    assert(s1.last() == a);
    assert(s2.last() == b);
    assert(s3.last() == c);
    assert(s4.last() == d);
    assert(fold_kept(k, r, s1) == (if kept_spec(k, a as int) { step_int(r, fold_kept(k, r, s0), a as int) } else { fold_kept(k, r, s0) }));
    assert(fold_kept(k, r, s2) == (if kept_spec(k, b as int) { step_int(r, fold_kept(k, r, s1), b as int) } else { fold_kept(k, r, s1) }));
    assert(fold_kept(k, r, s3) == (if kept_spec(k, c as int) { step_int(r, fold_kept(k, r, s2), c as int) } else { fold_kept(k, r, s2) }));
    assert(fold_kept(k, r, s4) == (if kept_spec(k, d as int) { step_int(r, fold_kept(k, r, s3), d as int) } else { fold_kept(k, r, s3) }));
}

/// Every keep predicate keeps at least two of `[2, 3, 4, 5]`, and no
/// reduction of them is `0` or `1`: the `const-zero` and `const-one`
/// baselines fail the first worked example of every instance.
pub proof fn law_canonical_never_zero_or_one(k: Keep, r: Reduce)
    ensures
        fold_kept(k, r, canonical()) != 0,
        fold_kept(k, r, canonical()) != 1,
{
    lemma_fold4(k, r, 2, 3, 4, 5);
    assert(canonical() =~= seq![2i64, 3, 4, 5]);
    assert(2int % 2 == 0 && 3int % 2 == 1 && 4int % 2 == 0 && 5int % 2 == 1);
}

} // verus!
