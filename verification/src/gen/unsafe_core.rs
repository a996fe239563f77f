//! The `raw-ptr` family (category `unsafe-core`).
//!
//! The model implements `fn f(ptr: *const i64, len: usize) -> i64`: read a
//! seed-selected set of indices through the raw pointer (all, the even ones,
//! the odd ones, the first half) and fold them with a seed-selected reduction
//! (sum, product, sum of squares, sum of absolute values, sum of the positive
//! ones). The generator itself only emits text; its native reference works on
//! a slice.

use vstd::prelude::*;
use crate::rng::{Rng, draw};
use crate::digest::{mint_canary, canary_text};
use crate::text::{push_str, push_u64, push_i64, push_debug_list, push_doc_block, push_terminated,
    dec_nat, dec_int, debug_list, doc_block, terminated, string_views, string_of};
use crate::gen::{GeneratedTask, Weights, cargo_toml, cargo_toml_text, task_id, task_id_text,
    push_prompt_tail, prompt_tail};
use crate::gen::fold::{pow100, all_small, lemma_small_step, lemma_pow100_mono, lemma_pow100_8,
    small_input, small_next, random_small_input};

verus! {

/// Axis 1: which indices are read, as (start, stride, bound).
#[derive(Clone, Copy, Debug, PartialEq, Eq, Structural)]
pub enum Access {
    Forward,
    EveryOther,
    OddIndices,
    FirstHalf,
}

/// Axis 2: how the read values combine (with an identity element).
#[derive(Clone, Copy, Debug, PartialEq, Eq, Structural)]
pub enum Reduce {
    Sum,
    Product,
    SumOfSquares,
    SumOfAbs,
    SumOfPositives,
}

pub struct Spec {
    pub access: Access,
    pub reduce: Reduce,
    pub fn_name: &'static str,
}

// ---- semantics -------------------------------------------------------------

pub open spec fn start_spec(a: Access) -> nat {
    match a {
        Access::OddIndices => 1,
        _ => 0,
    }
}

pub open spec fn stride_spec(a: Access) -> nat {
    match a {
        Access::EveryOther | Access::OddIndices => 2,
        _ => 1,
    }
}

pub open spec fn bound_spec(a: Access, len: nat) -> nat {
    match a {
        Access::FirstHalf => len / 2,
        _ => len,
    }
}

/// How many indices the access pattern reads in a slice of length `len`.
pub open spec fn picks(a: Access, len: nat) -> nat {
    let s = start_spec(a);
    let b = bound_spec(a, len);
    if b <= s { 0 } else if stride_spec(a) == 1 { (b - s) as nat } else { ((b - s + 1) / 2) as nat }
}

/// The values the access pattern reads, in order.
pub open spec fn picked(a: Access, xs: Seq<i64>) -> Seq<i64> {
    Seq::new(picks(a, xs.len()), |j: int| xs[start_spec(a) + stride_spec(a) * j])
}

pub open spec fn identity_spec(r: Reduce) -> int {
    match r {
        Reduce::Product => 1,
        _ => 0,
    }
}

/// One fold step, in mathematical integers.
pub open spec fn step_int(r: Reduce, acc: int, v: int) -> int {
    match r {
        Reduce::Sum => acc + v,
        Reduce::Product => acc * v,
        Reduce::SumOfSquares => acc + v * v,
        Reduce::SumOfAbs => acc + (if v < 0 { -v } else { v }),
        Reduce::SumOfPositives => if v > 0 { acc + v } else { acc },
    }
}

pub open spec fn in_i64(x: int) -> bool {
    i64::MIN <= x <= i64::MAX
}

/// The step's intermediate values (the square, the absolute value) and its
/// result all fit in `i64`: the step does not overflow.
pub open spec fn step_fits(r: Reduce, acc: int, v: int) -> bool {
    match r {
        Reduce::SumOfSquares => in_i64(v * v) && in_i64(acc + v * v),
        Reduce::SumOfAbs => in_i64(-v) && in_i64(step_int(r, acc, v)),
        _ => in_i64(step_int(r, acc, v)),
    }
}

/// The left fold of `vals` from the identity.
pub open spec fn fold_int(r: Reduce, vals: Seq<i64>) -> int
    decreases vals.len(),
{
    if vals.len() == 0 {
        identity_spec(r)
    } else {
        step_int(r, fold_int(r, vals.drop_last()), vals.last() as int)
    }
}

/// No step of the fold overflows.
pub open spec fn fold_fits(r: Reduce, vals: Seq<i64>) -> bool
    decreases vals.len(),
{
    if vals.len() == 0 {
        true
    } else {
        fold_fits(r, vals.drop_last()) && step_fits(r, fold_int(r, vals.drop_last()), vals.last() as int)
    }
}

/// The answer for slice `xs`, in mathematical integers.
pub open spec fn eval_spec(a: Access, r: Reduce, xs: Seq<i64>) -> int {
    fold_int(r, picked(a, xs))
}

pub fn start(access: Access) -> (r: usize)
    ensures
        r == start_spec(access),
{
    match access {
        Access::OddIndices => 1,
        _ => 0,
    }
}

pub fn stride(access: Access) -> (r: usize)
    ensures
        r == stride_spec(access),
{
    match access {
        Access::EveryOther | Access::OddIndices => 2,
        _ => 1,
    }
}

pub fn bound(access: Access, len: usize) -> (r: usize)
    ensures
        r == bound_spec(access, len as nat),
{
    match access {
        Access::FirstHalf => len / 2,
        _ => len,
    }
}

pub fn identity_val(reduce: Reduce) -> (r: i64)
    ensures
        r == identity_spec(reduce),
{
    match reduce {
        Reduce::Product => 1,
        _ => 0,
    }
}

pub fn step(reduce: Reduce, acc: i64, v: i64) -> (r: i64)
    requires
        step_fits(reduce, acc as int, v as int),
    ensures
        r == step_int(reduce, acc as int, v as int),
{
    match reduce {
        Reduce::Sum => acc + v,
        Reduce::Product => acc * v,
        Reduce::SumOfSquares => acc + v * v,
        Reduce::SumOfAbs => acc + v.abs(),
        Reduce::SumOfPositives => {
            if v > 0 {
                acc + v
            } else {
                acc
            }
        },
    }
}

/// The answer: walk the selected indices and fold the values.
pub fn eval(spec: &Spec, xs: &[i64]) -> (r: i64)
    requires
        xs@.len() < usize::MAX,
        fold_fits(spec.reduce, picked(spec.access, xs@)),
    ensures
        r == eval_spec(spec.access, spec.reduce, xs@),
{
    let ghost vals = picked(spec.access, xs@);
    let mut acc = identity_val(spec.reduce);
    let mut i = start(spec.access);
    let b = bound(spec.access, xs.len());
    let st = stride(spec.access);
    let ghost mut cnt: nat = 0;
    while i < b
        invariant
            xs@.len() < usize::MAX,
            b == bound_spec(spec.access, xs@.len()),
            b <= xs@.len(),
            st == stride_spec(spec.access),
            vals == picked(spec.access, xs@),
            fold_fits(spec.reduce, vals),
            i == start_spec(spec.access) + st * cnt,
            cnt <= vals.len(),
            (i < b) == (cnt < vals.len()),
            acc == fold_int(spec.reduce, vals.take(cnt as int)),
        decreases vals.len() - cnt,
    {
        proof {
            assert(vals.take(cnt + 1 as int).drop_last() =~= vals.take(cnt as int));
            assert(vals[cnt as int] == xs@[i as int]);
            lemma_fold_fits_prefix(spec.reduce, vals, cnt + 1);
        }
        acc = step(spec.reduce, acc, xs[i]);
        i = i + st;
        proof {
            cnt = cnt + 1;
        }
    }
    assert(vals.take(vals.len() as int) =~= vals);
    acc
}

/// A prefix of a fold that fits also fits.
pub proof fn lemma_fold_fits_prefix(r: Reduce, vals: Seq<i64>, n: nat)
    requires
        fold_fits(r, vals),
        n <= vals.len(),
    ensures
        fold_fits(r, vals.take(n as int)),
        n > 0 ==> step_fits(r, fold_int(r, vals.take(n - 1)), vals[n - 1] as int),
    decreases vals.len(),
{
    if n < vals.len() {
        lemma_fold_fits_prefix(r, vals.drop_last(), n);
        assert(vals.drop_last().take(n as int) =~= vals.take(n as int));
        if n > 0 {
            assert(vals.drop_last().take(n - 1) =~= vals.take(n - 1));
        }
    } else {
        assert(vals.take(n as int) =~= vals);
        if n > 0 {
            assert(vals.take(n - 1) =~= vals.drop_last());
        }
    }
}

/// Small values (`|v| <= 9`, at most 8 of them) never overflow, for any
/// reduction.
pub proof fn lemma_small_fold_fits(r: Reduce, vals: Seq<i64>)
    requires
        all_small(vals),
        vals.len() <= 8,
    ensures
        fold_fits(r, vals),
        -pow100(vals.len()) <= fold_int(r, vals) <= pow100(vals.len()),
    decreases vals.len(),
{
    if vals.len() > 0 {
        let init = vals.drop_last();
        assert(all_small(init));
        lemma_small_fold_fits(r, init);
        let acc = fold_int(r, init);
        let v = vals.last() as int;
        lemma_small_step(acc, v, init.len());
        lemma_pow100_mono(vals.len(), 8);
        lemma_pow100_8();
    } else {
        lemma_pow100_mono(0, 0);
    }
}

/// The values an access pattern reads are among the slice's values.
pub proof fn lemma_picked_small(a: Access, xs: Seq<i64>)
    requires
        all_small(xs),
    ensures
        all_small(picked(a, xs)),
        picked(a, xs).len() <= xs.len(),
{
    assert forall|j: int| 0 <= j < picked(a, xs).len() implies -9 <= #[trigger] picked(a, xs)[j] <= 9 by {
        assert(xs[start_spec(a) + stride_spec(a) * j] == picked(a, xs)[j]);
    }
}

// ---- sampling --------------------------------------------------------------

pub open spec fn access_of(k: u64) -> Access {
    if k == 0 { Access::Forward } else if k == 1 { Access::EveryOther } else if k == 2 { Access::OddIndices } else { Access::FirstHalf }
}

pub open spec fn reduce_of(k: u64) -> Reduce {
    if k == 0 { Reduce::Sum }
    else if k == 1 { Reduce::Product }
    else if k == 2 { Reduce::SumOfSquares }
    else if k == 3 { Reduce::SumOfAbs }
    else { Reduce::SumOfPositives }
}

pub open spec fn name_text(i: u64) -> Seq<char> {
    if i == 0 { "f"@ }
    else if i == 1 { "reduce_raw"@ }
    else if i == 2 { "walk"@ }
    else if i == 3 { "fold_ptr"@ }
    else if i == 4 { "scan"@ }
    else { "gather"@ }
}

pub open spec fn sample_access(seed: u64) -> Access {
    access_of(draw(seed, 0) % 4)
}

pub open spec fn sample_reduce(seed: u64) -> Reduce {
    reduce_of(draw(seed, 1) % 5)
}

pub open spec fn sample_name(seed: u64) -> Seq<char> {
    name_text(draw(seed, 2) % 6)
}

fn name_at(i: u64) -> (r: &'static str)
    requires
        i < 6,
    ensures
        r@ == name_text(i),
{
    if i == 0 { "f" }
    else if i == 1 { "reduce_raw" }
    else if i == 2 { "walk" }
    else if i == 3 { "fold_ptr" }
    else if i == 4 { "scan" }
    else { "gather" }
}

/// The spec for `seed`: every choice is a function of the seed's stream.
pub fn sample(seed: u64) -> (r: Spec)
    ensures
        r.access == sample_access(seed),
        r.reduce == sample_reduce(seed),
        r.fn_name@ == sample_name(seed),
{
    let mut rng = Rng::new(seed);
    let a = rng.below(4);
    let access = if a == 0 { Access::Forward } else if a == 1 { Access::EveryOther } else if a == 2 { Access::OddIndices } else { Access::FirstHalf };
    let r = rng.below(5);
    let reduce = if r == 0 {
        Reduce::Sum
    } else if r == 1 {
        Reduce::Product
    } else if r == 2 {
        Reduce::SumOfSquares
    } else if r == 3 {
        Reduce::SumOfAbs
    } else {
        Reduce::SumOfPositives
    };
    let fn_name = name_at(rng.below(6));
    Spec { access, reduce, fn_name }
}

// ---- emitted-source fragments ----------------------------------------------

pub open spec fn bound_expr_text(a: Access, len_var: Seq<char>) -> Seq<char> {
    match a {
        Access::FirstHalf => len_var + " / 2"@,
        _ => len_var,
    }
}

pub fn bound_expr(access: Access, len_var: &str) -> (r: String)
    ensures
        r@ == bound_expr_text(access, len_var@),
{
    let mut s = string_of(len_var);
    match access {
        Access::FirstHalf => push_str(&mut s, " / 2"),
        _ => {},
    }
    s
}

/// The fold step as a source statement over value variable `v`.
pub open spec fn step_stmt_text(r: Reduce) -> Seq<char> {
    match r {
        Reduce::Sum => "acc += v;"@,
        Reduce::Product => "acc *= v;"@,
        Reduce::SumOfSquares => "acc += v * v;"@,
        Reduce::SumOfAbs => "acc += v.abs();"@,
        Reduce::SumOfPositives => "if v > 0 { acc += v; }"@,
    }
}

pub fn step_stmt(reduce: Reduce) -> (r: &'static str)
    ensures
        r@ == step_stmt_text(reduce),
{
    match reduce {
        Reduce::Sum => "acc += v;",
        Reduce::Product => "acc *= v;",
        Reduce::SumOfSquares => "acc += v * v;",
        Reduce::SumOfAbs => "acc += v.abs();",
        Reduce::SumOfPositives => "if v > 0 { acc += v; }",
    }
}

pub open spec fn access_prose_text(a: Access) -> Seq<char> {
    match a {
        Access::Forward => "every element, from index 0 to `len - 1`"@,
        Access::EveryOther => "the even indices 0, 2, 4, \u{2026} that are below `len`"@,
        Access::OddIndices => "the odd indices 1, 3, 5, \u{2026} that are below `len`"@,
        Access::FirstHalf => "the first half of the elements, indices 0 to `len / 2 - 1`"@,
    }
}

pub fn access_prose(access: Access) -> (r: &'static str)
    ensures
        r@ == access_prose_text(access),
{
    match access {
        Access::Forward => "every element, from index 0 to `len - 1`",
        Access::EveryOther => "the even indices 0, 2, 4, \u{2026} that are below `len`",
        Access::OddIndices => "the odd indices 1, 3, 5, \u{2026} that are below `len`",
        Access::FirstHalf => "the first half of the elements, indices 0 to `len / 2 - 1`",
    }
}

pub open spec fn reduce_prose_text(r: Reduce) -> Seq<char> {
    match r {
        Reduce::Sum => "their sum (identity `0`)"@,
        Reduce::Product => "their product (identity `1`)"@,
        Reduce::SumOfSquares => "the sum of their squares (identity `0`)"@,
        Reduce::SumOfAbs => "the sum of their absolute values (identity `0`)"@,
        Reduce::SumOfPositives => "the sum of the strictly-positive ones (identity `0`)"@,
    }
}

pub fn reduce_prose(reduce: Reduce) -> (r: &'static str)
    ensures
        r@ == reduce_prose_text(reduce),
{
    match reduce {
        Reduce::Sum => "their sum (identity `0`)",
        Reduce::Product => "their product (identity `1`)",
        Reduce::SumOfSquares => "the sum of their squares (identity `0`)",
        Reduce::SumOfAbs => "the sum of their absolute values (identity `0`)",
        Reduce::SumOfPositives => "the sum of the strictly-positive ones (identity `0`)",
    }
}

/// The walk loop shared by the unsafe reference and its safe mirror: `head`
/// is the signature, `read` the statement that loads `v`, `len_var` the
/// length expression.
pub open spec fn walk_text(head: Seq<char>, read: Seq<char>, len_var: Seq<char>, a: Access, r: Reduce) -> Seq<char> {
    head + " {\n    let mut acc: i64 = "@ + dec_int(identity_spec(r)) + ";\n    let mut i: usize = "@
        + dec_nat(start_spec(a)) + ";\n    while i < "@ + bound_expr_text(a, len_var) + " {\n        "@ + read
        + "\n        "@ + step_stmt_text(r) + "\n        i += "@ + dec_nat(stride_spec(a))
        + ";\n    }\n    acc\n}\n"@
}

fn walk_src(head: &str, read: &str, len_var: &str, spec: &Spec) -> (r: String)
    ensures
        r@ == walk_text(head@, read@, len_var@, spec.access, spec.reduce),
{
    let mut s = string_of(head);
    push_str(&mut s, " {\n    let mut acc: i64 = ");
    push_i64(&mut s, identity_val(spec.reduce));
    push_str(&mut s, ";\n    let mut i: usize = ");
    push_u64(&mut s, start(spec.access) as u64);
    push_str(&mut s, ";\n    while i < ");
    let b = bound_expr(spec.access, len_var);
    push_str(&mut s, b.as_str());
    push_str(&mut s, " {\n        ");
    push_str(&mut s, read);
    push_str(&mut s, "\n        ");
    push_str(&mut s, step_stmt(spec.reduce));
    push_str(&mut s, "\n        i += ");
    push_u64(&mut s, stride(spec.access) as u64);
    push_str(&mut s, ";\n    }\n    acc\n}\n");
    s
}

pub open spec fn reference_text(name: Seq<char>, a: Access, r: Reduce) -> Seq<char> {
    walk_text("pub fn "@ + name + "(ptr: *const i64, len: usize) -> i64"@, "let v = unsafe { *ptr.add(i) };"@,
        "len"@, a, r)
}

/// The correct reference: reads each selected element through the pointer.
pub fn reference_src(spec: &Spec) -> (r: String)
    ensures
        r@ == reference_text(spec.fn_name@, spec.access, spec.reduce),
{
    let mut head = string_of("pub fn ");
    push_str(&mut head, spec.fn_name);
    push_str(&mut head, "(ptr: *const i64, len: usize) -> i64");
    walk_src(head.as_str(), "let v = unsafe { *ptr.add(i) };", "len", spec)
}

// ---- worked examples -------------------------------------------------------

pub open spec fn example_seed(seed: u64) -> u64 {
    seed ^ 0x00FF_0000_0000_0053u64
}

/// The example inputs: the canonical `[3, 1, 4, 2]`, then three random ones.
pub open spec fn example_inputs(seed: u64) -> Seq<Seq<i64>> {
    let s = example_seed(seed);
    let k1 = small_next(s, 0);
    let k2 = small_next(s, k1);
    seq![canonical(), small_input(s, 0), small_input(s, k1), small_input(s, k2)]
}

pub open spec fn example_line(input: Seq<i64>, out: int) -> Seq<char> {
    "  "@ + debug_list(input) + "  ->  "@ + dec_int(out)
}

pub open spec fn example_lines(a: Access, r: Reduce, seed: u64) -> Seq<Seq<char>> {
    example_inputs(seed).map_values(|x: Seq<i64>| example_line(x, eval_spec(a, r, x)))
}

/// One worked example: (input slice, expected scalar).
pub type ExampleCase = (Vec<i64>, i64);

pub open spec fn example_cases(a: Access, r: Reduce, seed: u64) -> Seq<(Seq<i64>, int)> {
    example_inputs(seed).map_values(|x: Seq<i64>| (x, eval_spec(a, r, x)))
}

pub open spec fn case_view(c: ExampleCase) -> (Seq<i64>, int) {
    (c.0@, c.1 as int)
}

fn example_input_vecs(seed: u64) -> (r: Vec<Vec<i64>>)
    ensures
        r@.len() == 4,
        forall|i: int| 0 <= i < 4 ==> (#[trigger] r@[i])@ == example_inputs(seed)[i],
        forall|i: int| 0 <= i < 4 ==> all_small(#[trigger] r@[i]@) && r@[i]@.len() <= 8,
{
    let mut rng = Rng::new(seed ^ 0x00FF_0000_0000_0053);
    let mut inputs: Vec<Vec<i64>> = Vec::new();
    let c: Vec<i64> = vec![3, 1, 4, 2];
    assert(c@ =~= canonical());
    inputs.push(c);
    let a = random_small_input(&mut rng);
    let b = random_small_input(&mut rng);
    let d = random_small_input(&mut rng);
    inputs.push(a);
    inputs.push(b);
    inputs.push(d);
    inputs
}

fn example_line_string(input: &Vec<i64>, out: i64) -> (r: String)
    ensures
        r@ == example_line(input@, out as int),
{
    let mut s = string_of("  ");
    push_debug_list(&mut s, input.as_slice());
    push_str(&mut s, "  ->  ");
    push_i64(&mut s, out);
    s
}

/// The worked examples as lines (without newlines) and cases.
pub fn example_data(spec: &Spec, seed: u64) -> (r: (Vec<String>, Vec<ExampleCase>))
    ensures
        string_views(r.0@) == example_lines(spec.access, spec.reduce, seed),
        r.1@.len() == 4,
        forall|i: int| 0 <= i < 4 ==> case_view(#[trigger] r.1@[i]) == example_cases(spec.access, spec.reduce, seed)[i],
{
    let inputs = example_input_vecs(seed);
    let mut lines: Vec<String> = Vec::new();
    let mut cases: Vec<ExampleCase> = Vec::new();
    let mut j: usize = 0;
    while j < inputs.len()
        invariant
            j <= inputs.len(),
            inputs@.len() == 4,
            forall|i: int| 0 <= i < 4 ==> (#[trigger] inputs@[i])@ == example_inputs(seed)[i],
            forall|i: int| 0 <= i < 4 ==> all_small(#[trigger] inputs@[i]@) && inputs@[i]@.len() <= 8,
            lines@.len() == j,
            cases@.len() == j,
            forall|q: int| 0 <= q < j ==> #[trigger] lines@[q]@ == example_lines(spec.access, spec.reduce, seed)[q],
            forall|q: int| 0 <= q < j ==> case_view(#[trigger] cases@[q]) == example_cases(spec.access, spec.reduce, seed)[q],
        decreases inputs.len() - j,
    {
        let input = inputs[j].clone();
        proof {
            lemma_picked_small(spec.access, input@);
            lemma_small_fold_fits(spec.reduce, picked(spec.access, input@));
        }
        let out = eval(spec, input.as_slice());
        lines.push(example_line_string(&input, out));
        cases.push((input, out));
        j = j + 1;
    }
    assert(string_views(lines@) =~= example_lines(spec.access, spec.reduce, seed));
    (lines, cases)
}

/// Worked examples: the prose block and the cases.
pub fn worked_examples(spec: &Spec, seed: u64) -> (r: (String, Vec<ExampleCase>))
    ensures
        r.0@ == terminated(example_lines(spec.access, spec.reduce, seed)),
        r.1@.len() == 4,
        forall|i: int| 0 <= i < 4 ==> case_view(#[trigger] r.1@[i]) == example_cases(spec.access, spec.reduce, seed)[i],
{
    let (lines, cases) = example_data(spec, seed);
    let mut prose = String::new();
    push_terminated(&mut prose, &lines);
    (prose, cases)
}

// ---- the files of an instance ----------------------------------------------

pub open spec fn skeleton_text(name: Seq<char>, a: Access, r: Reduce, seed: u64) -> Seq<char> {
    "//! Implement `"@ + name
        + "` below. You must read the elements through the raw\n//! pointer \u{2014} there is no safe way to dereference `*const i64`.\n//!\n"@
        + doc_block(example_lines(a, r, seed)) + "\npub fn "@ + name
        + "(ptr: *const i64, len: usize) -> i64 {\n    todo!()\n}\n"@
}

pub fn skeleton_src(spec: &Spec, seed: u64) -> (r: String)
    ensures
        r@ == skeleton_text(spec.fn_name@, spec.access, spec.reduce, seed),
{
    let (lines, _) = example_data(spec, seed);
    let mut s = string_of("//! Implement `");
    push_str(&mut s, spec.fn_name);
    push_str(&mut s, "` below. You must read the elements through the raw\n//! pointer \u{2014} there is no safe way to dereference `*const i64`.\n//!\n");
    push_doc_block(&mut s, &lines);
    push_str(&mut s, "\npub fn ");
    push_str(&mut s, spec.fn_name);
    push_str(&mut s, "(ptr: *const i64, len: usize) -> i64 {\n    todo!()\n}\n");
    s
}

pub open spec fn prompt_text(name: Seq<char>, a: Access, r: Reduce, seed: u64, canary: Seq<char>) -> Seq<char> {
    "Implement the function `"@ + name
        + "` in `src/lib.rs`.\n\n`ptr` points to the first of `len` consecutive `i64` values (a raw slice). Read "@
        + access_prose_text(a) + " through the pointer, and return "@ + reduce_prose_text(r)
        + ".\n\nThere is no safe way to dereference a `*const i64`, so you must use an `unsafe` block with pointer arithmetic (`*ptr.add(i)` or `std::slice::from_raw_parts`). The caller guarantees `ptr` is valid for `len` elements, so reading indices `0..len` is sound.\n\nConstraints:\n- `len` may be 0; the result is then the identity.\n- Read only indices in `0..len`; reading out of bounds is undefined behaviour.\n\nSignature:\n```rust\npub fn "@
        + name + "(ptr: *const i64, len: usize) -> i64\n```\n\nExamples (`"@ + name
        + "(xs.as_ptr(), xs.len())` for the shown slice `xs`):\n"@ + terminated(example_lines(a, r, seed))
        + "\n"@ + prompt_tail(canary)
}

pub fn prompt(spec: &Spec, seed: u64, canary: &str) -> (r: String)
    ensures
        r@ == prompt_text(spec.fn_name@, spec.access, spec.reduce, seed, canary@),
{
    let (examples, _) = worked_examples(spec, seed);
    let mut s = string_of("Implement the function `");
    push_str(&mut s, spec.fn_name);
    push_str(&mut s, "` in `src/lib.rs`.\n\n`ptr` points to the first of `len` consecutive `i64` values (a raw slice). Read ");
    push_str(&mut s, access_prose(spec.access));
    push_str(&mut s, " through the pointer, and return ");
    push_str(&mut s, reduce_prose(spec.reduce));
    push_str(&mut s, ".\n\nThere is no safe way to dereference a `*const i64`, so you must use an `unsafe` block with pointer arithmetic (`*ptr.add(i)` or `std::slice::from_raw_parts`). The caller guarantees `ptr` is valid for `len` elements, so reading indices `0..len` is sound.\n\nConstraints:\n- `len` may be 0; the result is then the identity.\n- Read only indices in `0..len`; reading out of bounds is undefined behaviour.\n\nSignature:\n```rust\npub fn ");
    push_str(&mut s, spec.fn_name);
    push_str(&mut s, "(ptr: *const i64, len: usize) -> i64\n```\n\nExamples (`");
    push_str(&mut s, spec.fn_name);
    push_str(&mut s, "(xs.as_ptr(), xs.len())` for the shown slice `xs`):\n");
    push_str(&mut s, examples.as_str());
    push_str(&mut s, "\n");
    push_prompt_tail(&mut s, canary);
    s
}

pub open spec fn case_test_text(name: Seq<char>, i: nat, c: (Seq<i64>, int)) -> Seq<char> {
    "#[test]\nfn ex"@ + dec_nat(i) + "() {\n    let xs: Vec<i64> = vec!"@ + debug_list(c.0) + ";\n    assert_eq!("@
        + name + "(xs.as_ptr(), xs.len()), "@ + dec_int(c.1) + ");\n}\n\n"@
}

pub open spec fn case_tests_text(name: Seq<char>, cases: Seq<(Seq<i64>, int)>) -> Seq<char>
    decreases cases.len(),
{
    if cases.len() == 0 {
        Seq::empty()
    } else {
        case_tests_text(name, cases.drop_last()) + case_test_text(name, (cases.len() - 1) as nat, cases.last())
    }
}

fn case_test_string(name: &str, i: usize, c: &ExampleCase) -> (r: String)
    ensures
        r@ == case_test_text(name@, i as nat, case_view(*c)),
{
    let mut s = string_of("#[test]\nfn ex");
    push_u64(&mut s, i as u64);
    push_str(&mut s, "() {\n    let xs: Vec<i64> = vec!");
    push_debug_list(&mut s, c.0.as_slice());
    push_str(&mut s, ";\n    assert_eq!(");
    push_str(&mut s, name);
    push_str(&mut s, "(xs.as_ptr(), xs.len()), ");
    push_i64(&mut s, c.1);
    push_str(&mut s, ");\n}\n\n");
    s
}

pub open spec fn behavior_text(name: Seq<char>, a: Access, r: Reduce, seed: u64) -> Seq<char> {
    "use task::"@ + name + ";\n\n"@ + case_tests_text(name, example_cases(a, r, seed))
        + "#[test]\nfn empty_input() {\n    let xs: Vec<i64> = Vec::new();\n    assert_eq!("@ + name
        + "(xs.as_ptr(), xs.len()), "@ + dec_int(identity_spec(r)) + ");\n}\n"@
}

pub fn behavior_test_src(spec: &Spec, seed: u64) -> (r: String)
    ensures
        r@ == behavior_text(spec.fn_name@, spec.access, spec.reduce, seed),
{
    let (_, cases) = worked_examples(spec, seed);
    let ghost cs = example_cases(spec.access, spec.reduce, seed);
    assert forall|q: int| 0 <= q < 4 implies #[trigger] cs[q] == case_view(cases@[q]) by {}
    let mut s = string_of("use task::");
    push_str(&mut s, spec.fn_name);
    push_str(&mut s, ";\n\n");
    let ghost start = s@;
    let mut i: usize = 0;
    while i < cases.len()
        invariant
            i <= cases.len(),
            cases@.len() == 4,
            cs.len() == 4,
            forall|q: int| 0 <= q < 4 ==> #[trigger] cs[q] == case_view(cases@[q]),
            s@ == start + case_tests_text(spec.fn_name@, cs.take(i as int)),
        decreases cases.len() - i,
    {
        let t = case_test_string(spec.fn_name, i, &cases[i]);
        push_str(&mut s, t.as_str());
        assert(cs.take(i + 1).drop_last() =~= cs.take(i as int));
        i = i + 1;
    }
    assert(cs.take(4) =~= cs);
    push_str(&mut s, "#[test]\nfn empty_input() {\n    let xs: Vec<i64> = Vec::new();\n    assert_eq!(");
    push_str(&mut s, spec.fn_name);
    push_str(&mut s, "(xs.as_ptr(), xs.len()), ");
    push_i64(&mut s, identity_val(spec.reduce));
    push_str(&mut s, ");\n}\n");
    s
}

pub open spec fn differential_text(name: Seq<char>, a: Access, r: Reduce) -> Seq<char> {
    "use task::"@ + name + ";\n\n"@ + walk_text("fn reference(xs: &[i64]) -> i64"@, "let v = xs[i];"@, "xs.len()"@, a, r)
        + "\n#[test]\nfn differential_vs_reference() {\n    let mut state: u64 = 0x00FF_ED00_0000_0042;\n    let mut next = || {\n        state = state.wrapping_mul(6364136223846793005).wrapping_add(1442695040888963407);\n        (state >> 33) as u64\n    };\n    for _ in 0..3000 {\n        let len = (next() % 12) as usize;\n        let xs: Vec<i64> = (0..len).map(|_| (next() % 19) as i64 - 9).collect();\n        assert_eq!("@
        + name + "(xs.as_ptr(), xs.len()), reference(&xs), \"mismatch: {xs:?}\");\n    }\n}\n"@
}

/// The hidden differential test, against the safe mirror of the reference.
pub fn differential_test_src(spec: &Spec) -> (r: String)
    ensures
        r@ == differential_text(spec.fn_name@, spec.access, spec.reduce),
{
    let mut s = string_of("use task::");
    push_str(&mut s, spec.fn_name);
    push_str(&mut s, ";\n\n");
    let reference = walk_src("fn reference(xs: &[i64]) -> i64", "let v = xs[i];", "xs.len()", spec);
    push_str(&mut s, reference.as_str());
    push_str(&mut s, "\n#[test]\nfn differential_vs_reference() {\n    let mut state: u64 = 0x00FF_ED00_0000_0042;\n    let mut next = || {\n        state = state.wrapping_mul(6364136223846793005).wrapping_add(1442695040888963407);\n        (state >> 33) as u64\n    };\n    for _ in 0..3000 {\n        let len = (next() % 12) as usize;\n        let xs: Vec<i64> = (0..len).map(|_| (next() % 19) as i64 - 9).collect();\n        assert_eq!(");
    push_str(&mut s, spec.fn_name);
    push_str(&mut s, "(xs.as_ptr(), xs.len()), reference(&xs), \"mismatch: {xs:?}\");\n    }\n}\n");
    s
}

/// Degenerate answer: reads nothing, returns 0.
pub fn const_zero(spec: &Spec) -> (r: String)
    ensures
        r@ == "pub fn "@ + spec.fn_name@ + "(ptr: *const i64, len: usize) -> i64 { let _ = (ptr, len); 0 }\n"@,
{
    let mut s = string_of("pub fn ");
    push_str(&mut s, spec.fn_name);
    push_str(&mut s, "(ptr: *const i64, len: usize) -> i64 { let _ = (ptr, len); 0 }\n");
    s
}

/// Degenerate answer: returns 1.
pub fn const_one(spec: &Spec) -> (r: String)
    ensures
        r@ == "pub fn "@ + spec.fn_name@ + "(ptr: *const i64, len: usize) -> i64 { let _ = (ptr, len); 1 }\n"@,
{
    let mut s = string_of("pub fn ");
    push_str(&mut s, spec.fn_name);
    push_str(&mut s, "(ptr: *const i64, len: usize) -> i64 { let _ = (ptr, len); 1 }\n");
    s
}

/// The hidden behaviour tests of the task `seed` gives.
pub closed spec fn behavior_file(seed: u64) -> Seq<char> {
    behavior_text(sample_name(seed), sample_access(seed), sample_reduce(seed), seed)
}

/// The hidden differential test of the task `seed` gives.
pub closed spec fn differential_file(seed: u64) -> Seq<char> {
    differential_text(sample_name(seed), sample_access(seed), sample_reduce(seed))
}

// ---- the family ------------------------------------------------------------

pub open spec fn access_kind_text(a: Access) -> Seq<char> {
    match a {
        Access::Forward => "forward"@,
        Access::EveryOther => "every_other"@,
        Access::OddIndices => "odd_indices"@,
        Access::FirstHalf => "first_half"@,
    }
}

pub open spec fn reduce_kind_text(r: Reduce) -> Seq<char> {
    match r {
        Reduce::Sum => "sum"@,
        Reduce::Product => "product"@,
        Reduce::SumOfSquares => "sum_of_squares"@,
        Reduce::SumOfAbs => "sum_of_abs"@,
        Reduce::SumOfPositives => "sum_of_positives"@,
    }
}

pub struct UnsafeCoreFamily;

impl UnsafeCoreFamily {
    pub fn id(&self) -> (r: &'static str)
        ensures
            r@ == "raw-ptr"@,
    {
        "raw-ptr"
    }

    pub fn category(&self) -> (r: &'static str)
        ensures
            r@ == "unsafe-core"@,
    {
        "unsafe-core"
    }

    /// The instance for `seed`: a pure function of the seed. `unsafe` is
    /// required by the signature, so it is not limited.
    pub fn generate(&self, seed: u64) -> (r: GeneratedTask)
        ensures
            r.id@ == task_id_text("raw-ptr"@, seed),
            r.category@ == "unsafe-core"@,
            r.canary@ == canary_text("raw-ptr"@, seed),
            r.prompt@ == prompt_text(sample_name(seed), sample_access(seed), sample_reduce(seed), seed, r.canary@),
            r.answer_path@ == "src/lib.rs"@,
            r.files@.len() == 2,
            r.files@[0].0@ == "Cargo.toml"@,
            r.files@[0].1@ == cargo_toml_text(),
            r.files@[1].0@ == "src/lib.rs"@,
            r.files@[1].1@ == skeleton_text(sample_name(seed), sample_access(seed), sample_reduce(seed), seed),
            r.hidden@.len() == 2,
            r.hidden@[0].0@ == "tests/behavior.rs"@,
            r.hidden@[0].1@ == behavior_text(sample_name(seed), sample_access(seed), sample_reduce(seed), seed),
            r.hidden@[1].0@ == "tests/differential.rs"@,
            r.hidden@[1].1@ == differential_text(sample_name(seed), sample_access(seed), sample_reduce(seed)),
            r.behavior_test@ == "behavior"@,
            r.hidden@[0].1@ == behavior_file(seed),
            r.hidden@[1].1@ == differential_file(seed),
            r.differential_test@ == "differential"@,
            r.alloc_test@ == Seq::<char>::empty(),
            r.max_unsafe.is_none(),
            r.forbidden_paths@.len() == 0,
            !r.check_clippy,
            r.clippy_allow@.len() == 0,
            r.weights == (Weights { behavior: 70, constraint: 30, quality: 0 }),
    {
        let spec = sample(seed);
        let canary = mint_canary("raw-ptr", seed);
        let mut files: Vec<(String, String)> = Vec::new();
        files.push((string_of("Cargo.toml"), cargo_toml()));
        files.push((string_of("src/lib.rs"), skeleton_src(&spec, seed)));
        let mut hidden: Vec<(String, String)> = Vec::new();
        hidden.push((string_of("tests/behavior.rs"), behavior_test_src(&spec, seed)));
        hidden.push((string_of("tests/differential.rs"), differential_test_src(&spec)));
        let prompt = prompt(&spec, seed, canary.as_str());
        GeneratedTask {
            id: task_id("raw-ptr", seed),
            category: string_of("unsafe-core"),
            prompt,
            canary,
            answer_path: string_of("src/lib.rs"),
            files,
            hidden,
            behavior_test: string_of("behavior"),
            differential_test: string_of("differential"),
            alloc_test: String::new(),
            max_unsafe: None,
            forbidden_paths: Vec::new(),
            check_clippy: false,
            clippy_allow: Vec::new(),
            weights: Weights { behavior: 70, constraint: 30, quality: 0 },
        }
    }

    pub fn reference_code(&self, seed: u64) -> (r: String)
        ensures
            r@ == reference_text(sample_name(seed), sample_access(seed), sample_reduce(seed)),
    {
        reference_src(&sample(seed))
    }

    pub fn skeleton_code(&self, seed: u64) -> (r: String)
        ensures
            r@ == skeleton_text(sample_name(seed), sample_access(seed), sample_reduce(seed), seed),
    {
        skeleton_src(&sample(seed), seed)
    }

    /// Degenerate answers `(label, code)` that must fail grading.
    pub fn trivial_baselines(&self, seed: u64) -> (r: Vec<(String, String)>)
        ensures
            r@.len() == 2,
            r@[0].0@ == "const-zero"@,
            r@[0].1@ == "pub fn "@ + sample_name(seed) + "(ptr: *const i64, len: usize) -> i64 { let _ = (ptr, len); 0 }\n"@,
            r@[1].0@ == "const-one"@,
            r@[1].1@ == "pub fn "@ + sample_name(seed) + "(ptr: *const i64, len: usize) -> i64 { let _ = (ptr, len); 1 }\n"@,
    {
        let spec = sample(seed);
        let mut v: Vec<(String, String)> = Vec::new();
        v.push((string_of("const-zero"), const_zero(&spec)));
        v.push((string_of("const-one"), const_one(&spec)));
        v
    }

    /// The structural identity: the (access pattern, reduction) pair.
    pub fn spec_signature(&self, seed: u64) -> (r: Vec<String>)
        ensures
            r@.len() == 2,
            r@[0]@ == "access:"@ + access_kind_text(sample_access(seed)),
            r@[1]@ == "reduce:"@ + reduce_kind_text(sample_reduce(seed)),
    {
        let spec = sample(seed);
        let access = match spec.access {
            Access::Forward => "forward",
            Access::EveryOther => "every_other",
            Access::OddIndices => "odd_indices",
            Access::FirstHalf => "first_half",
        };
        let reduce = match spec.reduce {
            Reduce::Sum => "sum",
            Reduce::Product => "product",
            Reduce::SumOfSquares => "sum_of_squares",
            Reduce::SumOfAbs => "sum_of_abs",
            Reduce::SumOfPositives => "sum_of_positives",
        };
        let mut a = string_of("access:");
        push_str(&mut a, access);
        let mut b = string_of("reduce:");
        push_str(&mut b, reduce);
        let mut v: Vec<String> = Vec::new();
        v.push(a);
        v.push(b);
        v
    }
}

// ---- the canonical example catches both trivial baselines -----------------

/// The fixed first input of the worked examples.
pub open spec fn canonical() -> Seq<i64> {
    seq![3i64, 1, 4, 2]
}

/// Every access pattern reads at least two values of `[3, 1, 4, 2]`, and no
/// reduction of them is `0` or `1`: the `const-zero` and `const-one`
/// baselines fail the first worked example of every instance.
proof fn lemma_fold2(r: Reduce, x: i64, y: i64)
    ensures
        fold_int(r, seq![x, y]) == step_int(r, step_int(r, identity_spec(r), x as int), y as int),
{
    let s = seq![x, y];
    assert(s.drop_last() =~= seq![x]);
    assert(s.drop_last().drop_last() =~= Seq::<i64>::empty());
    assert(fold_int(r, seq![x]) == step_int(r, fold_int(r, Seq::<i64>::empty()), x as int));
    assert(fold_int(r, s) == step_int(r, fold_int(r, seq![x]), y as int));
}

proof fn lemma_fold4(r: Reduce, a: i64, b: i64, c: i64, d: i64)
    ensures
        fold_int(r, seq![a, b, c, d]) == step_int(r, step_int(r, step_int(r, step_int(r,
            identity_spec(r), a as int), b as int), c as int), d as int),
{
    let s = seq![a, b, c, d];
    assert(s.drop_last() =~= seq![a, b, c]);
    assert(s.drop_last().drop_last() =~= seq![a, b]);
    lemma_fold2(r, a, b);
    assert(fold_int(r, seq![a, b, c]) == step_int(r, fold_int(r, seq![a, b]), c as int));
    assert(fold_int(r, s) == step_int(r, fold_int(r, seq![a, b, c]), d as int));
}

/// Every access pattern reads at least two values of `[3, 1, 4, 2]`, and no
/// reduction of them is `0` or `1`: the `const-zero` and `const-one`
/// baselines fail the first worked example of every instance.
pub proof fn law_canonical_never_zero_or_one(a: Access, r: Reduce)
    ensures
        eval_spec(a, r, canonical()) != 0,
        eval_spec(a, r, canonical()) != 1,
{
    let p = picked(a, canonical());
    match a {
        Access::Forward => {
            assert(p =~= seq![3i64, 1, 4, 2]);
            lemma_fold4(r, 3, 1, 4, 2);
        },
        Access::EveryOther => {
            assert(p =~= seq![3i64, 4]);
            lemma_fold2(r, 3, 4);
        },
        Access::OddIndices => {
            assert(p =~= seq![1i64, 2]);
            lemma_fold2(r, 1, 2);
        },
        Access::FirstHalf => {
            assert(p =~= seq![3i64, 1]);
            lemma_fold2(r, 3, 1);
        },
    }
}

} // verus!
