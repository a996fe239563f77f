//! The `checked-eval` family (category `error-handling`).
//!
//! The model implements `fn f(xs: &[i64]) -> Result<i64, MathError>`: fold the
//! slice left to right with a seed-selected checked operation (sum, product,
//! sum of squares), returning `OutOfRange(x)` for the first element that fails
//! a seed-selected guard and `Overflow` for the first step that leaves `i64`.
//! Three folds by four guard kinds: twelve distinct skills.

use vstd::prelude::*;
use crate::rng::{Rng, draw};
use crate::digest::{mint_canary, canary_text};
use crate::text::{push_str, push_u64, push_i64, push_debug_list, push_doc_block, push_terminated, dec_nat,
    dec_int, debug_list, doc_block, terminated, string_views, string_of};
use crate::gen::{GeneratedTask, Weights, cargo_toml, cargo_toml_text, task_id, task_id_text,
    push_prompt_tail, prompt_tail};

verus! {

/// Axis 1: the checked reduction.
#[derive(Clone, Copy, Debug, PartialEq, Eq, Structural)]
pub enum Fold {
    Sum,
    Product,
    SumSquares,
}

/// Axis 2: the precondition every element must meet.
#[derive(Clone, Copy, Debug, PartialEq, Eq, Structural)]
pub enum Guard {
    Positive,
    NonZero,
    AtMost(i64),
    InRange(i64, i64),
}

pub struct Spec {
    pub fold: Fold,
    pub guard: Guard,
    pub fn_name: &'static str,
}

/// Why the fold stopped.
#[derive(Clone, Copy, Debug, PartialEq, Eq, Structural)]
pub enum Failure {
    /// This element failed the guard.
    OutOfRange(i64),
    /// A step left `i64`.
    Overflow,
}

// ---- semantics -------------------------------------------------------------

pub open spec fn in_i64(x: int) -> bool {
    i64::MIN <= x <= i64::MAX
}

pub open spec fn init_spec(f: Fold) -> int {
    match f {
        Fold::Product => 1,
        _ => 0,
    }
}

/// One checked step; `None` on overflow.
pub open spec fn step_spec(f: Fold, acc: int, x: int) -> Option<int> {
    match f {
        Fold::Sum => if in_i64(acc + x) { Some(acc + x) } else { None },
        Fold::Product => if in_i64(acc * x) { Some(acc * x) } else { None },
        Fold::SumSquares => if in_i64(x * x) && in_i64(acc + x * x) { Some(acc + x * x) } else { None },
    }
}

pub open spec fn guard_spec(g: Guard, x: int) -> bool {
    match g {
        Guard::Positive => x > 0,
        Guard::NonZero => x != 0,
        Guard::AtMost(b) => x <= b,
        Guard::InRange(lo, hi) => x >= lo && x <= hi,
    }
}

/// The fold of `xs`, stopping at the first failure.
pub open spec fn eval_spec(f: Fold, g: Guard, xs: Seq<i64>) -> Result<int, Failure>
    decreases xs.len(),
{
    if xs.len() == 0 {
        Ok(init_spec(f))
    } else {
        match eval_spec(f, g, xs.drop_last()) {
            Err(e) => Err(e),
            Ok(acc) => if !guard_spec(g, xs.last() as int) {
                Err(Failure::OutOfRange(xs.last()))
            } else {
                match step_spec(f, acc, xs.last() as int) {
                    Some(v) => Ok(v),
                    None => Err(Failure::Overflow),
                }
            },
        }
    }
}

/// A failure as its tag: `OutOfRange(x)` or `Overflow`.
pub open spec fn failure_text(e: Failure) -> Seq<char> {
    match e {
        Failure::OutOfRange(x) => "OutOfRange("@ + dec_int(x as int) + ")"@,
        Failure::Overflow => "Overflow"@,
    }
}

/// The outcome with failures as tags.
pub open spec fn tagged(o: Result<int, Failure>) -> Result<int, Seq<char>> {
    match o {
        Ok(v) => Ok(v),
        Err(e) => Err(failure_text(e)),
    }
}

pub open spec fn result_view(r: Result<i64, String>) -> Result<int, Seq<char>> {
    match r {
        Ok(v) => Ok(v as int),
        Err(e) => Err(e@),
    }
}

pub fn init_val(f: Fold) -> (r: i64)
    ensures
        r == init_spec(f),
{
    match f {
        Fold::Product => 1,
        _ => 0,
    }
}

pub fn step(f: Fold, acc: i64, x: i64) -> (r: Option<i64>)
    ensures
        match r {
            Some(v) => step_spec(f, acc as int, x as int) == Some(v as int),
            None => step_spec(f, acc as int, x as int) is None,
        },
{
    match f {
        Fold::Sum => acc.checked_add(x),
        Fold::Product => acc.checked_mul(x),
        Fold::SumSquares => match x.checked_mul(x) {
            Some(sq) => acc.checked_add(sq),
            None => None,
        },
    }
}

pub fn guard_ok(g: Guard, x: i64) -> (r: bool)
    ensures
        r == guard_spec(g, x as int),
{
    match g {
        Guard::Positive => x > 0,
        Guard::NonZero => x != 0,
        Guard::AtMost(b) => x <= b,
        Guard::InRange(lo, hi) => x >= lo && x <= hi,
    }
}

fn failure_string(e: Failure) -> (r: String)
    ensures
        r@ == failure_text(e),
{
    match e {
        Failure::OutOfRange(x) => {
            let mut s = string_of("OutOfRange(");
            push_i64(&mut s, x);
            push_str(&mut s, ")");
            s
        },
        Failure::Overflow => string_of("Overflow"),
    }
}

/// The answer: fold with the guard checked before each step; the first
/// failure, as its tag, stops the fold.
pub fn eval(spec: &Spec, xs: &[i64]) -> (r: Result<i64, String>)
    ensures
        result_view(r) == tagged(eval_spec(spec.fold, spec.guard, xs@)),
{
    let mut acc = init_val(spec.fold);
    let mut i: usize = 0;
    assert(xs@.take(0) =~= Seq::<i64>::empty());
    while i < xs.len()
        invariant
            i <= xs.len(),
            eval_spec(spec.fold, spec.guard, xs@.take(i as int)) == Ok::<int, Failure>(acc as int),
        decreases xs.len() - i,
    {
        let x = xs[i];
        let ghost t = xs@.take(i + 1);
        assert(t.drop_last() =~= xs@.take(i as int));
        assert(t.last() == x);
        if !guard_ok(spec.guard, x) {
            proof {
                lemma_failure_sticks(spec.fold, spec.guard, xs@, i + 1);
            }
            return Err(failure_string(Failure::OutOfRange(x)));
        }
        match step(spec.fold, acc, x) {
            Some(v) => {
                acc = v;
            },
            None => {
                proof {
                    lemma_failure_sticks(spec.fold, spec.guard, xs@, i + 1);
                }
                return Err(failure_string(Failure::Overflow));
            },
        }
        i = i + 1;
    }
    assert(xs@.take(xs.len() as int) =~= xs@);
    Ok(acc)
}

/// Once a prefix fails, the whole fold fails the same way.
proof fn lemma_failure_sticks(f: Fold, g: Guard, xs: Seq<i64>, k: int)
    requires
        0 <= k <= xs.len(),
        eval_spec(f, g, xs.take(k)) is Err,
    ensures
        eval_spec(f, g, xs) == eval_spec(f, g, xs.take(k)),
    decreases xs.len() - k,
{
    if k < xs.len() {
        let t = xs.take(k + 1);
        assert(t.drop_last() =~= xs.take(k));
        lemma_failure_sticks(f, g, xs, k + 1);
    } else {
        assert(xs.take(k) =~= xs);
    }
}

// ---- sampling --------------------------------------------------------------

pub open spec fn fold_of(k: u64) -> Fold {
    if k == 0 {
        Fold::Sum
    } else if k == 1 {
        Fold::Product
    } else {
        Fold::SumSquares
    }
}

/// Guard kind `k` with parameter choice `p`.
pub open spec fn guard_of(k: u64, p: u64) -> Guard {
    if k == 0 {
        Guard::Positive
    } else if k == 1 {
        Guard::NonZero
    } else if k == 2 {
        Guard::AtMost(if p == 0 { 50i64 } else if p == 1 { 100i64 } else { 1000i64 })
    } else {
        if p == 0 {
            Guard::InRange(0i64, 100i64)
        } else if p == 1 {
            Guard::InRange(1i64, 50i64)
        } else {
            Guard::InRange(-100i64, 100i64)
        }
    }
}

pub open spec fn name_text(i: u64) -> Seq<char> {
    if i == 0 {
        "f"@
    } else if i == 1 {
        "checked_reduce"@
    } else if i == 2 {
        "fold_checked"@
    } else if i == 3 {
        "evaluate"@
    } else if i == 4 {
        "accumulate"@
    } else {
        "run"@
    }
}

pub open spec fn sample_fold(seed: u64) -> Fold {
    fold_of(draw(seed, 0) % 3)
}

/// A bounded guard draws its parameter next; the name follows.
pub open spec fn guard_draws(seed: u64) -> nat {
    if draw(seed, 1) % 4 >= 2 { 1 } else { 0 }
}

pub open spec fn sample_guard(seed: u64) -> Guard {
    guard_of(draw(seed, 1) % 4, draw(seed, 2) % 3)
}

pub open spec fn sample_name(seed: u64) -> Seq<char> {
    name_text(draw(seed, 2 + guard_draws(seed)) % 6)
}

fn name_at(i: u64) -> (r: &'static str)
    requires
        i < 6,
    ensures
        r@ == name_text(i),
{
    if i == 0 {
        "f"
    } else if i == 1 {
        "checked_reduce"
    } else if i == 2 {
        "fold_checked"
    } else if i == 3 {
        "evaluate"
    } else if i == 4 {
        "accumulate"
    } else {
        "run"
    }
}

/// The spec for `seed`: every choice is a function of the seed's stream.
pub fn sample(seed: u64) -> (r: Spec)
    ensures
        r.fold == sample_fold(seed),
        r.guard == sample_guard(seed),
        r.fn_name@ == sample_name(seed),
{
    let mut rng = Rng::new(seed);
    let f = rng.below(3);
    let fold = if f == 0 {
        Fold::Sum
    } else if f == 1 {
        Fold::Product
    } else {
        Fold::SumSquares
    };
    let k = rng.below(4);
    let guard = if k == 0 {
        Guard::Positive
    } else if k == 1 {
        Guard::NonZero
    } else if k == 2 {
        let p = rng.below(3);
        Guard::AtMost(if p == 0 { 50 } else if p == 1 { 100 } else { 1000 })
    } else {
        let p = rng.below(3);
        if p == 0 {
            Guard::InRange(0, 100)
        } else if p == 1 {
            Guard::InRange(1, 50)
        } else {
            Guard::InRange(-100, 100)
        }
    };
    let fn_name = name_at(rng.below(6));
    Spec { fold, guard, fn_name }
}

/// A guard the sampler can produce.
pub open spec fn sampleable(g: Guard) -> bool {
    match g {
        Guard::AtMost(b) => b == 50 || b == 100 || b == 1000,
        Guard::InRange(lo, hi) => (lo == 0 && hi == 100) || (lo == 1 && hi == 50) || (lo == -100 && hi == 100),
        _ => true,
    }
}

// ---- emitted-source fragments ----------------------------------------------

pub open spec fn init_text(f: Fold) -> Seq<char> {
    match f {
        Fold::Product => "1"@,
        _ => "0"@,
    }
}

pub fn init_expr(f: Fold) -> (r: &'static str)
    ensures
        r@ == init_text(f),
{
    match f {
        Fold::Product => "1",
        _ => "0",
    }
}

pub open spec fn step_text(f: Fold) -> Seq<char> {
    match f {
        Fold::Sum => "acc.checked_add(x)"@,
        Fold::Product => "acc.checked_mul(x)"@,
        Fold::SumSquares => "x.checked_mul(x).and_then(|sq| acc.checked_add(sq))"@,
    }
}

pub fn step_expr(f: Fold) -> (r: &'static str)
    ensures
        r@ == step_text(f),
{
    match f {
        Fold::Sum => "acc.checked_add(x)",
        Fold::Product => "acc.checked_mul(x)",
        Fold::SumSquares => "x.checked_mul(x).and_then(|sq| acc.checked_add(sq))",
    }
}

pub open spec fn guard_cond_text(g: Guard) -> Seq<char> {
    match g {
        Guard::Positive => "x > 0"@,
        Guard::NonZero => "x != 0"@,
        Guard::AtMost(b) => "x <= "@ + dec_int(b as int),
        Guard::InRange(lo, hi) => "x >= "@ + dec_int(lo as int) + " && x <= "@ + dec_int(hi as int),
    }
}

pub fn guard_cond(g: Guard) -> (r: String)
    ensures
        r@ == guard_cond_text(g),
{
    match g {
        Guard::Positive => string_of("x > 0"),
        Guard::NonZero => string_of("x != 0"),
        Guard::AtMost(b) => {
            let mut s = string_of("x <= ");
            push_i64(&mut s, b);
            s
        },
        Guard::InRange(lo, hi) => {
            let mut s = string_of("x >= ");
            push_i64(&mut s, lo);
            push_str(&mut s, " && x <= ");
            push_i64(&mut s, hi);
            s
        },
    }
}

pub open spec fn fold_prose_text(f: Fold) -> Seq<char> {
    match f {
        Fold::Sum => "their sum"@,
        Fold::Product => "their product"@,
        Fold::SumSquares => "the sum of their squares"@,
    }
}

pub fn fold_prose(f: Fold) -> (r: &'static str)
    ensures
        r@ == fold_prose_text(f),
{
    match f {
        Fold::Sum => "their sum",
        Fold::Product => "their product",
        Fold::SumSquares => "the sum of their squares",
    }
}

pub open spec fn guard_prose_text(g: Guard) -> Seq<char> {
    match g {
        Guard::Positive => "be strictly positive (`> 0`)"@,
        Guard::NonZero => "be non-zero"@,
        Guard::AtMost(b) => "be at most `"@ + dec_int(b as int) + "`"@,
        Guard::InRange(lo, hi) => "be in the range `"@ + dec_int(lo as int) + "..="@ + dec_int(hi as int)
            + "` inclusive"@,
    }
}

pub fn guard_prose(g: Guard) -> (r: String)
    ensures
        r@ == guard_prose_text(g),
{
    match g {
        Guard::Positive => string_of("be strictly positive (`> 0`)"),
        Guard::NonZero => string_of("be non-zero"),
        Guard::AtMost(b) => {
            let mut s = string_of("be at most `");
            push_i64(&mut s, b);
            push_str(&mut s, "`");
            s
        },
        Guard::InRange(lo, hi) => {
            let mut s = string_of("be in the range `");
            push_i64(&mut s, lo);
            push_str(&mut s, "..=");
            push_i64(&mut s, hi);
            push_str(&mut s, "` inclusive");
            s
        },
    }
}

/// Some value of `i64` fails `g` just above its bound.
pub open spec fn violable(g: Guard) -> bool {
    &&& g matches Guard::AtMost(b) ==> b < i64::MAX
    &&& g matches Guard::InRange(_, hi) ==> hi < i64::MAX
}

/// A value every sampleable guard accepts.
pub open spec fn pass_spec() -> i64 {
    2
}

/// A value every guard accepts.
pub fn pass_value() -> (r: i64)
    ensures
        r == pass_spec(),
{
    2
}

/// A value `g` rejects.
pub open spec fn violating_spec(g: Guard) -> int {
    match g {
        Guard::Positive => 0,
        Guard::NonZero => 0,
        Guard::AtMost(b) => b + 1,
        Guard::InRange(_, hi) => hi + 1,
    }
}

pub fn violating_value(g: Guard) -> (r: i64)
    requires
        violable(g),
    ensures
        r == violating_spec(g),
        !guard_spec(g, r as int),
{
    match g {
        Guard::Positive => 0,
        Guard::NonZero => 0,
        Guard::AtMost(b) => b + 1,
        Guard::InRange(_, hi) => hi + 1,
    }
}

/// The pinned error type.
pub open spec fn enum_text() -> Seq<char> {
    "#[derive(Debug, PartialEq)]\npub enum MathError {\n    Overflow,\n    OutOfRange(i64),\n}\n"@
}

/// The checked fold after the function's name.
pub open spec fn ref_tail_text(f: Fold, g: Guard) -> Seq<char> {
    "(xs: &[i64]) -> Result<i64, MathError> {\n    let mut acc: i64 = "@ + init_text(f)
        + ";\n    for &x in xs {\n        if !("@ + guard_cond_text(g)
        + ") {\n            return Err(MathError::OutOfRange(x));\n        }\n        acc = "@ + step_text(f)
        + ".ok_or(MathError::Overflow)?;\n    }\n    Ok(acc)\n}\n"@
}

fn ref_tail(spec: &Spec) -> (r: String)
    ensures
        r@ == ref_tail_text(spec.fold, spec.guard),
{
    let mut s = string_of("(xs: &[i64]) -> Result<i64, MathError> {\n    let mut acc: i64 = ");
    push_str(&mut s, init_expr(spec.fold));
    push_str(&mut s, ";\n    for &x in xs {\n        if !(");
    let g = guard_cond(spec.guard);
    push_str(&mut s, g.as_str());
    push_str(&mut s, ") {\n            return Err(MathError::OutOfRange(x));\n        }\n        acc = ");
    push_str(&mut s, step_expr(spec.fold));
    push_str(&mut s, ".ok_or(MathError::Overflow)?;\n    }\n    Ok(acc)\n}\n");
    s
}

fn push_enum(s: &mut String)
    ensures
        final(s)@ == old(s)@ + enum_text(),
{
    push_str(s, "#[derive(Debug, PartialEq)]\npub enum MathError {\n    Overflow,\n    OutOfRange(i64),\n}\n");
}

pub open spec fn reference_text(name: Seq<char>, f: Fold, g: Guard) -> Seq<char> {
    enum_text() + "\npub fn "@ + name + ref_tail_text(f, g)
}

/// The correct reference, mirroring `eval`.
pub fn reference_src(spec: &Spec) -> (r: String)
    ensures
        r@ == reference_text(spec.fn_name@, spec.fold, spec.guard),
{
    let mut s = String::new();
    push_enum(&mut s);
    push_str(&mut s, "\npub fn ");
    push_str(&mut s, spec.fn_name);
    let t = ref_tail(spec);
    push_str(&mut s, t.as_str());
    s
}

// ---- worked examples -------------------------------------------------------

pub open spec fn example_seed(seed: u64) -> u64 {
    seed ^ 0xC4EC_0000_0000_0011u64
}

/// The fixed first input: valid under every sampleable guard.
pub open spec fn canonical() -> Seq<i64> {
    seq![2i64, 3, 4]
}

pub open spec fn input_len(s: u64, k: nat) -> nat {
    (2 + draw(s, k) % 3) as nat
}

/// The random input whose draws start at `k`: a length `2..=4`, then that
/// many values in `-5..=15`.
pub open spec fn random_input(s: u64, k: nat) -> Seq<i64> {
    Seq::new(input_len(s, k), |j: int| ((draw(s, (k + 1 + j) as nat) % 21) as int - 5) as i64)
}

pub open spec fn input_next(s: u64, k: nat) -> nat {
    k + 1 + input_len(s, k)
}

/// The guard-failure input: a clean value, then one the guard rejects.
pub open spec fn guard_failure(g: Guard) -> Seq<i64> {
    seq![pass_spec(), violating_spec(g) as i64]
}

/// The examples: the canonical input, two random ones, the guard failure and
/// the empty input.
pub open spec fn example_inputs(g: Guard, seed: u64) -> Seq<Seq<i64>> {
    let s = example_seed(seed);
    let k1 = input_next(s, 0);
    seq![canonical(), random_input(s, 0), random_input(s, k1), guard_failure(g), Seq::empty()]
}

/// An outcome as Rust source: `Ok(v)` or `Err(MathError::tag)`.
pub open spec fn outcome_text(o: Result<int, Seq<char>>) -> Seq<char> {
    match o {
        Ok(v) => "Ok("@ + dec_int(v) + ")"@,
        Err(e) => "Err(MathError::"@ + e + ")"@,
    }
}

fn push_outcome(s: &mut String, o: &Result<i64, String>)
    ensures
        final(s)@ == old(s)@ + outcome_text(result_view(*o)),
{
    match o {
        Ok(v) => {
            push_str(s, "Ok(");
            push_i64(s, *v);
            push_str(s, ")");
        },
        Err(e) => {
            push_str(s, "Err(MathError::");
            push_str(s, e.as_str());
            push_str(s, ")");
        },
    }
}

pub open spec fn example_line(input: Seq<i64>, out: Result<int, Seq<char>>) -> Seq<char> {
    "  "@ + debug_list(input) + "  ->  "@ + outcome_text(out)
}

pub open spec fn example_lines(f: Fold, g: Guard, seed: u64) -> Seq<Seq<char>> {
    example_inputs(g, seed).map_values(|x: Seq<i64>| example_line(x, tagged(eval_spec(f, g, x))))
}

/// One worked example: (input, expected outcome).
pub type ExampleCase = (Vec<i64>, Result<i64, String>);

pub open spec fn example_cases(f: Fold, g: Guard, seed: u64) -> Seq<(Seq<i64>, Result<int, Seq<char>>)> {
    example_inputs(g, seed).map_values(|x: Seq<i64>| (x, tagged(eval_spec(f, g, x))))
}

pub open spec fn case_view(c: ExampleCase) -> (Seq<i64>, Result<int, Seq<char>>) {
    (c.0@, result_view(c.1))
}

fn random_input_vec(rng: &mut Rng) -> (r: Vec<i64>)
    ensures
        final(rng).seed() == old(rng).seed(),
        r@ == random_input(old(rng).seed(), old(rng).count()),
        final(rng).count() == input_next(old(rng).seed(), old(rng).count()),
{
    let ghost s = rng.seed();
    let ghost k = rng.count();
    let len = 2 + rng.below(3) as usize;
    let mut v: Vec<i64> = Vec::new();
    let mut j: usize = 0;
    while j < len
        invariant
            j <= len,
            len == input_len(s, k),
            rng.seed() == s,
            rng.count() == k + 1 + j,
            v@ =~= random_input(s, k).take(j as int),
        decreases len - j,
    {
        let x = rng.below(21) as i64 - 5;
        v.push(x);
        j = j + 1;
    }
    v
}

fn example_input_vecs(g: Guard, seed: u64) -> (r: Vec<Vec<i64>>)
    requires
        violable(g),
    ensures
        r@.len() == 5,
        forall|i: int| 0 <= i < 5 ==> (#[trigger] r@[i])@ == example_inputs(g, seed)[i],
{
    let mut rng = Rng::new(seed ^ 0xC4EC_0000_0000_0011);
    let mut inputs: Vec<Vec<i64>> = Vec::new();
    let c: Vec<i64> = vec![2, 3, 4];
    assert(c@ =~= canonical());
    inputs.push(c);
    let a = random_input_vec(&mut rng);
    let b = random_input_vec(&mut rng);
    inputs.push(a);
    inputs.push(b);
    let gf: Vec<i64> = vec![pass_value(), violating_value(g)];
    assert(gf@ =~= guard_failure(g));
    inputs.push(gf);
    let e: Vec<i64> = Vec::new();
    assert(e@ =~= Seq::<i64>::empty());
    inputs.push(e);
    inputs
}

fn example_line_string(input: &Vec<i64>, out: &Result<i64, String>) -> (r: String)
    ensures
        r@ == example_line(input@, result_view(*out)),
{
    let mut s = string_of("  ");
    push_debug_list(&mut s, input.as_slice());
    push_str(&mut s, "  ->  ");
    push_outcome(&mut s, out);
    s
}

/// The worked examples as lines (without newlines) and cases.
pub fn example_data(spec: &Spec, seed: u64) -> (r: (Vec<String>, Vec<ExampleCase>))
    requires
        violable(spec.guard),
    ensures
        string_views(r.0@) == example_lines(spec.fold, spec.guard, seed),
        r.1@.len() == 5,
        forall|i: int| 0 <= i < 5 ==> case_view(#[trigger] r.1@[i]) == example_cases(spec.fold, spec.guard, seed)[i],
{
    let inputs = example_input_vecs(spec.guard, seed);
    let mut lines: Vec<String> = Vec::new();
    let mut cases: Vec<ExampleCase> = Vec::new();
    let mut j: usize = 0;
    while j < inputs.len()
        invariant
            j <= inputs.len(),
            inputs@.len() == 5,
            forall|i: int| 0 <= i < 5 ==> (#[trigger] inputs@[i])@ == example_inputs(spec.guard, seed)[i],
            lines@.len() == j,
            cases@.len() == j,
            forall|q: int| 0 <= q < j ==> #[trigger] lines@[q]@ == example_lines(spec.fold, spec.guard, seed)[q],
            forall|q: int| 0 <= q < j ==> case_view(#[trigger] cases@[q]) == example_cases(spec.fold, spec.guard, seed)[q],
        decreases inputs.len() - j,
    {
        let input = inputs[j].clone();
        let out = eval(spec, input.as_slice());
        lines.push(example_line_string(&input, &out));
        cases.push((input, out));
        j = j + 1;
    }
    assert(string_views(lines@) =~= example_lines(spec.fold, spec.guard, seed));
    (lines, cases)
}

/// Worked examples: the prose block and the cases.
pub fn worked_examples(spec: &Spec, seed: u64) -> (r: (String, Vec<ExampleCase>))
    requires
        violable(spec.guard),
    ensures
        r.0@ == terminated(example_lines(spec.fold, spec.guard, seed)),
        r.1@.len() == 5,
        forall|i: int| 0 <= i < 5 ==> case_view(#[trigger] r.1@[i]) == example_cases(spec.fold, spec.guard, seed)[i],
{
    let (lines, cases) = example_data(spec, seed);
    let mut prose = String::new();
    push_terminated(&mut prose, &lines);
    (prose, cases)
}

// ---- the files of an instance ----------------------------------------------

pub open spec fn skeleton_text(name: Seq<char>, f: Fold, g: Guard, seed: u64) -> Seq<char> {
    "//! Implement `"@ + name + "` below. The `MathError` enum is provided; keep it.\n//!\n"@ + doc_block(
        example_lines(f, g, seed),
    ) + "\n"@ + enum_text() + "\npub fn "@ + name + "(xs: &[i64]) -> Result<i64, MathError> {\n    todo!()\n}\n"@
}

pub fn skeleton_src(spec: &Spec, seed: u64) -> (r: String)
    requires
        violable(spec.guard),
    ensures
        r@ == skeleton_text(spec.fn_name@, spec.fold, spec.guard, seed),
{
    let (lines, _) = example_data(spec, seed);
    let mut s = string_of("//! Implement `");
    push_str(&mut s, spec.fn_name);
    push_str(&mut s, "` below. The `MathError` enum is provided; keep it.\n//!\n");
    push_doc_block(&mut s, &lines);
    push_str(&mut s, "\n");
    push_enum(&mut s);
    push_str(&mut s, "\npub fn ");
    push_str(&mut s, spec.fn_name);
    push_str(&mut s, "(xs: &[i64]) -> Result<i64, MathError> {\n    todo!()\n}\n");
    s
}

pub open spec fn prompt_text(name: Seq<char>, f: Fold, g: Guard, seed: u64, canary: Seq<char>) -> Seq<char> {
    "Implement the function `"@ + name
        + "` in `src/lib.rs`. The `MathError` enum is already provided; keep it.\n\nFold `xs` left to right into an accumulator that starts at `"@
        + init_text(f) + "`. Each element must "@ + guard_prose_text(g)
        + "; if one does not, return `Err(MathError::OutOfRange(value))`. Otherwise combine the elements into "@
        + fold_prose_text(f)
        + ". If any arithmetic step overflows `i64`, return `Err(MathError::Overflow)` rather than panicking \u{2014} use the checked operations. An empty input returns `Ok("@
        + init_text(f)
        + ")`.\n\nConstraints:\n- Do not panic on overflow; propagate `MathError::Overflow` via the `checked_*` methods.\n- Do not use `unsafe`.\n\nSignature:\n```rust\npub fn "@
        + name + "(xs: &[i64]) -> Result<i64, MathError>\n```\n\nExamples:\n"@ + terminated(example_lines(f, g, seed))
        + "\n"@ + prompt_tail(canary)
}

pub fn prompt(spec: &Spec, seed: u64, canary: &str) -> (r: String)
    requires
        violable(spec.guard),
    ensures
        r@ == prompt_text(spec.fn_name@, spec.fold, spec.guard, seed, canary@),
{
    let (examples, _) = worked_examples(spec, seed);
    let mut s = string_of("Implement the function `");
    push_str(&mut s, spec.fn_name);
    push_str(
        &mut s,
        "` in `src/lib.rs`. The `MathError` enum is already provided; keep it.\n\nFold `xs` left to right into an accumulator that starts at `",
    );
    push_str(&mut s, init_expr(spec.fold));
    push_str(&mut s, "`. Each element must ");
    let gp = guard_prose(spec.guard);
    push_str(&mut s, gp.as_str());
    push_str(&mut s, "; if one does not, return `Err(MathError::OutOfRange(value))`. Otherwise combine the elements into ");
    push_str(&mut s, fold_prose(spec.fold));
    push_str(
        &mut s,
        ". If any arithmetic step overflows `i64`, return `Err(MathError::Overflow)` rather than panicking \u{2014} use the checked operations. An empty input returns `Ok(",
    );
    push_str(&mut s, init_expr(spec.fold));
    push_str(
        &mut s,
        ")`.\n\nConstraints:\n- Do not panic on overflow; propagate `MathError::Overflow` via the `checked_*` methods.\n- Do not use `unsafe`.\n\nSignature:\n```rust\npub fn ",
    );
    push_str(&mut s, spec.fn_name);
    push_str(&mut s, "(xs: &[i64]) -> Result<i64, MathError>\n```\n\nExamples:\n");
    push_str(&mut s, examples.as_str());
    push_str(&mut s, "\n");
    push_prompt_tail(&mut s, canary);
    s
}

pub open spec fn case_test_text(name: Seq<char>, i: nat, c: (Seq<i64>, Result<int, Seq<char>>)) -> Seq<char> {
    "#[test]\nfn ex"@ + dec_nat(i) + "() {\n    let xs: Vec<i64> = vec!"@ + debug_list(c.0) + ";\n    assert_eq!("@
        + name + "(&xs), "@ + outcome_text(c.1) + ");\n}\n\n"@
}

pub open spec fn case_tests_text(name: Seq<char>, cases: Seq<(Seq<i64>, Result<int, Seq<char>>)>) -> Seq<char>
    decreases cases.len(),
{
    if cases.len() == 0 {
        Seq::empty()
    } else {
        case_tests_text(name, cases.drop_last()) + case_test_text(name, (cases.len() - 1) as nat, cases.last())
    }
}

fn case_test_string(name: &str, i: usize, c: &ExampleCase) -> (r: String)
    ensures
        r@ == case_test_text(name@, i as nat, case_view(*c)),
{
    let mut s = string_of("#[test]\nfn ex");
    push_u64(&mut s, i as u64);
    push_str(&mut s, "() {\n    let xs: Vec<i64> = vec!");
    push_debug_list(&mut s, c.0.as_slice());
    push_str(&mut s, ";\n    assert_eq!(");
    push_str(&mut s, name);
    push_str(&mut s, "(&xs), ");
    push_outcome(&mut s, &c.1);
    push_str(&mut s, ");\n}\n\n");
    s
}

pub open spec fn behavior_text(name: Seq<char>, f: Fold, g: Guard, seed: u64) -> Seq<char> {
    "use task::{MathError, "@ + name + "};\n\n"@ + case_tests_text(name, example_cases(f, g, seed))
}

pub fn behavior_test_src(spec: &Spec, seed: u64) -> (r: String)
    requires
        violable(spec.guard),
    ensures
        r@ == behavior_text(spec.fn_name@, spec.fold, spec.guard, seed),
{
    let (_, cases) = worked_examples(spec, seed);
    let ghost cs = example_cases(spec.fold, spec.guard, seed);
    assert forall|q: int| 0 <= q < 5 implies #[trigger] cs[q] == case_view(cases@[q]) by {}
    let mut s = string_of("use task::{MathError, ");
    push_str(&mut s, spec.fn_name);
    push_str(&mut s, "};\n\n");
    let ghost start = s@;
    let mut i: usize = 0;
    while i < cases.len()
        invariant
            i <= cases.len(),
            cases@.len() == 5,
            cs.len() == 5,
            forall|q: int| 0 <= q < 5 ==> #[trigger] cs[q] == case_view(cases@[q]),
            s@ == start + case_tests_text(spec.fn_name@, cs.take(i as int)),
        decreases cases.len() - i,
    {
        let t = case_test_string(spec.fn_name, i, &cases[i]);
        push_str(&mut s, t.as_str());
        assert(cs.take(i + 1).drop_last() =~= cs.take(i as int));
        i = i + 1;
    }
    assert(cs.take(5) =~= cs);
    s
}

pub open spec fn differential_text(name: Seq<char>, f: Fold, g: Guard) -> Seq<char> {
    "use task::{MathError, "@ + name + "};\n\n"@ + "\nfn reference"@ + ref_tail_text(f, g)
        + "\n#[test]\nfn differential_vs_reference() {\n    let mut state: u64 = 0xC4EC_ED00_0000_0042;\n    let mut next = || {\n        state = state.wrapping_mul(6364136223846793005).wrapping_add(1442695040888963407);\n        (state >> 33) as u64\n    };\n    for _ in 0..3000 {\n        let len = (next() % 8) as usize;\n        // Wide values so CheckedProduct / CheckedSumSquares overflow \u{2014} a\n        // model using plain `*` would panic here and score zero.\n        let xs: Vec<i64> = (0..len)\n            .map(|_| (next() % 6_000_000_001) as i64 - 3_000_000_000)\n            .collect();\n        assert_eq!("@
        + name + "(&xs), reference(&xs), \"mismatch on {xs:?}\");\n    }\n}\n"@
}

/// The hidden differential test: the reference without its enum, renamed,
/// against the answer on wide random values.
pub fn differential_test_src(spec: &Spec) -> (r: String)
    ensures
        r@ == differential_text(spec.fn_name@, spec.fold, spec.guard),
{
    let mut s = string_of("use task::{MathError, ");
    push_str(&mut s, spec.fn_name);
    push_str(&mut s, "};\n\n");
    push_str(&mut s, "\nfn reference");
    let t = ref_tail(spec);
    push_str(&mut s, t.as_str());
    push_str(
        &mut s,
        "\n#[test]\nfn differential_vs_reference() {\n    let mut state: u64 = 0xC4EC_ED00_0000_0042;\n    let mut next = || {\n        state = state.wrapping_mul(6364136223846793005).wrapping_add(1442695040888963407);\n        (state >> 33) as u64\n    };\n    for _ in 0..3000 {\n        let len = (next() % 8) as usize;\n        // Wide values so CheckedProduct / CheckedSumSquares overflow \u{2014} a\n        // model using plain `*` would panic here and score zero.\n        let xs: Vec<i64> = (0..len)\n            .map(|_| (next() % 6_000_000_001) as i64 - 3_000_000_000)\n            .collect();\n        assert_eq!(",
    );
    push_str(&mut s, spec.fn_name);
    push_str(&mut s, "(&xs), reference(&xs), \"mismatch on {xs:?}\");\n    }\n}\n");
    s
}

pub open spec fn const_ok_text(name: Seq<char>) -> Seq<char> {
    enum_text() + "\npub fn "@ + name + "(xs: &[i64]) -> Result<i64, MathError> { let _ = xs; Ok(0) }\n"@
}

/// Degenerate answer: always `Ok(0)`.
pub fn const_ok(spec: &Spec) -> (r: String)
    ensures
        r@ == const_ok_text(spec.fn_name@),
{
    let mut s = String::new();
    push_enum(&mut s);
    push_str(&mut s, "\npub fn ");
    push_str(&mut s, spec.fn_name);
    push_str(&mut s, "(xs: &[i64]) -> Result<i64, MathError> { let _ = xs; Ok(0) }\n");
    s
}

pub open spec fn no_guard_text(name: Seq<char>, f: Fold) -> Seq<char> {
    enum_text() + "\npub fn "@ + name + "(xs: &[i64]) -> Result<i64, MathError> {\n    let mut acc: i64 = "@
        + init_text(f) + ";\n    for &x in xs {\n        acc = "@ + step_text(f)
        + ".ok_or(MathError::Overflow)?;\n    }\n    Ok(acc)\n}\n"@
}

/// Degenerate answer: folds correctly but never checks the guard.
pub fn no_guard(spec: &Spec) -> (r: String)
    ensures
        r@ == no_guard_text(spec.fn_name@, spec.fold),
{
    let mut s = String::new();
    push_enum(&mut s);
    push_str(&mut s, "\npub fn ");
    push_str(&mut s, spec.fn_name);
    push_str(&mut s, "(xs: &[i64]) -> Result<i64, MathError> {\n    let mut acc: i64 = ");
    push_str(&mut s, init_expr(spec.fold));
    push_str(&mut s, ";\n    for &x in xs {\n        acc = ");
    push_str(&mut s, step_expr(spec.fold));
    push_str(&mut s, ".ok_or(MathError::Overflow)?;\n    }\n    Ok(acc)\n}\n");
    s
}

/// The hidden behaviour tests of the task `seed` gives.
pub closed spec fn behavior_file(seed: u64) -> Seq<char> {
    behavior_text(sample_name(seed), sample_fold(seed), sample_guard(seed), seed)
}

/// The hidden differential test of the task `seed` gives.
pub closed spec fn differential_file(seed: u64) -> Seq<char> {
    differential_text(sample_name(seed), sample_fold(seed), sample_guard(seed))
}

// ---- the family ------------------------------------------------------------

pub open spec fn fold_kind_text(f: Fold) -> Seq<char> {
    match f {
        Fold::Sum => "sum"@,
        Fold::Product => "product"@,
        Fold::SumSquares => "sum_squares"@,
    }
}

pub open spec fn guard_kind_text(g: Guard) -> Seq<char> {
    match g {
        Guard::Positive => "positive"@,
        Guard::NonZero => "nonzero"@,
        Guard::AtMost(_) => "at_most"@,
        Guard::InRange(_, _) => "in_range"@,
    }
}

pub struct CheckedEvalFamily;

impl CheckedEvalFamily {
    pub fn id(&self) -> (r: &'static str)
        ensures
            r@ == "checked-eval"@,
    {
        "checked-eval"
    }

    pub fn category(&self) -> (r: &'static str)
        ensures
            r@ == "error-handling"@,
    {
        "error-handling"
    }

    /// The instance for `seed`: a pure function of the seed.
    pub fn generate(&self, seed: u64) -> (r: GeneratedTask)
        ensures
            r.id@ == task_id_text("checked-eval"@, seed),
            r.category@ == "error-handling"@,
            r.canary@ == canary_text("checked-eval"@, seed),
            r.prompt@ == prompt_text(sample_name(seed), sample_fold(seed), sample_guard(seed), seed, r.canary@),
            r.answer_path@ == "src/lib.rs"@,
            r.files@.len() == 2,
            r.files@[0].0@ == "Cargo.toml"@,
            r.files@[0].1@ == cargo_toml_text(),
            r.files@[1].0@ == "src/lib.rs"@,
            r.files@[1].1@ == skeleton_text(sample_name(seed), sample_fold(seed), sample_guard(seed), seed),
            r.hidden@.len() == 2,
            r.hidden@[0].0@ == "tests/behavior.rs"@,
            r.hidden@[0].1@ == behavior_text(sample_name(seed), sample_fold(seed), sample_guard(seed), seed),
            r.hidden@[1].0@ == "tests/differential.rs"@,
            r.hidden@[1].1@ == differential_text(sample_name(seed), sample_fold(seed), sample_guard(seed)),
            r.behavior_test@ == "behavior"@,
            r.hidden@[0].1@ == behavior_file(seed),
            r.hidden@[1].1@ == differential_file(seed),
            r.differential_test@ == "differential"@,
            r.alloc_test@ == Seq::<char>::empty(),
            r.max_unsafe == Some(0u32),
            r.forbidden_paths@.len() == 0,
            !r.check_clippy,
            r.clippy_allow@.len() == 0,
            r.weights == (Weights { behavior: 70, constraint: 20, quality: 10 }),
    {
        let spec = sample(seed);
        let canary = mint_canary("checked-eval", seed);
        let mut files: Vec<(String, String)> = Vec::new();
        files.push((string_of("Cargo.toml"), cargo_toml()));
        files.push((string_of("src/lib.rs"), skeleton_src(&spec, seed)));
        let mut hidden: Vec<(String, String)> = Vec::new();
        hidden.push((string_of("tests/behavior.rs"), behavior_test_src(&spec, seed)));
        hidden.push((string_of("tests/differential.rs"), differential_test_src(&spec)));
        let prompt = prompt(&spec, seed, canary.as_str());
        GeneratedTask {
            id: task_id("checked-eval", seed),
            category: string_of("error-handling"),
            prompt,
            canary,
            answer_path: string_of("src/lib.rs"),
            files,
            hidden,
            behavior_test: string_of("behavior"),
            differential_test: string_of("differential"),
            alloc_test: String::new(),
            max_unsafe: Some(0),
            forbidden_paths: Vec::new(),
            check_clippy: false,
            clippy_allow: Vec::new(),
            weights: Weights { behavior: 70, constraint: 20, quality: 10 },
        }
    }

    pub fn reference_code(&self, seed: u64) -> (r: String)
        ensures
            r@ == reference_text(sample_name(seed), sample_fold(seed), sample_guard(seed)),
    {
        reference_src(&sample(seed))
    }

    pub fn skeleton_code(&self, seed: u64) -> (r: String)
        ensures
            r@ == skeleton_text(sample_name(seed), sample_fold(seed), sample_guard(seed), seed),
    {
        skeleton_src(&sample(seed), seed)
    }

    /// Degenerate answers `(label, code)`: always `Ok(0)`; the fold without
    /// the guard.
    pub fn trivial_baselines(&self, seed: u64) -> (r: Vec<(String, String)>)
        ensures
            r@.len() == 2,
            r@[0].0@ == "const-ok"@,
            r@[0].1@ == const_ok_text(sample_name(seed)),
            r@[1].0@ == "no-guard"@,
            r@[1].1@ == no_guard_text(sample_name(seed), sample_fold(seed)),
    {
        let spec = sample(seed);
        let mut v: Vec<(String, String)> = Vec::new();
        v.push((string_of("const-ok"), const_ok(&spec)));
        v.push((string_of("no-guard"), no_guard(&spec)));
        v
    }

    /// The structural identity: the fold and the guard's kind (its bounds are
    /// parameters of the same skill).
    pub fn spec_signature(&self, seed: u64) -> (r: Vec<String>)
        ensures
            r@.len() == 2,
            r@[0]@ == "fold:"@ + fold_kind_text(sample_fold(seed)),
            r@[1]@ == "guard:"@ + guard_kind_text(sample_guard(seed)),
    {
        let spec = sample(seed);
        let fold = match spec.fold {
            Fold::Sum => "sum",
            Fold::Product => "product",
            Fold::SumSquares => "sum_squares",
        };
        let guard = match spec.guard {
            Guard::Positive => "positive",
            Guard::NonZero => "nonzero",
            Guard::AtMost(_) => "at_most",
            Guard::InRange(_, _) => "in_range",
        };
        let mut a = string_of("fold:");
        push_str(&mut a, fold);
        let mut b = string_of("guard:");
        push_str(&mut b, guard);
        let mut v: Vec<String> = Vec::new();
        v.push(a);
        v.push(b);
        v
    }
}

/// Under every fold and every guard the sampler can produce, the canonical
/// `[2, 3, 4]` folds to `Ok(v)` with `v != 0`, and the guard-failure input
/// is an error: the `const-ok` and `no-guard` baselines fail on every seed.
pub proof fn law_canonical_valid(f: Fold, g: Guard)
    requires
        sampleable(g),
    ensures
        eval_spec(f, g, canonical()) matches Ok(v) && v != 0,
        eval_spec(f, g, guard_failure(g)) is Err,
{
    let c = canonical();
    assert(c.drop_last() =~= seq![2i64, 3]);
    assert(seq![2i64, 3].drop_last() =~= seq![2i64]);
    assert(seq![2i64].drop_last() =~= Seq::<i64>::empty());
    assert(eval_spec(f, g, Seq::<i64>::empty()) == Ok::<int, Failure>(init_spec(f)));
    assert(guard_spec(g, 2) && guard_spec(g, 3) && guard_spec(g, 4));
    let a1 = step_spec(f, init_spec(f), 2);
    assert(a1 is Some);
    assert(eval_spec(f, g, seq![2i64]) == Ok::<int, Failure>(a1->0));
    let a2 = step_spec(f, a1->0, 3);
    assert(a2 is Some);
    assert(eval_spec(f, g, seq![2i64, 3]) == Ok::<int, Failure>(a2->0));
    let a3 = step_spec(f, a2->0, 4);
    assert(a3 is Some);
    assert(a3->0 != 0);
    assert(eval_spec(f, g, c) == Ok::<int, Failure>(a3->0));
    let gf = guard_failure(g);
    assert(gf.drop_last() =~= seq![2i64]);
    assert(!guard_spec(g, violating_spec(g)));
}

} // verus!
