//! The `raw-ptr-mut` family (category `unsafe-core`): the writes sibling of
//! `raw-ptr`.
//!
//! The model implements `fn f(ptr: *mut i64, len: usize) -> usize`, mutating
//! seed-selected positions (all, the even indices, the odd indices, the first
//! half) in place through the pointer with a seed-selected transform (double,
//! negate, square, increment), and returning how many elements it wrote. The
//! native reference works on a slice.

use vstd::prelude::*;
use crate::rng::{Rng, draw};
use crate::digest::{mint_canary, canary_text};
use crate::text::{push_str, push_u64, push_debug_list, push_doc_block, push_terminated,
    dec_nat, debug_list, doc_block, terminated, string_views, string_of};
use crate::gen::{GeneratedTask, Weights, cargo_toml, cargo_toml_text, task_id, task_id_text,
    push_prompt_tail, prompt_tail};
use crate::gen::fold::all_small;

verus! {

/// Axis 1: which positions are written, as (start, stride, bound).
#[derive(Clone, Copy, Debug, PartialEq, Eq, Structural)]
pub enum Target {
    All,
    EvenIdx,
    OddIdx,
    FirstHalf,
}

/// Axis 2: what value is written over each targeted element.
#[derive(Clone, Copy, Debug, PartialEq, Eq, Structural)]
pub enum Transform {
    Double,
    Negate,
    Square,
    Increment,
}

pub struct Spec {
    pub target: Target,
    pub transform: Transform,
    pub fn_name: &'static str,
}

// ---- semantics -------------------------------------------------------------

pub open spec fn start_spec(t: Target) -> nat {
    match t {
        Target::OddIdx => 1,
        _ => 0,
    }
}

pub open spec fn stride_spec(t: Target) -> nat {
    match t {
        Target::EvenIdx | Target::OddIdx => 2,
        _ => 1,
    }
}

pub open spec fn bound_spec(t: Target, len: nat) -> nat {
    match t {
        Target::FirstHalf => len / 2,
        _ => len,
    }
}

/// Position `i` is one the target writes.
pub open spec fn targeted(t: Target, len: nat, i: int) -> bool {
    start_spec(t) <= i < bound_spec(t, len) && (i - start_spec(t)) % (stride_spec(t) as int) == 0
}

/// How many positions the target writes in a buffer of length `len`.
pub open spec fn writes(t: Target, len: nat) -> nat {
    let s = start_spec(t);
    let b = bound_spec(t, len);
    if b <= s { 0 } else if stride_spec(t) == 1 { (b - s) as nat } else { ((b - s + 1) / 2) as nat }
}

/// The new value as a function of the old one, in mathematical integers.
pub open spec fn apply_int(t: Transform, x: int) -> int {
    match t {
        Transform::Double => x * 2,
        Transform::Negate => -x,
        Transform::Square => x * x,
        Transform::Increment => x + 1,
    }
}

pub open spec fn in_i64(x: int) -> bool {
    i64::MIN <= x <= i64::MAX
}

/// Every targeted element's new value fits in `i64`.
pub open spec fn writes_fit(sp: Target, t: Transform, xs: Seq<i64>) -> bool {
    forall|i: int| 0 <= i < xs.len() && targeted(sp, xs.len(), i) ==> in_i64(apply_int(t, #[trigger] xs[i] as int))
}

/// The buffer after the writes: targeted positions transformed, the rest kept.
pub open spec fn eval_spec(sp: Target, t: Transform, xs: Seq<i64>) -> Seq<i64> {
    Seq::new(xs.len(), |i: int| if targeted(sp, xs.len(), i) { apply_int(t, xs[i] as int) as i64 } else { xs[i] })
}

pub fn start(target: Target) -> (r: usize)
    ensures
        r == start_spec(target),
{
    match target {
        Target::OddIdx => 1,
        _ => 0,
    }
}

pub fn stride(target: Target) -> (r: usize)
    ensures
        r == stride_spec(target),
{
    match target {
        Target::EvenIdx | Target::OddIdx => 2,
        _ => 1,
    }
}

pub fn bound(target: Target, len: usize) -> (r: usize)
    ensures
        r == bound_spec(target, len as nat),
{
    match target {
        Target::FirstHalf => len / 2,
        _ => len,
    }
}

/// The written value as a function of the old one.
pub fn apply(transform: Transform, x: i64) -> (r: i64)
    requires
        in_i64(apply_int(transform, x as int)),
    ensures
        r == apply_int(transform, x as int),
{
    match transform {
        Transform::Double => x * 2,
        Transform::Negate => -x,
        Transform::Square => x * x,
        Transform::Increment => x + 1,
    }
}

/// The answer: overwrite each targeted element in place; return how many
/// elements were written.
pub fn eval(spec: &Spec, xs: &mut Vec<i64>) -> (r: usize)
    requires
        old(xs)@.len() < usize::MAX,
        writes_fit(spec.target, spec.transform, old(xs)@),
    ensures
        final(xs)@ == eval_spec(spec.target, spec.transform, old(xs)@),
        r == writes(spec.target, old(xs)@.len()),
{
    let ghost orig = xs@;
    let mut n: usize = 0;
    let mut i = start(spec.target);
    let b = bound(spec.target, xs.len());
    let st = stride(spec.target);
    while i < b
        invariant
            orig.len() < usize::MAX,
            xs@.len() == orig.len(),
            writes_fit(spec.target, spec.transform, orig),
            b == bound_spec(spec.target, orig.len()),
            b <= orig.len(),
            st == stride_spec(spec.target),
            i == start_spec(spec.target) + st * n,
            n <= writes(spec.target, orig.len()),
            (i < b) == (n < writes(spec.target, orig.len())),
            forall|p: int| 0 <= p < i && p < orig.len() ==> #[trigger] xs@[p] == eval_spec(spec.target, spec.transform, orig)[p],
            forall|p: int| i <= p < orig.len() ==> #[trigger] xs@[p] == orig[p],
        decreases b - i + st,
    {
        assert(targeted(spec.target, orig.len(), i as int));
        let old_v = xs[i];
        let v = apply(spec.transform, old_v);
        xs.set(i, v);
        proof {
            assert forall|p: int| i < p < i + st && p < orig.len() implies !targeted(spec.target, orig.len(), p) by {}
        }
        n = n + 1;
        i = i + st;
    }
    proof {
        assert forall|p: int| i <= p < orig.len() implies !targeted(spec.target, orig.len(), p) by {}
    }
    assert(xs@ =~= eval_spec(spec.target, spec.transform, orig));
    n
}

// ---- sampling --------------------------------------------------------------

pub open spec fn target_of(k: u64) -> Target {
    if k == 0 { Target::All } else if k == 1 { Target::EvenIdx } else if k == 2 { Target::OddIdx } else { Target::FirstHalf }
}

pub open spec fn transform_of(k: u64) -> Transform {
    if k == 0 { Transform::Double } else if k == 1 { Transform::Negate } else if k == 2 { Transform::Square } else { Transform::Increment }
}

pub open spec fn name_text(i: u64) -> Seq<char> {
    if i == 0 { "f"@ }
    else if i == 1 { "mutate_raw"@ }
    else if i == 2 { "rewrite_at"@ }
    else if i == 3 { "patch"@ }
    else { "walk_mut"@ }
}

pub open spec fn sample_target(seed: u64) -> Target {
    target_of(draw(seed, 0) % 4)
}

pub open spec fn sample_transform(seed: u64) -> Transform {
    transform_of(draw(seed, 1) % 4)
}

pub open spec fn sample_name(seed: u64) -> Seq<char> {
    name_text(draw(seed, 2) % 5)
}

fn name_at(i: u64) -> (r: &'static str)
    requires
        i < 5,
    ensures
        r@ == name_text(i),
{
    if i == 0 { "f" }
    else if i == 1 { "mutate_raw" }
    else if i == 2 { "rewrite_at" }
    else if i == 3 { "patch" }
    else { "walk_mut" }
}

/// The spec for `seed`: every choice is a function of the seed's stream.
pub fn sample(seed: u64) -> (r: Spec)
    ensures
        r.target == sample_target(seed),
        r.transform == sample_transform(seed),
        r.fn_name@ == sample_name(seed),
{
    let mut rng = Rng::new(seed);
    let a = rng.below(4);
    let target = if a == 0 { Target::All } else if a == 1 { Target::EvenIdx } else if a == 2 { Target::OddIdx } else { Target::FirstHalf };
    let b = rng.below(4);
    let transform = if b == 0 { Transform::Double } else if b == 1 { Transform::Negate } else if b == 2 { Transform::Square } else { Transform::Increment };
    let fn_name = name_at(rng.below(5));
    Spec { target, transform, fn_name }
}

// ---- emitted-source fragments ----------------------------------------------

pub open spec fn bound_expr_text(t: Target, len_var: Seq<char>) -> Seq<char> {
    match t {
        Target::FirstHalf => len_var + " / 2"@,
        _ => len_var,
    }
}

pub fn bound_expr(target: Target, len_var: &str) -> (r: String)
    ensures
        r@ == bound_expr_text(target, len_var@),
{
    let mut s = string_of(len_var);
    match target {
        Target::FirstHalf => push_str(&mut s, " / 2"),
        _ => {},
    }
    s
}

/// The store expression: the new value in terms of the old value at `slot`.
pub open spec fn store_expr_text(t: Transform, slot: Seq<char>) -> Seq<char> {
    match t {
        Transform::Double => slot + " * 2"@,
        Transform::Negate => "-"@ + slot,
        Transform::Square => slot + " * "@ + slot,
        Transform::Increment => slot + " + 1"@,
    }
}

pub fn store_expr(transform: Transform, slot: &str) -> (r: String)
    ensures
        r@ == store_expr_text(transform, slot@),
{
    match transform {
        Transform::Double => {
            let mut s = string_of(slot);
            push_str(&mut s, " * 2");
            s
        },
        Transform::Negate => {
            let mut s = string_of("-");
            push_str(&mut s, slot);
            s
        },
        Transform::Square => {
            let mut s = string_of(slot);
            push_str(&mut s, " * ");
            push_str(&mut s, slot);
            s
        },
        Transform::Increment => {
            let mut s = string_of(slot);
            push_str(&mut s, " + 1");
            s
        },
    }
}

pub open spec fn target_prose_text(t: Target) -> Seq<char> {
    match t {
        Target::All => "every element, from index 0 to `len - 1`"@,
        Target::EvenIdx => "the even indices 0, 2, 4, \u{2026} that are below `len`"@,
        Target::OddIdx => "the odd indices 1, 3, 5, \u{2026} that are below `len`"@,
        Target::FirstHalf => "the first half of the elements, indices 0 to `len / 2 - 1`"@,
    }
}

pub fn target_prose(target: Target) -> (r: &'static str)
    ensures
        r@ == target_prose_text(target),
{
    match target {
        Target::All => "every element, from index 0 to `len - 1`",
        Target::EvenIdx => "the even indices 0, 2, 4, \u{2026} that are below `len`",
        Target::OddIdx => "the odd indices 1, 3, 5, \u{2026} that are below `len`",
        Target::FirstHalf => "the first half of the elements, indices 0 to `len / 2 - 1`",
    }
}

pub open spec fn transform_prose_text(t: Transform) -> Seq<char> {
    match t {
        Transform::Double => "twice its old value"@,
        Transform::Negate => "the negation of its old value"@,
        Transform::Square => "the square of its old value"@,
        Transform::Increment => "its old value plus one"@,
    }
}

pub fn transform_prose(transform: Transform) -> (r: &'static str)
    ensures
        r@ == transform_prose_text(transform),
{
    match transform {
        Transform::Double => "twice its old value",
        Transform::Negate => "the negation of its old value",
        Transform::Square => "the square of its old value",
        Transform::Increment => "its old value plus one",
    }
}

/// The write loop shared by the unsafe reference and its safe mirror.
pub open spec fn walk_text(head: Seq<char>, slot: Seq<char>, store_pre: Seq<char>, store_post: Seq<char>,
    len_var: Seq<char>, sp: Target, t: Transform) -> Seq<char> {
    head + " {\n    let mut n: usize = 0;\n    let mut i: usize = "@ + dec_nat(start_spec(sp)) + ";\n    while i < "@
        + bound_expr_text(sp, len_var) + " {\n        "@ + store_pre + store_expr_text(t, slot) + store_post
        + "\n        n += 1;\n        i += "@ + dec_nat(stride_spec(sp)) + ";\n    }\n    n\n}\n"@
}

fn walk_src(head: &str, slot: &str, store_pre: &str, store_post: &str, len_var: &str, spec: &Spec) -> (r: String)
    ensures
        r@ == walk_text(head@, slot@, store_pre@, store_post@, len_var@, spec.target, spec.transform),
{
    let mut s = string_of(head);
    push_str(&mut s, " {\n    let mut n: usize = 0;\n    let mut i: usize = ");
    push_u64(&mut s, start(spec.target) as u64);
    push_str(&mut s, ";\n    while i < ");
    let b = bound_expr(spec.target, len_var);
    push_str(&mut s, b.as_str());
    push_str(&mut s, " {\n        ");
    push_str(&mut s, store_pre);
    let st = store_expr(spec.transform, slot);
    push_str(&mut s, st.as_str());
    push_str(&mut s, store_post);
    push_str(&mut s, "\n        n += 1;\n        i += ");
    push_u64(&mut s, stride(spec.target) as u64);
    push_str(&mut s, ";\n    }\n    n\n}\n");
    s
}

pub open spec fn reference_text(name: Seq<char>, sp: Target, t: Transform) -> Seq<char> {
    walk_text("pub fn "@ + name + "(ptr: *mut i64, len: usize) -> usize"@, "*ptr.add(i)"@,
        "unsafe { *ptr.add(i) = "@, "; }"@, "len"@, sp, t)
}

/// The correct reference: stores through the pointer.
pub fn reference_src(spec: &Spec) -> (r: String)
    ensures
        r@ == reference_text(spec.fn_name@, spec.target, spec.transform),
{
    let mut head = string_of("pub fn ");
    push_str(&mut head, spec.fn_name);
    push_str(&mut head, "(ptr: *mut i64, len: usize) -> usize");
    walk_src(head.as_str(), "*ptr.add(i)", "unsafe { *ptr.add(i) = ", "; }", "len", spec)
}

// ---- worked examples -------------------------------------------------------

pub open spec fn canonical() -> Seq<i64> {
    seq![3i64, 1, 4, 2]
}

pub open spec fn example_seed(seed: u64) -> u64 {
    seed ^ 0x00F0_0000_0000_006Du64
}

pub open spec fn ex_len(s: u64, k: nat) -> nat {
    (2 + draw(s, k) % 7) as nat
}

/// A drawn value in `-9..=9`, with `0` replaced by `7`.
pub open spec fn nonzero_value(d: u64) -> i64 {
    let v = (d % 19) as int - 9;
    if v == 0 { 7 } else { v as i64 }
}

pub open spec fn ex_input(s: u64, k: nat) -> Seq<i64> {
    Seq::new(ex_len(s, k), |j: int| nonzero_value(draw(s, (k + 1 + j) as nat)))
}

pub open spec fn ex_next(s: u64, k: nat) -> nat {
    k + 1 + ex_len(s, k)
}

/// The example inputs: the canonical `[3, 1, 4, 2]`, then three random
/// non-zero ones.
pub open spec fn example_inputs(seed: u64) -> Seq<Seq<i64>> {
    let s = example_seed(seed);
    let k1 = ex_next(s, 0);
    let k2 = ex_next(s, k1);
    seq![canonical(), ex_input(s, 0), ex_input(s, k1), ex_input(s, k2)]
}

fn random_input(rng: &mut Rng) -> (r: Vec<i64>)
    ensures
        final(rng).seed() == old(rng).seed(),
        r@ == ex_input(old(rng).seed(), old(rng).count()),
        final(rng).count() == ex_next(old(rng).seed(), old(rng).count()),
        all_small(r@),
{
    let ghost s = rng.seed();
    let ghost k = rng.count();
    let len = 2 + rng.below(7) as usize;
    let mut v: Vec<i64> = Vec::new();
    let mut j: usize = 0;
    while j < len
        invariant
            j <= len,
            len == ex_len(s, k),
            rng.seed() == s,
            rng.count() == k + 1 + j,
            v@.len() == j,
            forall|q: int| 0 <= q < j ==> #[trigger] v@[q] == ex_input(s, k)[q],
            all_small(v@),
        decreases len - j,
    {
        let d = rng.below(19) as i64 - 9;
        let x = if d == 0 { 7 } else { d };
        v.push(x);
        j = j + 1;
    }
    assert(v@ =~= ex_input(s, k));
    v
}

pub open spec fn plural(n: nat) -> Seq<char> {
    if n == 1 { ""@ } else { "s"@ }
}

pub open spec fn example_line(input: Seq<i64>, out: Seq<i64>, n: nat) -> Seq<char> {
    "  "@ + debug_list(input) + "  ->  "@ + debug_list(out) + "  (wrote "@ + dec_nat(n) + " element"@
        + plural(n) + ")"@
}

pub open spec fn example_case(sp: Target, t: Transform, x: Seq<i64>) -> (Seq<i64>, Seq<i64>, nat) {
    (x, eval_spec(sp, t, x), writes(sp, x.len()))
}

pub open spec fn example_lines(sp: Target, t: Transform, seed: u64) -> Seq<Seq<char>> {
    example_inputs(seed).map_values(|x: Seq<i64>| example_line(x, eval_spec(sp, t, x), writes(sp, x.len())))
}

pub open spec fn example_cases(sp: Target, t: Transform, seed: u64) -> Seq<(Seq<i64>, Seq<i64>, nat)> {
    example_inputs(seed).map_values(|x: Seq<i64>| example_case(sp, t, x))
}

/// One worked example: (input, expected mutated buffer, expected count).
pub type ExampleCase = (Vec<i64>, Vec<i64>, usize);

pub open spec fn case_view(c: ExampleCase) -> (Seq<i64>, Seq<i64>, nat) {
    (c.0@, c.1@, c.2 as nat)
}

fn example_input_vecs(seed: u64) -> (r: Vec<Vec<i64>>)
    ensures
        r@.len() == 4,
        forall|i: int| 0 <= i < 4 ==> (#[trigger] r@[i])@ == example_inputs(seed)[i],
        forall|i: int| 0 <= i < 4 ==> all_small(#[trigger] r@[i]@) && r@[i]@.len() <= 8,
{
    let mut rng = Rng::new(seed ^ 0x00F0_0000_0000_006D);
    let mut inputs: Vec<Vec<i64>> = Vec::new();
    let c: Vec<i64> = vec![3, 1, 4, 2];
    assert(c@ =~= canonical());
    inputs.push(c);
    let a = random_input(&mut rng);
    let b = random_input(&mut rng);
    let d = random_input(&mut rng);
    inputs.push(a);
    inputs.push(b);
    inputs.push(d);
    inputs
}

fn example_line_string(input: &Vec<i64>, out: &Vec<i64>, n: usize) -> (r: String)
    ensures
        r@ == example_line(input@, out@, n as nat),
{
    let mut s = string_of("  ");
    push_debug_list(&mut s, input.as_slice());
    push_str(&mut s, "  ->  ");
    push_debug_list(&mut s, out.as_slice());
    push_str(&mut s, "  (wrote ");
    push_u64(&mut s, n as u64);
    push_str(&mut s, " element");
    if n != 1 {
        push_str(&mut s, "s");
    } else {
        push_str(&mut s, "");
    }
    push_str(&mut s, ")");
    s
}

proof fn lemma_small_writes_fit(sp: Target, t: Transform, xs: Seq<i64>)
    requires
        all_small(xs),
    ensures
        writes_fit(sp, t, xs),
{
    assert forall|i: int| 0 <= i < xs.len() && targeted(sp, xs.len(), i) implies in_i64(apply_int(t, #[trigger] xs[i] as int)) by {
        let x = xs[i] as int;
        assert(-81 <= x * x <= 81) by (nonlinear_arith)
            requires -9 <= x <= 9;
    }
}

/// The worked examples as lines (without newlines) and cases.
pub fn example_data(spec: &Spec, seed: u64) -> (r: (Vec<String>, Vec<ExampleCase>))
    ensures
        string_views(r.0@) == example_lines(spec.target, spec.transform, seed),
        r.1@.len() == 4,
        forall|i: int| 0 <= i < 4 ==> case_view(#[trigger] r.1@[i]) == example_cases(spec.target, spec.transform, seed)[i],
{
    let inputs = example_input_vecs(seed);
    let mut lines: Vec<String> = Vec::new();
    let mut cases: Vec<ExampleCase> = Vec::new();
    let mut j: usize = 0;
    while j < inputs.len()
        invariant
            j <= inputs.len(),
            inputs@.len() == 4,
            forall|i: int| 0 <= i < 4 ==> (#[trigger] inputs@[i])@ == example_inputs(seed)[i],
            forall|i: int| 0 <= i < 4 ==> all_small(#[trigger] inputs@[i]@) && inputs@[i]@.len() <= 8,
            lines@.len() == j,
            cases@.len() == j,
            forall|q: int| 0 <= q < j ==> #[trigger] lines@[q]@ == example_lines(spec.target, spec.transform, seed)[q],
            forall|q: int| 0 <= q < j ==> case_view(#[trigger] cases@[q]) == example_cases(spec.target, spec.transform, seed)[q],
        decreases inputs.len() - j,
    {
        let input = inputs[j].clone();
        let mut out = inputs[j].clone();
        proof {
            lemma_small_writes_fit(spec.target, spec.transform, input@);
        }
        let n = eval(spec, &mut out);
        lines.push(example_line_string(&input, &out, n));
        cases.push((input, out, n));
        j = j + 1;
    }
    assert(string_views(lines@) =~= example_lines(spec.target, spec.transform, seed));
    (lines, cases)
}

/// Worked examples: the prose block and the cases.
pub fn worked_examples(spec: &Spec, seed: u64) -> (r: (String, Vec<ExampleCase>))
    ensures
        r.0@ == terminated(example_lines(spec.target, spec.transform, seed)),
        r.1@.len() == 4,
        forall|i: int| 0 <= i < 4 ==> case_view(#[trigger] r.1@[i]) == example_cases(spec.target, spec.transform, seed)[i],
{
    let (lines, cases) = example_data(spec, seed);
    let mut prose = String::new();
    push_terminated(&mut prose, &lines);
    (prose, cases)
}

// ---- the files of an instance ----------------------------------------------

pub open spec fn skeleton_text(name: Seq<char>, sp: Target, t: Transform, seed: u64) -> Seq<char> {
    "//! Implement `"@ + name
        + "` below. You must mutate the elements through the raw\n//! pointer \u{2014} there is no safe way to write through a `*mut i64`.\n//!\n"@
        + doc_block(example_lines(sp, t, seed)) + "\npub fn "@ + name
        + "(ptr: *mut i64, len: usize) -> usize {\n    todo!()\n}\n"@
}

pub fn skeleton_src(spec: &Spec, seed: u64) -> (r: String)
    ensures
        r@ == skeleton_text(spec.fn_name@, spec.target, spec.transform, seed),
{
    let (lines, _) = example_data(spec, seed);
    let mut s = string_of("//! Implement `");
    push_str(&mut s, spec.fn_name);
    push_str(&mut s, "` below. You must mutate the elements through the raw\n//! pointer \u{2014} there is no safe way to write through a `*mut i64`.\n//!\n");
    push_doc_block(&mut s, &lines);
    push_str(&mut s, "\npub fn ");
    push_str(&mut s, spec.fn_name);
    push_str(&mut s, "(ptr: *mut i64, len: usize) -> usize {\n    todo!()\n}\n");
    s
}

pub open spec fn prompt_text(name: Seq<char>, sp: Target, t: Transform, seed: u64, canary: Seq<char>) -> Seq<char> {
    "Implement the function `"@ + name
        + "` in `src/lib.rs`.\n\n`ptr` points to the first of `len` consecutive `i64` values (a raw mutable buffer). Mutate the buffer **in place**: write "@
        + target_prose_text(sp) + " through the pointer, replacing each such element with "@
        + transform_prose_text(t)
        + ". Elements you do not target must be left exactly as they are. Return the number of elements you wrote.\n\nThere is no safe way to write through a `*mut i64`, so you must use an `unsafe` block with pointer arithmetic (`*ptr.add(i) = \u{2026}`). The caller guarantees `ptr` is valid for `len` elements, so writing indices `0..len` is sound.\n\nConstraints:\n- `len` may be 0; the result is then `0`.\n- Write only indices in `0..len`; writing out of bounds is undefined behaviour.\n- Do not allocate; mutate the caller's buffer.\n\nSignature:\n```rust\npub fn "@
        + name + "(ptr: *mut i64, len: usize) -> usize\n```\n\nExamples (`"@ + name
        + "(v.as_mut_ptr(), v.len())`, shown as `before -> after (count)`):\n"@
        + terminated(example_lines(sp, t, seed)) + "\n"@ + prompt_tail(canary)
}

pub fn prompt(spec: &Spec, seed: u64, canary: &str) -> (r: String)
    ensures
        r@ == prompt_text(spec.fn_name@, spec.target, spec.transform, seed, canary@),
{
    let (examples, _) = worked_examples(spec, seed);
    let mut s = string_of("Implement the function `");
    push_str(&mut s, spec.fn_name);
    push_str(&mut s, "` in `src/lib.rs`.\n\n`ptr` points to the first of `len` consecutive `i64` values (a raw mutable buffer). Mutate the buffer **in place**: write ");
    push_str(&mut s, target_prose(spec.target));
    push_str(&mut s, " through the pointer, replacing each such element with ");
    push_str(&mut s, transform_prose(spec.transform));
    push_str(&mut s, ". Elements you do not target must be left exactly as they are. Return the number of elements you wrote.\n\nThere is no safe way to write through a `*mut i64`, so you must use an `unsafe` block with pointer arithmetic (`*ptr.add(i) = \u{2026}`). The caller guarantees `ptr` is valid for `len` elements, so writing indices `0..len` is sound.\n\nConstraints:\n- `len` may be 0; the result is then `0`.\n- Write only indices in `0..len`; writing out of bounds is undefined behaviour.\n- Do not allocate; mutate the caller's buffer.\n\nSignature:\n```rust\npub fn ");
    push_str(&mut s, spec.fn_name);
    push_str(&mut s, "(ptr: *mut i64, len: usize) -> usize\n```\n\nExamples (`");
    push_str(&mut s, spec.fn_name);
    push_str(&mut s, "(v.as_mut_ptr(), v.len())`, shown as `before -> after (count)`):\n");
    push_str(&mut s, examples.as_str());
    push_str(&mut s, "\n");
    push_prompt_tail(&mut s, canary);
    s
}

pub open spec fn case_test_text(name: Seq<char>, i: nat, c: (Seq<i64>, Seq<i64>, nat)) -> Seq<char> {
    "#[test]\nfn ex"@ + dec_nat(i) + "() {\n    let mut v: Vec<i64> = vec!"@ + debug_list(c.0)
        + ";\n    let wrote = "@ + name + "(v.as_mut_ptr(), v.len());\n    assert_eq!(wrote, "@ + dec_nat(c.2)
        + ");\n    assert_eq!(v, vec!"@ + debug_list(c.1) + ");\n}\n\n"@
}

pub open spec fn case_tests_text(name: Seq<char>, cases: Seq<(Seq<i64>, Seq<i64>, nat)>) -> Seq<char>
    decreases cases.len(),
{
    if cases.len() == 0 {
        Seq::empty()
    } else {
        case_tests_text(name, cases.drop_last()) + case_test_text(name, (cases.len() - 1) as nat, cases.last())
    }
}

fn case_test_string(name: &str, i: usize, c: &ExampleCase) -> (r: String)
    ensures
        r@ == case_test_text(name@, i as nat, case_view(*c)),
{
    let mut s = string_of("#[test]\nfn ex");
    push_u64(&mut s, i as u64);
    push_str(&mut s, "() {\n    let mut v: Vec<i64> = vec!");
    push_debug_list(&mut s, c.0.as_slice());
    push_str(&mut s, ";\n    let wrote = ");
    push_str(&mut s, name);
    push_str(&mut s, "(v.as_mut_ptr(), v.len());\n    assert_eq!(wrote, ");
    push_u64(&mut s, c.2 as u64);
    push_str(&mut s, ");\n    assert_eq!(v, vec!");
    push_debug_list(&mut s, c.1.as_slice());
    push_str(&mut s, ");\n}\n\n");
    s
}

pub open spec fn behavior_text(name: Seq<char>, sp: Target, t: Transform, seed: u64) -> Seq<char> {
    "use task::"@ + name + ";\n\n"@ + case_tests_text(name, example_cases(sp, t, seed))
        + "#[test]\nfn empty_input() {\n    let mut v: Vec<i64> = Vec::new();\n    assert_eq!("@ + name
        + "(v.as_mut_ptr(), v.len()), 0);\n}\n"@
}

pub fn behavior_test_src(spec: &Spec, seed: u64) -> (r: String)
    ensures
        r@ == behavior_text(spec.fn_name@, spec.target, spec.transform, seed),
{
    let (_, cases) = worked_examples(spec, seed);
    let ghost cs = example_cases(spec.target, spec.transform, seed);
    assert forall|q: int| 0 <= q < 4 implies #[trigger] cs[q] == case_view(cases@[q]) by {}
    let mut s = string_of("use task::");
    push_str(&mut s, spec.fn_name);
    push_str(&mut s, ";\n\n");
    let ghost start = s@;
    let mut i: usize = 0;
    while i < cases.len()
        invariant
            i <= cases.len(),
            cases@.len() == 4,
            cs.len() == 4,
            forall|q: int| 0 <= q < 4 ==> #[trigger] cs[q] == case_view(cases@[q]),
            s@ == start + case_tests_text(spec.fn_name@, cs.take(i as int)),
        decreases cases.len() - i,
    {
        let t = case_test_string(spec.fn_name, i, &cases[i]);
        push_str(&mut s, t.as_str());
        assert(cs.take(i + 1).drop_last() =~= cs.take(i as int));
        i = i + 1;
    }
    assert(cs.take(4) =~= cs);
    push_str(&mut s, "#[test]\nfn empty_input() {\n    let mut v: Vec<i64> = Vec::new();\n    assert_eq!(");
    push_str(&mut s, spec.fn_name);
    push_str(&mut s, "(v.as_mut_ptr(), v.len()), 0);\n}\n");
    s
}

pub open spec fn differential_text(name: Seq<char>, sp: Target, t: Transform) -> Seq<char> {
    "use task::"@ + name + ";\n\n"@
        + walk_text("fn reference(xs: &mut [i64]) -> usize"@, "xs[i]"@, "xs[i] = "@, ";"@, "xs.len()"@, sp, t)
        + "\n#[test]\nfn differential_vs_reference() {\n    let mut state: u64 = 0x00F0_ED00_0000_0042;\n    let mut next = || {\n        state = state.wrapping_mul(6364136223846793005).wrapping_add(1442695040888963407);\n        (state >> 33) as u64\n    };\n    for _ in 0..3000 {\n        let len = (next() % 12) as usize;\n        let xs: Vec<i64> = (0..len).map(|_| (next() % 19) as i64 - 9).collect();\n        let mut got = xs.clone();\n        let got_n = "@
        + name + "(got.as_mut_ptr(), got.len());\n        let mut want = xs.clone();\n        let want_n = reference(&mut want);\n        assert_eq!(got_n, want_n, \"count mismatch: {xs:?}\");\n        assert_eq!(got, want, \"buffer mismatch: {xs:?}\");\n    }\n}\n"@
}

/// The hidden differential test, against the safe mirror of the reference.
pub fn differential_test_src(spec: &Spec) -> (r: String)
    ensures
        r@ == differential_text(spec.fn_name@, spec.target, spec.transform),
{
    let mut s = string_of("use task::");
    push_str(&mut s, spec.fn_name);
    push_str(&mut s, ";\n\n");
    let reference = walk_src("fn reference(xs: &mut [i64]) -> usize", "xs[i]", "xs[i] = ", ";", "xs.len()", spec);
    push_str(&mut s, reference.as_str());
    push_str(&mut s, "\n#[test]\nfn differential_vs_reference() {\n    let mut state: u64 = 0x00F0_ED00_0000_0042;\n    let mut next = || {\n        state = state.wrapping_mul(6364136223846793005).wrapping_add(1442695040888963407);\n        (state >> 33) as u64\n    };\n    for _ in 0..3000 {\n        let len = (next() % 12) as usize;\n        let xs: Vec<i64> = (0..len).map(|_| (next() % 19) as i64 - 9).collect();\n        let mut got = xs.clone();\n        let got_n = ");
    push_str(&mut s, spec.fn_name);
    push_str(&mut s, "(got.as_mut_ptr(), got.len());\n        let mut want = xs.clone();\n        let want_n = reference(&mut want);\n        assert_eq!(got_n, want_n, \"count mismatch: {xs:?}\");\n        assert_eq!(got, want, \"buffer mismatch: {xs:?}\");\n    }\n}\n");
    s
}

/// Degenerate answer: writes nothing, returns 0.
pub fn no_op(spec: &Spec) -> (r: String)
    ensures
        r@ == "pub fn "@ + spec.fn_name@ + "(ptr: *mut i64, len: usize) -> usize { let _ = (ptr, len); 0 }\n"@,
{
    let mut s = string_of("pub fn ");
    push_str(&mut s, spec.fn_name);
    push_str(&mut s, "(ptr: *mut i64, len: usize) -> usize { let _ = (ptr, len); 0 }\n");
    s
}

pub open spec fn fill_zero_text(name: Seq<char>) -> Seq<char> {
    "pub fn "@ + name + "(ptr: *mut i64, len: usize) -> usize {\n    let mut i: usize = 0;\n    while i < len {\n        unsafe { *ptr.add(i) = 0; }\n        i += 1;\n    }\n    len\n}\n"@
}

/// Degenerate answer: zeroes every element and claims it wrote them all.
pub fn fill_zero(spec: &Spec) -> (r: String)
    ensures
        r@ == fill_zero_text(spec.fn_name@),
{
    let mut s = string_of("pub fn ");
    push_str(&mut s, spec.fn_name);
    push_str(&mut s, "(ptr: *mut i64, len: usize) -> usize {\n    let mut i: usize = 0;\n    while i < len {\n        unsafe { *ptr.add(i) = 0; }\n        i += 1;\n    }\n    len\n}\n");
    s
}

// ---- the family ------------------------------------------------------------

pub open spec fn target_kind_text(t: Target) -> Seq<char> {
    match t {
        Target::All => "all"@,
        Target::EvenIdx => "even_idx"@,
        Target::OddIdx => "odd_idx"@,
        Target::FirstHalf => "first_half"@,
    }
}

pub open spec fn transform_kind_text(t: Transform) -> Seq<char> {
    match t {
        Transform::Double => "double"@,
        Transform::Negate => "negate"@,
        Transform::Square => "square"@,
        Transform::Increment => "increment"@,
    }
}

pub struct RawPtrMutFamily;

impl RawPtrMutFamily {
    pub fn id(&self) -> (r: &'static str)
        ensures
            r@ == "raw-ptr-mut"@,
    {
        "raw-ptr-mut"
    }

    pub fn category(&self) -> (r: &'static str)
        ensures
            r@ == "unsafe-core"@,
    {
        "unsafe-core"
    }

    /// The instance for `seed`: a pure function of the seed. `unsafe` is
    /// required by the signature, so it is not limited.
    pub fn generate(&self, seed: u64) -> (r: GeneratedTask)
        ensures
            r.id@ == task_id_text("raw-ptr-mut"@, seed),
            r.category@ == "unsafe-core"@,
            r.canary@ == canary_text("raw-ptr-mut"@, seed),
            r.prompt@ == prompt_text(sample_name(seed), sample_target(seed), sample_transform(seed), seed, r.canary@),
            r.answer_path@ == "src/lib.rs"@,
            r.files@.len() == 2,
            r.files@[0].0@ == "Cargo.toml"@,
            r.files@[0].1@ == cargo_toml_text(),
            r.files@[1].0@ == "src/lib.rs"@,
            r.files@[1].1@ == skeleton_text(sample_name(seed), sample_target(seed), sample_transform(seed), seed),
            r.hidden@.len() == 2,
            r.hidden@[0].0@ == "tests/behavior.rs"@,
            r.hidden@[0].1@ == behavior_text(sample_name(seed), sample_target(seed), sample_transform(seed), seed),
            r.hidden@[1].0@ == "tests/differential.rs"@,
            r.hidden@[1].1@ == differential_text(sample_name(seed), sample_target(seed), sample_transform(seed)),
            r.behavior_test@ == "behavior"@,
            r.differential_test@ == "differential"@,
            r.alloc_test@ == Seq::<char>::empty(),
            r.max_unsafe.is_none(),
            r.forbidden_paths@.len() == 0,
            !r.check_clippy,
            r.clippy_allow@.len() == 0,
            r.weights == (Weights { behavior: 70, constraint: 30, quality: 0 }),
    {
        let spec = sample(seed);
        let canary = mint_canary("raw-ptr-mut", seed);
        let mut files: Vec<(String, String)> = Vec::new();
        files.push((string_of("Cargo.toml"), cargo_toml()));
        files.push((string_of("src/lib.rs"), skeleton_src(&spec, seed)));
        let mut hidden: Vec<(String, String)> = Vec::new();
        hidden.push((string_of("tests/behavior.rs"), behavior_test_src(&spec, seed)));
        hidden.push((string_of("tests/differential.rs"), differential_test_src(&spec)));
        let prompt = prompt(&spec, seed, canary.as_str());
        GeneratedTask {
            id: task_id("raw-ptr-mut", seed),
            category: string_of("unsafe-core"),
            prompt,
            canary,
            answer_path: string_of("src/lib.rs"),
            files,
            hidden,
            behavior_test: string_of("behavior"),
            differential_test: string_of("differential"),
            alloc_test: String::new(),
            max_unsafe: None,
            forbidden_paths: Vec::new(),
            check_clippy: false,
            clippy_allow: Vec::new(),
            weights: Weights { behavior: 70, constraint: 30, quality: 0 },
        }
    }

    pub fn reference_code(&self, seed: u64) -> (r: String)
        ensures
            r@ == reference_text(sample_name(seed), sample_target(seed), sample_transform(seed)),
    {
        reference_src(&sample(seed))
    }

    pub fn skeleton_code(&self, seed: u64) -> (r: String)
        ensures
            r@ == skeleton_text(sample_name(seed), sample_target(seed), sample_transform(seed), seed),
    {
        skeleton_src(&sample(seed), seed)
    }

    /// Degenerate answers `(label, code)` that must fail grading.
    pub fn trivial_baselines(&self, seed: u64) -> (r: Vec<(String, String)>)
        ensures
            r@.len() == 2,
            r@[0].0@ == "no-op"@,
            r@[0].1@ == "pub fn "@ + sample_name(seed) + "(ptr: *mut i64, len: usize) -> usize { let _ = (ptr, len); 0 }\n"@,
            r@[1].0@ == "fill-zero"@,
            r@[1].1@ == fill_zero_text(sample_name(seed)),
    {
        let spec = sample(seed);
        let mut v: Vec<(String, String)> = Vec::new();
        v.push((string_of("no-op"), no_op(&spec)));
        v.push((string_of("fill-zero"), fill_zero(&spec)));
        v
    }

    /// The structural identity: the (write target, transform) pair.
    pub fn spec_signature(&self, seed: u64) -> (r: Vec<String>)
        ensures
            r@.len() == 2,
            r@[0]@ == "target:"@ + target_kind_text(sample_target(seed)),
            r@[1]@ == "transform:"@ + transform_kind_text(sample_transform(seed)),
    {
        let spec = sample(seed);
        let target = match spec.target {
            Target::All => "all",
            Target::EvenIdx => "even_idx",
            Target::OddIdx => "odd_idx",
            Target::FirstHalf => "first_half",
        };
        let transform = match spec.transform {
            Transform::Double => "double",
            Transform::Negate => "negate",
            Transform::Square => "square",
            Transform::Increment => "increment",
        };
        let mut a = string_of("target:");
        push_str(&mut a, target);
        let mut b = string_of("transform:");
        push_str(&mut b, transform);
        let mut v: Vec<String> = Vec::new();
        v.push(a);
        v.push(b);
        v
    }
}

// ---- the canonical example catches both trivial baselines -----------------

/// On the canonical input `[3, 1, 4, 2]` every target writes at least two
/// elements and leaves every position non-zero: the `no-op` baseline (count
/// 0) and the `fill-zero` baseline (all zeros) both fail on every seed.
pub proof fn law_canonical_count_and_nonzero(sp: Target, t: Transform)
    ensures
        writes(sp, 4) >= 2,
        forall|i: int| 0 <= i < 4 ==> #[trigger] eval_spec(sp, t, canonical())[i] != 0,
{
    assert forall|i: int| 0 <= i < 4 implies #[trigger] eval_spec(sp, t, canonical())[i] != 0 by {
        let c = canonical();
        assert(c[0] == 3 && c[1] == 1 && c[2] == 4 && c[3] == 2);
        let x = c[i] as int;
        assert(1 <= x <= 4);
        assert(1 <= x * x <= 16) by (nonlinear_arith)
            requires 1 <= x <= 4;
        let y = apply_int(t, x);
        assert(y != 0 && -16 <= y <= 16);
        assert(eval_spec(sp, t, c)[i] == (if targeted(sp, 4, i) { y as i64 } else { c[i] }));
    }
}

} // verus!
