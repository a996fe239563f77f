//! The `window-op` family (category `borrow-lifetimes`).
//!
//! Apply an in-place operation to selected consecutive, non-overlapping windows
//! of width `w` in a slice of `i64`, and return the number of windows the
//! operation was applied to. The seed selects the operation (reverse, rotate
//! left or right by 1..=3, swap the ends), a stride (every window or every
//! other window) and the function name.

use vstd::prelude::*;
use crate::rng::{Rng, draw};
use crate::digest::{mint_canary, canary_text};
use crate::text::{push_str, push_u64, push_debug_list, push_doc_block, push_terminated, dec_nat,
    debug_list, doc_block, terminated, string_views, string_of};
use crate::gen::{GeneratedTask, Weights, cargo_toml, cargo_toml_text, task_id, task_id_text,
    push_prompt_tail, prompt_tail, alloc_test, alloc_test_text};

verus! {

/// The per-seed operation.
#[derive(Clone, Copy, Debug, PartialEq, Eq, Structural)]
pub enum Op {
    Reverse,
    RotateLeft(usize),
    RotateRight(usize),
    SwapEnds,
}

pub struct Spec {
    pub op: Op,
    /// Apply to every `stride`-th window (1 = all, 2 = every other).
    pub stride: usize,
    pub fn_name: &'static str,
}

// ---- semantics -------------------------------------------------------------

/// One window after the operation (`s` is the whole, non-empty window).
pub open spec fn op_window(op: Op, s: Seq<i64>) -> Seq<i64> {
    let len = s.len();
    match op {
        Op::Reverse => Seq::new(len, |j: int| s[len - 1 - j]),
        Op::RotateLeft(k) => {
            let r = (k % (len as usize)) as int;
            s.skip(r) + s.take(r)
        },
        Op::RotateRight(k) => {
            let r = (k % (len as usize)) as int;
            s.skip(len - r) + s.take(len - r)
        },
        Op::SwapEnds => s.update(0, s[len - 1]).update(len - 1, s[0]),
    }
}

/// `s` with the operation applied to every `stride`-th full window, counting
/// windows from `idx`; the trailing partial window is left as is.
pub open spec fn process(op: Op, s: Seq<i64>, w: nat, stride: nat, idx: nat) -> Seq<i64>
    decreases s.len(),
{
    if w == 0 || s.len() < w {
        s
    } else {
        let chunk = s.take(w as int);
        let rest = process(op, s.skip(w as int), w, stride, idx + 1);
        if idx % stride == 0 {
            op_window(op, chunk) + rest
        } else {
            chunk + rest
        }
    }
}

/// How many full windows of a length-`len` slice are transformed, counting
/// windows from `idx`.
pub open spec fn count_windows(len: nat, w: nat, stride: nat, idx: nat) -> nat
    decreases len,
{
    if w == 0 || len < w {
        0
    } else {
        (if idx % stride == 0 { 1nat } else { 0nat }) + count_windows((len - w) as nat, w, stride, idx + 1)
    }
}

pub open spec fn op_of(kind: u64, k: usize) -> Op {
    if kind == 0 { Op::Reverse }
    else if kind == 1 { Op::RotateLeft(k) }
    else if kind == 2 { Op::RotateRight(k) }
    else { Op::SwapEnds }
}

/// The op `sample(seed)` picks: kind from draw 0, amount (for rotations) from
/// draw 1.
pub open spec fn sample_op(seed: u64) -> Op {
    op_of(draw(seed, 0) % 4, (1 + draw(seed, 1) % 3) as usize)
}

/// How many draws the op consumed.
pub open spec fn op_draws(seed: u64) -> nat {
    let kind = draw(seed, 0) % 4;
    if kind == 1 || kind == 2 { 2 } else { 1 }
}

pub open spec fn sample_stride(seed: u64) -> usize {
    (1 + draw(seed, op_draws(seed)) % 2) as usize
}

pub open spec fn name_text(i: u64) -> Seq<char> {
    if i == 0 { "apply_windows"@ }
    else if i == 1 { "transform_chunks"@ }
    else if i == 2 { "process_blocks"@ }
    else if i == 3 { "rework_segments"@ }
    else if i == 4 { "adjust_groups"@ }
    else { "map_frames"@ }
}

pub open spec fn sample_name(seed: u64) -> Seq<char> {
    name_text(draw(seed, op_draws(seed) + 1) % 6)
}

fn name_at(i: u64) -> (r: &'static str)
    requires
        i < 6,
    ensures
        r@ == name_text(i),
{
    if i == 0 { "apply_windows" }
    else if i == 1 { "transform_chunks" }
    else if i == 2 { "process_blocks" }
    else if i == 3 { "rework_segments" }
    else if i == 4 { "adjust_groups" }
    else { "map_frames" }
}

/// The spec for `seed`: every choice is a function of the seed's stream.
pub fn sample(seed: u64) -> (r: Spec)
    ensures
        r.op == sample_op(seed),
        r.stride == sample_stride(seed),
        r.fn_name@ == sample_name(seed),
        1 <= r.stride <= 2,
{
    let mut rng = Rng::new(seed);
    let kind = rng.below(4);
    let op = if kind == 0 {
        Op::Reverse
    } else if kind == 1 {
        Op::RotateLeft(1 + rng.below(3) as usize)
    } else if kind == 2 {
        Op::RotateRight(1 + rng.below(3) as usize)
    } else {
        Op::SwapEnds
    };
    let stride = 1 + rng.below(2) as usize;
    let fn_name = name_at(rng.below(6));
    Spec { op, stride, fn_name }
}

/// Rewrites `v[start..start + w]` with the operation.
fn transform_window(op: Op, v: &mut Vec<i64>, start: usize, w: usize)
    requires
        w > 0,
        start + w <= old(v)@.len(),
    ensures
        final(v)@ == old(v)@.take(start as int) + op_window(op, old(v)@.subrange(start as int, start + w))
            + old(v)@.skip(start + w),
{
    let ghost win = old(v)@.subrange(start as int, start + w);
    let n = v.len();
    let mut tmp: Vec<i64> = Vec::new();
    let mut j: usize = 0;
    while j < w
        invariant
            j <= w,
            start + w <= n,
            n == v@.len(),
            v@ == old(v)@,
            tmp@ == v@.subrange(start as int, start + j),
        decreases w - j,
    {
        tmp.push(v[start + j]);
        assert(v@.subrange(start as int, start + j + 1) =~= v@.subrange(start as int, start + j).push(v@[start + j]));
        j = j + 1;
    }
    assert(tmp@ == win);
    let ghost target = op_window(op, win);
    let mut out: Vec<i64> = Vec::new();
    let mut q: usize = 0;
    while q < w
        invariant
            q <= w,
            tmp@ == win,
            win.len() == w,
            target == op_window(op, win),
            out@.len() == q,
            forall|p: int| 0 <= p < q ==> out@[p] == target[p],
        decreases w - q,
    {
        let x = match op {
            Op::Reverse => tmp[w - 1 - q],
            Op::RotateLeft(k) => {
                let r = k % w;
                if q < w - r { tmp[q + r] } else { tmp[q - (w - r)] }
            },
            Op::RotateRight(k) => {
                let r = k % w;
                if q < r { tmp[w - r + q] } else { tmp[q - r] }
            },
            Op::SwapEnds => {
                if q == w - 1 { tmp[0] } else if q == 0 { tmp[w - 1] } else { tmp[q] }
            },
        };
        out.push(x);
        q = q + 1;
    }
    assert(out@ =~= target);
    let ghost before = v@;
    let mut p: usize = 0;
    while p < w
        invariant
            p <= w,
            start + w <= n,
            v@.len() == n,
            v@.len() == before.len(),
            out@ == target,
            target.len() == w,
            forall|i: int| 0 <= i < start ==> v@[i] == before[i],
            forall|i: int| start + w <= i < v@.len() ==> v@[i] == before[i],
            forall|i: int| start <= i < start + p ==> v@[i] == target[i - start],
            forall|i: int| start + p <= i < start + w ==> v@[i] == before[i],
        decreases w - p,
    {
        v.set(start + p, out[p]);
        p = p + 1;
    }
    assert(v@ =~= before.take(start as int) + target + before.skip(start + w));
}

/// Applies the operation to every `stride`-th full window of width `w`, in
/// place, and returns how many windows it transformed. `w == 0` does nothing.
pub fn apply(spec: &Spec, v: &mut Vec<i64>, w: usize) -> (r: usize)
    requires
        spec.stride >= 1,
    ensures
        final(v)@ == process(spec.op, old(v)@, w as nat, spec.stride as nat, 0),
        r == count_windows(old(v)@.len(), w as nat, spec.stride as nat, 0),
{
    if w == 0 {
        return 0;
    }
    let ghost orig = v@;
    let n = v.len();
    let mut count: usize = 0;
    let mut idx: usize = 0;
    let mut i: usize = 0;
    proof {
        assert(orig.skip(0) =~= orig);
        assert(v@.take(0) + process(spec.op, orig.skip(0), w as nat, spec.stride as nat, 0) =~= process(spec.op, orig, w as nat, spec.stride as nat, 0));
    }
    while w <= n - i
        invariant
            w > 0,
            spec.stride >= 1,
            n == orig.len(),
            v@.len() == n,
            i <= n,
            idx <= i,
            count <= idx,
            v@.skip(i as int) == orig.skip(i as int),
            process(spec.op, orig, w as nat, spec.stride as nat, 0) == v@.take(i as int) + process(spec.op, orig.skip(i as int), w as nat, spec.stride as nat, idx as nat),
            count_windows(n as nat, w as nat, spec.stride as nat, 0) == count + count_windows((n - i) as nat, w as nat, spec.stride as nat, idx as nat),
        decreases n - i,
    {
        let ghost pre = v@;
        let ghost rest = orig.skip(i as int);
        assert(rest.take(w as int) =~= orig.subrange(i as int, i + w));
        assert(rest.skip(w as int) =~= orig.skip(i + w));
        assert(pre.subrange(i as int, i + w) =~= orig.subrange(i as int, i + w)) by {
            assert forall|t: int| 0 <= t < w implies #[trigger] pre.subrange(i as int, i + w)[t] == orig.subrange(i as int, i + w)[t] by {
                assert(pre.skip(i as int)[t] == orig.skip(i as int)[t]);
            }
        }
        if idx % spec.stride == 0 {
            transform_window(spec.op, v, i, w);
            count = count + 1;
        }
        proof {
            assert(v@.take(i + w) =~= pre.take(i as int) + (if idx % spec.stride == 0 { op_window(spec.op, orig.subrange(i as int, i + w)) } else { orig.subrange(i as int, i + w) }));
            assert(v@.skip(i + w) =~= orig.skip(i + w)) by {
                assert forall|t: int| 0 <= t < n - i - w implies #[trigger] v@.skip(i + w)[t] == orig.skip(i + w)[t] by {
                    assert(pre.skip(i as int)[w + t] == orig.skip(i as int)[w + t]);
                }
            }
            assert(pre.take(i as int) =~= v@.take(i as int)) by {
                assert forall|t: int| 0 <= t < i implies #[trigger] pre.take(i as int)[t] == v@.take(i as int)[t] by {}
            }
        }
        idx = idx + 1;
        i = i + w;
    }
    proof {
        let rest = orig.skip(i as int);
        assert(rest.len() < w);
        assert(v@ =~= v@.take(i as int) + v@.skip(i as int));
    }
    count
}

// ---- emitted-source fragments ----------------------------------------------

pub open spec fn op_body_text(op: Op) -> Seq<char> {
    match op {
        Op::Reverse => "chunk.reverse();"@,
        Op::RotateLeft(k) => "chunk.rotate_left("@ + dec_nat(k as nat) + " % chunk.len());"@,
        Op::RotateRight(k) => "chunk.rotate_right("@ + dec_nat(k as nat) + " % chunk.len());"@,
        Op::SwapEnds => "let last = chunk.len() - 1;\n                chunk.swap(0, last);"@,
    }
}

pub fn op_body(op: Op) -> (r: String)
    ensures
        r@ == op_body_text(op),
{
    match op {
        Op::Reverse => string_of("chunk.reverse();"),
        Op::RotateLeft(k) => {
            let mut s = string_of("chunk.rotate_left(");
            push_u64(&mut s, k as u64);
            push_str(&mut s, " % chunk.len());");
            s
        },
        Op::RotateRight(k) => {
            let mut s = string_of("chunk.rotate_right(");
            push_u64(&mut s, k as u64);
            push_str(&mut s, " % chunk.len());");
            s
        },
        Op::SwapEnds => string_of("let last = chunk.len() - 1;\n                chunk.swap(0, last);"),
    }
}

pub open spec fn op_prose_text(op: Op) -> Seq<char> {
    match op {
        Op::Reverse => "reverse the elements of the window in place"@,
        Op::RotateLeft(k) => "rotate the elements of the window left by "@ + dec_nat(k as nat)
            + " position(s), wrapping around"@,
        Op::RotateRight(k) => "rotate the elements of the window right by "@ + dec_nat(k as nat)
            + " position(s), wrapping around"@,
        Op::SwapEnds => "swap the first and last element of the window"@,
    }
}

pub fn op_prose(op: Op) -> (r: String)
    ensures
        r@ == op_prose_text(op),
{
    match op {
        Op::Reverse => string_of("reverse the elements of the window in place"),
        Op::RotateLeft(k) => {
            let mut s = string_of("rotate the elements of the window left by ");
            push_u64(&mut s, k as u64);
            push_str(&mut s, " position(s), wrapping around");
            s
        },
        Op::RotateRight(k) => {
            let mut s = string_of("rotate the elements of the window right by ");
            push_u64(&mut s, k as u64);
            push_str(&mut s, " position(s), wrapping around");
            s
        },
        Op::SwapEnds => string_of("swap the first and last element of the window"),
    }
}

pub open spec fn stride_prose_text(stride: usize) -> Seq<char> {
    if stride == 1 {
        "For each consecutive, non-overlapping window of width `w`"@
    } else {
        "Number the consecutive, non-overlapping windows of width `w` from 0. For every "@
            + dec_nat(stride as nat) + "-th window (indices 0, "@ + dec_nat(stride as nat) + ", "@
            + dec_nat(2 * stride as nat) + ", \u{2026})"@
    }
}

pub fn stride_prose(stride: usize) -> (r: String)
    requires
        stride <= usize::MAX / 2,
    ensures
        r@ == stride_prose_text(stride),
{
    if stride == 1 {
        string_of("For each consecutive, non-overlapping window of width `w`")
    } else {
        let mut s = string_of("Number the consecutive, non-overlapping windows of width `w` from 0. For every ");
        push_u64(&mut s, stride as u64);
        push_str(&mut s, "-th window (indices 0, ");
        push_u64(&mut s, stride as u64);
        push_str(&mut s, ", ");
        push_u64(&mut s, 2 * stride as u64);
        push_str(&mut s, ", \u{2026})");
        s
    }
}

/// The reference implementation, headed by `head`.
pub open spec fn reference_text(head: Seq<char>, op: Op, stride: usize) -> Seq<char> {
    head + "(v: &mut [i64], w: usize) -> usize {\n    if w == 0 { return 0; }\n    let mut count = 0;\n    for (idx, chunk) in v.chunks_exact_mut(w).enumerate() {\n        if idx % "@
        + dec_nat(stride as nat) + " == 0 {\n            "@ + op_body_text(op)
        + "\n            count += 1;\n        }\n    }\n    count\n}\n"@
}

fn reference_with_head(spec: &Spec, head: &str) -> (r: String)
    ensures
        r@ == reference_text(head@, spec.op, spec.stride),
{
    let mut s = string_of(head);
    push_str(&mut s, "(v: &mut [i64], w: usize) -> usize {\n    if w == 0 { return 0; }\n    let mut count = 0;\n    for (idx, chunk) in v.chunks_exact_mut(w).enumerate() {\n        if idx % ");
    push_u64(&mut s, spec.stride as u64);
    push_str(&mut s, " == 0 {\n            ");
    let body = op_body(spec.op);
    push_str(&mut s, body.as_str());
    push_str(&mut s, "\n            count += 1;\n        }\n    }\n    count\n}\n");
    s
}

pub fn reference_src(spec: &Spec) -> (r: String)
    ensures
        r@ == reference_text("pub fn "@ + spec.fn_name@, spec.op, spec.stride),
{
    let mut head = string_of("pub fn ");
    push_str(&mut head, spec.fn_name);
    reference_with_head(spec, head.as_str())
}

// ---- worked examples -------------------------------------------------------

/// The example inputs and widths: enough windows that a stride of 2 shows.
pub open spec fn example_inputs() -> Seq<(Seq<i64>, usize)> {
    seq![(seq![1i64, 2, 3, 4, 5, 6, 7, 8], 2usize), (seq![1i64, 2, 3, 4, 5, 6], 2usize),
        (seq![1i64, 2, 3, 4, 5, 6, 7, 8, 9], 3usize)]
}

pub open spec fn example_line(input: Seq<i64>, w: usize, out: Seq<i64>, count: nat) -> Seq<char> {
    "  "@ + debug_list(input) + ", w="@ + dec_nat(w as nat) + "  ->  "@ + debug_list(out) + ", returns "@
        + dec_nat(count)
}

pub open spec fn example_case(op: Op, stride: usize, e: (Seq<i64>, usize)) -> (Seq<i64>, usize, Seq<i64>, nat) {
    (e.0, e.1, process(op, e.0, e.1 as nat, stride as nat, 0), count_windows(e.0.len(), e.1 as nat, stride as nat, 0))
}

pub open spec fn example_lines(op: Op, stride: usize) -> Seq<Seq<char>> {
    example_inputs().map_values(|e: (Seq<i64>, usize)| {
        let c = example_case(op, stride, e);
        example_line(c.0, c.1, c.2, c.3)
    })
}

/// One worked example: (input, width, expected output, expected count).
pub type ExampleCase = (Vec<i64>, usize, Vec<i64>, usize);

pub open spec fn case_view(c: ExampleCase) -> (Seq<i64>, usize, Seq<i64>, nat) {
    (c.0@, c.1, c.2@, c.3 as nat)
}

fn example_input_vecs() -> (r: Vec<(Vec<i64>, usize)>)
    ensures
        r@.len() == 3,
        forall|i: int| 0 <= i < 3 ==> (#[trigger] r@[i]).0@ == example_inputs()[i].0 && r@[i].1 == example_inputs()[i].1,
{
    let mut r: Vec<(Vec<i64>, usize)> = Vec::new();
    let a: Vec<i64> = vec![1, 2, 3, 4, 5, 6, 7, 8];
    let b: Vec<i64> = vec![1, 2, 3, 4, 5, 6];
    let c: Vec<i64> = vec![1, 2, 3, 4, 5, 6, 7, 8, 9];
    assert(a@ =~= seq![1i64, 2, 3, 4, 5, 6, 7, 8]);
    assert(b@ =~= seq![1i64, 2, 3, 4, 5, 6]);
    assert(c@ =~= seq![1i64, 2, 3, 4, 5, 6, 7, 8, 9]);
    r.push((a, 2));
    r.push((b, 2));
    r.push((c, 3));
    r
}

fn example_line_string(input: &Vec<i64>, w: usize, out: &Vec<i64>, count: usize) -> (r: String)
    ensures
        r@ == example_line(input@, w, out@, count as nat),
{
    let mut s = string_of("  ");
    push_debug_list(&mut s, input.as_slice());
    push_str(&mut s, ", w=");
    push_u64(&mut s, w as u64);
    push_str(&mut s, "  ->  ");
    push_debug_list(&mut s, out.as_slice());
    push_str(&mut s, ", returns ");
    push_u64(&mut s, count as u64);
    s
}

/// The worked examples as lines (without newlines) and cases, computed
/// natively.
pub fn example_data(spec: &Spec) -> (r: (Vec<String>, Vec<ExampleCase>))
    requires
        spec.stride >= 1,
    ensures
        string_views(r.0@) == example_lines(spec.op, spec.stride),
        r.1@.len() == 3,
        forall|i: int| 0 <= i < 3 ==> case_view(#[trigger] r.1@[i]) == example_case(spec.op, spec.stride, example_inputs()[i]),
{
    let inputs = example_input_vecs();
    let mut lines: Vec<String> = Vec::new();
    let mut cases: Vec<ExampleCase> = Vec::new();
    let mut j: usize = 0;
    while j < inputs.len()
        invariant
            j <= inputs.len(),
            inputs@.len() == 3,
            spec.stride >= 1,
            forall|i: int| 0 <= i < 3 ==> (#[trigger] inputs@[i]).0@ == example_inputs()[i].0 && inputs@[i].1 == example_inputs()[i].1,
            lines@.len() == j,
            cases@.len() == j,
            forall|q: int| 0 <= q < j ==> #[trigger] lines@[q]@ == example_lines(spec.op, spec.stride)[q],
            forall|q: int| 0 <= q < j ==> case_view(#[trigger] cases@[q]) == example_case(spec.op, spec.stride, example_inputs()[q]),
        decreases inputs.len() - j,
    {
        let input = inputs[j].0.clone();
        let w = inputs[j].1;
        let mut out = inputs[j].0.clone();
        let count = apply(spec, &mut out, w);
        lines.push(example_line_string(&input, w, &out, count));
        cases.push((input, w, out, count));
        j = j + 1;
    }
    assert(string_views(lines@) =~= example_lines(spec.op, spec.stride));
    (lines, cases)
}

/// Worked examples: the prose block and the cases.
pub fn worked_examples(spec: &Spec) -> (r: (String, Vec<ExampleCase>))
    requires
        spec.stride >= 1,
    ensures
        r.0@ == terminated(example_lines(spec.op, spec.stride)),
        r.1@.len() == 3,
        forall|i: int| 0 <= i < 3 ==> case_view(#[trigger] r.1@[i]) == example_case(spec.op, spec.stride, example_inputs()[i]),
{
    let (lines, cases) = example_data(spec);
    let mut prose = String::new();
    push_terminated(&mut prose, &lines);
    (prose, cases)
}

// ---- the files of an instance ----------------------------------------------

pub open spec fn skeleton_text(name: Seq<char>, op: Op, stride: usize) -> Seq<char> {
    "//! Implement `"@ + name + "` below.\n//!\n"@ + doc_block(example_lines(op, stride)) + "\npub fn "@
        + name + "(v: &mut [i64], w: usize) -> usize {\n    todo!()\n}\n"@
}

pub fn skeleton_src(spec: &Spec) -> (r: String)
    requires
        spec.stride >= 1,
    ensures
        r@ == skeleton_text(spec.fn_name@, spec.op, spec.stride),
{
    let (lines, _) = example_data(spec);
    let mut s = string_of("//! Implement `");
    push_str(&mut s, spec.fn_name);
    push_str(&mut s, "` below.\n//!\n");
    push_doc_block(&mut s, &lines);
    push_str(&mut s, "\npub fn ");
    push_str(&mut s, spec.fn_name);
    push_str(&mut s, "(v: &mut [i64], w: usize) -> usize {\n    todo!()\n}\n");
    s
}

pub open spec fn prompt_text(name: Seq<char>, op: Op, stride: usize, canary: Seq<char>) -> Seq<char> {
    "Implement the function `"@ + name + "` in `src/lib.rs`.\n\n"@ + stride_prose_text(stride) + ", "@
        + op_prose_text(op)
        + ". Any trailing elements that do not fill a full window are left untouched, as are the windows you do not transform. Return the number of windows the operation was applied to.\n\nConstraints:\n- `w == 0` must return 0 and leave `v` unchanged (do not panic).\n- Operate in place: do not allocate a second copy of the data.\n- Do not use `unsafe`.\n\nSignature:\n```rust\npub fn "@
        + name + "(v: &mut [i64], w: usize) -> usize\n```\n\nExamples:\n"@
        + terminated(example_lines(op, stride)) + "\n"@ + prompt_tail(canary)
}

pub fn prompt(spec: &Spec, canary: &str) -> (r: String)
    requires
        1 <= spec.stride <= usize::MAX / 2,
    ensures
        r@ == prompt_text(spec.fn_name@, spec.op, spec.stride, canary@),
{
    let (examples, _) = worked_examples(spec);
    let mut s = string_of("Implement the function `");
    push_str(&mut s, spec.fn_name);
    push_str(&mut s, "` in `src/lib.rs`.\n\n");
    let sp = stride_prose(spec.stride);
    push_str(&mut s, sp.as_str());
    push_str(&mut s, ", ");
    let op = op_prose(spec.op);
    push_str(&mut s, op.as_str());
    push_str(&mut s, ". Any trailing elements that do not fill a full window are left untouched, as are the windows you do not transform. Return the number of windows the operation was applied to.\n\nConstraints:\n- `w == 0` must return 0 and leave `v` unchanged (do not panic).\n- Operate in place: do not allocate a second copy of the data.\n- Do not use `unsafe`.\n\nSignature:\n```rust\npub fn ");
    push_str(&mut s, spec.fn_name);
    push_str(&mut s, "(v: &mut [i64], w: usize) -> usize\n```\n\nExamples:\n");
    push_str(&mut s, examples.as_str());
    push_str(&mut s, "\n");
    push_prompt_tail(&mut s, canary);
    s
}

pub open spec fn case_test_text(name: Seq<char>, i: nat, c: (Seq<i64>, usize, Seq<i64>, nat)) -> Seq<char> {
    "#[test]\nfn ex"@ + dec_nat(i) + "() {\n    let mut v: Vec<i64> = vec!"@ + debug_list(c.0)
        + ";\n    assert_eq!("@ + name + "(&mut v, "@ + dec_nat(c.1 as nat) + "), "@ + dec_nat(c.3)
        + ");\n    assert_eq!(v, vec!"@ + debug_list(c.2) + ");\n}\n\n"@
}

pub open spec fn case_tests_text(name: Seq<char>, cases: Seq<(Seq<i64>, usize, Seq<i64>, nat)>) -> Seq<char>
    decreases cases.len(),
{
    if cases.len() == 0 {
        Seq::empty()
    } else {
        case_tests_text(name, cases.drop_last()) + case_test_text(name, (cases.len() - 1) as nat, cases.last())
    }
}

pub open spec fn example_cases(op: Op, stride: usize) -> Seq<(Seq<i64>, usize, Seq<i64>, nat)> {
    example_inputs().map_values(|e: (Seq<i64>, usize)| example_case(op, stride, e))
}

pub open spec fn behavior_text(name: Seq<char>, op: Op, stride: usize) -> Seq<char> {
    "use task::"@ + name + ";\n\n"@ + case_tests_text(name, example_cases(op, stride))
        + "#[test]\nfn zero_width_noop() {\n    let mut v = vec![1i64, 2, 3];\n    assert_eq!("@ + name
        + "(&mut v, 0), 0);\n    assert_eq!(v, vec![1, 2, 3]);\n}\n\n#[test]\nfn empty_slice() {\n    let mut v: Vec<i64> = Vec::new();\n    assert_eq!("@
        + name + "(&mut v, 3), 0);\n}\n"@
}

fn case_test_string(name: &str, i: usize, c: &ExampleCase) -> (r: String)
    ensures
        r@ == case_test_text(name@, i as nat, case_view(*c)),
{
    let mut s = string_of("#[test]\nfn ex");
    push_u64(&mut s, i as u64);
    push_str(&mut s, "() {\n    let mut v: Vec<i64> = vec!");
    push_debug_list(&mut s, c.0.as_slice());
    push_str(&mut s, ";\n    assert_eq!(");
    push_str(&mut s, name);
    push_str(&mut s, "(&mut v, ");
    push_u64(&mut s, c.1 as u64);
    push_str(&mut s, "), ");
    push_u64(&mut s, c.3 as u64);
    push_str(&mut s, ");\n    assert_eq!(v, vec!");
    push_debug_list(&mut s, c.2.as_slice());
    push_str(&mut s, ");\n}\n\n");
    s
}

pub fn behavior_test_src(spec: &Spec) -> (r: String)
    requires
        spec.stride >= 1,
    ensures
        r@ == behavior_text(spec.fn_name@, spec.op, spec.stride),
{
    let (_, cases) = worked_examples(spec);
    let ghost cs = example_cases(spec.op, spec.stride);
    assert forall|q: int| 0 <= q < 3 implies #[trigger] cs[q] == case_view(cases@[q]) by {}
    let mut s = string_of("use task::");
    push_str(&mut s, spec.fn_name);
    push_str(&mut s, ";\n\n");
    let ghost start = s@;
    let mut i: usize = 0;
    while i < cases.len()
        invariant
            i <= cases.len(),
            cases@.len() == 3,
            cs.len() == 3,
            forall|q: int| 0 <= q < 3 ==> #[trigger] cs[q] == case_view(cases@[q]),
            s@ == start + case_tests_text(spec.fn_name@, cs.take(i as int)),
        decreases cases.len() - i,
    {
        let t = case_test_string(spec.fn_name, i, &cases[i]);
        push_str(&mut s, t.as_str());
        assert(cs.take(i + 1).drop_last() =~= cs.take(i as int));
        i = i + 1;
    }
    assert(cs.take(3) =~= cs);
    push_str(&mut s, "#[test]\nfn zero_width_noop() {\n    let mut v = vec![1i64, 2, 3];\n    assert_eq!(");
    push_str(&mut s, spec.fn_name);
    push_str(&mut s, "(&mut v, 0), 0);\n    assert_eq!(v, vec![1, 2, 3]);\n}\n\n#[test]\nfn empty_slice() {\n    let mut v: Vec<i64> = Vec::new();\n    assert_eq!(");
    push_str(&mut s, spec.fn_name);
    push_str(&mut s, "(&mut v, 3), 0);\n}\n");
    s
}

pub open spec fn differential_text(name: Seq<char>, op: Op, stride: usize) -> Seq<char> {
    "use task::"@ + name + ";\n\n"@ + reference_text("fn reference"@, op, stride)
        + "\n#[test]\nfn differential_vs_reference() {\n    let mut state: u64 = 0x2545F4914F6CDD1D;\n    let mut next = || {\n        state = state.wrapping_mul(6364136223846793005).wrapping_add(1442695040888963407);\n        (state >> 33) as u64\n    };\n    for _ in 0..3000 {\n        let len = (next() % 20) as usize;\n        let w = (next() % 6) as usize;\n        let mut a: Vec<i64> = (0..len).map(|_| (next() % 100) as i64 - 50).collect();\n        let mut b = a.clone();\n        let ra = "@
        + name + "(&mut a, w);\n        let rb = reference(&mut b, w);\n        assert_eq!(rb, ra, \"count mismatch: len={len} w={w}\");\n        assert_eq!(b, a, \"array mismatch: len={len} w={w}\");\n    }\n}\n"@
}

pub fn differential_test_src(spec: &Spec) -> (r: String)
    ensures
        r@ == differential_text(spec.fn_name@, spec.op, spec.stride),
{
    let mut s = string_of("use task::");
    push_str(&mut s, spec.fn_name);
    push_str(&mut s, ";\n\n");
    let reference = reference_with_head(spec, "fn reference");
    push_str(&mut s, reference.as_str());
    push_str(&mut s, "\n#[test]\nfn differential_vs_reference() {\n    let mut state: u64 = 0x2545F4914F6CDD1D;\n    let mut next = || {\n        state = state.wrapping_mul(6364136223846793005).wrapping_add(1442695040888963407);\n        (state >> 33) as u64\n    };\n    for _ in 0..3000 {\n        let len = (next() % 20) as usize;\n        let w = (next() % 6) as usize;\n        let mut a: Vec<i64> = (0..len).map(|_| (next() % 100) as i64 - 50).collect();\n        let mut b = a.clone();\n        let ra = ");
    push_str(&mut s, spec.fn_name);
    push_str(&mut s, "(&mut a, w);\n        let rb = reference(&mut b, w);\n        assert_eq!(rb, ra, \"count mismatch: len={len} w={w}\");\n        assert_eq!(b, a, \"array mismatch: len={len} w={w}\");\n    }\n}\n");
    s
}

/// Degenerate answer: correct signature, always zero.
pub fn const_zero(spec: &Spec) -> (r: String)
    ensures
        r@ == "pub fn "@ + spec.fn_name@ + "(v: &mut [i64], w: usize) -> usize { let _ = (v, w); 0 }\n"@,
{
    let mut s = string_of("pub fn ");
    push_str(&mut s, spec.fn_name);
    push_str(&mut s, "(v: &mut [i64], w: usize) -> usize { let _ = (v, w); 0 }\n");
    s
}

pub open spec fn identity_text(name: Seq<char>, stride: usize) -> Seq<char> {
    "pub fn "@ + name + "(v: &mut [i64], w: usize) -> usize {\n    if w == 0 { return 0; }\n    let mut count = 0;\n    for (idx, _chunk) in v.chunks_exact_mut(w).enumerate() {\n        if idx % "@
        + dec_nat(stride as nat) + " == 0 { count += 1; }\n    }\n    count\n}\n"@
}

/// Degenerate answer: counts the windows but transforms nothing.
pub fn identity(spec: &Spec) -> (r: String)
    ensures
        r@ == identity_text(spec.fn_name@, spec.stride),
{
    let mut s = string_of("pub fn ");
    push_str(&mut s, spec.fn_name);
    push_str(&mut s, "(v: &mut [i64], w: usize) -> usize {\n    if w == 0 { return 0; }\n    let mut count = 0;\n    for (idx, _chunk) in v.chunks_exact_mut(w).enumerate() {\n        if idx % ");
    push_u64(&mut s, spec.stride as u64);
    push_str(&mut s, " == 0 { count += 1; }\n    }\n    count\n}\n");
    s
}

pub open spec fn alloc_call_text(name: Seq<char>) -> Seq<char> {
    name + "(&mut v, 4)"@
}

/// The hidden allocation test: the hot path on 256 elements with `w = 4`.
pub fn alloc_test_src(spec: &Spec) -> (r: String)
    ensures
        r@ == alloc_test_text(spec.fn_name@, alloc_call_text(spec.fn_name@)),
{
    let mut call = string_of(spec.fn_name);
    push_str(&mut call, "(&mut v, 4)");
    alloc_test(spec.fn_name, call.as_str())
}

/// The hidden behaviour tests of the task `seed` gives.
pub closed spec fn behavior_file(seed: u64) -> Seq<char> {
    behavior_text(sample_name(seed), sample_op(seed), sample_stride(seed))
}

/// The hidden differential test of the task `seed` gives.
pub closed spec fn differential_file(seed: u64) -> Seq<char> {
    differential_text(sample_name(seed), sample_op(seed), sample_stride(seed))
}

/// The hidden allocation test of the task `seed` gives.
pub closed spec fn alloc_file(seed: u64) -> Seq<char> {
    alloc_test_text(sample_name(seed), alloc_call_text(sample_name(seed)))
}

// ---- the family ------------------------------------------------------------

pub open spec fn op_kind_text(op: Op) -> Seq<char> {
    match op {
        Op::Reverse => "reverse"@,
        Op::RotateLeft(_) => "rotate_left"@,
        Op::RotateRight(_) => "rotate_right"@,
        Op::SwapEnds => "swap_ends"@,
    }
}



pub struct WindowOpFamily;

impl WindowOpFamily {
    pub fn id(&self) -> (r: &'static str)
        ensures
            r@ == "window-op"@,
    {
        "window-op"
    }

    pub fn category(&self) -> (r: &'static str)
        ensures
            r@ == "borrow-lifetimes"@,
    {
        "borrow-lifetimes"
    }

    /// The instance for `seed`: a pure function of the seed.
    pub fn generate(&self, seed: u64) -> (r: GeneratedTask)
        ensures
            r.id@ == task_id_text("window-op"@, seed),
            r.category@ == "borrow-lifetimes"@,
            r.canary@ == canary_text("window-op"@, seed),
            r.prompt@ == prompt_text(sample_name(seed), sample_op(seed), sample_stride(seed), r.canary@),
            r.answer_path@ == "src/lib.rs"@,
            r.files@.len() == 2,
            r.files@[0].0@ == "Cargo.toml"@,
            r.files@[0].1@ == cargo_toml_text(),
            r.files@[1].0@ == "src/lib.rs"@,
            r.files@[1].1@ == skeleton_text(sample_name(seed), sample_op(seed), sample_stride(seed)),
            r.hidden@.len() == 3,
            r.hidden@[0].0@ == "tests/alloc.rs"@,
            r.hidden@[0].1@ == alloc_test_text(sample_name(seed), alloc_call_text(sample_name(seed))),
            r.hidden@[1].0@ == "tests/behavior.rs"@,
            r.hidden@[1].1@ == behavior_text(sample_name(seed), sample_op(seed), sample_stride(seed)),
            r.hidden@[2].0@ == "tests/differential.rs"@,
            r.hidden@[2].1@ == differential_text(sample_name(seed), sample_op(seed), sample_stride(seed)),
            r.behavior_test@ == "behavior"@,
            r.hidden@[0].1@ == alloc_file(seed),
            r.hidden@[1].1@ == behavior_file(seed),
            r.hidden@[2].1@ == differential_file(seed),
            r.differential_test@ == "differential"@,
            r.alloc_test@ == "alloc"@,
            r.max_unsafe == Some(0u32),
            r.forbidden_paths@.len() == 0,
            !r.check_clippy,
            r.clippy_allow@.len() == 0,
            r.weights == (Weights { behavior: 35, constraint: 55, quality: 10 }),
    {
        let spec = sample(seed);
        let canary = mint_canary("window-op", seed);
        let mut files: Vec<(String, String)> = Vec::new();
        files.push((string_of("Cargo.toml"), cargo_toml()));
        files.push((string_of("src/lib.rs"), skeleton_src(&spec)));
        let mut hidden: Vec<(String, String)> = Vec::new();
        hidden.push((string_of("tests/alloc.rs"), alloc_test_src(&spec)));
        hidden.push((string_of("tests/behavior.rs"), behavior_test_src(&spec)));
        hidden.push((string_of("tests/differential.rs"), differential_test_src(&spec)));
        let prompt = prompt(&spec, canary.as_str());
        GeneratedTask {
            id: task_id("window-op", seed),
            category: string_of("borrow-lifetimes"),
            prompt,
            canary,
            answer_path: string_of("src/lib.rs"),
            files,
            hidden,
            behavior_test: string_of("behavior"),
            differential_test: string_of("differential"),
            alloc_test: string_of("alloc"),
            max_unsafe: Some(0),
            forbidden_paths: Vec::new(),
            check_clippy: false,
            clippy_allow: Vec::new(),
            weights: Weights { behavior: 35, constraint: 55, quality: 10 },
        }
    }

    pub fn reference_code(&self, seed: u64) -> (r: String)
        ensures
            r@ == reference_text("pub fn "@ + sample_name(seed), sample_op(seed), sample_stride(seed)),
    {
        reference_src(&sample(seed))
    }

    pub fn skeleton_code(&self, seed: u64) -> (r: String)
        ensures
            r@ == skeleton_text(sample_name(seed), sample_op(seed), sample_stride(seed)),
    {
        skeleton_src(&sample(seed))
    }

    /// The structural identity: the kind of operation and the stride, without
    /// the rotation amount or the name.
    pub fn spec_signature(&self, seed: u64) -> (r: Vec<String>)
        ensures
            r@.len() == 2,
            r@[0]@ == "op:"@ + op_kind_text(sample_op(seed)),
            r@[1]@ == "stride:"@ + dec_nat(sample_stride(seed) as nat),
    {
        let spec = sample(seed);
        let kind = match spec.op {
            Op::Reverse => "reverse",
            Op::RotateLeft(_) => "rotate_left",
            Op::RotateRight(_) => "rotate_right",
            Op::SwapEnds => "swap_ends",
        };
        let mut a = string_of("op:");
        push_str(&mut a, kind);
        let mut b = string_of("stride:");
        push_u64(&mut b, spec.stride as u64);
        let mut v: Vec<String> = Vec::new();
        v.push(a);
        v.push(b);
        v
    }

    /// Degenerate answers `(label, code)` that must fail grading.
    pub fn trivial_baselines(&self, seed: u64) -> (r: Vec<(String, String)>)
        ensures
            r@.len() == 2,
            r@[0].0@ == "const-zero"@,
            r@[0].1@ == "pub fn "@ + sample_name(seed) + "(v: &mut [i64], w: usize) -> usize { let _ = (v, w); 0 }\n"@,
            r@[1].0@ == "identity"@,
            r@[1].1@ == identity_text(sample_name(seed), sample_stride(seed)),
    {
        let spec = sample(seed);
        let mut v: Vec<(String, String)> = Vec::new();
        v.push((string_of("const-zero"), const_zero(&spec)));
        v.push((string_of("identity"), identity(&spec)));
        v
    }
}

/// A width of zero leaves the slice as it is and processes no window.
pub proof fn law_zero_width_is_noop(op: Op, s: Seq<i64>, stride: nat)
    ensures
        process(op, s, 0, stride, 0) == s,
        count_windows(s.len(), 0, stride, 0) == 0,
{
}

/// Processing keeps the slice's length: every window is rewritten in place.
pub proof fn law_window_keeps_length(op: Op, s: Seq<i64>, w: nat, stride: nat, idx: nat)
    requires
        w <= usize::MAX,
    ensures
        process(op, s, w, stride, idx).len() == s.len(),
    decreases s.len(),
{
    if w > 0 && s.len() >= w {
        law_window_keeps_length(op, s.skip(w as int), w, stride, idx + 1);
        let chunk = s.take(w as int);
        assert(chunk.len() == w);
        assert(op_window(op, chunk).len() == w);
    }
}

/// The trailing elements that do not fill a whole window are left as they
/// are.
pub proof fn law_trailing_remainder_untouched(op: Op, s: Seq<i64>, w: nat, stride: nat, idx: nat)
    requires
        0 < w <= usize::MAX,
    ensures
        process(op, s, w, stride, idx).skip(s.len() - s.len() % w) == s.skip(s.len() - s.len() % w),
    decreases s.len(),
{
    if s.len() >= w {
        let rest = s.skip(w as int);
        law_trailing_remainder_untouched(op, rest, w, stride, idx + 1);
        law_window_keeps_length(op, rest, w, stride, idx + 1);
        let chunk = s.take(w as int);
        assert(op_window(op, chunk).len() == w);
        let n = s.len() as int;
        assert((n - w) % (w as int) == n % (w as int)) by {
            vstd::arithmetic::div_mod::lemma_mod_sub_multiples_vanish(n, w as int);
        }
        let t = n - n % (w as int);
        assert(t >= w) by {
            vstd::arithmetic::div_mod::lemma_mod_pos_bound(n, w as int);
            vstd::arithmetic::div_mod::lemma_fundamental_div_mod(n, w as int);
            let q = n / (w as int);
            assert(t == (w as int) * q);
            assert(t > 0);
            assert(t >= w) by (nonlinear_arith)
                requires t == (w as int) * q, t > 0, w > 0;
        }
        let head = if idx % stride == 0 { op_window(op, chunk) } else { chunk };
        let tail = process(op, rest, w, stride, idx + 1);
        assert(process(op, s, w, stride, idx) == head + tail);
        assert((head + tail).skip(t) =~= tail.skip(t - w));
        assert(s.skip(t) =~= rest.skip(t - w));
    } else {
        assert(s.len() % w == s.len()) by {
            vstd::arithmetic::div_mod::lemma_small_mod(s.len(), w);
        }
    }
}

} // verus!
