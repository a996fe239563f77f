//! The `dual-region` family (category `borrow-lifetimes`).
//!
//! The model implements `fn f(v: &mut [i64]) -> usize`: split `v` at its
//! midpoint, pair each first-half element with a second-half one (aligned or
//! mirrored), rewrite both in place with a seed-selected pair operation, and
//! return the number of pairs: the shape `split_at_mut` exists for. Six
//! operations by two pairings: twelve distinct skills. Cloning is behaviourally
//! correct, so an allocation check carries most of the weight.

use vstd::prelude::*;
use crate::rng::{Rng, draw};
use crate::digest::{mint_canary, canary_text};
use crate::text::{push_str, push_u64, push_debug_list, push_doc_block, push_terminated, dec_nat, debug_list,
    doc_block, terminated, string_views, string_of};
use crate::gen::{GeneratedTask, Weights, cargo_toml, cargo_toml_text, task_id, task_id_text,
    push_prompt_tail, prompt_tail, alloc_test, alloc_test_text};

verus! {

/// Axis 1: how a pair `(x, y)` is rewritten.
#[derive(Clone, Copy, Debug, PartialEq, Eq, Structural)]
pub enum Op {
    Swap,
    SumDiff,
    SortPair,
    AddBoth,
    DiffBoth,
    MaxBoth,
}

/// Axis 2: which second-half element pairs with the i-th first-half one.
#[derive(Clone, Copy, Debug, PartialEq, Eq, Structural)]
pub enum Pairing {
    Aligned,
    Mirror,
}

pub struct Spec {
    pub op: Op,
    pub pairing: Pairing,
    pub fn_name: &'static str,
}

// ---- semantics -------------------------------------------------------------

pub open spec fn in_i64(x: int) -> bool {
    i64::MIN <= x <= i64::MAX
}

/// The rewritten pair.
pub open spec fn op_pair(o: Op, x: int, y: int) -> (int, int) {
    match o {
        Op::Swap => (y, x),
        Op::SumDiff => (x + y, x - y),
        Op::SortPair => if x <= y { (x, y) } else { (y, x) },
        Op::AddBoth => (x + y, x + y),
        Op::DiffBoth => (x - y, y - x),
        Op::MaxBoth => if x >= y { (x, x) } else { (y, y) },
    }
}

/// The index of the second-half partner of first-half index `i`.
pub open spec fn partner(p: Pairing, len: int, i: int) -> int {
    let mid = len / 2;
    match p {
        Pairing::Aligned => mid + i,
        Pairing::Mirror => mid + (len - mid - 1 - i),
    }
}

/// The first-half index whose partner is `k` (in range only when some is).
pub open spec fn owner(p: Pairing, len: int, k: int) -> int {
    let mid = len / 2;
    match p {
        Pairing::Aligned => k - mid,
        Pairing::Mirror => len - mid - 1 - (k - mid),
    }
}

/// `v` after the rewrite: each first-half element and its partner hold the
/// rewritten pair; an unpaired element keeps its value.
pub open spec fn applied(o: Op, p: Pairing, v: Seq<i64>) -> Seq<i64> {
    let len = v.len() as int;
    let mid = len / 2;
    Seq::new(
        v.len(),
        |k: int|
            if k < mid {
                op_pair(o, v[k] as int, v[partner(p, len, k)] as int).0 as i64
            } else if 0 <= owner(p, len, k) < mid {
                op_pair(o, v[owner(p, len, k)] as int, v[k] as int).1 as i64
            } else {
                v[k]
            },
    )
}

/// Every rewritten pair fits in `i64`.
pub open spec fn pairs_fit(o: Op, p: Pairing, v: Seq<i64>) -> bool {
    let len = v.len() as int;
    forall|i: int|
        0 <= i < len / 2 ==> in_i64(#[trigger] op_pair(o, v[i] as int, v[partner(p, len, i)] as int).0) && in_i64(
            op_pair(o, v[i] as int, v[partner(p, len, i)] as int).1,
        )
}

proof fn lemma_partner(p: Pairing, len: int, i: int)
    requires
        0 <= i < len / 2,
    ensures
        len / 2 <= partner(p, len, i) < len,
        owner(p, len, partner(p, len, i)) == i,
{
}

pub fn op_apply(o: Op, x: i64, y: i64) -> (r: (i64, i64))
    requires
        in_i64(op_pair(o, x as int, y as int).0),
        in_i64(op_pair(o, x as int, y as int).1),
    ensures
        r.0 == op_pair(o, x as int, y as int).0,
        r.1 == op_pair(o, x as int, y as int).1,
{
    match o {
        Op::Swap => (y, x),
        Op::SumDiff => (x + y, x - y),
        Op::SortPair => if x <= y { (x, y) } else { (y, x) },
        Op::AddBoth => (x + y, x + y),
        Op::DiffBoth => (x - y, y - x),
        Op::MaxBoth => if x >= y { (x, x) } else { (y, y) },
    }
}

/// The answer: rewrite every pair in place and return the number of pairs,
/// `len / 2`.
pub fn apply(spec: &Spec, v: &mut Vec<i64>) -> (n: usize)
    requires
        pairs_fit(spec.op, spec.pairing, old(v)@),
    ensures
        n == old(v)@.len() / 2,
        final(v)@ == applied(spec.op, spec.pairing, old(v)@),
{
    let ghost start = v@;
    let len = v.len();
    let mid = len / 2;
    let blen = len - mid;
    let ghost want = applied(spec.op, spec.pairing, start);
    let mut i: usize = 0;
    while i < mid
        invariant
            i <= mid,
            len == start.len(),
            mid == len / 2,
            blen == len - mid,
            v@.len() == len,
            want == applied(spec.op, spec.pairing, start),
            pairs_fit(spec.op, spec.pairing, start),
            forall|k: int|
                0 <= k < len ==> #[trigger] v@[k] == (if k < i {
                    want[k]
                } else if k < mid {
                    start[k]
                } else if 0 <= owner(spec.pairing, len as int, k) < i {
                    want[k]
                } else {
                    start[k]
                }),
        decreases mid - i,
    {
        let j = match spec.pairing {
            Pairing::Aligned => i,
            Pairing::Mirror => blen - 1 - i,
        };
        proof {
            lemma_partner(spec.pairing, len as int, i as int);
        }
        assert(mid + j == partner(spec.pairing, len as int, i as int));
        let x = v[i];
        let y = v[mid + j];
        assert(x == start[i as int]);
        assert(y == start[mid + j]);
        assert(in_i64(op_pair(spec.op, start[i as int] as int, start[partner(spec.pairing, len as int, i as int)] as int).0));
        let (nx, ny) = op_apply(spec.op, x, y);
        v.set(i, nx);
        v.set(mid + j, ny);
        proof {
            assert forall|k: int| 0 <= k < len implies #[trigger] v@[k] == (if k < i + 1 {
                want[k]
            } else if k < mid {
                start[k]
            } else if 0 <= owner(spec.pairing, len as int, k) < i + 1 {
                want[k]
            } else {
                start[k]
            }) by {
                if k >= mid && k != mid + j {
                    let o = owner(spec.pairing, len as int, k);
                    assert(o != i);
                }
            }
        }
        i = i + 1;
    }
    proof {
        assert forall|k: int| 0 <= k < len implies #[trigger] v@[k] == want[k] by {
            if k >= mid {
                let o = owner(spec.pairing, len as int, k);
                if !(0 <= o < mid) {
                    assert(want[k] == start[k]);
                }
            }
        }
    }
    assert(v@ =~= want);
    mid
}

// ---- sampling --------------------------------------------------------------

pub open spec fn op_of(k: u64) -> Op {
    if k == 0 {
        Op::Swap
    } else if k == 1 {
        Op::SumDiff
    } else if k == 2 {
        Op::SortPair
    } else if k == 3 {
        Op::AddBoth
    } else if k == 4 {
        Op::DiffBoth
    } else {
        Op::MaxBoth
    }
}

pub open spec fn name_text(i: u64) -> Seq<char> {
    if i == 0 {
        "f"@
    } else if i == 1 {
        "fold_halves"@
    } else if i == 2 {
        "combine_halves"@
    } else if i == 3 {
        "mix_regions"@
    } else if i == 4 {
        "pair_up"@
    } else {
        "rework_pairs"@
    }
}

pub open spec fn sample_op(seed: u64) -> Op {
    op_of(draw(seed, 0) % 6)
}

pub open spec fn sample_pairing(seed: u64) -> Pairing {
    if draw(seed, 1) % 2 == 0 { Pairing::Aligned } else { Pairing::Mirror }
}

pub open spec fn sample_name(seed: u64) -> Seq<char> {
    name_text(draw(seed, 2) % 6)
}

fn name_at(i: u64) -> (r: &'static str)
    requires
        i < 6,
    ensures
        r@ == name_text(i),
{
    if i == 0 {
        "f"
    } else if i == 1 {
        "fold_halves"
    } else if i == 2 {
        "combine_halves"
    } else if i == 3 {
        "mix_regions"
    } else if i == 4 {
        "pair_up"
    } else {
        "rework_pairs"
    }
}

/// The spec for `seed`: every choice is a function of the seed's stream.
pub fn sample(seed: u64) -> (r: Spec)
    ensures
        r.op == sample_op(seed),
        r.pairing == sample_pairing(seed),
        r.fn_name@ == sample_name(seed),
{
    let mut rng = Rng::new(seed);
    let k = rng.below(6);
    let op = if k == 0 {
        Op::Swap
    } else if k == 1 {
        Op::SumDiff
    } else if k == 2 {
        Op::SortPair
    } else if k == 3 {
        Op::AddBoth
    } else if k == 4 {
        Op::DiffBoth
    } else {
        Op::MaxBoth
    };
    let pairing = if rng.below(2) == 0 { Pairing::Aligned } else { Pairing::Mirror };
    let fn_name = name_at(rng.below(6));
    Spec { op, pairing, fn_name }
}

// ---- emitted-source fragments ----------------------------------------------

pub open spec fn j_text(p: Pairing) -> Seq<char> {
    match p {
        Pairing::Aligned => "i"@,
        Pairing::Mirror => "b.len() - 1 - i"@,
    }
}

pub fn j_expr(p: Pairing) -> (r: &'static str)
    ensures
        r@ == j_text(p),
{
    match p {
        Pairing::Aligned => "i",
        Pairing::Mirror => "b.len() - 1 - i",
    }
}

/// The pair rewrite as two assignments over `x` and `y`.
pub open spec fn op_assign_text(o: Op) -> Seq<char> {
    match o {
        Op::Swap => "a[i] = y;\n            b[j] = x;"@,
        Op::SumDiff => "a[i] = x + y;\n            b[j] = x - y;"@,
        Op::SortPair => "a[i] = x.min(y);\n            b[j] = x.max(y);"@,
        Op::AddBoth => "a[i] = x + y;\n            b[j] = x + y;"@,
        Op::DiffBoth => "a[i] = x - y;\n            b[j] = y - x;"@,
        Op::MaxBoth => "a[i] = x.max(y);\n            b[j] = x.max(y);"@,
    }
}

pub fn op_assign(o: Op) -> (r: &'static str)
    ensures
        r@ == op_assign_text(o),
{
    match o {
        Op::Swap => "a[i] = y;\n            b[j] = x;",
        Op::SumDiff => "a[i] = x + y;\n            b[j] = x - y;",
        Op::SortPair => "a[i] = x.min(y);\n            b[j] = x.max(y);",
        Op::AddBoth => "a[i] = x + y;\n            b[j] = x + y;",
        Op::DiffBoth => "a[i] = x - y;\n            b[j] = y - x;",
        Op::MaxBoth => "a[i] = x.max(y);\n            b[j] = x.max(y);",
    }
}

pub open spec fn op_prose_text(o: Op) -> Seq<char> {
    match o {
        Op::Swap => "swap the two paired elements"@,
        Op::SumDiff => "replace the pair `(x, y)` with `(x + y, x - y)`"@,
        Op::SortPair => "replace the pair `(x, y)` with `(min(x, y), max(x, y))` (smaller first)"@,
        Op::AddBoth => "replace both paired elements with their sum `x + y`"@,
        Op::DiffBoth => "replace the pair `(x, y)` with `(x - y, y - x)`"@,
        Op::MaxBoth => "replace both paired elements with their maximum `max(x, y)`"@,
    }
}

pub fn op_prose(o: Op) -> (r: &'static str)
    ensures
        r@ == op_prose_text(o),
{
    match o {
        Op::Swap => "swap the two paired elements",
        Op::SumDiff => "replace the pair `(x, y)` with `(x + y, x - y)`",
        Op::SortPair => "replace the pair `(x, y)` with `(min(x, y), max(x, y))` (smaller first)",
        Op::AddBoth => "replace both paired elements with their sum `x + y`",
        Op::DiffBoth => "replace the pair `(x, y)` with `(x - y, y - x)`",
        Op::MaxBoth => "replace both paired elements with their maximum `max(x, y)`",
    }
}

pub open spec fn pairing_prose_text(p: Pairing) -> Seq<char> {
    match p {
        Pairing::Aligned => "Pair the i-th element of the first half with the i-th element of the second half."@,
        Pairing::Mirror => "Pair the i-th element of the first half with the i-th element of the second half counting from *its end* \u{2014} i.e. `first[i]` with `second[second.len() - 1 - i]` (a mirror pairing)."@,
    }
}

pub fn pairing_prose(p: Pairing) -> (r: &'static str)
    ensures
        r@ == pairing_prose_text(p),
{
    match p {
        Pairing::Aligned => "Pair the i-th element of the first half with the i-th element of the second half.",
        Pairing::Mirror => "Pair the i-th element of the first half with the i-th element of the second half counting from *its end* \u{2014} i.e. `first[i]` with `second[second.len() - 1 - i]` (a mirror pairing).",
    }
}

/// The reference after its name.
pub open spec fn ref_tail_text(o: Op, p: Pairing) -> Seq<char> {
    "(v: &mut [i64]) -> usize {\n    let mid = v.len() / 2;\n    let (a, b) = v.split_at_mut(mid);\n    let k = a.len();\n    for i in 0..k {\n        let j = "@
        + j_text(p) + ";\n        let (x, y) = (a[i], b[j]);\n        "@ + op_assign_text(o) + "\n    }\n    k\n}\n"@
}

fn ref_tail(spec: &Spec) -> (r: String)
    ensures
        r@ == ref_tail_text(spec.op, spec.pairing),
{
    let mut s = string_of(
        "(v: &mut [i64]) -> usize {\n    let mid = v.len() / 2;\n    let (a, b) = v.split_at_mut(mid);\n    let k = a.len();\n    for i in 0..k {\n        let j = ",
    );
    push_str(&mut s, j_expr(spec.pairing));
    push_str(&mut s, ";\n        let (x, y) = (a[i], b[j]);\n        ");
    push_str(&mut s, op_assign(spec.op));
    push_str(&mut s, "\n    }\n    k\n}\n");
    s
}

pub open spec fn reference_text(name: Seq<char>, o: Op, p: Pairing) -> Seq<char> {
    "pub fn "@ + name + ref_tail_text(o, p)
}

/// The correct reference: `split_at_mut` and an index loop over the pairs.
pub fn reference_src(spec: &Spec) -> (r: String)
    ensures
        r@ == reference_text(spec.fn_name@, spec.op, spec.pairing),
{
    let mut s = string_of("pub fn ");
    push_str(&mut s, spec.fn_name);
    let t = ref_tail(spec);
    push_str(&mut s, t.as_str());
    s
}

// ---- worked examples -------------------------------------------------------

pub open spec fn example_seed(seed: u64) -> u64 {
    seed ^ 0xD0A1_0000_0000_0007u64
}

/// The fixed first input: every first-half element exceeds every
/// second-half one.
pub open spec fn canonical() -> Seq<i64> {
    seq![6i64, 4, 3, 1]
}

pub open spec fn input_len(s: u64, k: nat) -> nat {
    (3 + draw(s, k) % 8) as nat
}

/// Element `j` of the random input whose draws start at `k`: a magnitude in
/// `1..=9`, then its sign.
pub open spec fn input_elem(s: u64, k: nat, j: int) -> i64 {
    let mag = 1 + draw(s, (k + 1 + 2 * j) as nat) % 9;
    if draw(s, (k + 2 + 2 * j) as nat) % 2 == 0 { mag as i64 } else { -mag as i64 }
}

/// The random input whose draws start at `k`: a length `3..=10`, then that
/// many non-zero values in `-9..=9`.
pub open spec fn random_input(s: u64, k: nat) -> Seq<i64> {
    Seq::new(input_len(s, k), |j: int| input_elem(s, k, j))
}

pub open spec fn input_next(s: u64, k: nat) -> nat {
    k + 1 + 2 * input_len(s, k)
}

pub open spec fn example_inputs(seed: u64) -> Seq<Seq<i64>> {
    let s = example_seed(seed);
    let k1 = input_next(s, 0);
    let k2 = input_next(s, k1);
    seq![canonical(), random_input(s, 0), random_input(s, k1), random_input(s, k2)]
}

pub open spec fn example_line(input: Seq<i64>, out: Seq<i64>, count: nat) -> Seq<char> {
    "  "@ + debug_list(input) + "  ->  "@ + debug_list(out) + ", returns "@ + dec_nat(count)
}

pub open spec fn example_lines(o: Op, p: Pairing, seed: u64) -> Seq<Seq<char>> {
    example_inputs(seed).map_values(
        |x: Seq<i64>| example_line(x, applied(o, p, x), (x.len() / 2) as nat),
    )
}

/// One worked example: (input, expected array, expected count).
pub type ExampleCase = (Vec<i64>, Vec<i64>, usize);

pub open spec fn example_cases(o: Op, p: Pairing, seed: u64) -> Seq<(Seq<i64>, Seq<i64>, nat)> {
    example_inputs(seed).map_values(|x: Seq<i64>| (x, applied(o, p, x), (x.len() / 2) as nat))
}

pub open spec fn case_view(c: ExampleCase) -> (Seq<i64>, Seq<i64>, nat) {
    (c.0@, c.1@, c.2 as nat)
}

fn random_input_vec(rng: &mut Rng) -> (r: Vec<i64>)
    ensures
        final(rng).seed() == old(rng).seed(),
        r@ == random_input(old(rng).seed(), old(rng).count()),
        final(rng).count() == input_next(old(rng).seed(), old(rng).count()),
{
    let ghost s = rng.seed();
    let ghost k = rng.count();
    let len = 3 + rng.below(8) as usize;
    let mut v: Vec<i64> = Vec::new();
    let mut j: usize = 0;
    while j < len
        invariant
            j <= len,
            len == input_len(s, k),
            rng.seed() == s,
            rng.count() == k + 1 + 2 * j,
            v@ =~= random_input(s, k).take(j as int),
        decreases len - j,
    {
        let mag = 1 + rng.below(9) as i64;
        let x = if rng.below(2) == 0 { mag } else { -mag };
        v.push(x);
        j = j + 1;
    }
    v
}

fn example_input_vecs(seed: u64) -> (r: Vec<Vec<i64>>)
    ensures
        r@.len() == 4,
        forall|i: int| 0 <= i < 4 ==> (#[trigger] r@[i])@ == example_inputs(seed)[i],
{
    let mut rng = Rng::new(seed ^ 0xD0A1_0000_0000_0007);
    let mut inputs: Vec<Vec<i64>> = Vec::new();
    let c: Vec<i64> = vec![6, 4, 3, 1];
    assert(c@ =~= canonical());
    inputs.push(c);
    let a = random_input_vec(&mut rng);
    let b = random_input_vec(&mut rng);
    let d = random_input_vec(&mut rng);
    inputs.push(a);
    inputs.push(b);
    inputs.push(d);
    inputs
}

proof fn lemma_example_fits(o: Op, p: Pairing, seed: u64, i: int)
    requires
        0 <= i < 4,
    ensures
        pairs_fit(o, p, example_inputs(seed)[i]),
{
    let x = example_inputs(seed)[i];
    assert forall|q: int| 0 <= q < x.len() implies -9 <= #[trigger] x[q] <= 9 by {
        if i > 0 {
            let s = example_seed(seed);
            let k = if i == 1 { 0 } else if i == 2 { input_next(s, 0) } else { input_next(s, input_next(s, 0)) };
            assert(x == random_input(s, k));
            let m = draw(s, (k + 1 + 2 * q) as nat) % 9;
            assert(0 <= m < 9);
        }
    }
    let len = x.len() as int;
    assert forall|j: int| 0 <= j < len / 2 implies in_i64(#[trigger] op_pair(o, x[j] as int, x[partner(p, len, j)] as int).0)
        && in_i64(op_pair(o, x[j] as int, x[partner(p, len, j)] as int).1) by {
        lemma_partner(p, len, j);
    }
}

fn example_line_string(input: &Vec<i64>, out: &Vec<i64>, count: usize) -> (r: String)
    ensures
        r@ == example_line(input@, out@, count as nat),
{
    let mut s = string_of("  ");
    push_debug_list(&mut s, input.as_slice());
    push_str(&mut s, "  ->  ");
    push_debug_list(&mut s, out.as_slice());
    push_str(&mut s, ", returns ");
    push_u64(&mut s, count as u64);
    s
}

/// The worked examples as lines (without newlines) and cases.
pub fn example_data(spec: &Spec, seed: u64) -> (r: (Vec<String>, Vec<ExampleCase>))
    ensures
        string_views(r.0@) == example_lines(spec.op, spec.pairing, seed),
        r.1@.len() == 4,
        forall|i: int| 0 <= i < 4 ==> case_view(#[trigger] r.1@[i]) == example_cases(spec.op, spec.pairing, seed)[i],
{
    let inputs = example_input_vecs(seed);
    let mut lines: Vec<String> = Vec::new();
    let mut cases: Vec<ExampleCase> = Vec::new();
    let mut j: usize = 0;
    while j < inputs.len()
        invariant
            j <= inputs.len(),
            inputs@.len() == 4,
            forall|i: int| 0 <= i < 4 ==> (#[trigger] inputs@[i])@ == example_inputs(seed)[i],
            lines@.len() == j,
            cases@.len() == j,
            forall|q: int| 0 <= q < j ==> #[trigger] lines@[q]@ == example_lines(spec.op, spec.pairing, seed)[q],
            forall|q: int| 0 <= q < j ==> case_view(#[trigger] cases@[q]) == example_cases(spec.op, spec.pairing, seed)[q],
        decreases inputs.len() - j,
    {
        let input = inputs[j].clone();
        let mut out = input.clone();
        proof {
            lemma_example_fits(spec.op, spec.pairing, seed, j as int);
        }
        let count = apply(spec, &mut out);
        lines.push(example_line_string(&input, &out, count));
        cases.push((input, out, count));
        j = j + 1;
    }
    assert(string_views(lines@) =~= example_lines(spec.op, spec.pairing, seed));
    (lines, cases)
}

/// Worked examples: the prose block and the cases.
pub fn worked_examples(spec: &Spec, seed: u64) -> (r: (String, Vec<ExampleCase>))
    ensures
        r.0@ == terminated(example_lines(spec.op, spec.pairing, seed)),
        r.1@.len() == 4,
        forall|i: int| 0 <= i < 4 ==> case_view(#[trigger] r.1@[i]) == example_cases(spec.op, spec.pairing, seed)[i],
{
    let (lines, cases) = example_data(spec, seed);
    let mut prose = String::new();
    push_terminated(&mut prose, &lines);
    (prose, cases)
}

// ---- the files of an instance ----------------------------------------------

pub open spec fn skeleton_text(name: Seq<char>, o: Op, p: Pairing, seed: u64) -> Seq<char> {
    "//! Implement `"@ + name + "` below.\n//!\n"@ + doc_block(example_lines(o, p, seed)) + "\npub fn "@ + name
        + "(v: &mut [i64]) -> usize {\n    todo!()\n}\n"@
}

pub fn skeleton_src(spec: &Spec, seed: u64) -> (r: String)
    ensures
        r@ == skeleton_text(spec.fn_name@, spec.op, spec.pairing, seed),
{
    let (lines, _) = example_data(spec, seed);
    let mut s = string_of("//! Implement `");
    push_str(&mut s, spec.fn_name);
    push_str(&mut s, "` below.\n//!\n");
    push_doc_block(&mut s, &lines);
    push_str(&mut s, "\npub fn ");
    push_str(&mut s, spec.fn_name);
    push_str(&mut s, "(v: &mut [i64]) -> usize {\n    todo!()\n}\n");
    s
}

pub open spec fn prompt_text(name: Seq<char>, o: Op, p: Pairing, seed: u64, canary: Seq<char>) -> Seq<char> {
    "Implement the function `"@ + name
        + "` in `src/lib.rs`.\n\nSplit `v` at its midpoint `mid = v.len() / 2` into a first half (length `mid`) and a second half (the remaining elements). "@
        + pairing_prose_text(p) + " There are `mid` such pairs. For each pair `(x, y)`, "@ + op_prose_text(o)
        + ", writing both results back in place. When the length is odd, the extra middle element of the second half is left untouched. Return the number of pairs transformed (which is `mid`).\n\nConstraints:\n- Operate in place: do not allocate a second copy of the data.\n- A slice of length 0 or 1 has no pairs; return 0 and leave it unchanged.\n- Do not use `unsafe`.\n\nSignature:\n```rust\npub fn "@
        + name + "(v: &mut [i64]) -> usize\n```\n\nExamples:\n"@ + terminated(example_lines(o, p, seed)) + "\n"@
        + prompt_tail(canary)
}

pub fn prompt(spec: &Spec, seed: u64, canary: &str) -> (r: String)
    ensures
        r@ == prompt_text(spec.fn_name@, spec.op, spec.pairing, seed, canary@),
{
    let (examples, _) = worked_examples(spec, seed);
    let mut s = string_of("Implement the function `");
    push_str(&mut s, spec.fn_name);
    push_str(
        &mut s,
        "` in `src/lib.rs`.\n\nSplit `v` at its midpoint `mid = v.len() / 2` into a first half (length `mid`) and a second half (the remaining elements). ",
    );
    push_str(&mut s, pairing_prose(spec.pairing));
    push_str(&mut s, " There are `mid` such pairs. For each pair `(x, y)`, ");
    push_str(&mut s, op_prose(spec.op));
    push_str(
        &mut s,
        ", writing both results back in place. When the length is odd, the extra middle element of the second half is left untouched. Return the number of pairs transformed (which is `mid`).\n\nConstraints:\n- Operate in place: do not allocate a second copy of the data.\n- A slice of length 0 or 1 has no pairs; return 0 and leave it unchanged.\n- Do not use `unsafe`.\n\nSignature:\n```rust\npub fn ",
    );
    push_str(&mut s, spec.fn_name);
    push_str(&mut s, "(v: &mut [i64]) -> usize\n```\n\nExamples:\n");
    push_str(&mut s, examples.as_str());
    push_str(&mut s, "\n");
    push_prompt_tail(&mut s, canary);
    s
}

pub open spec fn case_test_text(name: Seq<char>, i: nat, c: (Seq<i64>, Seq<i64>, nat)) -> Seq<char> {
    "#[test]\nfn ex"@ + dec_nat(i) + "() {\n    let mut v: Vec<i64> = vec!"@ + debug_list(c.0) + ";\n    assert_eq!("@
        + name + "(&mut v), "@ + dec_nat(c.2) + ");\n    assert_eq!(v, vec!"@ + debug_list(c.1) + ");\n}\n\n"@
}

pub open spec fn case_tests_text(name: Seq<char>, cases: Seq<(Seq<i64>, Seq<i64>, nat)>) -> Seq<char>
    decreases cases.len(),
{
    if cases.len() == 0 {
        Seq::empty()
    } else {
        case_tests_text(name, cases.drop_last()) + case_test_text(name, (cases.len() - 1) as nat, cases.last())
    }
}

fn case_test_string(name: &str, i: usize, c: &ExampleCase) -> (r: String)
    ensures
        r@ == case_test_text(name@, i as nat, case_view(*c)),
{
    let mut s = string_of("#[test]\nfn ex");
    push_u64(&mut s, i as u64);
    push_str(&mut s, "() {\n    let mut v: Vec<i64> = vec!");
    push_debug_list(&mut s, c.0.as_slice());
    push_str(&mut s, ";\n    assert_eq!(");
    push_str(&mut s, name);
    push_str(&mut s, "(&mut v), ");
    push_u64(&mut s, c.2 as u64);
    push_str(&mut s, ");\n    assert_eq!(v, vec!");
    push_debug_list(&mut s, c.1.as_slice());
    push_str(&mut s, ");\n}\n\n");
    s
}

pub open spec fn behavior_text(name: Seq<char>, o: Op, p: Pairing, seed: u64) -> Seq<char> {
    "use task::"@ + name + ";\n\n"@ + case_tests_text(name, example_cases(o, p, seed))
        + "#[test]\nfn too_short_is_noop() {\n    let mut v = vec![7i64];\n    assert_eq!("@ + name
        + "(&mut v), 0);\n    assert_eq!(v, vec![7]);\n    let mut e: Vec<i64> = Vec::new();\n    assert_eq!("@ + name
        + "(&mut e), 0);\n}\n"@
}

pub fn behavior_test_src(spec: &Spec, seed: u64) -> (r: String)
    ensures
        r@ == behavior_text(spec.fn_name@, spec.op, spec.pairing, seed),
{
    let (_, cases) = worked_examples(spec, seed);
    let ghost cs = example_cases(spec.op, spec.pairing, seed);
    assert forall|q: int| 0 <= q < 4 implies #[trigger] cs[q] == case_view(cases@[q]) by {}
    let mut s = string_of("use task::");
    push_str(&mut s, spec.fn_name);
    push_str(&mut s, ";\n\n");
    let ghost start = s@;
    let mut i: usize = 0;
    while i < cases.len()
        invariant
            i <= cases.len(),
            cases@.len() == 4,
            cs.len() == 4,
            forall|q: int| 0 <= q < 4 ==> #[trigger] cs[q] == case_view(cases@[q]),
            s@ == start + case_tests_text(spec.fn_name@, cs.take(i as int)),
        decreases cases.len() - i,
    {
        let t = case_test_string(spec.fn_name, i, &cases[i]);
        push_str(&mut s, t.as_str());
        assert(cs.take(i + 1).drop_last() =~= cs.take(i as int));
        i = i + 1;
    }
    assert(cs.take(4) =~= cs);
    push_str(&mut s, "#[test]\nfn too_short_is_noop() {\n    let mut v = vec![7i64];\n    assert_eq!(");
    push_str(&mut s, spec.fn_name);
    push_str(&mut s, "(&mut v), 0);\n    assert_eq!(v, vec![7]);\n    let mut e: Vec<i64> = Vec::new();\n    assert_eq!(");
    push_str(&mut s, spec.fn_name);
    push_str(&mut s, "(&mut e), 0);\n}\n");
    s
}

pub open spec fn differential_text(name: Seq<char>, o: Op, p: Pairing) -> Seq<char> {
    "use task::"@ + name + ";\n\n"@ + "fn reference"@ + ref_tail_text(o, p)
        + "\n#[test]\nfn differential_vs_reference() {\n    let mut state: u64 = 0xD0A1_ED00_0000_0042;\n    let mut next = || {\n        state = state.wrapping_mul(6364136223846793005).wrapping_add(1442695040888963407);\n        (state >> 33) as u64\n    };\n    for _ in 0..3000 {\n        let len = (next() % 20) as usize;\n        let mut a: Vec<i64> = (0..len).map(|_| (next() % 100) as i64 - 50).collect();\n        let mut b = a.clone();\n        let ra = "@
        + name
        + "(&mut a);\n        let rb = reference(&mut b);\n        assert_eq!(rb, ra, \"count mismatch: len={len}\");\n        assert_eq!(b, a, \"array mismatch: len={len}\");\n    }\n}\n"@
}

/// The hidden differential test: both the array and the count against the
/// reference, renamed.
pub fn differential_test_src(spec: &Spec) -> (r: String)
    ensures
        r@ == differential_text(spec.fn_name@, spec.op, spec.pairing),
{
    let mut s = string_of("use task::");
    push_str(&mut s, spec.fn_name);
    push_str(&mut s, ";\n\n");
    push_str(&mut s, "fn reference");
    let t = ref_tail(spec);
    push_str(&mut s, t.as_str());
    push_str(
        &mut s,
        "\n#[test]\nfn differential_vs_reference() {\n    let mut state: u64 = 0xD0A1_ED00_0000_0042;\n    let mut next = || {\n        state = state.wrapping_mul(6364136223846793005).wrapping_add(1442695040888963407);\n        (state >> 33) as u64\n    };\n    for _ in 0..3000 {\n        let len = (next() % 20) as usize;\n        let mut a: Vec<i64> = (0..len).map(|_| (next() % 100) as i64 - 50).collect();\n        let mut b = a.clone();\n        let ra = ",
    );
    push_str(&mut s, spec.fn_name);
    push_str(
        &mut s,
        "(&mut a);\n        let rb = reference(&mut b);\n        assert_eq!(rb, ra, \"count mismatch: len={len}\");\n        assert_eq!(b, a, \"array mismatch: len={len}\");\n    }\n}\n",
    );
    s
}

pub open spec fn alloc_call_text(name: Seq<char>) -> Seq<char> {
    name + "(&mut v)"@
}

/// The hidden allocation test: the hot path on 256 elements.
pub fn alloc_test_src(spec: &Spec) -> (r: String)
    ensures
        r@ == alloc_test_text(spec.fn_name@, alloc_call_text(spec.fn_name@)),
{
    let mut call = string_of(spec.fn_name);
    push_str(&mut call, "(&mut v)");
    alloc_test(spec.fn_name, call.as_str())
}

pub open spec fn const_zero_text(name: Seq<char>) -> Seq<char> {
    "pub fn "@ + name + "(v: &mut [i64]) -> usize { let _ = &mut v[..]; 0 }\n"@
}

/// Degenerate answer: no pairs transformed, `0` returned.
pub fn const_zero(spec: &Spec) -> (r: String)
    ensures
        r@ == const_zero_text(spec.fn_name@),
{
    let mut s = string_of("pub fn ");
    push_str(&mut s, spec.fn_name);
    push_str(&mut s, "(v: &mut [i64]) -> usize { let _ = &mut v[..]; 0 }\n");
    s
}

pub open spec fn identity_text(name: Seq<char>) -> Seq<char> {
    "pub fn "@ + name + "(v: &mut [i64]) -> usize { v.len() / 2 }\n"@
}

/// Degenerate answer: the right count, and no work.
pub fn identity(spec: &Spec) -> (r: String)
    ensures
        r@ == identity_text(spec.fn_name@),
{
    let mut s = string_of("pub fn ");
    push_str(&mut s, spec.fn_name);
    push_str(&mut s, "(v: &mut [i64]) -> usize { v.len() / 2 }\n");
    s
}

/// The hidden behaviour tests of the task `seed` gives.
pub closed spec fn behavior_file(seed: u64) -> Seq<char> {
    behavior_text(sample_name(seed), sample_op(seed), sample_pairing(seed), seed)
}

/// The hidden differential test of the task `seed` gives.
pub closed spec fn differential_file(seed: u64) -> Seq<char> {
    differential_text(sample_name(seed), sample_op(seed), sample_pairing(seed))
}

/// The hidden allocation test of the task `seed` gives.
pub closed spec fn alloc_file(seed: u64) -> Seq<char> {
    alloc_test_text(sample_name(seed), alloc_call_text(sample_name(seed)))
}

// ---- the family ------------------------------------------------------------

pub open spec fn op_kind_text(o: Op) -> Seq<char> {
    match o {
        Op::Swap => "swap"@,
        Op::SumDiff => "sum_diff"@,
        Op::SortPair => "sort_pair"@,
        Op::AddBoth => "add_both"@,
        Op::DiffBoth => "diff_both"@,
        Op::MaxBoth => "max_both"@,
    }
}

pub open spec fn pairing_kind_text(p: Pairing) -> Seq<char> {
    match p {
        Pairing::Aligned => "aligned"@,
        Pairing::Mirror => "mirror"@,
    }
}

pub struct DualRegionFamily;

impl DualRegionFamily {
    pub fn id(&self) -> (r: &'static str)
        ensures
            r@ == "dual-region"@,
    {
        "dual-region"
    }

    pub fn category(&self) -> (r: &'static str)
        ensures
            r@ == "borrow-lifetimes"@,
    {
        "borrow-lifetimes"
    }

    /// The instance for `seed`: a pure function of the seed; constraint
    /// dominant, with an allocation check.
    pub fn generate(&self, seed: u64) -> (r: GeneratedTask)
        ensures
            r.id@ == task_id_text("dual-region"@, seed),
            r.category@ == "borrow-lifetimes"@,
            r.canary@ == canary_text("dual-region"@, seed),
            r.prompt@ == prompt_text(sample_name(seed), sample_op(seed), sample_pairing(seed), seed, r.canary@),
            r.answer_path@ == "src/lib.rs"@,
            r.files@.len() == 2,
            r.files@[0].0@ == "Cargo.toml"@,
            r.files@[0].1@ == cargo_toml_text(),
            r.files@[1].0@ == "src/lib.rs"@,
            r.files@[1].1@ == skeleton_text(sample_name(seed), sample_op(seed), sample_pairing(seed), seed),
            r.hidden@.len() == 3,
            r.hidden@[0].0@ == "tests/alloc.rs"@,
            r.hidden@[0].1@ == alloc_test_text(sample_name(seed), alloc_call_text(sample_name(seed))),
            r.hidden@[1].0@ == "tests/behavior.rs"@,
            r.hidden@[1].1@ == behavior_text(sample_name(seed), sample_op(seed), sample_pairing(seed), seed),
            r.hidden@[2].0@ == "tests/differential.rs"@,
            r.hidden@[2].1@ == differential_text(sample_name(seed), sample_op(seed), sample_pairing(seed)),
            r.behavior_test@ == "behavior"@,
            r.hidden@[0].1@ == alloc_file(seed),
            r.hidden@[1].1@ == behavior_file(seed),
            r.hidden@[2].1@ == differential_file(seed),
            r.differential_test@ == "differential"@,
            r.alloc_test@ == "alloc"@,
            r.max_unsafe == Some(0u32),
            r.forbidden_paths@.len() == 0,
            !r.check_clippy,
            r.clippy_allow@.len() == 0,
            r.weights == (Weights { behavior: 35, constraint: 55, quality: 10 }),
    {
        let spec = sample(seed);
        let canary = mint_canary("dual-region", seed);
        let mut files: Vec<(String, String)> = Vec::new();
        files.push((string_of("Cargo.toml"), cargo_toml()));
        files.push((string_of("src/lib.rs"), skeleton_src(&spec, seed)));
        let mut hidden: Vec<(String, String)> = Vec::new();
        hidden.push((string_of("tests/alloc.rs"), alloc_test_src(&spec)));
        hidden.push((string_of("tests/behavior.rs"), behavior_test_src(&spec, seed)));
        hidden.push((string_of("tests/differential.rs"), differential_test_src(&spec)));
        let prompt = prompt(&spec, seed, canary.as_str());
        GeneratedTask {
            id: task_id("dual-region", seed),
            category: string_of("borrow-lifetimes"),
            prompt,
            canary,
            answer_path: string_of("src/lib.rs"),
            files,
            hidden,
            behavior_test: string_of("behavior"),
            differential_test: string_of("differential"),
            alloc_test: string_of("alloc"),
            max_unsafe: Some(0),
            forbidden_paths: Vec::new(),
            check_clippy: false,
            clippy_allow: Vec::new(),
            weights: Weights { behavior: 35, constraint: 55, quality: 10 },
        }
    }

    pub fn reference_code(&self, seed: u64) -> (r: String)
        ensures
            r@ == reference_text(sample_name(seed), sample_op(seed), sample_pairing(seed)),
    {
        reference_src(&sample(seed))
    }

    pub fn skeleton_code(&self, seed: u64) -> (r: String)
        ensures
            r@ == skeleton_text(sample_name(seed), sample_op(seed), sample_pairing(seed), seed),
    {
        skeleton_src(&sample(seed), seed)
    }

    /// Degenerate answers `(label, code)`: no work and a zero count; the right
    /// count and no work.
    pub fn trivial_baselines(&self, seed: u64) -> (r: Vec<(String, String)>)
        ensures
            r@.len() == 2,
            r@[0].0@ == "const-zero"@,
            r@[0].1@ == const_zero_text(sample_name(seed)),
            r@[1].0@ == "identity"@,
            r@[1].1@ == identity_text(sample_name(seed)),
    {
        let spec = sample(seed);
        let mut v: Vec<(String, String)> = Vec::new();
        v.push((string_of("const-zero"), const_zero(&spec)));
        v.push((string_of("identity"), identity(&spec)));
        v
    }

    /// The structural identity: the (op, pairing) pair.
    pub fn spec_signature(&self, seed: u64) -> (r: Vec<String>)
        ensures
            r@.len() == 2,
            r@[0]@ == "op:"@ + op_kind_text(sample_op(seed)),
            r@[1]@ == "pairing:"@ + pairing_kind_text(sample_pairing(seed)),
    {
        let spec = sample(seed);
        let op = match spec.op {
            Op::Swap => "swap",
            Op::SumDiff => "sum_diff",
            Op::SortPair => "sort_pair",
            Op::AddBoth => "add_both",
            Op::DiffBoth => "diff_both",
            Op::MaxBoth => "max_both",
        };
        let pairing = match spec.pairing {
            Pairing::Aligned => "aligned",
            Pairing::Mirror => "mirror",
        };
        let mut a = string_of("op:");
        push_str(&mut a, op);
        let mut b = string_of("pairing:");
        push_str(&mut b, pairing);
        let mut v: Vec<String> = Vec::new();
        v.push(a);
        v.push(b);
        v
    }
}

/// Under every (op, pairing) pair the canonical `[6, 4, 3, 1]` is changed and
/// counts two pairs: the `const-zero` and `identity` baselines fail the first
/// worked example of every instance.
pub proof fn law_canonical_changes_and_counts(o: Op, p: Pairing)
    ensures
        applied(o, p, canonical()) != canonical(),
        canonical().len() / 2 == 2,
{
    let c = canonical();
    let a = applied(o, p, c);
    assert(a[0] == op_pair(o, c[0] as int, c[partner(p, 4, 0)] as int).0 as i64);
    let j = partner(p, 4, 0);
    assert(j == 2 || j == 3);
    if o == Op::MaxBoth {
        assert(owner(p, 4, j) == 0);
        assert(a[j] == op_pair(o, c[0] as int, c[j] as int).1 as i64);
        assert(a[j] != c[j]);
    } else {
        assert(a[0] != c[0]);
    }
}

} // verus!
