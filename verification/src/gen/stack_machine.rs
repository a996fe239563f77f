//! The `stack-machine` family (category `pattern-matching`).
//!
//! The model implements `fn(program: &[Op]) -> Vec<i64>`: an exhaustive
//! `match` over a provided instruction enum driving a stack of `i64`. What
//! `Combine`, `MapTop` and `Reorder` do is chosen by the seed (five combines,
//! four maps, two reorders); an instruction with too few operands is a no-op.

use vstd::prelude::*;
use crate::rng::{Rng, draw};
use crate::digest::{mint_canary, canary_text};
use crate::text::{push_str, push_u64, push_i64, push_debug_list, push_doc_block, push_terminated, dec_nat,
    dec_int, debug_list, doc_block, terminated, string_views, string_of};
use crate::gen::{GeneratedTask, Weights, cargo_toml, cargo_toml_text, task_id, task_id_text,
    push_prompt_tail, prompt_tail};
use crate::gen::fold::{pow100, lemma_pow100_mono, lemma_pow100_8};

verus! {

/// How `Combine` merges the top two values.
#[derive(Clone, Copy, Debug, PartialEq, Eq, Structural)]
pub enum Combine {
    Add,
    Sub,
    Mul,
    Max,
    Min,
}

/// How `MapTop` rewrites the top value.
#[derive(Clone, Copy, Debug, PartialEq, Eq, Structural)]
pub enum TopMap {
    Neg,
    Abs,
    Double,
    Inc,
}

/// How `Reorder` permutes the top of the stack.
#[derive(Clone, Copy, Debug, PartialEq, Eq, Structural)]
pub enum Reorder {
    Swap,
    Rot3,
}

pub struct Spec {
    pub combine: Combine,
    pub map: TopMap,
    pub reorder: Reorder,
    pub fn_name: &'static str,
}

/// One instruction of the machine; its shape is fixed, only the meaning of
/// the last three varies by seed.
#[derive(Clone, Copy, Debug, PartialEq, Eq, Structural)]
pub enum Op {
    Push(i64),
    Combine,
    MapTop,
    Reorder,
}

// ---- semantics -------------------------------------------------------------

pub open spec fn in_i64(x: int) -> bool {
    i64::MIN <= x <= i64::MAX
}

pub open spec fn abs_int(x: int) -> int {
    if x < 0 { -x } else { x }
}

pub open spec fn combined(c: Combine, a: int, b: int) -> int {
    match c {
        Combine::Add => a + b,
        Combine::Sub => a - b,
        Combine::Mul => a * b,
        Combine::Max => if a >= b { a } else { b },
        Combine::Min => if a <= b { a } else { b },
    }
}

pub open spec fn top_mapped(m: TopMap, x: int) -> int {
    match m {
        TopMap::Neg => -x,
        TopMap::Abs => abs_int(x),
        TopMap::Double => x * 2,
        TopMap::Inc => x + 1,
    }
}

/// The stack after one instruction; an instruction with too few operands
/// leaves it unchanged.
pub open spec fn step(c: Combine, m: TopMap, r: Reorder, s: Seq<int>, op: Op) -> Seq<int> {
    let n = s.len();
    match op {
        Op::Push(v) => s.push(v as int),
        Op::Combine => if n >= 2 { s.take(n - 2).push(combined(c, s[n - 2], s[n - 1])) } else { s },
        Op::MapTop => if n >= 1 { s.update(n - 1, top_mapped(m, s[n - 1])) } else { s },
        Op::Reorder => match r {
            Reorder::Swap => if n >= 2 { s.update(n - 2, s[n - 1]).update(n - 1, s[n - 2]) } else { s },
            Reorder::Rot3 => if n >= 3 {
                s.update(n - 3, s[n - 1]).update(n - 2, s[n - 3]).update(n - 1, s[n - 2])
            } else {
                s
            },
        },
    }
}

/// The final stack, bottom first, after running `prog` on an empty stack.
pub open spec fn run(c: Combine, m: TopMap, r: Reorder, prog: Seq<Op>) -> Seq<int>
    decreases prog.len(),
{
    if prog.len() == 0 {
        Seq::empty()
    } else {
        step(c, m, r, run(c, m, r, prog.drop_last()), prog.last())
    }
}

/// The value instruction `op` computes on stack `s` fits in `i64`.
pub open spec fn op_fits(c: Combine, m: TopMap, s: Seq<int>, op: Op) -> bool {
    let n = s.len();
    match op {
        Op::Combine => n >= 2 ==> in_i64(combined(c, s[n - 2], s[n - 1])),
        Op::MapTop => n >= 1 ==> in_i64(top_mapped(m, s[n - 1])),
        _ => true,
    }
}

/// Instruction `i` of `prog` computes a value that fits in `i64`.
pub open spec fn step_fits(c: Combine, m: TopMap, r: Reorder, prog: Seq<Op>, i: int) -> bool {
    op_fits(c, m, run(c, m, r, prog.take(i)), prog[i])
}

/// No value the machine computes on `prog` leaves `i64`.
pub open spec fn program_fits(c: Combine, m: TopMap, r: Reorder, prog: Seq<Op>) -> bool {
    forall|i: int| 0 <= i < prog.len() ==> #[trigger] step_fits(c, m, r, prog, i)
}

/// A list of `i64` as integers.
pub open spec fn ints(v: Seq<i64>) -> Seq<int> {
    v.map_values(|x: i64| x as int)
}

/// The final stack as `i64` values.
pub open spec fn outputs(c: Combine, m: TopMap, r: Reorder, prog: Seq<Op>) -> Seq<i64> {
    run(c, m, r, prog).map_values(|v: int| v as i64)
}

pub fn combine_apply(c: Combine, a: i64, b: i64) -> (r: i64)
    requires
        in_i64(combined(c, a as int, b as int)),
    ensures
        r == combined(c, a as int, b as int),
{
    match c {
        Combine::Add => a + b,
        Combine::Sub => a - b,
        Combine::Mul => a * b,
        Combine::Max => if a >= b { a } else { b },
        Combine::Min => if a <= b { a } else { b },
    }
}

pub fn map_apply(m: TopMap, x: i64) -> (r: i64)
    requires
        in_i64(top_mapped(m, x as int)),
    ensures
        r == top_mapped(m, x as int),
{
    match m {
        TopMap::Neg => -x,
        TopMap::Abs => if x < 0 { -x } else { x },
        TopMap::Double => x * 2,
        TopMap::Inc => x + 1,
    }
}

/// One instruction on the stack, in place.
fn exec_op(spec: &Spec, stack: &mut Vec<i64>, op: Op)
    requires
        op_fits(spec.combine, spec.map, ints(old(stack)@), op),
    ensures
        ints(final(stack)@) == step(spec.combine, spec.map, spec.reorder, ints(old(stack)@), op),
{
    let ghost s = ints(stack@);
    let n = stack.len();
    match op {
        Op::Push(v) => {
            stack.push(v);
        },
        Op::Combine => {
            if n >= 2 {
                let b = stack[n - 1];
                let a = stack[n - 2];
                let v = combine_apply(spec.combine, a, b);
                stack.truncate(n - 2);
                stack.push(v);
            }
        },
        Op::MapTop => {
            if n >= 1 {
                let x = stack[n - 1];
                let y = map_apply(spec.map, x);
                stack.set(n - 1, y);
            }
        },
        Op::Reorder => {
            match spec.reorder {
                Reorder::Swap => {
                    if n >= 2 {
                        let top = stack[n - 1];
                        let below = stack[n - 2];
                        stack.set(n - 2, top);
                        stack.set(n - 1, below);
                    }
                },
                Reorder::Rot3 => {
                    if n >= 3 {
                        let x = stack[n - 3];
                        let y = stack[n - 2];
                        let z = stack[n - 1];
                        stack.set(n - 3, z);
                        stack.set(n - 2, x);
                        stack.set(n - 1, y);
                    }
                },
            }
        },
    }
    assert(ints(stack@) =~= step(spec.combine, spec.map, spec.reorder, s, op));
}

/// The answer: the final stack after running `program` from empty.
pub fn eval(spec: &Spec, program: &[Op]) -> (r: Vec<i64>)
    requires
        program_fits(spec.combine, spec.map, spec.reorder, program@),
    ensures
        ints(r@) == run(spec.combine, spec.map, spec.reorder, program@),
{
    let ghost c = spec.combine;
    let ghost m = spec.map;
    let ghost r = spec.reorder;
    let mut stack: Vec<i64> = Vec::new();
    let mut i: usize = 0;
    assert(program@.take(0) =~= Seq::<Op>::empty());
    assert(ints(stack@) =~= Seq::<int>::empty());
    while i < program.len()
        invariant
            i <= program.len(),
            c == spec.combine && m == spec.map && r == spec.reorder,
            program_fits(c, m, r, program@),
            ints(stack@) == run(c, m, r, program@.take(i as int)),
        decreases program.len() - i,
    {
        assert(program@.take(i + 1).drop_last() =~= program@.take(i as int));
        assert(program@.take(i + 1).last() == program@[i as int]);
        assert(step_fits(c, m, r, program@, i as int));
        exec_op(spec, &mut stack, program[i]);
        i = i + 1;
    }
    assert(program@.take(program.len() as int) =~= program@);
    stack
}


// ---- bounds ----------------------------------------------------------------

/// The product of `1 + |v|` over the stack. It bounds every value on the
/// stack, and one instruction multiplies it by at most ten when pushes are
/// small.
pub open spec fn pot(s: Seq<int>) -> int
    decreases s.len(),
{
    if s.len() == 0 { 1 } else { pot(s.drop_last()) * (1 + abs_int(s.last())) }
}

pub proof fn lemma_pot_ge1(s: Seq<int>)
    ensures
        pot(s) >= 1,
    decreases s.len(),
{
    if s.len() > 0 {
        lemma_pot_ge1(s.drop_last());
        let p = pot(s.drop_last());
        let q = 1 + abs_int(s.last());
        assert(p * q >= 1) by (nonlinear_arith)
            requires p >= 1, q >= 1;
    }
}

pub proof fn lemma_pot_elem(s: Seq<int>, i: int)
    requires
        0 <= i < s.len(),
    ensures
        1 + abs_int(s[i]) <= pot(s),
    decreases s.len(),
{
    lemma_pot_ge1(s.drop_last());
    let p = pot(s.drop_last());
    let q = 1 + abs_int(s.last());
    if i == s.len() - 1 {
        assert(q <= p * q) by (nonlinear_arith)
            requires p >= 1, q >= 1;
    } else {
        lemma_pot_elem(s.drop_last(), i);
        assert(s.drop_last()[i] == s[i]);
        assert(p <= p * q) by (nonlinear_arith)
            requires p >= 1, q >= 1;
    }
}

pub proof fn lemma_abs_mul(a: int, b: int)
    ensures
        abs_int(a * b) == abs_int(a) * abs_int(b),
{
    if a >= 0 && b >= 0 {
        assert(a * b >= 0) by (nonlinear_arith)
            requires a >= 0, b >= 0;
    } else if a < 0 && b >= 0 {
        assert(a * b <= 0 && -(a * b) == (-a) * b) by (nonlinear_arith)
            requires a < 0, b >= 0;
    } else if a >= 0 && b < 0 {
        assert(a * b <= 0 && -(a * b) == a * (-b)) by (nonlinear_arith)
            requires a >= 0, b < 0;
    } else {
        assert(a * b > 0 && a * b == (-a) * (-b)) by (nonlinear_arith)
            requires a < 0, b < 0;
    }
}

/// `1 + |combine(a, b)| <= (1 + |a|) * (1 + |b|)` for every combine.
pub proof fn lemma_combined_bound(c: Combine, a: int, b: int)
    ensures
        1 + abs_int(combined(c, a, b)) <= (1 + abs_int(a)) * (1 + abs_int(b)),
{
    let x = abs_int(a);
    let y = abs_int(b);
    assert((1 + x) * (1 + y) == 1 + x + y + x * y && x * y >= 0) by (nonlinear_arith)
        requires x >= 0, y >= 0;
    lemma_abs_mul(a, b);
}

/// One instruction multiplies the potential by at most ten.
pub proof fn lemma_pot_step(c: Combine, m: TopMap, r: Reorder, s: Seq<int>, op: Op)
    requires
        small_op(op),
    ensures
        pot(step(c, m, r, s, op)) <= 10 * pot(s),
{
    let n = s.len();
    let s1 = step(c, m, r, s, op);
    lemma_pot_ge1(s);
    match op {
        Op::Push(v) => {
            assert(s1.drop_last() =~= s);
            let p = pot(s);
            let q = 1 + abs_int(v as int);
            assert(p * q <= 10 * p) by (nonlinear_arith)
                requires p >= 1, 1 <= q <= 10;
        },
        Op::Combine => {
            if n >= 2 {
                let t = s.take(n - 2);
                let a = s[n - 2];
                let b = s[n - 1];
                assert(s1.drop_last() =~= t);
                assert(s.drop_last().drop_last() =~= t);
                lemma_pot_ge1(t);
                lemma_combined_bound(c, a, b);
                let pt = pot(t);
                let qa = 1 + abs_int(a);
                let qb = 1 + abs_int(b);
                let qc = 1 + abs_int(combined(c, a, b));
                assert(s.drop_last().last() == a);
                assert(pot(s.drop_last()) == pt * qa);
                assert(pot(s) == pt * qa * qb);
                assert(pot(s1) == pt * qc);
                assert(pt * qc <= pt * qa * qb) by (nonlinear_arith)
                    requires pt >= 1, qc <= qa * qb;
            }
        },
        Op::MapTop => {
            if n >= 1 {
                assert(s1.drop_last() =~= s.drop_last());
                lemma_pot_ge1(s.drop_last());
                let p = pot(s.drop_last());
                let qx = 1 + abs_int(s[n - 1]);
                let qy = 1 + abs_int(top_mapped(m, s[n - 1]));
                assert(qy <= 2 * qx);
                assert(p * qy <= 2 * (p * qx)) by (nonlinear_arith)
                    requires p >= 1, qy <= 2 * qx;
            }
        },
        Op::Reorder => {
            match r {
                Reorder::Swap => {
                    if n >= 2 {
                        let t = s.take(n - 2);
                        assert(s1.drop_last().drop_last() =~= t);
                        assert(s.drop_last().drop_last() =~= t);
                        let pt = pot(t);
                        let qa = 1 + abs_int(s[n - 2]);
                        let qb = 1 + abs_int(s[n - 1]);
                        assert(s1.drop_last().last() == s[n - 1]);
                        assert(pot(s1.drop_last()) == pt * qb);
                        assert(pot(s1) == pt * qb * qa);
                        assert(s.drop_last().last() == s[n - 2]);
                        assert(pot(s.drop_last()) == pt * qa);
                        assert(pot(s) == pt * qa * qb);
                        assert(pt * qb * qa == pt * qa * qb) by (nonlinear_arith);
                    }
                },
                Reorder::Rot3 => {
                    if n >= 3 {
                        let t = s.take(n - 3);
                        assert(s1.drop_last().drop_last().drop_last() =~= t);
                        assert(s.drop_last().drop_last().drop_last() =~= t);
                        let pt = pot(t);
                        let qx = 1 + abs_int(s[n - 3]);
                        let qy = 1 + abs_int(s[n - 2]);
                        let qz = 1 + abs_int(s[n - 1]);
                        assert(s1.drop_last().drop_last().last() == s[n - 1]);
                        assert(s1.drop_last().last() == s[n - 3]);
                        assert(pot(s1.drop_last().drop_last()) == pt * qz);
                        assert(pot(s1.drop_last()) == pt * qz * qx);
                        assert(pot(s1) == pt * qz * qx * qy);
                        assert(s.drop_last().drop_last().last() == s[n - 3]);
                        assert(s.drop_last().last() == s[n - 2]);
                        assert(pot(s.drop_last().drop_last()) == pt * qx);
                        assert(pot(s.drop_last()) == pt * qx * qy);
                        assert(pot(s) == pt * qx * qy * qz);
                        assert(pt * qz * qx * qy == pt * qx * qy * qz) by (nonlinear_arith);
                    }
                },
            }
        },
    }
}

/// A push of a value in `-9..=9`, or any other instruction.
pub open spec fn small_op(op: Op) -> bool {
    match op {
        Op::Push(v) => -9 <= v <= 9,
        _ => true,
    }
}

pub open spec fn small_program(prog: Seq<Op>) -> bool {
    forall|i: int| 0 <= i < prog.len() ==> small_op(#[trigger] prog[i])
}

pub proof fn lemma_run_pot(c: Combine, m: TopMap, r: Reorder, prog: Seq<Op>)
    requires
        small_program(prog),
    ensures
        pot(run(c, m, r, prog)) <= pow100(prog.len()),
    decreases prog.len(),
{
    if prog.len() > 0 {
        let p = prog.drop_last();
        assert(small_program(p)) by {
            assert forall|i: int| 0 <= i < p.len() implies small_op(#[trigger] p[i]) by {
                assert(p[i] == prog[i]);
            }
        }
        lemma_run_pot(c, m, r, p);
        assert(small_op(prog[prog.len() - 1]));
        lemma_pot_step(c, m, r, run(c, m, r, p), prog.last());
        assert(run(c, m, r, prog) == step(c, m, r, run(c, m, r, p), prog.last()));
        assert(p.len() == (prog.len() - 1) as nat);
        assert(pow100(prog.len()) == 100 * pow100(p.len()));
        lemma_pow100_mono(0, p.len());
    }
}

/// Small programs of at most eight instructions never leave `i64`.
pub proof fn lemma_small_program_fits(c: Combine, m: TopMap, r: Reorder, prog: Seq<Op>)
    requires
        small_program(prog),
        prog.len() <= 8,
    ensures
        program_fits(c, m, r, prog),
{
    assert forall|i: int| 0 <= i < prog.len() implies #[trigger] step_fits(c, m, r, prog, i) by {
        let pre = prog.take(i + 1);
        assert(small_program(pre)) by {
            assert forall|j: int| 0 <= j < pre.len() implies small_op(#[trigger] pre[j]) by {
                assert(pre[j] == prog[j]);
            }
        }
        assert(pre.drop_last() =~= prog.take(i));
        assert(pre.last() == prog[i]);
        let s = run(c, m, r, prog.take(i));
        let s1 = run(c, m, r, pre);
        assert(s1 == step(c, m, r, s, prog[i]));
        lemma_run_pot(c, m, r, pre);
        lemma_pow100_mono((i + 1) as nat, 8);
        lemma_pow100_8();
        let n = s.len();
        match prog[i] {
            Op::Combine => {
                if n >= 2 {
                    lemma_pot_elem(s1, n - 2);
                }
            },
            Op::MapTop => {
                if n >= 1 {
                    lemma_pot_elem(s1, n - 1);
                }
            },
            _ => {},
        }
    }
}

// ---- sampling --------------------------------------------------------------

pub open spec fn combine_of(i: u64) -> Combine {
    if i == 0 { Combine::Add }
    else if i == 1 { Combine::Sub }
    else if i == 2 { Combine::Mul }
    else if i == 3 { Combine::Max }
    else { Combine::Min }
}

pub open spec fn map_of(i: u64) -> TopMap {
    if i == 0 { TopMap::Neg }
    else if i == 1 { TopMap::Abs }
    else if i == 2 { TopMap::Double }
    else { TopMap::Inc }
}

pub open spec fn sample_combine(seed: u64) -> Combine {
    combine_of(draw(seed, 0) % 5)
}

pub open spec fn sample_map(seed: u64) -> TopMap {
    map_of(draw(seed, 1) % 4)
}

pub open spec fn sample_reorder(seed: u64) -> Reorder {
    if draw(seed, 2) % 2 == 0 { Reorder::Swap } else { Reorder::Rot3 }
}

pub open spec fn name_text(i: u64) -> Seq<char> {
    if i == 0 { "run"@ }
    else if i == 1 { "execute"@ }
    else if i == 2 { "evaluate"@ }
    else if i == 3 { "interpret"@ }
    else if i == 4 { "fold_ops"@ }
    else { "step_program"@ }
}

pub open spec fn sample_name(seed: u64) -> Seq<char> {
    name_text(draw(seed, 3) % 6)
}

fn name_at(i: u64) -> (r: &'static str)
    requires
        i < 6,
    ensures
        r@ == name_text(i),
{
    if i == 0 { "run" }
    else if i == 1 { "execute" }
    else if i == 2 { "evaluate" }
    else if i == 3 { "interpret" }
    else if i == 4 { "fold_ops" }
    else { "step_program" }
}

/// The spec for `seed`: every choice is a function of the seed's stream.
pub fn sample(seed: u64) -> (r: Spec)
    ensures
        r.combine == sample_combine(seed),
        r.map == sample_map(seed),
        r.reorder == sample_reorder(seed),
        r.fn_name@ == sample_name(seed),
{
    let mut rng = Rng::new(seed);
    let ck = rng.below(5);
    let combine = if ck == 0 {
        Combine::Add
    } else if ck == 1 {
        Combine::Sub
    } else if ck == 2 {
        Combine::Mul
    } else if ck == 3 {
        Combine::Max
    } else {
        Combine::Min
    };
    let mk = rng.below(4);
    let map = if mk == 0 {
        TopMap::Neg
    } else if mk == 1 {
        TopMap::Abs
    } else if mk == 2 {
        TopMap::Double
    } else {
        TopMap::Inc
    };
    let reorder = if rng.below(2) == 0 { Reorder::Swap } else { Reorder::Rot3 };
    let fn_name = name_at(rng.below(6));
    Spec { combine, map, reorder, fn_name }
}


// ---- rendering programs ----------------------------------------------------

/// One instruction as source (`Op::Push(3)`) or as prose (`Push(3)`).
pub open spec fn op_text(op: Op, qualified: bool) -> Seq<char> {
    (if qualified { "Op::"@ } else { Seq::<char>::empty() }) + match op {
        Op::Push(v) => "Push("@ + dec_int(v as int) + ")"@,
        Op::Combine => "Combine"@,
        Op::MapTop => "Map"@,
        Op::Reorder => "Reorder"@,
    }
}

/// The instructions joined by `, `.
pub open spec fn ops_joined(prog: Seq<Op>, qualified: bool) -> Seq<char>
    decreases prog.len(),
{
    if prog.len() == 0 {
        Seq::empty()
    } else if prog.len() == 1 {
        op_text(prog[0], qualified)
    } else {
        ops_joined(prog.drop_last(), qualified) + ", "@ + op_text(prog.last(), qualified)
    }
}

/// A program as a `vec![..]` expression.
pub open spec fn render_program_text(prog: Seq<Op>) -> Seq<char> {
    "vec!["@ + ops_joined(prog, true) + "]"@
}

/// A program in the short form of the worked examples.
pub open spec fn prose_program_text(prog: Seq<Op>) -> Seq<char> {
    "["@ + ops_joined(prog, false) + "]"@
}

fn push_op(s: &mut String, op: Op, qualified: bool)
    ensures
        final(s)@ == old(s)@ + op_text(op, qualified),
{
    if qualified {
        push_str(s, "Op::");
    }
    match op {
        Op::Push(v) => {
            push_str(s, "Push(");
            push_i64(s, v);
            push_str(s, ")");
        },
        Op::Combine => push_str(s, "Combine"),
        Op::MapTop => push_str(s, "Map"),
        Op::Reorder => push_str(s, "Reorder"),
    }
}

fn push_ops(s: &mut String, prog: &[Op], qualified: bool)
    ensures
        final(s)@ == old(s)@ + ops_joined(prog@, qualified),
{
    let ghost start = s@;
    let mut i: usize = 0;
    assert(prog@.take(0) =~= Seq::<Op>::empty());
    while i < prog.len()
        invariant
            i <= prog.len(),
            s@ == start + ops_joined(prog@.take(i as int), qualified),
        decreases prog.len() - i,
    {
        if i > 0 {
            push_str(s, ", ");
        }
        push_op(s, prog[i], qualified);
        assert(prog@.take(i + 1).drop_last() =~= prog@.take(i as int));
        i = i + 1;
    }
    assert(prog@.take(prog.len() as int) =~= prog@);
}

pub fn render_program(prog: &[Op]) -> (r: String)
    ensures
        r@ == render_program_text(prog@),
{
    let mut s = string_of("vec![");
    push_ops(&mut s, prog, true);
    push_str(&mut s, "]");
    s
}

pub fn prose_program(prog: &[Op]) -> (r: String)
    ensures
        r@ == prose_program_text(prog@),
{
    let mut s = string_of("[");
    push_ops(&mut s, prog, false);
    push_str(&mut s, "]");
    s
}

// ---- random programs -------------------------------------------------------

/// The instruction whose draws start at `k`: a push (three draws: kind,
/// magnitude `1..=9`, sign) half the time, else one of the other three.
pub open spec fn op_at(s: u64, k: nat) -> Op {
    let kind = draw(s, k) % 6;
    if kind <= 2 {
        let mag = 1 + draw(s, k + 1) % 9;
        Op::Push(if draw(s, k + 2) % 2 == 0 { mag as i64 } else { (-(mag as int)) as i64 })
    } else if kind == 3 {
        Op::Combine
    } else if kind == 4 {
        Op::MapTop
    } else {
        Op::Reorder
    }
}

pub open spec fn op_width(s: u64, k: nat) -> nat {
    if draw(s, k) % 6 <= 2 { 3 } else { 1 }
}

/// `n` instructions whose draws start at `k`.
pub open spec fn ops_at(s: u64, k: nat, n: nat) -> Seq<Op>
    decreases n,
{
    if n == 0 { Seq::empty() } else { seq![op_at(s, k)] + ops_at(s, k + op_width(s, k), (n - 1) as nat) }
}

/// Where the draws of `ops_at(s, k, n)` end.
pub open spec fn ops_end(s: u64, k: nat, n: nat) -> nat
    decreases n,
{
    if n == 0 { k } else { ops_end(s, k + op_width(s, k), (n - 1) as nat) }
}

pub open spec fn program_len(s: u64, k: nat) -> nat {
    (3 + draw(s, k) % 4) as nat
}

/// The random program whose draws start at `k`: a length `3..=6`, then that
/// many instructions.
pub open spec fn random_program(s: u64, k: nat) -> Seq<Op> {
    ops_at(s, k + 1, program_len(s, k))
}

pub open spec fn program_next(s: u64, k: nat) -> nat {
    ops_end(s, k + 1, program_len(s, k))
}

fn random_op(rng: &mut Rng) -> (r: Op)
    ensures
        final(rng).seed() == old(rng).seed(),
        r == op_at(old(rng).seed(), old(rng).count()),
        final(rng).count() == old(rng).count() + op_width(old(rng).seed(), old(rng).count()),
{
    let kind = rng.below(6);
    if kind <= 2 {
        let mag = 1 + rng.below(9) as i64;
        if rng.below(2) == 0 { Op::Push(mag) } else { Op::Push(-mag) }
    } else if kind == 3 {
        Op::Combine
    } else if kind == 4 {
        Op::MapTop
    } else {
        Op::Reorder
    }
}

pub proof fn lemma_ops_small(s: u64, k: nat, n: nat)
    ensures
        ops_at(s, k, n).len() == n,
        small_program(ops_at(s, k, n)),
    decreases n,
{
    if n > 0 {
        let rest = ops_at(s, k + op_width(s, k), (n - 1) as nat);
        lemma_ops_small(s, k + op_width(s, k), (n - 1) as nat);
        let all = ops_at(s, k, n);
        assert forall|i: int| 0 <= i < all.len() implies small_op(#[trigger] all[i]) by {
            if i > 0 {
                assert(all[i] == rest[i - 1]);
            } else {
                let mag = 1 + draw(s, k + 1) % 9;
                assert(1 <= mag <= 9);
            }
        }
    }
}

fn random_program_vec(rng: &mut Rng) -> (r: Vec<Op>)
    ensures
        final(rng).seed() == old(rng).seed(),
        r@ == random_program(old(rng).seed(), old(rng).count()),
        final(rng).count() == program_next(old(rng).seed(), old(rng).count()),
{
    let ghost s = rng.seed();
    let ghost k = rng.count();
    let len = 3 + rng.below(4) as usize;
    let mut v: Vec<Op> = Vec::new();
    let mut j: usize = 0;
    assert(v@ + ops_at(s, rng.count(), (len - j) as nat) =~= random_program(s, k));
    while j < len
        invariant
            j <= len,
            len == program_len(s, k),
            rng.seed() == s,
            v@ + ops_at(s, rng.count(), (len - j) as nat) == random_program(s, k),
            ops_end(s, rng.count(), (len - j) as nat) == program_next(s, k),
        decreases len - j,
    {
        let ghost before = v@;
        let ghost cur = rng.count();
        let op = random_op(rng);
        v.push(op);
        assert(ops_at(s, cur, (len - j) as nat) == seq![op] + ops_at(s, rng.count(), (len - j - 1) as nat));
        assert(v@ + ops_at(s, rng.count(), (len - j - 1) as nat) =~= before + ops_at(s, cur, (len - j) as nat));
        j = j + 1;
    }
    assert(v@ + ops_at(s, rng.count(), 0) =~= v@);
    v
}

// ---- worked examples -------------------------------------------------------

/// Two pushes, a combine, a map: under every seed's meanings this leaves one
/// value, so neither an empty stack nor the echoed pushes match it.
pub open spec fn canonical_program(seed: u64) -> Seq<Op> {
    seq![Op::Push((2 + seed % 5) as i64), Op::Push((3 + seed % 4) as i64), Op::Combine, Op::MapTop]
}

pub open spec fn example_seed(seed: u64) -> u64 {
    seed ^ 0x57AC_1234_0000_0001u64
}

/// The example programs: the canonical one, then three random ones.
pub open spec fn example_programs(seed: u64) -> Seq<Seq<Op>> {
    let s = example_seed(seed);
    let k1 = program_next(s, 0);
    let k2 = program_next(s, k1);
    seq![canonical_program(seed), random_program(s, 0), random_program(s, k1), random_program(s, k2)]
}

pub open spec fn example_line(prog: Seq<Op>, out: Seq<i64>) -> Seq<char> {
    "  "@ + prose_program_text(prog) + "  ->  "@ + debug_list(out)
}

pub open spec fn example_lines(c: Combine, m: TopMap, r: Reorder, seed: u64) -> Seq<Seq<char>> {
    example_programs(seed).map_values(|p: Seq<Op>| example_line(p, outputs(c, m, r, p)))
}

/// One worked example: (program, final stack).
pub type ExampleCase = (Vec<Op>, Vec<i64>);

pub open spec fn example_cases(c: Combine, m: TopMap, r: Reorder, seed: u64) -> Seq<(Seq<Op>, Seq<i64>)> {
    example_programs(seed).map_values(|p: Seq<Op>| (p, outputs(c, m, r, p)))
}

pub open spec fn case_view(c: ExampleCase) -> (Seq<Op>, Seq<i64>) {
    (c.0@, c.1@)
}

fn example_program_vecs(seed: u64) -> (r: Vec<Vec<Op>>)
    ensures
        r@.len() == 4,
        forall|i: int| 0 <= i < 4 ==> (#[trigger] r@[i])@ == example_programs(seed)[i],
        forall|i: int| 0 <= i < 4 ==> small_program(#[trigger] r@[i]@) && r@[i]@.len() <= 8,
{
    let mut rng = Rng::new(seed ^ 0x57AC_1234_0000_0001);
    let a = 2 + (seed % 5) as i64;
    let b = 3 + (seed % 4) as i64;
    let c: Vec<Op> = vec![Op::Push(a), Op::Push(b), Op::Combine, Op::MapTop];
    assert(c@ =~= canonical_program(seed));
    let mut progs: Vec<Vec<Op>> = Vec::new();
    progs.push(c);
    let ghost s = example_seed(seed);
    let p1 = random_program_vec(&mut rng);
    let p2 = random_program_vec(&mut rng);
    let p3 = random_program_vec(&mut rng);
    proof {
        lemma_ops_small(s, 1, program_len(s, 0));
        lemma_ops_small(s, program_next(s, 0) + 1, program_len(s, program_next(s, 0)));
        let k2 = program_next(s, program_next(s, 0));
        lemma_ops_small(s, k2 + 1, program_len(s, k2));
    }
    progs.push(p1);
    progs.push(p2);
    progs.push(p3);
    progs
}

fn example_line_string(prog: &Vec<Op>, out: &Vec<i64>) -> (r: String)
    ensures
        r@ == example_line(prog@, out@),
{
    let mut s = string_of("  ");
    let p = prose_program(prog.as_slice());
    push_str(&mut s, p.as_str());
    push_str(&mut s, "  ->  ");
    push_debug_list(&mut s, out.as_slice());
    s
}

/// The worked examples as lines (without newlines) and cases.
pub fn example_data(spec: &Spec, seed: u64) -> (r: (Vec<String>, Vec<ExampleCase>))
    ensures
        string_views(r.0@) == example_lines(spec.combine, spec.map, spec.reorder, seed),
        r.1@.len() == 4,
        forall|i: int| 0 <= i < 4 ==> case_view(#[trigger] r.1@[i]) == example_cases(spec.combine, spec.map, spec.reorder, seed)[i],
{
    let progs = example_program_vecs(seed);
    let ghost c = spec.combine;
    let ghost m = spec.map;
    let ghost r = spec.reorder;
    let mut lines: Vec<String> = Vec::new();
    let mut cases: Vec<ExampleCase> = Vec::new();
    let mut j: usize = 0;
    while j < progs.len()
        invariant
            j <= progs.len(),
            progs@.len() == 4,
            c == spec.combine && m == spec.map && r == spec.reorder,
            forall|i: int| 0 <= i < 4 ==> (#[trigger] progs@[i])@ == example_programs(seed)[i],
            forall|i: int| 0 <= i < 4 ==> small_program(#[trigger] progs@[i]@) && progs@[i]@.len() <= 8,
            lines@.len() == j,
            cases@.len() == j,
            forall|q: int| 0 <= q < j ==> #[trigger] lines@[q]@ == example_lines(c, m, r, seed)[q],
            forall|q: int| 0 <= q < j ==> case_view(#[trigger] cases@[q]) == example_cases(c, m, r, seed)[q],
        decreases progs.len() - j,
    {
        let prog = progs[j].clone();
        proof {
            lemma_small_program_fits(c, m, r, prog@);
        }
        let out = eval(spec, prog.as_slice());
        assert(out@ =~= outputs(c, m, r, prog@)) by {
            assert forall|q: int| 0 <= q < out@.len() implies #[trigger] out@[q] == outputs(c, m, r, prog@)[q] by {
                assert(ints(out@)[q] == out@[q] as int);
            }
        }
        lines.push(example_line_string(&prog, &out));
        cases.push((prog, out));
        j = j + 1;
    }
    assert(string_views(lines@) =~= example_lines(c, m, r, seed));
    (lines, cases)
}

/// Worked examples: the prose block and the cases.
pub fn worked_examples(spec: &Spec, seed: u64) -> (r: (String, Vec<ExampleCase>))
    ensures
        r.0@ == terminated(example_lines(spec.combine, spec.map, spec.reorder, seed)),
        r.1@.len() == 4,
        forall|i: int| 0 <= i < 4 ==> case_view(#[trigger] r.1@[i]) == example_cases(spec.combine, spec.map, spec.reorder, seed)[i],
{
    let (lines, cases) = example_data(spec, seed);
    let mut prose = String::new();
    push_terminated(&mut prose, &lines);
    (prose, cases)
}


// ---- emitted-source fragments ----------------------------------------------

pub open spec fn combine_expr_text(c: Combine) -> Seq<char> {
    match c {
        Combine::Add => "a + b"@,
        Combine::Sub => "a - b"@,
        Combine::Mul => "a * b"@,
        Combine::Max => "a.max(b)"@,
        Combine::Min => "a.min(b)"@,
    }
}

pub fn combine_expr(c: Combine) -> (r: &'static str)
    ensures
        r@ == combine_expr_text(c),
{
    match c {
        Combine::Add => "a + b",
        Combine::Sub => "a - b",
        Combine::Mul => "a * b",
        Combine::Max => "a.max(b)",
        Combine::Min => "a.min(b)",
    }
}

pub open spec fn map_expr_text(m: TopMap) -> Seq<char> {
    match m {
        TopMap::Neg => "-*x"@,
        TopMap::Abs => "(*x).abs()"@,
        TopMap::Double => "*x * 2"@,
        TopMap::Inc => "*x + 1"@,
    }
}

pub fn map_expr(m: TopMap) -> (r: &'static str)
    ensures
        r@ == map_expr_text(m),
{
    match m {
        TopMap::Neg => "-*x",
        TopMap::Abs => "(*x).abs()",
        TopMap::Double => "*x * 2",
        TopMap::Inc => "*x + 1",
    }
}

pub open spec fn reorder_body_text(r: Reorder) -> Seq<char> {
    match r {
        Reorder::Swap => "if n >= 2 { stack.swap(n - 1, n - 2); }"@,
        Reorder::Rot3 => "if n >= 3 { stack[n - 3..].rotate_right(1); }"@,
    }
}

pub fn reorder_body(r: Reorder) -> (s: &'static str)
    ensures
        s@ == reorder_body_text(r),
{
    match r {
        Reorder::Swap => "if n >= 2 { stack.swap(n - 1, n - 2); }",
        Reorder::Rot3 => "if n >= 3 { stack[n - 3..].rotate_right(1); }",
    }
}

pub open spec fn combine_prose_text(c: Combine) -> Seq<char> {
    match c {
        Combine::Add => "their sum `a + b`"@,
        Combine::Sub => "their difference `a - b`"@,
        Combine::Mul => "their product `a * b`"@,
        Combine::Max => "the larger of the two"@,
        Combine::Min => "the smaller of the two"@,
    }
}

pub fn combine_prose(c: Combine) -> (r: &'static str)
    ensures
        r@ == combine_prose_text(c),
{
    match c {
        Combine::Add => "their sum `a + b`",
        Combine::Sub => "their difference `a - b`",
        Combine::Mul => "their product `a * b`",
        Combine::Max => "the larger of the two",
        Combine::Min => "the smaller of the two",
    }
}

pub open spec fn map_prose_text(m: TopMap) -> Seq<char> {
    match m {
        TopMap::Neg => "its negation"@,
        TopMap::Abs => "its absolute value"@,
        TopMap::Double => "twice its value"@,
        TopMap::Inc => "one more than its value"@,
    }
}

pub fn map_prose(m: TopMap) -> (r: &'static str)
    ensures
        r@ == map_prose_text(m),
{
    match m {
        TopMap::Neg => "its negation",
        TopMap::Abs => "its absolute value",
        TopMap::Double => "twice its value",
        TopMap::Inc => "one more than its value",
    }
}

pub open spec fn reorder_prose_text(r: Reorder) -> Seq<char> {
    match r {
        Reorder::Swap => "swap the top two elements"@,
        Reorder::Rot3 => "rotate the top three elements so the top element moves down to third position"@,
    }
}

pub fn reorder_prose(r: Reorder) -> (s: &'static str)
    ensures
        s@ == reorder_prose_text(r),
{
    match r {
        Reorder::Swap => "swap the top two elements",
        Reorder::Rot3 => "rotate the top three elements so the top element moves down to third position",
    }
}

/// The provided instruction enum, as the model sees it.
pub open spec fn enum_text() -> Seq<char> {
    "#[derive(Debug, Clone, Copy, PartialEq)]\npub enum Op {\n    Push(i64),\n    Combine,\n    Map,\n    Reorder,\n}\n"@
}

pub fn enum_src() -> (r: &'static str)
    ensures
        r@ == enum_text(),
{
    "#[derive(Debug, Clone, Copy, PartialEq)]\npub enum Op {\n    Push(i64),\n    Combine,\n    Map,\n    Reorder,\n}\n"
}

/// The reference function (without the enum), headed by `head`.
pub open spec fn reference_body_text(head: Seq<char>, c: Combine, m: TopMap, r: Reorder) -> Seq<char> {
    head + "(program: &[Op]) -> Vec<i64> {\n    let mut stack: Vec<i64> = Vec::new();\n    for op in program {\n        match op {\n            Op::Push(n) => stack.push(*n),\n            Op::Combine => {\n                if stack.len() >= 2 {\n                    let b = stack.pop().unwrap();\n                    let a = stack.pop().unwrap();\n                    stack.push("@
        + combine_expr_text(c)
        + ");\n                }\n            }\n            Op::Map => {\n                if let Some(x) = stack.last_mut() {\n                    *x = "@
        + map_expr_text(m)
        + ";\n                }\n            }\n            Op::Reorder => {\n                let n = stack.len();\n                "@
        + reorder_body_text(r) + "\n            }\n        }\n    }\n    stack\n}\n"@
}

fn reference_body(spec: &Spec, head: &str) -> (r: String)
    ensures
        r@ == reference_body_text(head@, spec.combine, spec.map, spec.reorder),
{
    let mut s = string_of(head);
    push_str(&mut s, "(program: &[Op]) -> Vec<i64> {\n    let mut stack: Vec<i64> = Vec::new();\n    for op in program {\n        match op {\n            Op::Push(n) => stack.push(*n),\n            Op::Combine => {\n                if stack.len() >= 2 {\n                    let b = stack.pop().unwrap();\n                    let a = stack.pop().unwrap();\n                    stack.push(");
    push_str(&mut s, combine_expr(spec.combine));
    push_str(&mut s, ");\n                }\n            }\n            Op::Map => {\n                if let Some(x) = stack.last_mut() {\n                    *x = ");
    push_str(&mut s, map_expr(spec.map));
    push_str(&mut s, ";\n                }\n            }\n            Op::Reorder => {\n                let n = stack.len();\n                ");
    push_str(&mut s, reorder_body(spec.reorder));
    push_str(&mut s, "\n            }\n        }\n    }\n    stack\n}\n");
    s
}

/// The reference solution: the enum, then the function.
pub open spec fn reference_text(name: Seq<char>, c: Combine, m: TopMap, r: Reorder) -> Seq<char> {
    enum_text() + "\n"@ + reference_body_text("pub fn "@ + name, c, m, r)
}

pub fn reference_src(spec: &Spec) -> (r: String)
    ensures
        r@ == reference_text(spec.fn_name@, spec.combine, spec.map, spec.reorder),
{
    let mut s = string_of(enum_src());
    push_str(&mut s, "\n");
    let mut head = string_of("pub fn ");
    push_str(&mut head, spec.fn_name);
    let body = reference_body(spec, head.as_str());
    push_str(&mut s, body.as_str());
    s
}

// ---- the files of an instance ----------------------------------------------

pub open spec fn skeleton_text(name: Seq<char>, c: Combine, m: TopMap, r: Reorder, seed: u64) -> Seq<char> {
    "//! Implement `"@ + name + "` below.\n//!\n"@ + doc_block(example_lines(c, m, r, seed)) + "\n"@ + enum_text()
        + "\npub fn "@ + name + "(program: &[Op]) -> Vec<i64> {\n    todo!()\n}\n"@
}

pub fn skeleton_src(spec: &Spec, seed: u64) -> (r: String)
    ensures
        r@ == skeleton_text(spec.fn_name@, spec.combine, spec.map, spec.reorder, seed),
{
    let (lines, _) = example_data(spec, seed);
    let mut s = string_of("//! Implement `");
    push_str(&mut s, spec.fn_name);
    push_str(&mut s, "` below.\n//!\n");
    push_doc_block(&mut s, &lines);
    push_str(&mut s, "\n");
    push_str(&mut s, enum_src());
    push_str(&mut s, "\npub fn ");
    push_str(&mut s, spec.fn_name);
    push_str(&mut s, "(program: &[Op]) -> Vec<i64> {\n    todo!()\n}\n");
    s
}

pub open spec fn prompt_text(name: Seq<char>, c: Combine, m: TopMap, r: Reorder, seed: u64, canary: Seq<char>) -> Seq<char> {
    "Implement the function `"@ + name
        + "` in `src/lib.rs`. The `Op` enum is already provided; keep it.\n\nExecute the `program` against an initially-empty stack of `i64`, then return the final stack (bottom first). Process each `Op` in order:\n- `Push(n)`: push `n` onto the stack.\n- `Combine`: pop the top two values (`b` on top, then `a`) and push "@
        + combine_prose_text(c) + ".\n- `Map`: replace the top element with "@ + map_prose_text(m) + ".\n- `Reorder`: "@
        + reorder_prose_text(r)
        + ".\n\nIf the stack has too few elements for an operation, that operation is a no-op (leave the stack unchanged).\n\nConstraints:\n- Do not use `unsafe`.\n\nSignature:\n```rust\npub fn "@
        + name + "(program: &[Op]) -> Vec<i64>\n```\n\nExamples:\n"@ + terminated(example_lines(c, m, r, seed)) + "\n"@
        + prompt_tail(canary)
}

pub fn prompt(spec: &Spec, seed: u64, canary: &str) -> (r: String)
    ensures
        r@ == prompt_text(spec.fn_name@, spec.combine, spec.map, spec.reorder, seed, canary@),
{
    let (examples, _) = worked_examples(spec, seed);
    let mut s = string_of("Implement the function `");
    push_str(&mut s, spec.fn_name);
    push_str(&mut s, "` in `src/lib.rs`. The `Op` enum is already provided; keep it.\n\nExecute the `program` against an initially-empty stack of `i64`, then return the final stack (bottom first). Process each `Op` in order:\n- `Push(n)`: push `n` onto the stack.\n- `Combine`: pop the top two values (`b` on top, then `a`) and push ");
    push_str(&mut s, combine_prose(spec.combine));
    push_str(&mut s, ".\n- `Map`: replace the top element with ");
    push_str(&mut s, map_prose(spec.map));
    push_str(&mut s, ".\n- `Reorder`: ");
    push_str(&mut s, reorder_prose(spec.reorder));
    push_str(&mut s, ".\n\nIf the stack has too few elements for an operation, that operation is a no-op (leave the stack unchanged).\n\nConstraints:\n- Do not use `unsafe`.\n\nSignature:\n```rust\npub fn ");
    push_str(&mut s, spec.fn_name);
    push_str(&mut s, "(program: &[Op]) -> Vec<i64>\n```\n\nExamples:\n");
    push_str(&mut s, examples.as_str());
    push_str(&mut s, "\n");
    push_prompt_tail(&mut s, canary);
    s
}

pub open spec fn case_test_text(name: Seq<char>, i: nat, c: (Seq<Op>, Seq<i64>)) -> Seq<char> {
    "#[test]\nfn ex"@ + dec_nat(i) + "() {\n    let program: Vec<Op> = "@ + render_program_text(c.0)
        + ";\n    assert_eq!("@ + name + "(&program), vec!"@ + debug_list(c.1) + ");\n}\n\n"@
}

pub open spec fn case_tests_text(name: Seq<char>, cases: Seq<(Seq<Op>, Seq<i64>)>) -> Seq<char>
    decreases cases.len(),
{
    if cases.len() == 0 {
        Seq::empty()
    } else {
        case_tests_text(name, cases.drop_last()) + case_test_text(name, (cases.len() - 1) as nat, cases.last())
    }
}

pub open spec fn behavior_text(name: Seq<char>, c: Combine, m: TopMap, r: Reorder, seed: u64) -> Seq<char> {
    "use task::{Op, "@ + name + "};\n\n"@ + case_tests_text(name, example_cases(c, m, r, seed))
}

fn case_test_string(name: &str, i: usize, c: &ExampleCase) -> (r: String)
    ensures
        r@ == case_test_text(name@, i as nat, case_view(*c)),
{
    let mut s = string_of("#[test]\nfn ex");
    push_u64(&mut s, i as u64);
    push_str(&mut s, "() {\n    let program: Vec<Op> = ");
    let p = render_program(c.0.as_slice());
    push_str(&mut s, p.as_str());
    push_str(&mut s, ";\n    assert_eq!(");
    push_str(&mut s, name);
    push_str(&mut s, "(&program), vec!");
    push_debug_list(&mut s, c.1.as_slice());
    push_str(&mut s, ");\n}\n\n");
    s
}

pub fn behavior_test_src(spec: &Spec, seed: u64) -> (r: String)
    ensures
        r@ == behavior_text(spec.fn_name@, spec.combine, spec.map, spec.reorder, seed),
{
    let (_, cases) = worked_examples(spec, seed);
    let ghost cs = example_cases(spec.combine, spec.map, spec.reorder, seed);
    let mut s = string_of("use task::{Op, ");
    push_str(&mut s, spec.fn_name);
    push_str(&mut s, "};\n\n");
    let ghost start = s@;
    let mut i: usize = 0;
    while i < cases.len()
        invariant
            i <= cases.len(),
            cases@.len() == 4,
            cs.len() == 4,
            forall|q: int| 0 <= q < 4 ==> #[trigger] cs[q] == case_view(cases@[q]),
            s@ == start + case_tests_text(spec.fn_name@, cs.take(i as int)),
        decreases cases.len() - i,
    {
        let t = case_test_string(spec.fn_name, i, &cases[i]);
        push_str(&mut s, t.as_str());
        assert(cs.take(i + 1).drop_last() =~= cs.take(i as int));
        i = i + 1;
    }
    assert(cs.take(4) =~= cs);
    s
}

pub open spec fn differential_text(name: Seq<char>, c: Combine, m: TopMap, r: Reorder) -> Seq<char> {
    "use task::{Op, "@ + name + "};\n\n\n"@ + reference_body_text("fn reference"@, c, m, r)
        + "\n#[test]\nfn differential_vs_reference() {\n    let mut state: u64 = 0xDEAD_BEEF_1234_5678;\n    let mut next = || {\n        state = state.wrapping_mul(6364136223846793005).wrapping_add(1442695040888963407);\n        (state >> 33) as u64\n    };\n    for _ in 0..3000 {\n        let len = (next() % 12) as usize;\n        let program: Vec<Op> = (0..len)\n            .map(|_| match next() % 6 {\n                0 | 1 | 2 => Op::Push((next() % 19) as i64 - 9),\n                3 => Op::Combine,\n                4 => Op::Map,\n                _ => Op::Reorder,\n            })\n            .collect();\n        assert_eq!("@
        + name + "(&program), reference(&program), \"mismatch: {program:?}\");\n    }\n}\n"@
}

pub fn differential_test_src(spec: &Spec) -> (r: String)
    ensures
        r@ == differential_text(spec.fn_name@, spec.combine, spec.map, spec.reorder),
{
    let mut s = string_of("use task::{Op, ");
    push_str(&mut s, spec.fn_name);
    push_str(&mut s, "};\n\n\n");
    let body = reference_body(spec, "fn reference");
    push_str(&mut s, body.as_str());
    push_str(&mut s, "\n#[test]\nfn differential_vs_reference() {\n    let mut state: u64 = 0xDEAD_BEEF_1234_5678;\n    let mut next = || {\n        state = state.wrapping_mul(6364136223846793005).wrapping_add(1442695040888963407);\n        (state >> 33) as u64\n    };\n    for _ in 0..3000 {\n        let len = (next() % 12) as usize;\n        let program: Vec<Op> = (0..len)\n            .map(|_| match next() % 6 {\n                0 | 1 | 2 => Op::Push((next() % 19) as i64 - 9),\n                3 => Op::Combine,\n                4 => Op::Map,\n                _ => Op::Reorder,\n            })\n            .collect();\n        assert_eq!(");
    push_str(&mut s, spec.fn_name);
    push_str(&mut s, "(&program), reference(&program), \"mismatch: {program:?}\");\n    }\n}\n");
    s
}

pub open spec fn const_empty_text(name: Seq<char>) -> Seq<char> {
    enum_text() + "\npub fn "@ + name + "(program: &[Op]) -> Vec<i64> { let _ = program; Vec::new() }\n"@
}

/// Degenerate answer: always the empty stack.
pub fn const_empty(spec: &Spec) -> (r: String)
    ensures
        r@ == const_empty_text(spec.fn_name@),
{
    let mut s = string_of(enum_src());
    push_str(&mut s, "\npub fn ");
    push_str(&mut s, spec.fn_name);
    push_str(&mut s, "(program: &[Op]) -> Vec<i64> { let _ = program; Vec::new() }\n");
    s
}

pub open spec fn echo_pushes_text(name: Seq<char>) -> Seq<char> {
    enum_text() + "\npub fn "@ + name
        + "(program: &[Op]) -> Vec<i64> {\n    let mut stack = Vec::new();\n    for op in program {\n        if let Op::Push(n) = op { stack.push(*n); }\n    }\n    stack\n}\n"@
}

/// Degenerate answer: the pushed values, every other instruction ignored.
pub fn echo_pushes(spec: &Spec) -> (r: String)
    ensures
        r@ == echo_pushes_text(spec.fn_name@),
{
    let mut s = string_of(enum_src());
    push_str(&mut s, "\npub fn ");
    push_str(&mut s, spec.fn_name);
    push_str(&mut s, "(program: &[Op]) -> Vec<i64> {\n    let mut stack = Vec::new();\n    for op in program {\n        if let Op::Push(n) = op { stack.push(*n); }\n    }\n    stack\n}\n");
    s
}

/// The hidden behaviour tests of the task `seed` gives.
pub closed spec fn behavior_file(seed: u64) -> Seq<char> {
    behavior_text(sample_name(seed), sample_combine(seed), sample_map(seed), sample_reorder(seed), seed)
}

/// The hidden differential test of the task `seed` gives.
pub closed spec fn differential_file(seed: u64) -> Seq<char> {
    differential_text(sample_name(seed), sample_combine(seed), sample_map(seed), sample_reorder(seed))
}

// ---- the family ------------------------------------------------------------

pub open spec fn combine_name(c: Combine) -> Seq<char> {
    match c {
        Combine::Add => "Add"@,
        Combine::Sub => "Sub"@,
        Combine::Mul => "Mul"@,
        Combine::Max => "Max"@,
        Combine::Min => "Min"@,
    }
}

pub open spec fn map_name(m: TopMap) -> Seq<char> {
    match m {
        TopMap::Neg => "Neg"@,
        TopMap::Abs => "Abs"@,
        TopMap::Double => "Double"@,
        TopMap::Inc => "Inc"@,
    }
}

pub open spec fn reorder_name(r: Reorder) -> Seq<char> {
    match r {
        Reorder::Swap => "Swap"@,
        Reorder::Rot3 => "Rot3"@,
    }
}

pub struct StackMachineFamily;

impl StackMachineFamily {
    pub fn id(&self) -> (r: &'static str)
        ensures
            r@ == "stack-machine"@,
    {
        "stack-machine"
    }

    pub fn category(&self) -> (r: &'static str)
        ensures
            r@ == "pattern-matching"@,
    {
        "pattern-matching"
    }

    /// The instance for `seed`: a pure function of the seed.
    pub fn generate(&self, seed: u64) -> (r: GeneratedTask)
        ensures
            r.id@ == task_id_text("stack-machine"@, seed),
            r.category@ == "pattern-matching"@,
            r.canary@ == canary_text("stack-machine"@, seed),
            r.prompt@ == prompt_text(sample_name(seed), sample_combine(seed), sample_map(seed), sample_reorder(seed), seed, r.canary@),
            r.answer_path@ == "src/lib.rs"@,
            r.files@.len() == 2,
            r.files@[0].0@ == "Cargo.toml"@,
            r.files@[0].1@ == cargo_toml_text(),
            r.files@[1].0@ == "src/lib.rs"@,
            r.files@[1].1@ == skeleton_text(sample_name(seed), sample_combine(seed), sample_map(seed), sample_reorder(seed), seed),
            r.hidden@.len() == 2,
            r.hidden@[0].0@ == "tests/behavior.rs"@,
            r.hidden@[0].1@ == behavior_text(sample_name(seed), sample_combine(seed), sample_map(seed), sample_reorder(seed), seed),
            r.hidden@[1].0@ == "tests/differential.rs"@,
            r.hidden@[1].1@ == differential_text(sample_name(seed), sample_combine(seed), sample_map(seed), sample_reorder(seed)),
            r.behavior_test@ == "behavior"@,
            r.hidden@[0].1@ == behavior_file(seed),
            r.hidden@[1].1@ == differential_file(seed),
            r.differential_test@ == "differential"@,
            r.alloc_test@.len() == 0,
            r.max_unsafe == Some(0u32),
            r.forbidden_paths@.len() == 0,
            !r.check_clippy,
            r.clippy_allow@.len() == 0,
            r.weights == (Weights { behavior: 70, constraint: 20, quality: 10 }),
    {
        let spec = sample(seed);
        let canary = mint_canary("stack-machine", seed);
        let mut files: Vec<(String, String)> = Vec::new();
        files.push((string_of("Cargo.toml"), cargo_toml()));
        files.push((string_of("src/lib.rs"), skeleton_src(&spec, seed)));
        let mut hidden: Vec<(String, String)> = Vec::new();
        hidden.push((string_of("tests/behavior.rs"), behavior_test_src(&spec, seed)));
        hidden.push((string_of("tests/differential.rs"), differential_test_src(&spec)));
        let prompt = prompt(&spec, seed, canary.as_str());
        GeneratedTask {
            id: task_id("stack-machine", seed),
            category: string_of("pattern-matching"),
            prompt,
            canary,
            answer_path: string_of("src/lib.rs"),
            files,
            hidden,
            behavior_test: string_of("behavior"),
            differential_test: string_of("differential"),
            alloc_test: String::new(),
            max_unsafe: Some(0),
            forbidden_paths: Vec::new(),
            check_clippy: false,
            clippy_allow: Vec::new(),
            weights: Weights { behavior: 70, constraint: 20, quality: 10 },
        }
    }

    pub fn reference_code(&self, seed: u64) -> (r: String)
        ensures
            r@ == reference_text(sample_name(seed), sample_combine(seed), sample_map(seed), sample_reorder(seed)),
    {
        reference_src(&sample(seed))
    }

    pub fn skeleton_code(&self, seed: u64) -> (r: String)
        ensures
            r@ == skeleton_text(sample_name(seed), sample_combine(seed), sample_map(seed), sample_reorder(seed), seed),
    {
        skeleton_src(&sample(seed), seed)
    }

    /// Degenerate answers `(label, code)` that must fail grading.
    pub fn trivial_baselines(&self, seed: u64) -> (r: Vec<(String, String)>)
        ensures
            r@.len() == 2,
            r@[0].0@ == "const-empty"@,
            r@[0].1@ == const_empty_text(sample_name(seed)),
            r@[1].0@ == "echo-pushes"@,
            r@[1].1@ == echo_pushes_text(sample_name(seed)),
    {
        let spec = sample(seed);
        let mut v: Vec<(String, String)> = Vec::new();
        v.push((string_of("const-empty"), const_empty(&spec)));
        v.push((string_of("echo-pushes"), echo_pushes(&spec)));
        v
    }

    /// The structural identity: the three meanings, without the name.
    pub fn spec_signature(&self, seed: u64) -> (r: Vec<String>)
        ensures
            r@.len() == 3,
            r@[0]@ == "combine:"@ + combine_name(sample_combine(seed)),
            r@[1]@ == "map:"@ + map_name(sample_map(seed)),
            r@[2]@ == "reorder:"@ + reorder_name(sample_reorder(seed)),
    {
        let spec = sample(seed);
        let c = match spec.combine {
            Combine::Add => "Add",
            Combine::Sub => "Sub",
            Combine::Mul => "Mul",
            Combine::Max => "Max",
            Combine::Min => "Min",
        };
        let m = match spec.map {
            TopMap::Neg => "Neg",
            TopMap::Abs => "Abs",
            TopMap::Double => "Double",
            TopMap::Inc => "Inc",
        };
        let r = match spec.reorder {
            Reorder::Swap => "Swap",
            Reorder::Rot3 => "Rot3",
        };
        let mut a = string_of("combine:");
        push_str(&mut a, c);
        let mut b = string_of("map:");
        push_str(&mut b, m);
        let mut d = string_of("reorder:");
        push_str(&mut d, r);
        let mut v: Vec<String> = Vec::new();
        v.push(a);
        v.push(b);
        v.push(d);
        v
    }
}

/// An instruction with too few operands leaves the stack unchanged:
/// `Combine` and `Swap` below two values, `Rot3` below three, `Map` on the
/// empty stack.
pub proof fn law_underflow_is_noop(c: Combine, m: TopMap, r: Reorder, s: Seq<int>, op: Op)
    requires
        match op {
            Op::Combine => s.len() < 2,
            Op::MapTop => s.len() < 1,
            Op::Reorder => match r {
                Reorder::Swap => s.len() < 2,
                Reorder::Rot3 => s.len() < 3,
            },
            Op::Push(_) => false,
        },
    ensures
        step(c, m, r, s, op) == s,
{
}

/// The canonical program `[Push(a), Push(b), Combine, Map]` leaves exactly
/// one value, `map(combine(a, b))`, under every seed's meanings: it is never
/// the empty stack and never the echoed pushes `[a, b]`.
pub proof fn law_canonical_single_value(c: Combine, m: TopMap, r: Reorder, a: i64, b: i64)
    ensures
        run(c, m, r, seq![Op::Push(a), Op::Push(b), Op::Combine, Op::MapTop]) == seq![
            top_mapped(m, combined(c, a as int, b as int)),
        ],
{
    let p = seq![Op::Push(a), Op::Push(b), Op::Combine, Op::MapTop];
    assert(p.drop_last() =~= seq![Op::Push(a), Op::Push(b), Op::Combine]);
    assert(seq![Op::Push(a), Op::Push(b), Op::Combine].drop_last() =~= seq![Op::Push(a), Op::Push(b)]);
    assert(seq![Op::Push(a), Op::Push(b)].drop_last() =~= seq![Op::Push(a)]);
    assert(seq![Op::Push(a)].drop_last() =~= Seq::<Op>::empty());
    let s1 = run(c, m, r, seq![Op::Push(a)]);
    let s2 = run(c, m, r, seq![Op::Push(a), Op::Push(b)]);
    let s3 = run(c, m, r, seq![Op::Push(a), Op::Push(b), Op::Combine]);
    assert(run(c, m, r, Seq::<Op>::empty()) == Seq::<int>::empty());
    assert(s1 == step(c, m, r, Seq::<int>::empty(), Op::Push(a)));
    assert(s1 =~= seq![a as int]);
    assert(s2 == step(c, m, r, s1, Op::Push(b)));
    assert(s2 =~= seq![a as int, b as int]);
    assert(s3 =~= seq![combined(c, a as int, b as int)]);
    assert(run(c, m, r, p) =~= seq![top_mapped(m, combined(c, a as int, b as int))]);
}

} // verus!
