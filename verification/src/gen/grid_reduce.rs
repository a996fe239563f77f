//! The `grid-reduce` family (category `data-structures`).
//!
//! The model implements `fn reduce(grid: &[Vec<i64>]) -> Vec<i64>` over a
//! rectangular grid: a seed-selected axis (one value per row, or per column)
//! and a seed-selected reduction of each line (sum, max, min, product, count
//! of positives, range). Two axes by six reductions: twelve distinct skills.

use vstd::prelude::*;
use crate::rng::{Rng, draw};
use crate::digest::{mint_canary, canary_text};
use crate::text::{push_str, push_u64, push_debug_list, push_doc_block, push_terminated, dec_nat,
    dec_int, debug_list, doc_block, terminated, string_views, string_of};
use crate::gen::{GeneratedTask, Weights, cargo_toml, cargo_toml_text, task_id, task_id_text,
    push_prompt_tail, prompt_tail};

verus! {

/// Axis 1: one output per row, or one per column.
#[derive(Clone, Copy, Debug, PartialEq, Eq, Structural)]
pub enum Axis {
    Rows,
    Cols,
}

/// Axis 2: how one line of the grid reduces to a value.
#[derive(Clone, Copy, Debug, PartialEq, Eq, Structural)]
pub enum Reduction {
    Sum,
    Max,
    Min,
    Product,
    CountPositive,
    Range,
}

pub struct Spec {
    pub axis: Axis,
    pub reduction: Reduction,
    pub fn_name: &'static str,
}

// ---- semantics -------------------------------------------------------------

pub open spec fn in_i64(x: int) -> bool {
    i64::MIN <= x <= i64::MAX
}

pub open spec fn sum_int(xs: Seq<i64>) -> int
    decreases xs.len(),
{
    if xs.len() == 0 {
        0
    } else {
        sum_int(xs.drop_last()) + xs.last()
    }
}

pub open spec fn product_int(xs: Seq<i64>) -> int
    decreases xs.len(),
{
    if xs.len() == 0 {
        1
    } else {
        product_int(xs.drop_last()) * xs.last()
    }
}

pub open spec fn count_pos(xs: Seq<i64>) -> int
    decreases xs.len(),
{
    if xs.len() == 0 {
        0
    } else {
        count_pos(xs.drop_last()) + if xs.last() > 0 { 1int } else { 0int }
    }
}

/// The largest element; `0` for an empty line.
pub open spec fn max_int(xs: Seq<i64>) -> int
    decreases xs.len(),
{
    if xs.len() == 0 {
        0
    } else if xs.len() == 1 {
        xs[0] as int
    } else if xs.last() > max_int(xs.drop_last()) {
        xs.last() as int
    } else {
        max_int(xs.drop_last())
    }
}

/// The smallest element; `0` for an empty line.
pub open spec fn min_int(xs: Seq<i64>) -> int
    decreases xs.len(),
{
    if xs.len() == 0 {
        0
    } else if xs.len() == 1 {
        xs[0] as int
    } else if xs.last() < min_int(xs.drop_last()) {
        xs.last() as int
    } else {
        min_int(xs.drop_last())
    }
}

/// The reduction of one line.
pub open spec fn reduce_int(r: Reduction, xs: Seq<i64>) -> int {
    match r {
        Reduction::Sum => sum_int(xs),
        Reduction::Max => max_int(xs),
        Reduction::Min => min_int(xs),
        Reduction::Product => product_int(xs),
        Reduction::CountPositive => count_pos(xs),
        Reduction::Range => if xs.len() == 0 { 0 } else { max_int(xs) - min_int(xs) },
    }
}

/// The reduction of `xs` never leaves `i64`: every partial sum or product,
/// the range, and the count all fit.
pub open spec fn reduce_fits(r: Reduction, xs: Seq<i64>) -> bool {
    match r {
        Reduction::Sum => forall|k: int| 0 <= k <= xs.len() ==> in_i64(#[trigger] sum_int(xs.take(k))),
        Reduction::Product => forall|k: int| 0 <= k <= xs.len() ==> in_i64(#[trigger] product_int(xs.take(k))),
        Reduction::CountPositive => xs.len() <= i64::MAX,
        Reduction::Range => in_i64(max_int(xs) - min_int(xs)),
        _ => true,
    }
}

/// Column `j` of `g`.
pub open spec fn column(g: Seq<Seq<i64>>, j: int) -> Seq<i64> {
    Seq::new(g.len(), |i: int| g[i][j])
}

/// Every row is at least as long as the first: each column the first row
/// spans can be read from every row.
pub open spec fn columns_readable(g: Seq<Seq<i64>>) -> bool {
    forall|i: int| 0 <= i < g.len() ==> (#[trigger] g[i]).len() >= g[0].len()
}

/// The answer for grid `g`.
pub open spec fn eval_spec(a: Axis, r: Reduction, g: Seq<Seq<i64>>) -> Seq<int> {
    match a {
        Axis::Rows => Seq::new(g.len(), |i: int| reduce_int(r, g[i])),
        Axis::Cols => if g.len() == 0 {
            Seq::empty()
        } else {
            Seq::new(g[0].len(), |j: int| reduce_int(r, column(g, j)))
        },
    }
}

/// No reduction of a line the answer reads leaves `i64`.
pub open spec fn grid_fits(a: Axis, r: Reduction, g: Seq<Seq<i64>>) -> bool {
    match a {
        Axis::Rows => forall|i: int| 0 <= i < g.len() ==> reduce_fits(r, #[trigger] g[i]),
        Axis::Cols => g.len() > 0 ==> forall|j: int| 0 <= j < g[0].len() ==> reduce_fits(r, #[trigger] column(g, j)),
    }
}

/// The rows of a grid as sequences.
pub open spec fn gview(g: Seq<Vec<i64>>) -> Seq<Seq<i64>> {
    g.map_values(|row: Vec<i64>| row@)
}

/// A list of `i64` as integers.
pub open spec fn ints(v: Seq<i64>) -> Seq<int> {
    v.map_values(|x: i64| x as int)
}

/// The reduction of one line.
pub fn reduce_slice(r: Reduction, xs: &[i64]) -> (out: i64)
    requires
        reduce_fits(r, xs@),
    ensures
        out == reduce_int(r, xs@),
{
    match r {
        Reduction::Sum => {
            let mut acc: i64 = 0;
            let mut i: usize = 0;
            assert(xs@.take(0) =~= Seq::<i64>::empty());
            while i < xs.len()
                invariant
                    i <= xs.len(),
                    reduce_fits(r, xs@),
                    r == Reduction::Sum,
                    acc == sum_int(xs@.take(i as int)),
                decreases xs.len() - i,
            {
                assert(xs@.take(i + 1).drop_last() =~= xs@.take(i as int));
                assert(in_i64(sum_int(xs@.take(i + 1))));
                acc = acc + xs[i];
                i = i + 1;
            }
            assert(xs@.take(xs.len() as int) =~= xs@);
            acc
        },
        Reduction::Product => {
            let mut acc: i64 = 1;
            let mut i: usize = 0;
            assert(xs@.take(0) =~= Seq::<i64>::empty());
            while i < xs.len()
                invariant
                    i <= xs.len(),
                    reduce_fits(r, xs@),
                    r == Reduction::Product,
                    acc == product_int(xs@.take(i as int)),
                decreases xs.len() - i,
            {
                assert(xs@.take(i + 1).drop_last() =~= xs@.take(i as int));
                assert(in_i64(product_int(xs@.take(i + 1))));
                acc = acc * xs[i];
                i = i + 1;
            }
            assert(xs@.take(xs.len() as int) =~= xs@);
            acc
        },
        Reduction::CountPositive => {
            let mut n: i64 = 0;
            let mut i: usize = 0;
            assert(xs@.take(0) =~= Seq::<i64>::empty());
            while i < xs.len()
                invariant
                    i <= xs.len(),
                    xs@.len() <= i64::MAX,
                    n == count_pos(xs@.take(i as int)),
                    0 <= n <= i,
                decreases xs.len() - i,
            {
                assert(xs@.take(i + 1).drop_last() =~= xs@.take(i as int));
                if xs[i] > 0 {
                    n = n + 1;
                }
                i = i + 1;
            }
            assert(xs@.take(xs.len() as int) =~= xs@);
            n
        },
        Reduction::Max => max_of(xs),
        Reduction::Min => min_of(xs),
        Reduction::Range => {
            if xs.len() == 0 {
                0
            } else {
                max_of(xs) - min_of(xs)
            }
        },
    }
}

fn max_of(xs: &[i64]) -> (m: i64)
    ensures
        m == max_int(xs@),
{
    if xs.len() == 0 {
        return 0;
    }
    let mut m = xs[0];
    let mut i: usize = 1;
    assert(xs@.take(1) =~= seq![xs@[0]]);
    while i < xs.len()
        invariant
            1 <= i <= xs.len(),
            m == max_int(xs@.take(i as int)),
        decreases xs.len() - i,
    {
        assert(xs@.take(i + 1).drop_last() =~= xs@.take(i as int));
        if xs[i] > m {
            m = xs[i];
        }
        i = i + 1;
    }
    assert(xs@.take(xs.len() as int) =~= xs@);
    m
}

fn min_of(xs: &[i64]) -> (m: i64)
    ensures
        m == min_int(xs@),
{
    if xs.len() == 0 {
        return 0;
    }
    let mut m = xs[0];
    let mut i: usize = 1;
    assert(xs@.take(1) =~= seq![xs@[0]]);
    while i < xs.len()
        invariant
            1 <= i <= xs.len(),
            m == min_int(xs@.take(i as int)),
        decreases xs.len() - i,
    {
        assert(xs@.take(i + 1).drop_last() =~= xs@.take(i as int));
        if xs[i] < m {
            m = xs[i];
        }
        i = i + 1;
    }
    assert(xs@.take(xs.len() as int) =~= xs@);
    m
}

/// Column `j` of `grid`, gathered.
fn gather_column(grid: &[Vec<i64>], j: usize) -> (col: Vec<i64>)
    requires
        forall|i: int| 0 <= i < grid@.len() ==> j < (#[trigger] grid@[i])@.len(),
    ensures
        col@ == column(gview(grid@), j as int),
{
    let mut col: Vec<i64> = Vec::new();
    let mut i: usize = 0;
    while i < grid.len()
        invariant
            i <= grid.len(),
            forall|k: int| 0 <= k < grid@.len() ==> j < (#[trigger] grid@[k])@.len(),
            col@ =~= column(gview(grid@), j as int).take(i as int),
        decreases grid.len() - i,
    {
        assert(grid@[i as int]@.len() > j);
        col.push(grid[i][j]);
        i = i + 1;
    }
    col
}

/// The answer: reduce every row, or every column.
pub fn eval(spec: &Spec, grid: &[Vec<i64>]) -> (r: Vec<i64>)
    requires
        columns_readable(gview(grid@)),
        grid_fits(spec.axis, spec.reduction, gview(grid@)),
    ensures
        ints(r@) == eval_spec(spec.axis, spec.reduction, gview(grid@)),
{
    let ghost g = gview(grid@);
    let mut out: Vec<i64> = Vec::new();
    match spec.axis {
        Axis::Rows => {
            let mut i: usize = 0;
            while i < grid.len()
                invariant
                    i <= grid.len(),
                    g == gview(grid@),
                    spec.axis == Axis::Rows,
                    grid_fits(spec.axis, spec.reduction, g),
                    ints(out@) =~= eval_spec(spec.axis, spec.reduction, g).take(i as int),
                decreases grid.len() - i,
            {
                assert(g[i as int] == grid@[i as int]@);
                let v = reduce_slice(spec.reduction, grid[i].as_slice());
                let ghost before = out@;
                out.push(v);
                let ghost e = eval_spec(spec.axis, spec.reduction, g);
                assert(e[i as int] == reduce_int(spec.reduction, g[i as int]));
                assert(ints(out@) =~= ints(before).push(v as int));
                assert(e.take(i + 1) =~= e.take(i as int).push(e[i as int]));
                assert(ints(out@) =~= e.take(i + 1));
                i = i + 1;
            }
            assert(eval_spec(spec.axis, spec.reduction, g).take(grid.len() as int) =~= eval_spec(
                spec.axis,
                spec.reduction,
                g,
            ));
        },
        Axis::Cols => {
            if grid.len() == 0 {
                assert(ints(out@) =~= eval_spec(spec.axis, spec.reduction, g));
                return out;
            }
            let ncols = grid[0].len();
            assert(g[0] == grid@[0]@);
            let mut j: usize = 0;
            while j < ncols
                invariant
                    j <= ncols,
                    grid@.len() > 0,
                    ncols == grid@[0]@.len(),
                    g == gview(grid@),
                    spec.axis == Axis::Cols,
                    columns_readable(g),
                    grid_fits(spec.axis, spec.reduction, g),
                    ints(out@) =~= eval_spec(spec.axis, spec.reduction, g).take(j as int),
                decreases ncols - j,
            {
                assert forall|i: int| 0 <= i < grid@.len() implies j < (#[trigger] grid@[i])@.len() by {
                    assert(g[i] == grid@[i]@);
                }
                let col = gather_column(grid, j);
                assert(reduce_fits(spec.reduction, column(g, j as int)));
                let v = reduce_slice(spec.reduction, col.as_slice());
                let ghost before = out@;
                out.push(v);
                let ghost e = eval_spec(spec.axis, spec.reduction, g);
                assert(e[j as int] == reduce_int(spec.reduction, column(g, j as int)));
                assert(ints(out@) =~= ints(before).push(v as int));
                assert(e.take(j + 1) =~= e.take(j as int).push(e[j as int]));
                assert(ints(out@) =~= e.take(j + 1));
                j = j + 1;
            }
            assert(eval_spec(spec.axis, spec.reduction, g).take(ncols as int) =~= eval_spec(
                spec.axis,
                spec.reduction,
                g,
            ));
        },
    }
    out
}

// ---- small lines never overflow --------------------------------------------

/// Every value within `-10..=10`.
pub open spec fn small10(xs: Seq<i64>) -> bool {
    forall|i: int| 0 <= i < xs.len() ==> -10 <= #[trigger] xs[i] <= 10
}

pub open spec fn pow10(n: nat) -> int
    decreases n,
{
    if n == 0 {
        1
    } else {
        10 * pow10((n - 1) as nat)
    }
}

proof fn lemma_small_bounds(xs: Seq<i64>)
    requires
        small10(xs),
    ensures
        -10 * xs.len() <= sum_int(xs) <= 10 * xs.len(),
        -pow10(xs.len()) <= product_int(xs) <= pow10(xs.len()),
        xs.len() > 0 ==> -10 <= max_int(xs) <= 10,
        xs.len() > 0 ==> -10 <= min_int(xs) <= 10,
        pow10(xs.len()) >= 1,
    decreases xs.len(),
{
    if xs.len() > 0 {
        let u = xs.drop_last();
        assert(small10(u));
        lemma_small_bounds(u);
        let p = product_int(u);
        let q = pow10(u.len());
        let v = xs.last() as int;
        assert(-10 <= v <= 10);
        assert(-(10 * q) <= p * v <= 10 * q) by (nonlinear_arith)
            requires -q <= p <= q, -10 <= v <= 10, q >= 1;
    }
}

/// A line of at most three values in `-10..=10` reduces without overflow,
/// whatever the reduction.
proof fn lemma_small_line_fits(r: Reduction, xs: Seq<i64>)
    requires
        small10(xs),
        xs.len() <= 3,
    ensures
        reduce_fits(r, xs),
{
    assert(pow10(3) == 1000) by {
        assert(pow10(0) == 1);
        assert(pow10(1) == 10);
        assert(pow10(2) == 100);
    }
    assert forall|k: int| 0 <= k <= xs.len() implies in_i64(#[trigger] sum_int(xs.take(k))) && in_i64(
        product_int(xs.take(k)),
    ) by {
        let t = xs.take(k);
        assert(small10(t));
        lemma_small_bounds(t);
        lemma_pow10_mono(t.len(), 3);
    }
    assert forall|k: int| 0 <= k <= xs.len() implies in_i64(#[trigger] product_int(xs.take(k))) by {
        let t = xs.take(k);
        assert(small10(t));
        lemma_small_bounds(t);
        lemma_pow10_mono(t.len(), 3);
    }
    lemma_small_bounds(xs);
}

proof fn lemma_pow10_mono(a: nat, b: nat)
    requires
        a <= b,
    ensures
        1 <= pow10(a) <= pow10(b),
    decreases b,
{
    if b > 0 && a < b {
        lemma_pow10_mono(a, (b - 1) as nat);
    }
    if b == 0 {
        assert(pow10(0) == 1);
    }
    if a > 0 {
        lemma_pow10_mono((a - 1) as nat, (a - 1) as nat);
    }
}

/// A rectangular grid of at most three rows of at most three values in
/// `-10..=10`.
pub open spec fn small_grid(g: Seq<Seq<i64>>) -> bool {
    &&& g.len() <= 3
    &&& forall|i: int| 0 <= i < g.len() ==> (#[trigger] g[i]).len() == g[0].len() && g[i].len() <= 3 && small10(g[i])
}

proof fn lemma_small_grid_fits(a: Axis, r: Reduction, g: Seq<Seq<i64>>)
    requires
        small_grid(g),
    ensures
        columns_readable(g),
        grid_fits(a, r, g),
{
    assert forall|i: int| 0 <= i < g.len() implies reduce_fits(r, #[trigger] g[i]) by {
        lemma_small_line_fits(r, g[i]);
    }
    if g.len() > 0 {
        assert forall|j: int| 0 <= j < g[0].len() implies reduce_fits(r, #[trigger] column(g, j)) by {
            let c = column(g, j);
            assert forall|i: int| 0 <= i < c.len() implies -10 <= #[trigger] c[i] <= 10 by {
                assert(small10(g[i]));
                assert(c[i] == g[i][j]);
            }
            lemma_small_line_fits(r, c);
        }
    }
}

// ---- sampling --------------------------------------------------------------

pub open spec fn axis_of(k: u64) -> Axis {
    if k == 0 { Axis::Rows } else { Axis::Cols }
}

pub open spec fn reduction_of(k: u64) -> Reduction {
    if k == 0 {
        Reduction::Sum
    } else if k == 1 {
        Reduction::Max
    } else if k == 2 {
        Reduction::Min
    } else if k == 3 {
        Reduction::Product
    } else if k == 4 {
        Reduction::CountPositive
    } else {
        Reduction::Range
    }
}

pub open spec fn name_text(i: u64) -> Seq<char> {
    if i == 0 {
        "reduce"@
    } else if i == 1 {
        "fold_grid"@
    } else if i == 2 {
        "collapse"@
    } else if i == 3 {
        "summarise"@
    } else if i == 4 {
        "aggregate_grid"@
    } else {
        "reduce_axis"@
    }
}

pub open spec fn sample_axis(seed: u64) -> Axis {
    axis_of(draw(seed, 0) % 2)
}

pub open spec fn sample_reduction(seed: u64) -> Reduction {
    reduction_of(draw(seed, 1) % 6)
}

pub open spec fn sample_name(seed: u64) -> Seq<char> {
    name_text(draw(seed, 2) % 6)
}

fn name_at(i: u64) -> (r: &'static str)
    requires
        i < 6,
    ensures
        r@ == name_text(i),
{
    if i == 0 {
        "reduce"
    } else if i == 1 {
        "fold_grid"
    } else if i == 2 {
        "collapse"
    } else if i == 3 {
        "summarise"
    } else if i == 4 {
        "aggregate_grid"
    } else {
        "reduce_axis"
    }
}

/// The spec for `seed`: every choice is a function of the seed's stream.
pub fn sample(seed: u64) -> (r: Spec)
    ensures
        r.axis == sample_axis(seed),
        r.reduction == sample_reduction(seed),
        r.fn_name@ == sample_name(seed),
{
    let mut rng = Rng::new(seed);
    let axis = if rng.below(2) == 0 { Axis::Rows } else { Axis::Cols };
    let k = rng.below(6);
    let reduction = if k == 0 {
        Reduction::Sum
    } else if k == 1 {
        Reduction::Max
    } else if k == 2 {
        Reduction::Min
    } else if k == 3 {
        Reduction::Product
    } else if k == 4 {
        Reduction::CountPositive
    } else {
        Reduction::Range
    };
    let fn_name = name_at(rng.below(6));
    Spec { axis, reduction, fn_name }
}

// ---- emitted-source fragments ----------------------------------------------

/// The reduction as source: an expression over a binding `xs: &[i64]`.
pub open spec fn red_expr_text(r: Reduction) -> Seq<char> {
    match r {
        Reduction::Sum => "xs.iter().sum::<i64>()"@,
        Reduction::Max => "xs.iter().copied().max().unwrap_or(0)"@,
        Reduction::Min => "xs.iter().copied().min().unwrap_or(0)"@,
        Reduction::Product => "xs.iter().product::<i64>()"@,
        Reduction::CountPositive => "xs.iter().filter(|&&x| x > 0).count() as i64"@,
        Reduction::Range => "if xs.is_empty() { 0 } else { xs.iter().max().unwrap() - xs.iter().min().unwrap() }"@,
    }
}

pub fn red_expr(r: Reduction) -> (s: &'static str)
    ensures
        s@ == red_expr_text(r),
{
    match r {
        Reduction::Sum => "xs.iter().sum::<i64>()",
        Reduction::Max => "xs.iter().copied().max().unwrap_or(0)",
        Reduction::Min => "xs.iter().copied().min().unwrap_or(0)",
        Reduction::Product => "xs.iter().product::<i64>()",
        Reduction::CountPositive => "xs.iter().filter(|&&x| x > 0).count() as i64",
        Reduction::Range => "if xs.is_empty() { 0 } else { xs.iter().max().unwrap() - xs.iter().min().unwrap() }",
    }
}

pub open spec fn axis_prose_text(a: Axis) -> Seq<char> {
    match a {
        Axis::Rows => "one output value per row, in row order"@,
        Axis::Cols => "one output value per column, in column order"@,
    }
}

pub fn axis_prose(a: Axis) -> (s: &'static str)
    ensures
        s@ == axis_prose_text(a),
{
    match a {
        Axis::Rows => "one output value per row, in row order",
        Axis::Cols => "one output value per column, in column order",
    }
}

pub open spec fn reduction_prose_text(r: Reduction) -> Seq<char> {
    match r {
        Reduction::Sum => "the sum of its elements"@,
        Reduction::Max => "the maximum element (0 if the line is empty)"@,
        Reduction::Min => "the minimum element (0 if the line is empty)"@,
        Reduction::Product => "the product of its elements (1 if the line is empty)"@,
        Reduction::CountPositive => "the count of strictly-positive elements"@,
        Reduction::Range => "its range, max minus min (0 if the line is empty)"@,
    }
}

pub fn reduction_prose(r: Reduction) -> (s: &'static str)
    ensures
        s@ == reduction_prose_text(r),
{
    match r {
        Reduction::Sum => "the sum of its elements",
        Reduction::Max => "the maximum element (0 if the line is empty)",
        Reduction::Min => "the minimum element (0 if the line is empty)",
        Reduction::Product => "the product of its elements (1 if the line is empty)",
        Reduction::CountPositive => "the count of strictly-positive elements",
        Reduction::Range => "its range, max minus min (0 if the line is empty)",
    }
}

/// The reference after its name: parameters, result and body.
pub open spec fn ref_tail_text(a: Axis, r: Reduction) -> Seq<char> {
    "(grid: &[Vec<i64>]) -> Vec<i64> {\n"@ + match a {
        Axis::Rows => "    grid.iter()\n        .map(|row| { let xs: &[i64] = row; "@ + red_expr_text(r)
            + " })\n        .collect()"@,
        Axis::Cols => "    if grid.is_empty() {\n        return Vec::new();\n    }\n    let ncols = grid[0].len();\n    (0..ncols)\n        .map(|j| {\n            let col: Vec<i64> = grid.iter().map(|row| row[j]).collect();\n            let xs: &[i64] = &col;\n            "@
            + red_expr_text(r) + "\n        })\n        .collect()"@,
    } + "\n}\n"@
}

fn ref_tail(a: Axis, r: Reduction) -> (s: String)
    ensures
        s@ == ref_tail_text(a, r),
{
    let mut s = string_of("(grid: &[Vec<i64>]) -> Vec<i64> {\n");
    match a {
        Axis::Rows => {
            push_str(&mut s, "    grid.iter()\n        .map(|row| { let xs: &[i64] = row; ");
            push_str(&mut s, red_expr(r));
            push_str(&mut s, " })\n        .collect()");
        },
        Axis::Cols => {
            push_str(
                &mut s,
                "    if grid.is_empty() {\n        return Vec::new();\n    }\n    let ncols = grid[0].len();\n    (0..ncols)\n        .map(|j| {\n            let col: Vec<i64> = grid.iter().map(|row| row[j]).collect();\n            let xs: &[i64] = &col;\n            ",
            );
            push_str(&mut s, red_expr(r));
            push_str(&mut s, "\n        })\n        .collect()");
        },
    }
    push_str(&mut s, "\n}\n");
    s
}

pub open spec fn reference_text(name: Seq<char>, a: Axis, r: Reduction) -> Seq<char> {
    "pub fn "@ + name + ref_tail_text(a, r)
}

/// The correct reference, mirroring `eval`.
pub fn reference_src(spec: &Spec) -> (s: String)
    ensures
        s@ == reference_text(spec.fn_name@, spec.axis, spec.reduction),
{
    let mut s = string_of("pub fn ");
    push_str(&mut s, spec.fn_name);
    let t = ref_tail(spec.axis, spec.reduction);
    push_str(&mut s, t.as_str());
    s
}

// ---- grids as text ---------------------------------------------------------

/// The rows rendered with `{:?}` and separated by `", "`.
pub open spec fn grid_items(g: Seq<Seq<i64>>) -> Seq<char>
    decreases g.len(),
{
    if g.len() == 0 {
        Seq::empty()
    } else if g.len() == 1 {
        debug_list(g[0])
    } else {
        grid_items(g.drop_last()) + ", "@ + debug_list(g.last())
    }
}

/// `{:?}` of a `Vec<Vec<i64>>`: `[[1, 2], [3, 4]]`.
pub open spec fn grid_debug(g: Seq<Seq<i64>>) -> Seq<char> {
    "["@ + grid_items(g) + "]"@
}

/// The rows as `vec![..]` literals, separated by `", "`.
pub open spec fn grid_literals(g: Seq<Seq<i64>>) -> Seq<char>
    decreases g.len(),
{
    if g.len() == 0 {
        Seq::empty()
    } else if g.len() == 1 {
        "vec!"@ + debug_list(g[0])
    } else {
        grid_literals(g.drop_last()) + ", "@ + "vec!"@ + debug_list(g.last())
    }
}

/// A grid as a Rust expression.
pub open spec fn render_grid_text(g: Seq<Seq<i64>>) -> Seq<char> {
    if g.len() == 0 {
        "Vec::<Vec<i64>>::new()"@
    } else {
        "vec!["@ + grid_literals(g) + "]"@
    }
}

/// Appends the rows of `g`, each with `prefix` before its `{:?}`, separated by
/// `", "`.
fn push_rows(s: &mut String, g: &Vec<Vec<i64>>, literal: bool)
    ensures
        final(s)@ == old(s)@ + (if literal { grid_literals(gview(g@)) } else { grid_items(gview(g@)) }),
{
    let ghost start = s@;
    let ghost gv = gview(g@);
    let mut i: usize = 0;
    assert(gv.take(0) =~= Seq::<Seq<i64>>::empty());
    while i < g.len()
        invariant
            i <= g.len(),
            gv == gview(g@),
            s@ == start + (if literal { grid_literals(gv.take(i as int)) } else { grid_items(gv.take(i as int)) }),
        decreases g.len() - i,
    {
        if i > 0 {
            push_str(s, ", ");
        }
        if literal {
            push_str(s, "vec!");
        }
        push_debug_list(s, g[i].as_slice());
        assert(gv.take(i + 1).drop_last() =~= gv.take(i as int));
        assert(gv.take(i + 1).last() == g@[i as int]@);
        i = i + 1;
    }
    assert(gv.take(g.len() as int) =~= gv);
}

fn render_grid(g: &Vec<Vec<i64>>) -> (s: String)
    ensures
        s@ == render_grid_text(gview(g@)),
{
    if g.len() == 0 {
        return string_of("Vec::<Vec<i64>>::new()");
    }
    let mut s = string_of("vec![");
    push_rows(&mut s, g, true);
    push_str(&mut s, "]");
    s
}

// ---- worked examples -------------------------------------------------------

pub open spec fn example_seed(seed: u64) -> u64 {
    seed ^ 0x6817_D2A0_0000_0001u64
}

/// The canonical 2x3 grid of distinct values from `1 + seed % 5`.
pub open spec fn canonical_grid(seed: u64) -> Seq<Seq<i64>> {
    let b = 1 + seed % 5;
    seq![seq![b as i64, (b + 1) as i64, (b + 2) as i64], seq![(b + 3) as i64, (b + 4) as i64, (b + 5) as i64]]
}

pub open spec fn rows_at(s: u64, k: nat) -> nat {
    (1 + draw(s, k) % 3) as nat
}

pub open spec fn cols_at(s: u64, k: nat) -> nat {
    (1 + draw(s, k + 1) % 3) as nat
}

/// The random grid whose draws start at `k`: its row count, its column count,
/// then its values row by row, each in `-9..=9`.
pub open spec fn random_grid(s: u64, k: nat) -> Seq<Seq<i64>> {
    Seq::new(
        rows_at(s, k),
        |i: int|
            Seq::new(
                cols_at(s, k),
                |j: int| ((draw(s, (k + 2 + i * cols_at(s, k) + j) as nat) % 19) as int - 9) as i64,
            ),
    )
}

pub open spec fn grid_next(s: u64, k: nat) -> nat {
    k + 2 + rows_at(s, k) * cols_at(s, k)
}

/// The example grids: the canonical one, two random ones, and the empty grid.
pub open spec fn example_grids(seed: u64) -> Seq<Seq<Seq<i64>>> {
    let s = example_seed(seed);
    seq![canonical_grid(seed), random_grid(s, 0), random_grid(s, grid_next(s, 0)), Seq::empty()]
}

/// The answer as `i64` values.
pub open spec fn outputs(a: Axis, r: Reduction, g: Seq<Seq<i64>>) -> Seq<i64> {
    eval_spec(a, r, g).map_values(|x: int| x as i64)
}

pub open spec fn example_line(g: Seq<Seq<i64>>, out: Seq<i64>) -> Seq<char> {
    "  "@ + grid_debug(g) + "  ->  "@ + debug_list(out)
}

pub open spec fn example_lines(a: Axis, r: Reduction, seed: u64) -> Seq<Seq<char>> {
    example_grids(seed).map_values(|g: Seq<Seq<i64>>| example_line(g, outputs(a, r, g)))
}

/// One worked example: (grid, expected output).
pub type ExampleCase = (Vec<Vec<i64>>, Vec<i64>);

pub open spec fn example_cases(a: Axis, r: Reduction, seed: u64) -> Seq<(Seq<Seq<i64>>, Seq<i64>)> {
    example_grids(seed).map_values(|g: Seq<Seq<i64>>| (g, outputs(a, r, g)))
}

pub open spec fn case_view(c: ExampleCase) -> (Seq<Seq<i64>>, Seq<i64>) {
    (gview(c.0@), c.1@)
}

fn random_grid_vec(rng: &mut Rng) -> (g: Vec<Vec<i64>>)
    ensures
        final(rng).seed() == old(rng).seed(),
        gview(g@) == random_grid(old(rng).seed(), old(rng).count()),
        final(rng).count() == grid_next(old(rng).seed(), old(rng).count()),
{
    let ghost s = rng.seed();
    let ghost k = rng.count();
    let nrows = 1 + rng.below(3) as usize;
    let ncols = 1 + rng.below(3) as usize;
    let ghost want = random_grid(s, k);
    let mut g: Vec<Vec<i64>> = Vec::new();
    let mut i: usize = 0;
    while i < nrows
        invariant
            i <= nrows,
            nrows == rows_at(s, k),
            ncols == cols_at(s, k),
            ncols <= 3,
            rng.seed() == s,
            rng.count() == k + 2 + i * ncols,
            want == random_grid(s, k),
            gview(g@) =~= want.take(i as int),
        decreases nrows - i,
    {
        let mut row: Vec<i64> = Vec::new();
        let mut j: usize = 0;
        while j < ncols
            invariant
                j <= ncols,
                i < nrows,
                nrows == rows_at(s, k),
                ncols == cols_at(s, k),
                rng.seed() == s,
                rng.count() == k + 2 + i * ncols + j,
                want == random_grid(s, k),
                row@ =~= want[i as int].take(j as int),
            decreases ncols - j,
        {
            let x = rng.below(19) as i64 - 9;
            row.push(x);
            j = j + 1;
        }
        assert(row@ =~= want[i as int]);
        let ghost before = gview(g@);
        g.push(row);
        assert(gview(g@) =~= before.push(want[i as int]));
        assert(want.take(i + 1) =~= want.take(i as int).push(want[i as int]));
        assert((i + 1) * ncols == i * ncols + ncols) by (nonlinear_arith);
        i = i + 1;
    }
    assert(want.take(nrows as int) =~= want);
    g
}

fn example_grid_vecs(seed: u64) -> (r: Vec<Vec<Vec<i64>>>)
    ensures
        r@.len() == 4,
        forall|i: int| 0 <= i < 4 ==> gview((#[trigger] r@[i])@) == example_grids(seed)[i],
{
    let mut rng = Rng::new(seed ^ 0x6817_D2A0_0000_0001);
    let b = 1 + (seed % 5) as i64;
    let mut grids: Vec<Vec<Vec<i64>>> = Vec::new();
    let r0: Vec<i64> = vec![b, b + 1, b + 2];
    let r1: Vec<i64> = vec![b + 3, b + 4, b + 5];
    let c: Vec<Vec<i64>> = vec![r0, r1];
    assert(gview(c@) =~= canonical_grid(seed));
    grids.push(c);
    let g1 = random_grid_vec(&mut rng);
    let g2 = random_grid_vec(&mut rng);
    grids.push(g1);
    grids.push(g2);
    let e: Vec<Vec<i64>> = Vec::new();
    assert(gview(e@) =~= Seq::<Seq<i64>>::empty());
    grids.push(e);
    grids
}

proof fn lemma_example_grid_small(seed: u64, i: int)
    requires
        0 <= i < 4,
    ensures
        small_grid(example_grids(seed)[i]),
{
    let g = example_grids(seed)[i];
    if i == 1 || i == 2 {
        let s = example_seed(seed);
        let k = if i == 1 { 0 } else { grid_next(s, 0) };
        assert(g == random_grid(s, k));
        assert forall|r: int| 0 <= r < g.len() implies (#[trigger] g[r]).len() == g[0].len() && g[r].len()
            <= 3 && small10(g[r]) by {
            assert forall|j: int| 0 <= j < g[r].len() implies -10 <= #[trigger] g[r][j] <= 10 by {
                let d = draw(s, (k + 2 + r * cols_at(s, k) + j) as nat) % 19;
                assert(0 <= d < 19);
            }
        }
    } else if i == 0 {
        assert forall|r: int| 0 <= r < g.len() implies (#[trigger] g[r]).len() == g[0].len() && g[r].len()
            <= 3 && small10(g[r]) by {
        }
    }
}

fn example_line_string(g: &Vec<Vec<i64>>, out: &Vec<i64>) -> (r: String)
    ensures
        r@ == example_line(gview(g@), out@),
{
    let mut s = string_of("  ");
    push_str(&mut s, "[");
    push_rows(&mut s, g, false);
    push_str(&mut s, "]");
    push_str(&mut s, "  ->  ");
    push_debug_list(&mut s, out.as_slice());
    s
}

/// The worked examples as lines (without newlines) and cases.
pub fn example_data(spec: &Spec, seed: u64) -> (r: (Vec<String>, Vec<ExampleCase>))
    ensures
        string_views(r.0@) == example_lines(spec.axis, spec.reduction, seed),
        r.1@.len() == 4,
        forall|i: int| 0 <= i < 4 ==> case_view(#[trigger] r.1@[i]) == example_cases(spec.axis, spec.reduction, seed)[i],
{
    let grids = example_grid_vecs(seed);
    let mut lines: Vec<String> = Vec::new();
    let mut cases: Vec<ExampleCase> = Vec::new();
    let mut j: usize = 0;
    while j < grids.len()
        invariant
            j <= grids.len(),
            grids@.len() == 4,
            forall|i: int| 0 <= i < 4 ==> gview((#[trigger] grids@[i])@) == example_grids(seed)[i],
            lines@.len() == j,
            cases@.len() == j,
            forall|q: int| 0 <= q < j ==> #[trigger] lines@[q]@ == example_lines(spec.axis, spec.reduction, seed)[q],
            forall|q: int| 0 <= q < j ==> case_view(#[trigger] cases@[q]) == example_cases(spec.axis, spec.reduction, seed)[q],
        decreases grids.len() - j,
    {
        let g = grids[j].clone();
        assert(gview(g@) == example_grids(seed)[j as int]);
        proof {
            lemma_example_grid_small(seed, j as int);
            lemma_small_grid_fits(spec.axis, spec.reduction, gview(g@));
        }
        let out = eval(spec, g.as_slice());
        assert(out@ =~= outputs(spec.axis, spec.reduction, gview(g@))) by {
            let e = eval_spec(spec.axis, spec.reduction, gview(g@));
            assert(ints(out@) == e);
            assert forall|q: int| 0 <= q < out@.len() implies out@[q] == (e[q] as i64) by {
                assert(ints(out@)[q] == out@[q] as int);
            }
        }
        lines.push(example_line_string(&g, &out));
        cases.push((g, out));
        j = j + 1;
    }
    assert(string_views(lines@) =~= example_lines(spec.axis, spec.reduction, seed));
    (lines, cases)
}

/// Worked examples: the prose block and the cases.
pub fn worked_examples(spec: &Spec, seed: u64) -> (r: (String, Vec<ExampleCase>))
    ensures
        r.0@ == terminated(example_lines(spec.axis, spec.reduction, seed)),
        r.1@.len() == 4,
        forall|i: int| 0 <= i < 4 ==> case_view(#[trigger] r.1@[i]) == example_cases(spec.axis, spec.reduction, seed)[i],
{
    let (lines, cases) = example_data(spec, seed);
    let mut prose = String::new();
    push_terminated(&mut prose, &lines);
    (prose, cases)
}

// ---- the files of an instance ----------------------------------------------

pub open spec fn skeleton_text(name: Seq<char>, a: Axis, r: Reduction, seed: u64) -> Seq<char> {
    "//! Implement `"@ + name + "` below.\n//!\n"@ + doc_block(example_lines(a, r, seed)) + "\npub fn "@ + name
        + "(grid: &[Vec<i64>]) -> Vec<i64> {\n    todo!()\n}\n"@
}

pub fn skeleton_src(spec: &Spec, seed: u64) -> (r: String)
    ensures
        r@ == skeleton_text(spec.fn_name@, spec.axis, spec.reduction, seed),
{
    let (lines, _) = example_data(spec, seed);
    let mut s = string_of("//! Implement `");
    push_str(&mut s, spec.fn_name);
    push_str(&mut s, "` below.\n//!\n");
    push_doc_block(&mut s, &lines);
    push_str(&mut s, "\npub fn ");
    push_str(&mut s, spec.fn_name);
    push_str(&mut s, "(grid: &[Vec<i64>]) -> Vec<i64> {\n    todo!()\n}\n");
    s
}

pub open spec fn prompt_text(name: Seq<char>, a: Axis, r: Reduction, seed: u64, canary: Seq<char>) -> Seq<char> {
    "Implement the function `"@ + name
        + "` in `src/lib.rs`.\n\n`grid` is a rectangular grid of `i64` (every row has the same length). Produce "@
        + axis_prose_text(a) + ", where each output value is "@ + reduction_prose_text(r)
        + ". An empty grid returns an empty `Vec`.\n\nConstraints:\n- Do not use `unsafe`.\n\nSignature:\n```rust\npub fn "@
        + name + "(grid: &[Vec<i64>]) -> Vec<i64>\n```\n\nExamples:\n"@ + terminated(example_lines(a, r, seed))
        + "\n"@ + prompt_tail(canary)
}

pub fn prompt(spec: &Spec, seed: u64, canary: &str) -> (r: String)
    ensures
        r@ == prompt_text(spec.fn_name@, spec.axis, spec.reduction, seed, canary@),
{
    let (examples, _) = worked_examples(spec, seed);
    let mut s = string_of("Implement the function `");
    push_str(&mut s, spec.fn_name);
    push_str(
        &mut s,
        "` in `src/lib.rs`.\n\n`grid` is a rectangular grid of `i64` (every row has the same length). Produce ",
    );
    push_str(&mut s, axis_prose(spec.axis));
    push_str(&mut s, ", where each output value is ");
    push_str(&mut s, reduction_prose(spec.reduction));
    push_str(
        &mut s,
        ". An empty grid returns an empty `Vec`.\n\nConstraints:\n- Do not use `unsafe`.\n\nSignature:\n```rust\npub fn ",
    );
    push_str(&mut s, spec.fn_name);
    push_str(&mut s, "(grid: &[Vec<i64>]) -> Vec<i64>\n```\n\nExamples:\n");
    push_str(&mut s, examples.as_str());
    push_str(&mut s, "\n");
    push_prompt_tail(&mut s, canary);
    s
}

pub open spec fn case_test_text(name: Seq<char>, i: nat, c: (Seq<Seq<i64>>, Seq<i64>)) -> Seq<char> {
    "#[test]\nfn ex"@ + dec_nat(i) + "() {\n    let grid: Vec<Vec<i64>> = "@ + render_grid_text(c.0)
        + ";\n    assert_eq!("@ + name + "(&grid), vec!"@ + debug_list(c.1) + ");\n}\n\n"@
}

pub open spec fn case_tests_text(name: Seq<char>, cases: Seq<(Seq<Seq<i64>>, Seq<i64>)>) -> Seq<char>
    decreases cases.len(),
{
    if cases.len() == 0 {
        Seq::empty()
    } else {
        case_tests_text(name, cases.drop_last()) + case_test_text(name, (cases.len() - 1) as nat, cases.last())
    }
}

fn case_test_string(name: &str, i: usize, c: &ExampleCase) -> (r: String)
    ensures
        r@ == case_test_text(name@, i as nat, case_view(*c)),
{
    let mut s = string_of("#[test]\nfn ex");
    push_u64(&mut s, i as u64);
    push_str(&mut s, "() {\n    let grid: Vec<Vec<i64>> = ");
    let g = render_grid(&c.0);
    push_str(&mut s, g.as_str());
    push_str(&mut s, ";\n    assert_eq!(");
    push_str(&mut s, name);
    push_str(&mut s, "(&grid), vec!");
    push_debug_list(&mut s, c.1.as_slice());
    push_str(&mut s, ");\n}\n\n");
    s
}

pub open spec fn behavior_text(name: Seq<char>, a: Axis, r: Reduction, seed: u64) -> Seq<char> {
    "use task::"@ + name + ";\n\n"@ + case_tests_text(name, example_cases(a, r, seed))
}

pub fn behavior_test_src(spec: &Spec, seed: u64) -> (r: String)
    ensures
        r@ == behavior_text(spec.fn_name@, spec.axis, spec.reduction, seed),
{
    let (_, cases) = worked_examples(spec, seed);
    let ghost cs = example_cases(spec.axis, spec.reduction, seed);
    assert forall|q: int| 0 <= q < 4 implies #[trigger] cs[q] == case_view(cases@[q]) by {}
    let mut s = string_of("use task::");
    push_str(&mut s, spec.fn_name);
    push_str(&mut s, ";\n\n");
    let ghost start = s@;
    let mut i: usize = 0;
    while i < cases.len()
        invariant
            i <= cases.len(),
            cases@.len() == 4,
            cs.len() == 4,
            forall|q: int| 0 <= q < 4 ==> #[trigger] cs[q] == case_view(cases@[q]),
            s@ == start + case_tests_text(spec.fn_name@, cs.take(i as int)),
        decreases cases.len() - i,
    {
        let t = case_test_string(spec.fn_name, i, &cases[i]);
        push_str(&mut s, t.as_str());
        assert(cs.take(i + 1).drop_last() =~= cs.take(i as int));
        i = i + 1;
    }
    assert(cs.take(4) =~= cs);
    s
}

pub open spec fn differential_text(name: Seq<char>, a: Axis, r: Reduction) -> Seq<char> {
    "use task::"@ + name + ";\n\n"@ + "fn reference"@ + ref_tail_text(a, r)
        + "\n#[test]\nfn differential_vs_reference() {\n    let mut state: u64 = 0x1F2E_3D4C_5B6A_7988;\n    let mut next = || {\n        state = state.wrapping_mul(6364136223846793005).wrapping_add(1442695040888963407);\n        (state >> 33) as u64\n    };\n    for _ in 0..3000 {\n        let nrows = (next() % 5) as usize;\n        let ncols = (next() % 5) as usize;\n        let grid: Vec<Vec<i64>> = (0..nrows)\n            .map(|_| (0..ncols).map(|_| (next() % 19) as i64 - 9).collect())\n            .collect();\n        assert_eq!("@
        + name + "(&grid), reference(&grid), \"mismatch: {grid:?}\");\n    }\n}\n"@
}

/// The hidden differential test: the reference, renamed, against the answer
/// on random rectangular grids.
pub fn differential_test_src(spec: &Spec) -> (r: String)
    ensures
        r@ == differential_text(spec.fn_name@, spec.axis, spec.reduction),
{
    let mut s = string_of("use task::");
    push_str(&mut s, spec.fn_name);
    push_str(&mut s, ";\n\n");
    push_str(&mut s, "fn reference");
    let t = ref_tail(spec.axis, spec.reduction);
    push_str(&mut s, t.as_str());
    push_str(
        &mut s,
        "\n#[test]\nfn differential_vs_reference() {\n    let mut state: u64 = 0x1F2E_3D4C_5B6A_7988;\n    let mut next = || {\n        state = state.wrapping_mul(6364136223846793005).wrapping_add(1442695040888963407);\n        (state >> 33) as u64\n    };\n    for _ in 0..3000 {\n        let nrows = (next() % 5) as usize;\n        let ncols = (next() % 5) as usize;\n        let grid: Vec<Vec<i64>> = (0..nrows)\n            .map(|_| (0..ncols).map(|_| (next() % 19) as i64 - 9).collect())\n            .collect();\n        assert_eq!(",
    );
    push_str(&mut s, spec.fn_name);
    push_str(&mut s, "(&grid), reference(&grid), \"mismatch: {grid:?}\");\n    }\n}\n");
    s
}

pub open spec fn const_empty_text(name: Seq<char>) -> Seq<char> {
    "pub fn "@ + name + "(grid: &[Vec<i64>]) -> Vec<i64> { let _ = grid; Vec::new() }\n"@
}

/// Degenerate answer: always empty.
pub fn const_empty(spec: &Spec) -> (r: String)
    ensures
        r@ == const_empty_text(spec.fn_name@),
{
    let mut s = string_of("pub fn ");
    push_str(&mut s, spec.fn_name);
    push_str(&mut s, "(grid: &[Vec<i64>]) -> Vec<i64> { let _ = grid; Vec::new() }\n");
    s
}

pub open spec fn flatten_text(name: Seq<char>) -> Seq<char> {
    "pub fn "@ + name + "(grid: &[Vec<i64>]) -> Vec<i64> {\n    grid.iter().flatten().copied().collect()\n}\n"@
}

/// Degenerate answer: the grid flattened row by row.
pub fn flatten(spec: &Spec) -> (r: String)
    ensures
        r@ == flatten_text(spec.fn_name@),
{
    let mut s = string_of("pub fn ");
    push_str(&mut s, spec.fn_name);
    push_str(&mut s, "(grid: &[Vec<i64>]) -> Vec<i64> {\n    grid.iter().flatten().copied().collect()\n}\n");
    s
}

/// The hidden behaviour tests of the task `seed` gives.
pub closed spec fn behavior_file(seed: u64) -> Seq<char> {
    behavior_text(sample_name(seed), sample_axis(seed), sample_reduction(seed), seed)
}

/// The hidden differential test of the task `seed` gives.
pub closed spec fn differential_file(seed: u64) -> Seq<char> {
    differential_text(sample_name(seed), sample_axis(seed), sample_reduction(seed))
}

// ---- the family ------------------------------------------------------------

pub open spec fn axis_kind_text(a: Axis) -> Seq<char> {
    match a {
        Axis::Rows => "Rows"@,
        Axis::Cols => "Cols"@,
    }
}

pub open spec fn reduction_kind_text(r: Reduction) -> Seq<char> {
    match r {
        Reduction::Sum => "Sum"@,
        Reduction::Max => "Max"@,
        Reduction::Min => "Min"@,
        Reduction::Product => "Product"@,
        Reduction::CountPositive => "CountPositive"@,
        Reduction::Range => "Range"@,
    }
}

pub struct GridReduceFamily;

impl GridReduceFamily {
    pub fn id(&self) -> (r: &'static str)
        ensures
            r@ == "grid-reduce"@,
    {
        "grid-reduce"
    }

    pub fn category(&self) -> (r: &'static str)
        ensures
            r@ == "data-structures"@,
    {
        "data-structures"
    }

    /// The instance for `seed`: a pure function of the seed.
    pub fn generate(&self, seed: u64) -> (r: GeneratedTask)
        ensures
            r.id@ == task_id_text("grid-reduce"@, seed),
            r.category@ == "data-structures"@,
            r.canary@ == canary_text("grid-reduce"@, seed),
            r.prompt@ == prompt_text(sample_name(seed), sample_axis(seed), sample_reduction(seed), seed, r.canary@),
            r.answer_path@ == "src/lib.rs"@,
            r.files@.len() == 2,
            r.files@[0].0@ == "Cargo.toml"@,
            r.files@[0].1@ == cargo_toml_text(),
            r.files@[1].0@ == "src/lib.rs"@,
            r.files@[1].1@ == skeleton_text(sample_name(seed), sample_axis(seed), sample_reduction(seed), seed),
            r.hidden@.len() == 2,
            r.hidden@[0].0@ == "tests/behavior.rs"@,
            r.hidden@[0].1@ == behavior_text(sample_name(seed), sample_axis(seed), sample_reduction(seed), seed),
            r.hidden@[1].0@ == "tests/differential.rs"@,
            r.hidden@[1].1@ == differential_text(sample_name(seed), sample_axis(seed), sample_reduction(seed)),
            r.behavior_test@ == "behavior"@,
            r.hidden@[0].1@ == behavior_file(seed),
            r.hidden@[1].1@ == differential_file(seed),
            r.differential_test@ == "differential"@,
            r.alloc_test@ == Seq::<char>::empty(),
            r.max_unsafe == Some(0u32),
            r.forbidden_paths@.len() == 0,
            !r.check_clippy,
            r.clippy_allow@.len() == 0,
            r.weights == (Weights { behavior: 70, constraint: 20, quality: 10 }),
    {
        let spec = sample(seed);
        let canary = mint_canary("grid-reduce", seed);
        let mut files: Vec<(String, String)> = Vec::new();
        files.push((string_of("Cargo.toml"), cargo_toml()));
        files.push((string_of("src/lib.rs"), skeleton_src(&spec, seed)));
        let mut hidden: Vec<(String, String)> = Vec::new();
        hidden.push((string_of("tests/behavior.rs"), behavior_test_src(&spec, seed)));
        hidden.push((string_of("tests/differential.rs"), differential_test_src(&spec)));
        let prompt = prompt(&spec, seed, canary.as_str());
        GeneratedTask {
            id: task_id("grid-reduce", seed),
            category: string_of("data-structures"),
            prompt,
            canary,
            answer_path: string_of("src/lib.rs"),
            files,
            hidden,
            behavior_test: string_of("behavior"),
            differential_test: string_of("differential"),
            alloc_test: String::new(),
            max_unsafe: Some(0),
            forbidden_paths: Vec::new(),
            check_clippy: false,
            clippy_allow: Vec::new(),
            weights: Weights { behavior: 70, constraint: 20, quality: 10 },
        }
    }

    pub fn reference_code(&self, seed: u64) -> (r: String)
        ensures
            r@ == reference_text(sample_name(seed), sample_axis(seed), sample_reduction(seed)),
    {
        reference_src(&sample(seed))
    }

    pub fn skeleton_code(&self, seed: u64) -> (r: String)
        ensures
            r@ == skeleton_text(sample_name(seed), sample_axis(seed), sample_reduction(seed), seed),
    {
        skeleton_src(&sample(seed), seed)
    }

    /// Degenerate answers `(label, code)` that must fail grading.
    pub fn trivial_baselines(&self, seed: u64) -> (r: Vec<(String, String)>)
        ensures
            r@.len() == 2,
            r@[0].0@ == "const-empty"@,
            r@[0].1@ == const_empty_text(sample_name(seed)),
            r@[1].0@ == "flatten"@,
            r@[1].1@ == flatten_text(sample_name(seed)),
    {
        let spec = sample(seed);
        let mut v: Vec<(String, String)> = Vec::new();
        v.push((string_of("const-empty"), const_empty(&spec)));
        v.push((string_of("flatten"), flatten(&spec)));
        v
    }

    /// The structural identity: the (axis, reduction) pair.
    pub fn spec_signature(&self, seed: u64) -> (r: Vec<String>)
        ensures
            r@.len() == 2,
            r@[0]@ == "axis:"@ + axis_kind_text(sample_axis(seed)),
            r@[1]@ == "reduction:"@ + reduction_kind_text(sample_reduction(seed)),
    {
        let spec = sample(seed);
        let axis = match spec.axis {
            Axis::Rows => "Rows",
            Axis::Cols => "Cols",
        };
        let reduction = match spec.reduction {
            Reduction::Sum => "Sum",
            Reduction::Max => "Max",
            Reduction::Min => "Min",
            Reduction::Product => "Product",
            Reduction::CountPositive => "CountPositive",
            Reduction::Range => "Range",
        };
        let mut a = string_of("axis:");
        push_str(&mut a, axis);
        let mut b = string_of("reduction:");
        push_str(&mut b, reduction);
        let mut v: Vec<String> = Vec::new();
        v.push(a);
        v.push(b);
        v
    }
}

/// The canonical example catches both degenerate answers on every seed: its
/// expected output is never empty, and never the grid flattened (two or
/// three values where the flattening has six).
pub proof fn law_canonical_catches_baselines(a: Axis, r: Reduction, seed: u64)
    ensures
        outputs(a, r, canonical_grid(seed)).len() > 0,
        outputs(a, r, canonical_grid(seed)).len() != canonical_grid(seed)[0].len() + canonical_grid(seed)[1].len(),
{
}

} // verus!
