//! The `generic-select` family (category `traits-generics`).
//!
//! The model writes a generic function bounded by a given trait,
//! `fn f<T: Ranked>(items: &[T]) -> Option<i64>`: it selects one rank (the
//! largest, the smallest, the first, the last) and projects it (unchanged,
//! absolute value, doubled, squared); `None` for no items. Sixteen distinct
//! skills.

use vstd::prelude::*;
use crate::rng::{Rng, draw};
use crate::digest::{mint_canary, canary_text};
use crate::text::{push_str, push_u64, push_i64, push_debug_list, push_doc_block, push_terminated, dec_nat,
    dec_int, debug_list, doc_block, terminated, string_views, string_of};
use crate::gen::{GeneratedTask, Weights, cargo_toml, cargo_toml_text, task_id, task_id_text,
    push_prompt_tail, prompt_tail};

verus! {

/// Axis 1: which item's rank is chosen.
#[derive(Clone, Copy, Debug, PartialEq, Eq, Structural)]
pub enum Select {
    Max,
    Min,
    First,
    Last,
}

/// Axis 2: how the chosen rank becomes the answer.
#[derive(Clone, Copy, Debug, PartialEq, Eq, Structural)]
pub enum Project {
    Identity,
    Abs,
    Double,
    Square,
}

pub struct Spec {
    pub select: Select,
    pub project: Project,
    pub fn_name: &'static str,
}

// ---- semantics -------------------------------------------------------------

pub open spec fn in_i64(x: int) -> bool {
    i64::MIN <= x <= i64::MAX
}

/// The largest rank of a non-empty list.
pub open spec fn max_rank(xs: Seq<i64>) -> int
    decreases xs.len(),
{
    if xs.len() <= 1 {
        xs[0] as int
    } else if xs.last() > max_rank(xs.drop_last()) {
        xs.last() as int
    } else {
        max_rank(xs.drop_last())
    }
}

/// The smallest rank of a non-empty list.
pub open spec fn min_rank(xs: Seq<i64>) -> int
    decreases xs.len(),
{
    if xs.len() <= 1 {
        xs[0] as int
    } else if xs.last() < min_rank(xs.drop_last()) {
        xs.last() as int
    } else {
        min_rank(xs.drop_last())
    }
}

pub open spec fn chosen_spec(s: Select, xs: Seq<i64>) -> int {
    match s {
        Select::Max => max_rank(xs),
        Select::Min => min_rank(xs),
        Select::First => xs[0] as int,
        Select::Last => xs.last() as int,
    }
}

pub open spec fn project_spec(p: Project, r: int) -> int {
    match p {
        Project::Identity => r,
        Project::Abs => if r < 0 { -r } else { r },
        Project::Double => r * 2,
        Project::Square => r * r,
    }
}

/// The answer: `None` for no items, else the projected chosen rank.
pub open spec fn eval_spec(s: Select, p: Project, xs: Seq<i64>) -> Option<int> {
    if xs.len() == 0 {
        None
    } else {
        Some(project_spec(p, chosen_spec(s, xs)))
    }
}

/// The projection of the chosen rank fits in `i64` (`abs` of `i64::MIN`
/// does not).
pub open spec fn eval_fits(s: Select, p: Project, xs: Seq<i64>) -> bool {
    xs.len() > 0 ==> in_i64(project_spec(p, chosen_spec(s, xs))) && (p == Project::Abs ==> chosen_spec(s, xs) != i64::MIN)
}

proof fn lemma_extremes_in(xs: Seq<i64>)
    requires
        xs.len() > 0,
    ensures
        exists|i: int| 0 <= i < xs.len() && xs[i] == max_rank(xs),
        exists|i: int| 0 <= i < xs.len() && xs[i] == min_rank(xs),
    decreases xs.len(),
{
    if xs.len() > 1 {
        lemma_extremes_in(xs.drop_last());
        let u = xs.drop_last();
        let a = choose|i: int| 0 <= i < u.len() && u[i] == max_rank(u);
        let b = choose|i: int| 0 <= i < u.len() && u[i] == min_rank(u);
        assert(xs[a] == u[a]);
        assert(xs[b] == u[b]);
        assert(xs[xs.len() - 1] == xs.last());
    } else {
        assert(xs[0] == max_rank(xs));
    }
}

fn max_of(xs: &[i64]) -> (m: i64)
    requires
        xs@.len() > 0,
    ensures
        m == max_rank(xs@),
{
    let mut m = xs[0];
    let mut i: usize = 1;
    assert(xs@.take(1) =~= seq![xs@[0]]);
    while i < xs.len()
        invariant
            1 <= i <= xs.len(),
            m == max_rank(xs@.take(i as int)),
        decreases xs.len() - i,
    {
        assert(xs@.take(i + 1).drop_last() =~= xs@.take(i as int));
        if xs[i] > m {
            m = xs[i];
        }
        i = i + 1;
    }
    assert(xs@.take(xs.len() as int) =~= xs@);
    m
}

fn min_of(xs: &[i64]) -> (m: i64)
    requires
        xs@.len() > 0,
    ensures
        m == min_rank(xs@),
{
    let mut m = xs[0];
    let mut i: usize = 1;
    assert(xs@.take(1) =~= seq![xs@[0]]);
    while i < xs.len()
        invariant
            1 <= i <= xs.len(),
            m == min_rank(xs@.take(i as int)),
        decreases xs.len() - i,
    {
        assert(xs@.take(i + 1).drop_last() =~= xs@.take(i as int));
        if xs[i] < m {
            m = xs[i];
        }
        i = i + 1;
    }
    assert(xs@.take(xs.len() as int) =~= xs@);
    m
}

pub fn project(p: Project, r: i64) -> (out: i64)
    requires
        in_i64(project_spec(p, r as int)),
        p == Project::Abs ==> r != i64::MIN,
    ensures
        out == project_spec(p, r as int),
{
    match p {
        Project::Identity => r,
        Project::Abs => r.abs(),
        Project::Double => r * 2,
        Project::Square => r * r,
    }
}

pub open spec fn opt_int(o: Option<i64>) -> Option<int> {
    match o {
        Some(v) => Some(v as int),
        None => None,
    }
}

/// The answer: choose a rank, then project it; `None` for an empty slice.
pub fn eval(spec: &Spec, ranks: &[i64]) -> (r: Option<i64>)
    requires
        eval_fits(spec.select, spec.project, ranks@),
    ensures
        opt_int(r) == eval_spec(spec.select, spec.project, ranks@),
{
    if ranks.len() == 0 {
        return None;
    }
    let chosen = match spec.select {
        Select::Max => max_of(ranks),
        Select::Min => min_of(ranks),
        Select::First => ranks[0],
        Select::Last => ranks[ranks.len() - 1],
    };
    Some(project(spec.project, chosen))
}

/// Ranks in `-30..=30` project without overflow.
proof fn lemma_small_fits(s: Select, p: Project, xs: Seq<i64>)
    requires
        forall|i: int| 0 <= i < xs.len() ==> -30 <= #[trigger] xs[i] <= 30,
    ensures
        eval_fits(s, p, xs),
{
    if xs.len() > 0 {
        lemma_extremes_in(xs);
        let c = chosen_spec(s, xs);
        if s == Select::Max {
            let i = choose|i: int| 0 <= i < xs.len() && xs[i] == max_rank(xs);
            assert(-30 <= xs[i] <= 30);
        } else if s == Select::Min {
            let i = choose|i: int| 0 <= i < xs.len() && xs[i] == min_rank(xs);
            assert(-30 <= xs[i] <= 30);
        } else if s == Select::Last {
            assert(xs.last() == xs[xs.len() - 1]);
        }
        assert(-30 <= c <= 30);
        assert(-900 <= c * c <= 900) by (nonlinear_arith)
            requires -30 <= c <= 30;
    }
}

// ---- sampling --------------------------------------------------------------

pub open spec fn select_of(k: u64) -> Select {
    if k == 0 {
        Select::Max
    } else if k == 1 {
        Select::Min
    } else if k == 2 {
        Select::First
    } else {
        Select::Last
    }
}

pub open spec fn project_of(k: u64) -> Project {
    if k == 0 {
        Project::Identity
    } else if k == 1 {
        Project::Abs
    } else if k == 2 {
        Project::Double
    } else {
        Project::Square
    }
}

pub open spec fn name_text(i: u64) -> Seq<char> {
    if i == 0 {
        "f"@
    } else if i == 1 {
        "pick"@
    } else if i == 2 {
        "select_rank"@
    } else if i == 3 {
        "choose"@
    } else if i == 4 {
        "extract"@
    } else {
        "resolve"@
    }
}

pub open spec fn sample_select(seed: u64) -> Select {
    select_of(draw(seed, 0) % 4)
}

pub open spec fn sample_project(seed: u64) -> Project {
    project_of(draw(seed, 1) % 4)
}

pub open spec fn sample_name(seed: u64) -> Seq<char> {
    name_text(draw(seed, 2) % 6)
}

fn name_at(i: u64) -> (r: &'static str)
    requires
        i < 6,
    ensures
        r@ == name_text(i),
{
    if i == 0 {
        "f"
    } else if i == 1 {
        "pick"
    } else if i == 2 {
        "select_rank"
    } else if i == 3 {
        "choose"
    } else if i == 4 {
        "extract"
    } else {
        "resolve"
    }
}

/// The spec for `seed`: every choice is a function of the seed's stream.
pub fn sample(seed: u64) -> (r: Spec)
    ensures
        r.select == sample_select(seed),
        r.project == sample_project(seed),
        r.fn_name@ == sample_name(seed),
{
    let mut rng = Rng::new(seed);
    let a = rng.below(4);
    let select = if a == 0 {
        Select::Max
    } else if a == 1 {
        Select::Min
    } else if a == 2 {
        Select::First
    } else {
        Select::Last
    };
    let b = rng.below(4);
    let project = if b == 0 {
        Project::Identity
    } else if b == 1 {
        Project::Abs
    } else if b == 2 {
        Project::Double
    } else {
        Project::Square
    };
    let fn_name = name_at(rng.below(6));
    Spec { select, project, fn_name }
}

// ---- emitted-source fragments ----------------------------------------------

pub open spec fn select_expr_text(s: Select) -> Seq<char> {
    match s {
        Select::Max => "items.iter().map(|it| it.rank()).max().unwrap()"@,
        Select::Min => "items.iter().map(|it| it.rank()).min().unwrap()"@,
        Select::First => "items[0].rank()"@,
        Select::Last => "items[items.len() - 1].rank()"@,
    }
}

pub fn select_expr(s: Select) -> (r: &'static str)
    ensures
        r@ == select_expr_text(s),
{
    match s {
        Select::Max => "items.iter().map(|it| it.rank()).max().unwrap()",
        Select::Min => "items.iter().map(|it| it.rank()).min().unwrap()",
        Select::First => "items[0].rank()",
        Select::Last => "items[items.len() - 1].rank()",
    }
}

/// The same selection over a plain `&[i64]` of ranks.
pub open spec fn ranks_select_text(s: Select) -> Seq<char> {
    match s {
        Select::Max => "ranks.iter().copied().max().unwrap()"@,
        Select::Min => "ranks.iter().copied().min().unwrap()"@,
        Select::First => "ranks[0]"@,
        Select::Last => "ranks[ranks.len() - 1]"@,
    }
}

pub fn ranks_select_expr(s: Select) -> (r: &'static str)
    ensures
        r@ == ranks_select_text(s),
{
    match s {
        Select::Max => "ranks.iter().copied().max().unwrap()",
        Select::Min => "ranks.iter().copied().min().unwrap()",
        Select::First => "ranks[0]",
        Select::Last => "ranks[ranks.len() - 1]",
    }
}

pub open spec fn project_expr_text(p: Project) -> Seq<char> {
    match p {
        Project::Identity => "chosen"@,
        Project::Abs => "chosen.abs()"@,
        Project::Double => "chosen * 2"@,
        Project::Square => "chosen * chosen"@,
    }
}

pub fn project_expr(p: Project) -> (r: &'static str)
    ensures
        r@ == project_expr_text(p),
{
    match p {
        Project::Identity => "chosen",
        Project::Abs => "chosen.abs()",
        Project::Double => "chosen * 2",
        Project::Square => "chosen * chosen",
    }
}

pub open spec fn select_prose_text(s: Select) -> Seq<char> {
    match s {
        Select::Max => "the largest `rank()` among the items"@,
        Select::Min => "the smallest `rank()` among the items"@,
        Select::First => "the `rank()` of the first item"@,
        Select::Last => "the `rank()` of the last item"@,
    }
}

pub fn select_prose(s: Select) -> (r: &'static str)
    ensures
        r@ == select_prose_text(s),
{
    match s {
        Select::Max => "the largest `rank()` among the items",
        Select::Min => "the smallest `rank()` among the items",
        Select::First => "the `rank()` of the first item",
        Select::Last => "the `rank()` of the last item",
    }
}

pub open spec fn project_prose_text(p: Project) -> Seq<char> {
    match p {
        Project::Identity => "return it unchanged"@,
        Project::Abs => "return its absolute value"@,
        Project::Double => "return it multiplied by 2"@,
        Project::Square => "return its square"@,
    }
}

pub fn project_prose(p: Project) -> (r: &'static str)
    ensures
        r@ == project_prose_text(p),
{
    match p {
        Project::Identity => "return it unchanged",
        Project::Abs => "return its absolute value",
        Project::Double => "return it multiplied by 2",
        Project::Square => "return its square",
    }
}

/// The pinned trait.
pub open spec fn trait_text() -> Seq<char> {
    "pub trait Ranked {\n    /// The item's rank.\n    fn rank(&self) -> i64;\n}\n"@
}

/// The hidden concrete `Ranked` type of the tests.
pub open spec fn hidden_type_text() -> Seq<char> {
    "struct R(i64);\nimpl Ranked for R {\n    fn rank(&self) -> i64 {\n        self.0\n    }\n}\n"@
}

pub open spec fn reference_text(name: Seq<char>, s: Select, p: Project) -> Seq<char> {
    trait_text() + "\npub fn "@ + name
        + "<T: Ranked>(items: &[T]) -> Option<i64> {\n    if items.is_empty() {\n        return None;\n    }\n    let chosen = "@
        + select_expr_text(s) + ";\n    Some("@ + project_expr_text(p) + ")\n}\n"@
}

/// The correct reference, mirroring `eval`.
pub fn reference_src(spec: &Spec) -> (r: String)
    ensures
        r@ == reference_text(spec.fn_name@, spec.select, spec.project),
{
    let mut s = string_of("pub trait Ranked {\n    /// The item's rank.\n    fn rank(&self) -> i64;\n}\n");
    push_str(&mut s, "\npub fn ");
    push_str(&mut s, spec.fn_name);
    push_str(
        &mut s,
        "<T: Ranked>(items: &[T]) -> Option<i64> {\n    if items.is_empty() {\n        return None;\n    }\n    let chosen = ",
    );
    push_str(&mut s, select_expr(spec.select));
    push_str(&mut s, ";\n    Some(");
    push_str(&mut s, project_expr(spec.project));
    push_str(&mut s, ")\n}\n");
    s
}

// ---- worked examples -------------------------------------------------------

pub open spec fn example_seed(seed: u64) -> u64 {
    seed ^ 0x9A17_0000_0000_0029u64
}

/// The fixed first ranks: positive and distinct.
pub open spec fn canonical() -> Seq<i64> {
    seq![3i64, 7, 2, 5]
}

pub open spec fn input_len(s: u64, k: nat) -> nat {
    (2 + draw(s, k) % 6) as nat
}

/// The random ranks whose draws start at `k`: a length `2..=7`, then that
/// many values in `-30..=30`.
pub open spec fn random_input(s: u64, k: nat) -> Seq<i64> {
    Seq::new(input_len(s, k), |j: int| ((draw(s, (k + 1 + j) as nat) % 61) as int - 30) as i64)
}

pub open spec fn input_next(s: u64, k: nat) -> nat {
    k + 1 + input_len(s, k)
}

pub open spec fn example_inputs(seed: u64) -> Seq<Seq<i64>> {
    let s = example_seed(seed);
    let k1 = input_next(s, 0);
    let k2 = input_next(s, k1);
    seq![canonical(), random_input(s, 0), random_input(s, k1), random_input(s, k2)]
}

/// An answer as Rust source: `Some(v)` or `None`.
pub open spec fn answer_text(o: Option<int>) -> Seq<char> {
    match o {
        Some(v) => "Some("@ + dec_int(v) + ")"@,
        None => "None"@,
    }
}

fn push_answer(s: &mut String, o: Option<i64>)
    ensures
        final(s)@ == old(s)@ + answer_text(opt_int(o)),
{
    match o {
        Some(v) => {
            push_str(s, "Some(");
            push_i64(s, v);
            push_str(s, ")");
        },
        None => push_str(s, "None"),
    }
}

pub open spec fn example_line(input: Seq<i64>, out: Option<int>) -> Seq<char> {
    "  ranks "@ + debug_list(input) + "  ->  "@ + answer_text(out)
}

pub open spec fn example_lines(s: Select, p: Project, seed: u64) -> Seq<Seq<char>> {
    example_inputs(seed).map_values(|x: Seq<i64>| example_line(x, eval_spec(s, p, x)))
}

/// One worked example: (ranks, expected answer).
pub type ExampleCase = (Vec<i64>, Option<i64>);

pub open spec fn example_cases(s: Select, p: Project, seed: u64) -> Seq<(Seq<i64>, Option<int>)> {
    example_inputs(seed).map_values(|x: Seq<i64>| (x, eval_spec(s, p, x)))
}

pub open spec fn case_view(c: ExampleCase) -> (Seq<i64>, Option<int>) {
    (c.0@, opt_int(c.1))
}

fn random_input_vec(rng: &mut Rng) -> (r: Vec<i64>)
    ensures
        final(rng).seed() == old(rng).seed(),
        r@ == random_input(old(rng).seed(), old(rng).count()),
        final(rng).count() == input_next(old(rng).seed(), old(rng).count()),
{
    let ghost s = rng.seed();
    let ghost k = rng.count();
    let len = 2 + rng.below(6) as usize;
    let mut v: Vec<i64> = Vec::new();
    let mut j: usize = 0;
    while j < len
        invariant
            j <= len,
            len == input_len(s, k),
            rng.seed() == s,
            rng.count() == k + 1 + j,
            v@ =~= random_input(s, k).take(j as int),
        decreases len - j,
    {
        let x = rng.below(61) as i64 - 30;
        v.push(x);
        j = j + 1;
    }
    v
}

fn example_input_vecs(seed: u64) -> (r: Vec<Vec<i64>>)
    ensures
        r@.len() == 4,
        forall|i: int| 0 <= i < 4 ==> (#[trigger] r@[i])@ == example_inputs(seed)[i],
{
    let mut rng = Rng::new(seed ^ 0x9A17_0000_0000_0029);
    let mut inputs: Vec<Vec<i64>> = Vec::new();
    let c: Vec<i64> = vec![3, 7, 2, 5];
    assert(c@ =~= canonical());
    inputs.push(c);
    let a = random_input_vec(&mut rng);
    let b = random_input_vec(&mut rng);
    let d = random_input_vec(&mut rng);
    inputs.push(a);
    inputs.push(b);
    inputs.push(d);
    inputs
}

proof fn lemma_example_small(seed: u64, i: int)
    requires
        0 <= i < 4,
    ensures
        forall|q: int| 0 <= q < example_inputs(seed)[i].len() ==> -30 <= #[trigger] example_inputs(seed)[i][q] <= 30,
{
    let x = example_inputs(seed)[i];
    assert forall|q: int| 0 <= q < x.len() implies -30 <= #[trigger] x[q] <= 30 by {
        if i > 0 {
            let s = example_seed(seed);
            let k = if i == 1 { 0 } else if i == 2 { input_next(s, 0) } else { input_next(s, input_next(s, 0)) };
            assert(x == random_input(s, k));
            let d = draw(s, (k + 1 + q) as nat) % 61;
            assert(0 <= d < 61);
        }
    }
}

fn example_line_string(input: &Vec<i64>, out: Option<i64>) -> (r: String)
    ensures
        r@ == example_line(input@, opt_int(out)),
{
    let mut s = string_of("  ranks ");
    push_debug_list(&mut s, input.as_slice());
    push_str(&mut s, "  ->  ");
    push_answer(&mut s, out);
    s
}

/// The worked examples as lines (without newlines) and cases.
pub fn example_data(spec: &Spec, seed: u64) -> (r: (Vec<String>, Vec<ExampleCase>))
    ensures
        string_views(r.0@) == example_lines(spec.select, spec.project, seed),
        r.1@.len() == 4,
        forall|i: int| 0 <= i < 4 ==> case_view(#[trigger] r.1@[i]) == example_cases(spec.select, spec.project, seed)[i],
{
    let inputs = example_input_vecs(seed);
    let mut lines: Vec<String> = Vec::new();
    let mut cases: Vec<ExampleCase> = Vec::new();
    let mut j: usize = 0;
    while j < inputs.len()
        invariant
            j <= inputs.len(),
            inputs@.len() == 4,
            forall|i: int| 0 <= i < 4 ==> (#[trigger] inputs@[i])@ == example_inputs(seed)[i],
            lines@.len() == j,
            cases@.len() == j,
            forall|q: int| 0 <= q < j ==> #[trigger] lines@[q]@ == example_lines(spec.select, spec.project, seed)[q],
            forall|q: int| 0 <= q < j ==> case_view(#[trigger] cases@[q]) == example_cases(spec.select, spec.project, seed)[q],
        decreases inputs.len() - j,
    {
        let input = inputs[j].clone();
        proof {
            lemma_example_small(seed, j as int);
            lemma_small_fits(spec.select, spec.project, input@);
        }
        let out = eval(spec, input.as_slice());
        lines.push(example_line_string(&input, out));
        cases.push((input, out));
        j = j + 1;
    }
    assert(string_views(lines@) =~= example_lines(spec.select, spec.project, seed));
    (lines, cases)
}

/// Worked examples: the prose block and the cases.
pub fn worked_examples(spec: &Spec, seed: u64) -> (r: (String, Vec<ExampleCase>))
    ensures
        r.0@ == terminated(example_lines(spec.select, spec.project, seed)),
        r.1@.len() == 4,
        forall|i: int| 0 <= i < 4 ==> case_view(#[trigger] r.1@[i]) == example_cases(spec.select, spec.project, seed)[i],
{
    let (lines, cases) = example_data(spec, seed);
    let mut prose = String::new();
    push_terminated(&mut prose, &lines);
    (prose, cases)
}

// ---- the files of an instance ----------------------------------------------

pub open spec fn skeleton_text(name: Seq<char>, s: Select, p: Project, seed: u64) -> Seq<char> {
    "//! Implement the generic function `"@ + name
        + "` below. The `Ranked` trait is\n//! provided \u{2014} keep it.\n//!\n"@ + doc_block(example_lines(s, p, seed))
        + "\n"@ + trait_text() + "\npub fn "@ + name + "<T: Ranked>(items: &[T]) -> Option<i64> {\n    todo!()\n}\n"@
}

pub fn skeleton_src(spec: &Spec, seed: u64) -> (r: String)
    ensures
        r@ == skeleton_text(spec.fn_name@, spec.select, spec.project, seed),
{
    let (lines, _) = example_data(spec, seed);
    let mut s = string_of("//! Implement the generic function `");
    push_str(&mut s, spec.fn_name);
    push_str(&mut s, "` below. The `Ranked` trait is\n//! provided \u{2014} keep it.\n//!\n");
    push_doc_block(&mut s, &lines);
    push_str(&mut s, "\n");
    push_str(&mut s, "pub trait Ranked {\n    /// The item's rank.\n    fn rank(&self) -> i64;\n}\n");
    push_str(&mut s, "\npub fn ");
    push_str(&mut s, spec.fn_name);
    push_str(&mut s, "<T: Ranked>(items: &[T]) -> Option<i64> {\n    todo!()\n}\n");
    s
}

pub open spec fn prompt_text(name: Seq<char>, s: Select, p: Project, seed: u64, canary: Seq<char>) -> Seq<char> {
    "Implement the generic function `"@ + name
        + "` in `src/lib.rs`. The `Ranked` trait is already provided; keep it and write `"@ + name
        + "` generic over any `T: Ranked`.\n\nChoose "@ + select_prose_text(s) + ", then "@ + project_prose_text(p)
        + ". If `items` is empty, return `None`.\n\nConstraints:\n- Keep the signature `pub fn "@ + name
        + "<T: Ranked>(items: &[T]) -> Option<i64>` exactly, including the trait bound.\n- Do not use `unsafe`.\n\nProvided interface (in `src/lib.rs`):\n```rust\npub trait Ranked {\n    fn rank(&self) -> i64;\n}\npub fn "@
        + name + "<T: Ranked>(items: &[T]) -> Option<i64>;\n```\n\nExamples (given each item's `rank()`):\n"@
        + terminated(example_lines(s, p, seed)) + "\n"@ + prompt_tail(canary)
}

pub fn prompt(spec: &Spec, seed: u64, canary: &str) -> (r: String)
    ensures
        r@ == prompt_text(spec.fn_name@, spec.select, spec.project, seed, canary@),
{
    let (examples, _) = worked_examples(spec, seed);
    let mut s = string_of("Implement the generic function `");
    push_str(&mut s, spec.fn_name);
    push_str(&mut s, "` in `src/lib.rs`. The `Ranked` trait is already provided; keep it and write `");
    push_str(&mut s, spec.fn_name);
    push_str(&mut s, "` generic over any `T: Ranked`.\n\nChoose ");
    push_str(&mut s, select_prose(spec.select));
    push_str(&mut s, ", then ");
    push_str(&mut s, project_prose(spec.project));
    push_str(&mut s, ". If `items` is empty, return `None`.\n\nConstraints:\n- Keep the signature `pub fn ");
    push_str(&mut s, spec.fn_name);
    push_str(
        &mut s,
        "<T: Ranked>(items: &[T]) -> Option<i64>` exactly, including the trait bound.\n- Do not use `unsafe`.\n\nProvided interface (in `src/lib.rs`):\n```rust\npub trait Ranked {\n    fn rank(&self) -> i64;\n}\npub fn ",
    );
    push_str(&mut s, spec.fn_name);
    push_str(&mut s, "<T: Ranked>(items: &[T]) -> Option<i64>;\n```\n\nExamples (given each item's `rank()`):\n");
    push_str(&mut s, examples.as_str());
    push_str(&mut s, "\n");
    push_prompt_tail(&mut s, canary);
    s
}

pub open spec fn case_test_text(name: Seq<char>, i: nat, c: (Seq<i64>, Option<int>)) -> Seq<char> {
    "#[test]\nfn ex"@ + dec_nat(i) + "() {\n    let items: Vec<R> = vec!"@ + debug_list(c.0)
        + ".into_iter().map(R).collect();\n    assert_eq!("@ + name + "(&items), "@ + answer_text(c.1) + ");\n}\n\n"@
}

pub open spec fn case_tests_text(name: Seq<char>, cases: Seq<(Seq<i64>, Option<int>)>) -> Seq<char>
    decreases cases.len(),
{
    if cases.len() == 0 {
        Seq::empty()
    } else {
        case_tests_text(name, cases.drop_last()) + case_test_text(name, (cases.len() - 1) as nat, cases.last())
    }
}

fn case_test_string(name: &str, i: usize, c: &ExampleCase) -> (r: String)
    ensures
        r@ == case_test_text(name@, i as nat, case_view(*c)),
{
    let mut s = string_of("#[test]\nfn ex");
    push_u64(&mut s, i as u64);
    push_str(&mut s, "() {\n    let items: Vec<R> = vec!");
    push_debug_list(&mut s, c.0.as_slice());
    push_str(&mut s, ".into_iter().map(R).collect();\n    assert_eq!(");
    push_str(&mut s, name);
    push_str(&mut s, "(&items), ");
    push_answer(&mut s, c.1);
    push_str(&mut s, ");\n}\n\n");
    s
}

pub open spec fn behavior_text(name: Seq<char>, s: Select, p: Project, seed: u64) -> Seq<char> {
    "use task::{Ranked, "@ + name + "};\n\n"@ + hidden_type_text() + "\n"@ + case_tests_text(name, example_cases(s, p, seed))
        + "#[test]\nfn empty_is_none() {\n    let items: Vec<R> = Vec::new();\n    assert_eq!("@ + name
        + "(&items), None);\n}\n"@
}

pub fn behavior_test_src(spec: &Spec, seed: u64) -> (r: String)
    ensures
        r@ == behavior_text(spec.fn_name@, spec.select, spec.project, seed),
{
    let (_, cases) = worked_examples(spec, seed);
    let ghost cs = example_cases(spec.select, spec.project, seed);
    assert forall|q: int| 0 <= q < 4 implies #[trigger] cs[q] == case_view(cases@[q]) by {}
    let mut s = string_of("use task::{Ranked, ");
    push_str(&mut s, spec.fn_name);
    push_str(&mut s, "};\n\n");
    push_str(&mut s, "struct R(i64);\nimpl Ranked for R {\n    fn rank(&self) -> i64 {\n        self.0\n    }\n}\n");
    push_str(&mut s, "\n");
    let ghost start = s@;
    let mut i: usize = 0;
    while i < cases.len()
        invariant
            i <= cases.len(),
            cases@.len() == 4,
            cs.len() == 4,
            forall|q: int| 0 <= q < 4 ==> #[trigger] cs[q] == case_view(cases@[q]),
            s@ == start + case_tests_text(spec.fn_name@, cs.take(i as int)),
        decreases cases.len() - i,
    {
        let t = case_test_string(spec.fn_name, i, &cases[i]);
        push_str(&mut s, t.as_str());
        assert(cs.take(i + 1).drop_last() =~= cs.take(i as int));
        i = i + 1;
    }
    assert(cs.take(4) =~= cs);
    push_str(&mut s, "#[test]\nfn empty_is_none() {\n    let items: Vec<R> = Vec::new();\n    assert_eq!(");
    push_str(&mut s, spec.fn_name);
    push_str(&mut s, "(&items), None);\n}\n");
    s
}

/// The free reference over plain ranks.
pub open spec fn free_reference_text(s: Select, p: Project) -> Seq<char> {
    "fn reference(ranks: &[i64]) -> Option<i64> {\n    if ranks.is_empty() {\n        return None;\n    }\n    let chosen = "@
        + ranks_select_text(s) + ";\n    Some("@ + project_expr_text(p) + ")\n}\n"@
}

fn free_reference_src(s: Select, p: Project) -> (r: String)
    ensures
        r@ == free_reference_text(s, p),
{
    let mut t = string_of(
        "fn reference(ranks: &[i64]) -> Option<i64> {\n    if ranks.is_empty() {\n        return None;\n    }\n    let chosen = ",
    );
    push_str(&mut t, ranks_select_expr(s));
    push_str(&mut t, ";\n    Some(");
    push_str(&mut t, project_expr(p));
    push_str(&mut t, ")\n}\n");
    t
}

pub open spec fn differential_text(name: Seq<char>, s: Select, p: Project) -> Seq<char> {
    "use task::{Ranked, "@ + name + "};\n\n"@ + hidden_type_text() + "\n"@ + free_reference_text(s, p)
        + "\n#[test]\nfn differential_vs_reference() {\n    let mut state: u64 = 0x9A17_ED00_0000_0042;\n    let mut next = || {\n        state = state.wrapping_mul(6364136223846793005).wrapping_add(1442695040888963407);\n        (state >> 33) as u64\n    };\n    for _ in 0..3000 {\n        let len = (next() % 12) as usize;\n        let ranks: Vec<i64> = (0..len).map(|_| (next() % 61) as i64 - 30).collect();\n        let items: Vec<R> = ranks.iter().copied().map(R).collect();\n        assert_eq!("@
        + name + "(&items), reference(&ranks), \"mismatch: {ranks:?}\");\n    }\n}\n"@
}

/// The hidden differential test: the answer over a hidden `Ranked` type
/// against a free reference over the ranks.
pub fn differential_test_src(spec: &Spec) -> (r: String)
    ensures
        r@ == differential_text(spec.fn_name@, spec.select, spec.project),
{
    let mut s = string_of("use task::{Ranked, ");
    push_str(&mut s, spec.fn_name);
    push_str(&mut s, "};\n\n");
    push_str(&mut s, "struct R(i64);\nimpl Ranked for R {\n    fn rank(&self) -> i64 {\n        self.0\n    }\n}\n");
    push_str(&mut s, "\n");
    let f = free_reference_src(spec.select, spec.project);
    push_str(&mut s, f.as_str());
    push_str(
        &mut s,
        "\n#[test]\nfn differential_vs_reference() {\n    let mut state: u64 = 0x9A17_ED00_0000_0042;\n    let mut next = || {\n        state = state.wrapping_mul(6364136223846793005).wrapping_add(1442695040888963407);\n        (state >> 33) as u64\n    };\n    for _ in 0..3000 {\n        let len = (next() % 12) as usize;\n        let ranks: Vec<i64> = (0..len).map(|_| (next() % 61) as i64 - 30).collect();\n        let items: Vec<R> = ranks.iter().copied().map(R).collect();\n        assert_eq!(",
    );
    push_str(&mut s, spec.fn_name);
    push_str(&mut s, "(&items), reference(&ranks), \"mismatch: {ranks:?}\");\n    }\n}\n");
    s
}

pub open spec fn constant_text(name: Seq<char>, value: Seq<char>) -> Seq<char> {
    trait_text() + "\npub fn "@ + name + "<T: Ranked>(items: &[T]) -> Option<i64> { let _ = items; "@ + value
        + " }\n"@
}

fn constant_src(spec: &Spec, value: &str) -> (r: String)
    ensures
        r@ == constant_text(spec.fn_name@, value@),
{
    let mut s = string_of("pub trait Ranked {\n    /// The item's rank.\n    fn rank(&self) -> i64;\n}\n");
    push_str(&mut s, "\npub fn ");
    push_str(&mut s, spec.fn_name);
    push_str(&mut s, "<T: Ranked>(items: &[T]) -> Option<i64> { let _ = items; ");
    push_str(&mut s, value);
    push_str(&mut s, " }\n");
    s
}

/// The hidden behaviour tests of the task `seed` gives.
pub closed spec fn behavior_file(seed: u64) -> Seq<char> {
    behavior_text(sample_name(seed), sample_select(seed), sample_project(seed), seed)
}

/// The hidden differential test of the task `seed` gives.
pub closed spec fn differential_file(seed: u64) -> Seq<char> {
    differential_text(sample_name(seed), sample_select(seed), sample_project(seed))
}

// ---- the family ------------------------------------------------------------

pub open spec fn select_kind_text(s: Select) -> Seq<char> {
    match s {
        Select::Max => "max"@,
        Select::Min => "min"@,
        Select::First => "first"@,
        Select::Last => "last"@,
    }
}

pub open spec fn project_kind_text(p: Project) -> Seq<char> {
    match p {
        Project::Identity => "identity"@,
        Project::Abs => "abs"@,
        Project::Double => "double"@,
        Project::Square => "square"@,
    }
}

pub struct GenericSelectFamily;

impl GenericSelectFamily {
    pub fn id(&self) -> (r: &'static str)
        ensures
            r@ == "generic-select"@,
    {
        "generic-select"
    }

    pub fn category(&self) -> (r: &'static str)
        ensures
            r@ == "traits-generics"@,
    {
        "traits-generics"
    }

    /// The instance for `seed`: a pure function of the seed.
    pub fn generate(&self, seed: u64) -> (r: GeneratedTask)
        ensures
            r.id@ == task_id_text("generic-select"@, seed),
            r.category@ == "traits-generics"@,
            r.canary@ == canary_text("generic-select"@, seed),
            r.prompt@ == prompt_text(sample_name(seed), sample_select(seed), sample_project(seed), seed, r.canary@),
            r.answer_path@ == "src/lib.rs"@,
            r.files@.len() == 2,
            r.files@[0].0@ == "Cargo.toml"@,
            r.files@[0].1@ == cargo_toml_text(),
            r.files@[1].0@ == "src/lib.rs"@,
            r.files@[1].1@ == skeleton_text(sample_name(seed), sample_select(seed), sample_project(seed), seed),
            r.hidden@.len() == 2,
            r.hidden@[0].0@ == "tests/behavior.rs"@,
            r.hidden@[0].1@ == behavior_text(sample_name(seed), sample_select(seed), sample_project(seed), seed),
            r.hidden@[1].0@ == "tests/differential.rs"@,
            r.hidden@[1].1@ == differential_text(sample_name(seed), sample_select(seed), sample_project(seed)),
            r.behavior_test@ == "behavior"@,
            r.hidden@[0].1@ == behavior_file(seed),
            r.hidden@[1].1@ == differential_file(seed),
            r.differential_test@ == "differential"@,
            r.alloc_test@ == Seq::<char>::empty(),
            r.max_unsafe == Some(0u32),
            r.forbidden_paths@.len() == 0,
            !r.check_clippy,
            r.clippy_allow@.len() == 0,
            r.weights == (Weights { behavior: 70, constraint: 20, quality: 10 }),
    {
        let spec = sample(seed);
        let canary = mint_canary("generic-select", seed);
        let mut files: Vec<(String, String)> = Vec::new();
        files.push((string_of("Cargo.toml"), cargo_toml()));
        files.push((string_of("src/lib.rs"), skeleton_src(&spec, seed)));
        let mut hidden: Vec<(String, String)> = Vec::new();
        hidden.push((string_of("tests/behavior.rs"), behavior_test_src(&spec, seed)));
        hidden.push((string_of("tests/differential.rs"), differential_test_src(&spec)));
        let prompt = prompt(&spec, seed, canary.as_str());
        GeneratedTask {
            id: task_id("generic-select", seed),
            category: string_of("traits-generics"),
            prompt,
            canary,
            answer_path: string_of("src/lib.rs"),
            files,
            hidden,
            behavior_test: string_of("behavior"),
            differential_test: string_of("differential"),
            alloc_test: String::new(),
            max_unsafe: Some(0),
            forbidden_paths: Vec::new(),
            check_clippy: false,
            clippy_allow: Vec::new(),
            weights: Weights { behavior: 70, constraint: 20, quality: 10 },
        }
    }

    pub fn reference_code(&self, seed: u64) -> (r: String)
        ensures
            r@ == reference_text(sample_name(seed), sample_select(seed), sample_project(seed)),
    {
        reference_src(&sample(seed))
    }

    pub fn skeleton_code(&self, seed: u64) -> (r: String)
        ensures
            r@ == skeleton_text(sample_name(seed), sample_select(seed), sample_project(seed), seed),
    {
        skeleton_src(&sample(seed), seed)
    }

    /// Degenerate answers `(label, code)`: always `None`, always `Some(0)`.
    pub fn trivial_baselines(&self, seed: u64) -> (r: Vec<(String, String)>)
        ensures
            r@.len() == 2,
            r@[0].0@ == "const-none"@,
            r@[0].1@ == constant_text(sample_name(seed), "None"@),
            r@[1].0@ == "const-zero"@,
            r@[1].1@ == constant_text(sample_name(seed), "Some(0)"@),
    {
        let spec = sample(seed);
        let mut v: Vec<(String, String)> = Vec::new();
        v.push((string_of("const-none"), constant_src(&spec, "None")));
        v.push((string_of("const-zero"), constant_src(&spec, "Some(0)")));
        v
    }

    /// The structural identity: the (select, project) pair.
    pub fn spec_signature(&self, seed: u64) -> (r: Vec<String>)
        ensures
            r@.len() == 2,
            r@[0]@ == "select:"@ + select_kind_text(sample_select(seed)),
            r@[1]@ == "project:"@ + project_kind_text(sample_project(seed)),
    {
        let spec = sample(seed);
        let select = match spec.select {
            Select::Max => "max",
            Select::Min => "min",
            Select::First => "first",
            Select::Last => "last",
        };
        let project = match spec.project {
            Project::Identity => "identity",
            Project::Abs => "abs",
            Project::Double => "double",
            Project::Square => "square",
        };
        let mut a = string_of("select:");
        push_str(&mut a, select);
        let mut b = string_of("project:");
        push_str(&mut b, project);
        let mut v: Vec<String> = Vec::new();
        v.push(a);
        v.push(b);
        v
    }
}

/// Under every (select, project) pair the canonical ranks `[3, 7, 2, 5]`
/// give `Some(v)` with `v != 0`: both constant baselines fail the first
/// worked example of every instance.
pub proof fn law_canonical_some_nonzero(s: Select, p: Project)
    ensures
        eval_spec(s, p, canonical()) matches Some(v) && v != 0,
{
    let c = canonical();
    assert(c.drop_last() =~= seq![3i64, 7, 2]);
    assert(seq![3i64, 7, 2].drop_last() =~= seq![3i64, 7]);
    assert(seq![3i64, 7].drop_last() =~= seq![3i64]);
    assert(max_rank(seq![3i64]) == 3);
    assert(max_rank(seq![3i64, 7]) == 7);
    assert(max_rank(seq![3i64, 7, 2]) == 7);
    assert(max_rank(c) == 7);
    assert(min_rank(seq![3i64]) == 3);
    assert(min_rank(seq![3i64, 7]) == 3);
    assert(min_rank(seq![3i64, 7, 2]) == 2);
    assert(min_rank(c) == 2);
    let r = chosen_spec(s, c);
    assert(r > 0);
    assert(r * r > 0) by (nonlinear_arith)
        requires r > 0;
}

} // verus!
