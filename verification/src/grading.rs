//! The order of the grading layers and what each layer's outcome does to the
//! graded record. The caller runs `cargo` for each stage this module names
//! and hands back what the run reported.

use vstd::prelude::*;
use crate::text::{push_str, push_u64, string_of, string_views};
use crate::vocab::{classify_error_codes, classify_spec, FailureClass};

verus! {

/// A grading stage, in the order the stages run.
#[derive(Clone, Copy, Debug, PartialEq, Eq, Structural)]
pub enum Stage {
    /// L1: `cargo build`.
    Build,
    /// L2: the behaviour tests.
    Behavior,
    /// L2: candidate against the hidden reference over generated inputs.
    Differential,
    /// L3: the allocation-instrumented tests.
    Alloc,
    /// L3: syntax-tree checks (`unsafe` count, forbidden paths).
    Ast,
    /// L3: `cargo clippy`.
    Clippy,
    /// Nothing left to run.
    Done,
}

/// The grading setup of one task: which layers run, and how.
pub struct Layers {
    /// The `cargo test --test` target of the behaviour tests; `None` runs
    /// every test.
    pub behavior_test: Option<String>,
    /// The differential test target; `None` skips that layer.
    pub differential_test: Option<String>,
    /// The allocation test target; `None` skips that layer.
    pub alloc_test: Option<String>,
    /// The most `unsafe` usages allowed; `None` leaves them unchecked.
    pub max_unsafe: Option<u32>,
    /// Type or function paths the answer may not name.
    pub forbidden_paths: Vec<String>,
    /// Run `cargo clippy` on the answer's library.
    pub check_clippy: bool,
    /// Clippy lints not counted against cleanliness.
    pub clippy_allow: Vec<String>,
}

/// The position of a stage in the running order.
pub open spec fn rank(s: Stage) -> int {
    match s {
        Stage::Build => 0,
        Stage::Behavior => 1,
        Stage::Differential => 2,
        Stage::Alloc => 3,
        Stage::Ast => 4,
        Stage::Clippy => 5,
        Stage::Done => 6,
    }
}

/// The stage at position `i` of the running order.
pub open spec fn stage_at(i: int) -> Stage {
    if i <= 0 {
        Stage::Build
    } else if i == 1 {
        Stage::Behavior
    } else if i == 2 {
        Stage::Differential
    } else if i == 3 {
        Stage::Alloc
    } else if i == 4 {
        Stage::Ast
    } else if i == 5 {
        Stage::Clippy
    } else {
        Stage::Done
    }
}

/// Whether the setup asks for stage `s`: build and behaviour always run,
/// the others only when configured.
pub open spec fn wanted(s: Stage, l: &Layers) -> bool {
    match s {
        Stage::Differential => l.differential_test is Some,
        Stage::Alloc => l.alloc_test is Some,
        Stage::Ast => l.max_unsafe is Some || l.forbidden_paths.len() > 0,
        Stage::Clippy => l.check_clippy,
        _ => true,
    }
}

/// The first wanted stage at or after position `i`.
pub open spec fn wanted_from(i: int, l: &Layers) -> Stage
    decreases 6 - i,
{
    if i >= 6 {
        Stage::Done
    } else if wanted(stage_at(i), l) {
        stage_at(i)
    } else {
        wanted_from(i + 1, l)
    }
}

/// The stage that runs after `s`.
pub open spec fn next_spec(s: Stage, l: &Layers) -> Stage {
    wanted_from(rank(s) + 1, l)
}

/// The stage that runs after `s` (once `s` did not end the grading).
pub fn next_stage(s: Stage, l: &Layers) -> (r: Stage)
    ensures
        r == next_spec(s, l),
{
    proof {
        reveal_with_fuel(wanted_from, 7);
    }
    let after_alloc = if l.max_unsafe.is_some() || l.forbidden_paths.len() > 0 {
        Stage::Ast
    } else if l.check_clippy {
        Stage::Clippy
    } else {
        Stage::Done
    };
    let after_diff = if l.alloc_test.is_some() {
        Stage::Alloc
    } else {
        after_alloc
    };
    match s {
        Stage::Build => Stage::Behavior,
        Stage::Behavior => {
            if l.differential_test.is_some() {
                Stage::Differential
            } else {
                after_diff
            }
        },
        Stage::Differential => after_diff,
        Stage::Alloc => after_alloc,
        Stage::Ast => {
            if l.check_clippy {
                Stage::Clippy
            } else {
                Stage::Done
            }
        },
        _ => Stage::Done,
    }
}

/// Every stage but the last is followed by a later stage that the setup asks
/// for: the layers run in order, each at most once.
pub proof fn law_stages_advance(s: Stage, l: &Layers)
    requires
        s != Stage::Done,
    ensures
        rank(next_spec(s, l)) > rank(s),
        wanted(next_spec(s, l), l),
{
    reveal_with_fuel(wanted_from, 7);
}

// ---- the cargo command line of each stage ----------------------------------

/// `-A <lint>` for every lint.
pub open spec fn allow_flags(lints: Seq<Seq<char>>) -> Seq<Seq<char>>
    decreases lints.len(),
{
    if lints.len() == 0 {
        Seq::empty()
    } else {
        allow_flags(lints.drop_last()) + seq!["-A"@, lints.last()]
    }
}

/// `cargo test --test <name> --offline --quiet`.
pub open spec fn test_target_args(name: Option<String>) -> Seq<Seq<char>> {
    match name {
        Some(n) => seq!["test"@, "--test"@, n@, "--offline"@, "--quiet"@],
        None => Seq::empty(),
    }
}

/// The `cargo` arguments of stage `s`; empty for the stages that run no
/// `cargo` (`Ast`, `Done`, and a layer the setup does not ask for).
pub open spec fn args_spec(s: Stage, l: &Layers) -> Seq<Seq<char>> {
    match s {
        Stage::Build => seq!["build"@, "--offline"@, "--message-format=json"@],
        Stage::Behavior => seq!["test"@] + (match l.behavior_test {
            Some(n) => seq!["--test"@, n@],
            None => Seq::empty(),
        }) + seq!["--offline"@, "--quiet"@],
        Stage::Differential => test_target_args(l.differential_test),
        Stage::Alloc => test_target_args(l.alloc_test),
        Stage::Clippy => seq!["clippy"@, "--lib"@, "--offline"@, "--message-format=json"@] + (if l.clippy_allow.len()
            > 0 {
            seq!["--"@] + allow_flags(string_views(l.clippy_allow@))
        } else {
            Seq::empty()
        }),
        _ => Seq::empty(),
    }
}

fn push_arg(v: &mut Vec<String>, a: &str)
    ensures
        string_views(final(v)@) == string_views(old(v)@).push(a@),
{
    let ghost before = string_views(v@);
    v.push(string_of(a));
    assert(string_views(v@) =~= before.push(a@));
}

fn test_target_vec(name: &Option<String>) -> (r: Vec<String>)
    ensures
        string_views(r@) == test_target_args(*name),
{
    let mut v: Vec<String> = Vec::new();
    match name {
        Some(n) => {
            push_arg(&mut v, "test");
            push_arg(&mut v, "--test");
            push_arg(&mut v, n.as_str());
            push_arg(&mut v, "--offline");
            push_arg(&mut v, "--quiet");
        },
        None => {},
    }
    assert(string_views(v@) =~= test_target_args(*name));
    v
}

/// The `cargo` arguments of stage `s`.
pub fn cargo_args(s: Stage, l: &Layers) -> (r: Vec<String>)
    ensures
        string_views(r@) == args_spec(s, l),
{
    let mut v: Vec<String> = Vec::new();
    match s {
        Stage::Build => {
            push_arg(&mut v, "build");
            push_arg(&mut v, "--offline");
            push_arg(&mut v, "--message-format=json");
        },
        Stage::Behavior => {
            push_arg(&mut v, "test");
            match &l.behavior_test {
                Some(n) => {
                    push_arg(&mut v, "--test");
                    push_arg(&mut v, n.as_str());
                },
                None => {},
            }
            push_arg(&mut v, "--offline");
            push_arg(&mut v, "--quiet");
        },
        Stage::Differential => {
            v = test_target_vec(&l.differential_test);
        },
        Stage::Alloc => {
            v = test_target_vec(&l.alloc_test);
        },
        Stage::Clippy => {
            push_arg(&mut v, "clippy");
            push_arg(&mut v, "--lib");
            push_arg(&mut v, "--offline");
            push_arg(&mut v, "--message-format=json");
            if l.clippy_allow.len() > 0 {
                push_arg(&mut v, "--");
                let ghost head = string_views(v@);
                let ghost lv = string_views(l.clippy_allow@);
                let mut i: usize = 0;
                assert(lv.take(0) =~= Seq::<Seq<char>>::empty());
                assert(head + allow_flags(lv.take(0)) =~= head);
                while i < l.clippy_allow.len()
                    invariant
                        i <= l.clippy_allow.len(),
                        lv == string_views(l.clippy_allow@),
                        string_views(v@) == head + allow_flags(lv.take(i as int)),
                    decreases l.clippy_allow.len() - i,
                {
                    push_arg(&mut v, "-A");
                    push_arg(&mut v, l.clippy_allow[i].as_str());
                    assert(lv.take(i + 1).drop_last() =~= lv.take(i as int));
                    assert(string_views(v@) =~= head + allow_flags(lv.take(i + 1)));
                    i = i + 1;
                }
                assert(lv.take(l.clippy_allow.len() as int) =~= lv);
            }
        },
        _ => {},
    }
    assert(string_views(v@) =~= args_spec(s, l));
    v
}

// ---- the graded record -----------------------------------------------------

/// The graded record of one answer, filled stage by stage. A sub-score is
/// `(passed, total)` with `total > 0`: a stage that ran but reported nothing
/// countable scores `(0, 1)`.
pub struct Grading {
    pub compile_ok: bool,
    /// Every rustc error code, sorted, each once.
    pub error_codes: Vec<String>,
    pub warn_count: u32,
    pub unit: Option<(u32, u32)>,
    pub differential: Option<(u32, u32)>,
    pub alloc_ok: Option<bool>,
    pub unsafe_blocks: Option<u32>,
    pub unsafe_ok: Option<bool>,
    pub paths_ok: Option<bool>,
    pub clippy_clean: Option<bool>,
    /// Human-readable violations, e.g. `alloc: hot path allocated`.
    pub violations: Vec<String>,
    /// Stages that timed out or reported no summary.
    pub flags: Vec<String>,
}

/// A sub-score from a libtest summary: `passed / total`, and `0 / 1` for no
/// tests or no summary at all.
pub open spec fn ratio(summary: Option<(u32, u32)>) -> (u32, u32) {
    match summary {
        Some((p, t)) => if t == 0 { (0, 1) } else { (p, t) },
        None => (0, 1),
    }
}

/// `items` joined by `sep`.
pub open spec fn joined(items: Seq<Seq<char>>, sep: Seq<char>) -> Seq<char>
    decreases items.len(),
{
    if items.len() == 0 {
        Seq::empty()
    } else if items.len() == 1 {
        items[0]
    } else {
        joined(items.drop_last(), sep) + sep + items.last()
    }
}

/// `items` joined by `sep`.
pub fn join_with(items: &Vec<String>, sep: &str) -> (r: String)
    ensures
        r@ == joined(string_views(items@), sep@),
{
    let ghost lv = string_views(items@);
    let mut s = String::new();
    let mut i: usize = 0;
    assert(lv.take(0) =~= Seq::<Seq<char>>::empty());
    while i < items.len()
        invariant
            i <= items.len(),
            lv == string_views(items@),
            s@ == joined(lv.take(i as int), sep@),
        decreases items.len() - i,
    {
        if i > 0 {
            push_str(&mut s, sep);
        }
        push_str(&mut s, items[i].as_str());
        assert(lv.take(i + 1).drop_last() =~= lv.take(i as int));
        if i == 0 {
            assert(joined(lv.take(1), sep@) == lv.take(1)[0]);
        }
        i = i + 1;
    }
    assert(lv.take(items.len() as int) =~= lv);
    s
}

fn push_flag(v: &mut Vec<String>, a: &str)
    ensures
        string_views(final(v)@) == string_views(old(v)@).push(a@),
{
    let ghost before = string_views(v@);
    v.push(string_of(a));
    assert(string_views(v@) =~= before.push(a@));
}

fn push_string(v: &mut Vec<String>, a: String)
    ensures
        string_views(final(v)@) == string_views(old(v)@).push(a@),
{
    let ghost before = string_views(v@);
    let ghost av = a@;
    v.push(a);
    assert(string_views(v@) =~= before.push(av));
}

/// `flags`, with `flag` added when `cond` holds.
pub open spec fn flag_if(flags: Seq<Seq<char>>, cond: bool, flag: Seq<char>) -> Seq<Seq<char>> {
    if cond {
        flags.push(flag)
    } else {
        flags
    }
}

/// The violation an over-budget `unsafe` count reports.
pub open spec fn unsafe_violation(n: u32, limit: u32) -> Seq<char> {
    "unsafe: "@ + crate::text::dec_nat(n as nat) + " usage(s), limit "@ + crate::text::dec_nat(limit as nat)
}

impl Grading {
    /// Nothing graded yet.
    pub fn new() -> (g: Grading)
        ensures
            !g.compile_ok,
            g.error_codes@.len() == 0,
            g.warn_count == 0,
            g.unit is None,
            g.differential is None,
            g.alloc_ok is None,
            g.unsafe_blocks is None,
            g.unsafe_ok is None,
            g.paths_ok is None,
            g.clippy_clean is None,
            g.violations@.len() == 0,
            g.flags@.len() == 0,
    {
        Grading {
            compile_ok: false,
            error_codes: Vec::new(),
            warn_count: 0,
            unit: None,
            differential: None,
            alloc_ok: None,
            unsafe_blocks: None,
            unsafe_ok: None,
            paths_ok: None,
            clippy_clean: None,
            violations: Vec::new(),
            flags: Vec::new(),
        }
    }

    /// Record the build: whether it succeeded, its error codes and warning
    /// count.
    pub fn record_build(&mut self, success: bool, timed_out: bool, error_codes: Vec<String>, warn_count: u32)
        ensures
            final(self).compile_ok == success,
            final(self).error_codes@ == error_codes@,
            final(self).warn_count == warn_count,
            string_views(final(self).flags@) == flag_if(string_views(old(self).flags@), timed_out, "timeout:build"@),
            final(self).unit == old(self).unit,
            final(self).differential == old(self).differential,
            final(self).alloc_ok == old(self).alloc_ok,
            final(self).unsafe_blocks == old(self).unsafe_blocks,
            final(self).unsafe_ok == old(self).unsafe_ok,
            final(self).paths_ok == old(self).paths_ok,
            final(self).clippy_clean == old(self).clippy_clean,
            final(self).violations@ == old(self).violations@,
    {
        if timed_out {
            push_flag(&mut self.flags, "timeout:build");
        }
        self.compile_ok = success;
        self.error_codes = error_codes;
        self.warn_count = warn_count;
    }

    /// Record the behaviour tests. A run that yields no summary (the tests
    /// did not build against the answer, or timed out) scores `0`, never
    /// "absent": a non-conforming answer must not gain on the other layers.
    pub fn record_behavior(&mut self, timed_out: bool, summary: Option<(u32, u32)>)
        ensures
            final(self).unit == Some(ratio(summary)),
            string_views(final(self).flags@) == flag_if(
                flag_if(string_views(old(self).flags@), timed_out, "timeout:test"@),
                summary is None && !timed_out,
                "behavior:no_summary"@,
            ),
            final(self).compile_ok == old(self).compile_ok,
            final(self).error_codes@ == old(self).error_codes@,
            final(self).warn_count == old(self).warn_count,
            final(self).differential == old(self).differential,
            final(self).alloc_ok == old(self).alloc_ok,
            final(self).unsafe_blocks == old(self).unsafe_blocks,
            final(self).unsafe_ok == old(self).unsafe_ok,
            final(self).paths_ok == old(self).paths_ok,
            final(self).clippy_clean == old(self).clippy_clean,
            final(self).violations@ == old(self).violations@,
    {
        if timed_out {
            push_flag(&mut self.flags, "timeout:test");
        }
        let r = match summary {
            Some((p, t)) => if t == 0 { (0u32, 1u32) } else { (p, t) },
            None => {
                if !timed_out {
                    push_flag(&mut self.flags, "behavior:no_summary");
                }
                (0u32, 1u32)
            },
        };
        self.unit = Some(r);
    }

    /// Record the differential test, scored as the behaviour tests are.
    pub fn record_differential(&mut self, timed_out: bool, summary: Option<(u32, u32)>)
        ensures
            final(self).differential == Some(ratio(summary)),
            string_views(final(self).flags@) == flag_if(
                flag_if(string_views(old(self).flags@), timed_out, "timeout:differential"@),
                summary is None && !timed_out,
                "differential:no_summary"@,
            ),
            final(self).compile_ok == old(self).compile_ok,
            final(self).error_codes@ == old(self).error_codes@,
            final(self).warn_count == old(self).warn_count,
            final(self).unit == old(self).unit,
            final(self).alloc_ok == old(self).alloc_ok,
            final(self).unsafe_blocks == old(self).unsafe_blocks,
            final(self).unsafe_ok == old(self).unsafe_ok,
            final(self).paths_ok == old(self).paths_ok,
            final(self).clippy_clean == old(self).clippy_clean,
            final(self).violations@ == old(self).violations@,
    {
        if timed_out {
            push_flag(&mut self.flags, "timeout:differential");
        }
        let r = match summary {
            Some((p, t)) => if t == 0 { (0u32, 1u32) } else { (p, t) },
            None => {
                if !timed_out {
                    push_flag(&mut self.flags, "differential:no_summary");
                }
                (0u32, 1u32)
            },
        };
        self.differential = Some(r);
    }

    /// Record the allocation tests: they pass only when every test ran and
    /// passed; a target that reported nothing fails the check.
    pub fn record_alloc(&mut self, timed_out: bool, summary: Option<(u32, u32)>)
        ensures
            final(self).alloc_ok == Some(
                match summary {
                    Some((p, t)) => t > 0 && p == t,
                    None => false,
                },
            ),
            string_views(final(self).violations@) == (match summary {
                Some((p, t)) => if t > 0 {
                    flag_if(string_views(old(self).violations@), p != t, "alloc: hot path allocated"@)
                } else {
                    string_views(old(self).violations@).push("alloc: test target did not run"@)
                },
                None => string_views(old(self).violations@).push("alloc: test target did not run"@),
            }),
            string_views(final(self).flags@) == flag_if(
                flag_if(string_views(old(self).flags@), timed_out, "timeout:alloc"@),
                !timed_out && match summary {
                    Some((p, t)) => t == 0,
                    None => true,
                },
                "alloc:no_summary"@,
            ),
            final(self).compile_ok == old(self).compile_ok,
            final(self).error_codes@ == old(self).error_codes@,
            final(self).warn_count == old(self).warn_count,
            final(self).unit == old(self).unit,
            final(self).differential == old(self).differential,
            final(self).unsafe_blocks == old(self).unsafe_blocks,
            final(self).unsafe_ok == old(self).unsafe_ok,
            final(self).paths_ok == old(self).paths_ok,
            final(self).clippy_clean == old(self).clippy_clean,
    {
        if timed_out {
            push_flag(&mut self.flags, "timeout:alloc");
        }
        let mut ran = false;
        match summary {
            Some((p, t)) => {
                if t > 0 {
                    ran = true;
                    let ok = p == t;
                    self.alloc_ok = Some(ok);
                    if !ok {
                        push_flag(&mut self.violations, "alloc: hot path allocated");
                    }
                }
            },
            None => {},
        }
        if !ran {
            self.alloc_ok = Some(false);
            push_flag(&mut self.violations, "alloc: test target did not run");
            if !timed_out {
                push_flag(&mut self.flags, "alloc:no_summary");
            }
        }
    }

    /// Record the syntax-tree checks. `unsafe_count` is the answer's `unsafe`
    /// usages and `hits` the forbidden paths it names, each `None` when the
    /// answer did not parse (or the check was not asked for): a check that
    /// could not look records nothing.
    pub fn record_ast(&mut self, l: &Layers, unsafe_count: Option<u32>, hits: Option<Vec<String>>)
        ensures
            final(self).unsafe_blocks == (match (l.max_unsafe, unsafe_count) {
                (Some(_), Some(n)) => Some(n),
                _ => old(self).unsafe_blocks,
            }),
            final(self).unsafe_ok == (match (l.max_unsafe, unsafe_count) {
                (Some(limit), Some(n)) => Some(n <= limit),
                _ => old(self).unsafe_ok,
            }),
            final(self).paths_ok == (match hits {
                Some(h) => if l.forbidden_paths.len() > 0 {
                    Some(h.len() == 0)
                } else {
                    old(self).paths_ok
                },
                None => old(self).paths_ok,
            }),
            string_views(final(self).violations@) == {
                let v0 = string_views(old(self).violations@);
                let v1 = match (l.max_unsafe, unsafe_count) {
                    (Some(limit), Some(n)) => flag_if(v0, n > limit, unsafe_violation(n, limit)),
                    _ => v0,
                };
                match hits {
                    Some(h) => flag_if(
                        v1,
                        l.forbidden_paths.len() > 0 && h.len() > 0,
                        "forbidden path(s): "@ + joined(string_views(h@), ", "@),
                    ),
                    None => v1,
                }
            },
            final(self).flags@ == old(self).flags@,
            final(self).compile_ok == old(self).compile_ok,
            final(self).error_codes@ == old(self).error_codes@,
            final(self).warn_count == old(self).warn_count,
            final(self).unit == old(self).unit,
            final(self).differential == old(self).differential,
            final(self).alloc_ok == old(self).alloc_ok,
            final(self).clippy_clean == old(self).clippy_clean,
    {
        match (l.max_unsafe, unsafe_count) {
            (Some(limit), Some(n)) => {
                self.unsafe_blocks = Some(n);
                let ok = n <= limit;
                self.unsafe_ok = Some(ok);
                if !ok {
                    let mut m = string_of("unsafe: ");
                    push_u64(&mut m, n as u64);
                    push_str(&mut m, " usage(s), limit ");
                    push_u64(&mut m, limit as u64);
                    push_string(&mut self.violations, m);
                }
            },
            _ => {},
        }
        if l.forbidden_paths.len() > 0 {
            match hits {
                Some(h) => {
                    let ok = h.len() == 0;
                    self.paths_ok = Some(ok);
                    if !ok {
                        let mut m = string_of("forbidden path(s): ");
                        let j = join_with(&h, ", ");
                        push_str(&mut m, j.as_str());
                        push_string(&mut self.violations, m);
                    }
                },
                None => {},
            }
        }
    }

    /// Record clippy's lints on the answer; clean means none.
    pub fn record_clippy(&mut self, timed_out: bool, lints: Vec<String>)
        ensures
            final(self).clippy_clean == Some(lints@.len() == 0),
            string_views(final(self).violations@) == flag_if(
                string_views(old(self).violations@),
                lints@.len() > 0,
                "clippy: "@ + joined(string_views(lints@), ", "@),
            ),
            string_views(final(self).flags@) == flag_if(string_views(old(self).flags@), timed_out, "timeout:clippy"@),
            final(self).compile_ok == old(self).compile_ok,
            final(self).error_codes@ == old(self).error_codes@,
            final(self).warn_count == old(self).warn_count,
            final(self).unit == old(self).unit,
            final(self).differential == old(self).differential,
            final(self).alloc_ok == old(self).alloc_ok,
            final(self).unsafe_blocks == old(self).unsafe_blocks,
            final(self).unsafe_ok == old(self).unsafe_ok,
            final(self).paths_ok == old(self).paths_ok,
    {
        if timed_out {
            push_flag(&mut self.flags, "timeout:clippy");
        }
        let clean = lints.len() == 0;
        self.clippy_clean = Some(clean);
        if !clean {
            let mut m = string_of("clippy: ");
            let j = join_with(&lints, ", ");
            push_str(&mut m, j.as_str());
            push_string(&mut self.violations, m);
        }
    }
}

// ---- decisions over the record ---------------------------------------------

/// A sub-score that ran and is full marks.
pub open spec fn full(r: Option<(u32, u32)>) -> bool {
    r matches Some((p, t)) && p == t
}

/// A sub-score that ran and is below full marks.
pub open spec fn short(r: Option<(u32, u32)>) -> bool {
    r matches Some((p, t)) && p != t
}

/// The behaviour layer scored full marks: some sub-oracle ran and every one
/// that ran is full.
pub open spec fn behavior_full(g: &Grading) -> bool {
    (g.unit is Some || g.differential is Some) && !short(g.unit) && !short(g.differential)
}

/// Some constraint check that ran came back failed.
pub open spec fn constraint_failed(g: &Grading) -> bool {
    g.alloc_ok == Some(false) || g.clippy_clean == Some(false)
}

/// The failure class of a graded answer, most specific first: the rustc
/// codes when it did not compile; else a behaviour failure; else a failed
/// constraint; else none.
pub open spec fn failure_spec(g: &Grading) -> FailureClass {
    if !g.compile_ok {
        classify_spec(g.error_codes@)
    } else if !behavior_full(g) {
        FailureClass::Logic
    } else if constraint_failed(g) {
        FailureClass::Constraint
    } else {
        FailureClass::NoFailure
    }
}

fn is_short(r: Option<(u32, u32)>) -> (b: bool)
    ensures
        b == short(r),
{
    match r {
        Some((p, t)) => p != t,
        None => false,
    }
}

impl Grading {
    /// The stage to run after `s`: a failed build ends the grading.
    pub fn stage_after(&self, s: Stage, l: &Layers) -> (r: Stage)
        ensures
            r == (if s == Stage::Build && !self.compile_ok {
                Stage::Done
            } else {
                next_spec(s, l)
            }),
    {
        if s == Stage::Build && !self.compile_ok {
            Stage::Done
        } else {
            next_stage(s, l)
        }
    }

    /// The failure class of the record, as `failure_spec` describes it.
    pub fn failure_class(&self) -> (r: FailureClass)
        ensures
            r == failure_spec(self),
    {
        if !self.compile_ok {
            classify_error_codes(self.error_codes.as_slice())
        } else if !((self.unit.is_some() || self.differential.is_some()) && !is_short(self.unit)
            && !is_short(self.differential)) {
            FailureClass::Logic
        } else if self.alloc_ok == Some(false) || self.clippy_clean == Some(false) {
            FailureClass::Constraint
        } else {
            FailureClass::NoFailure
        }
    }
}

/// The build failed on errors of the type-checking phase (types, traits,
/// name resolution, syntax): the compiler stopped before borrow checking,
/// so a borrow error may be hiding behind them.
pub open spec fn typeck_only_spec(g: &Grading) -> bool {
    !g.compile_ok && match classify_spec(g.error_codes@) {
        FailureClass::Trait | FailureClass::Type | FailureClass::Resolve | FailureClass::Syntax => true,
        _ => false,
    }
}

impl Grading {
    /// Whether the compiler stopped before borrow checking.
    pub fn typeck_only(&self) -> (r: bool)
        ensures
            r == typeck_only_spec(self),
    {
        if self.compile_ok {
            false
        } else {
            match classify_error_codes(self.error_codes.as_slice()) {
                FailureClass::Trait | FailureClass::Type | FailureClass::Resolve | FailureClass::Syntax => true,
                _ => false,
            }
        }
    }
}

/// An answer whose behaviour tests came back short is a logic failure,
/// whatever the constraint layers said.
pub proof fn law_short_behavior_is_logic(g: &Grading)
    requires
        g.compile_ok,
        short(g.unit) || short(g.differential),
    ensures
        failure_spec(g) == FailureClass::Logic,
{
}

/// A compiled answer with full behaviour and no failed constraint check is
/// graded as no failure.
pub proof fn law_clean_pass(g: &Grading)
    requires
        g.compile_ok,
        full(g.unit),
        !short(g.differential),
        g.alloc_ok != Some(false),
        g.clippy_clean != Some(false),
    ensures
        failure_spec(g) == FailureClass::NoFailure,
{
}

/// A compiled answer whose behaviour tests all passed but on which a
/// constraint check that ran failed (allocation or clippy) is a constraint
/// failure, never a pass.
pub proof fn law_failed_constraint_is_constraint(g: &Grading)
    requires
        g.compile_ok,
        g.unit is Some || g.differential is Some,
        g.unit matches Some((p, t)) ==> p == t,
        g.differential matches Some((p, t)) ==> p == t,
        g.alloc_ok == Some(false) || g.clippy_clean == Some(false),
    ensures
        failure_spec(g) == FailureClass::Constraint,
{
}

/// A compiled answer is classed `NoFailure` only when its behaviour is full
/// and no allocation or clippy check failed. (A build that failed without
/// any error code is classed by its empty code list, `NoFailure`, as the
/// classification of rustc codes does.)
pub proof fn law_no_failure_means_clean(g: &Grading)
    requires
        g.compile_ok,
        failure_spec(g) == FailureClass::NoFailure,
    ensures
        g.unit is Some || g.differential is Some,
        g.unit matches Some((p, t)) ==> p == t,
        g.differential matches Some((p, t)) ==> p == t,
        g.alloc_ok != Some(false),
        g.clippy_clean != Some(false),
{
}

} // verus!
