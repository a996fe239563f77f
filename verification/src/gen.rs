//! Turns a seed into a fresh problem instance. A family is a function from a
//! seed to a concrete instance, its reference implementation, its oracle and
//! the skeleton the model completes, all built from the same seed.

pub mod bit_manipulation;
pub mod window_op;
pub mod fold;
pub mod unsafe_core;
pub mod raw_ptr_mut;
pub mod traits_generics;
pub mod grid_reduce;
pub mod string_processing;
pub mod idiom_refactor;
pub mod generic_select;
pub mod checked_eval;
pub mod dual_region;
pub mod idiom_counter;
pub mod seq_transform;
pub mod stack_machine;
pub mod error_handling;
pub mod registry;
pub mod distance;
pub mod epoch;

use vstd::prelude::*;
use crate::text::{push_str, push_hex_fixed, hex_fixed};
use crate::scan::chars_of;
use crate::vocab::Instance;

verus! {

/// A family could not supply `wanted` pairwise-distant instances within the
/// attempt budget: its distinct-task space is too small for the threshold.
#[derive(Clone, Copy, Debug, PartialEq, Eq, Structural)]
pub struct Exhausted {
    pub accepted: usize,
    pub wanted: usize,
    pub attempts: u32,
}

/// The text of an `Exhausted` report.
pub open spec fn exhausted_text(e: Exhausted) -> Seq<char> {
    "epoch sampling exhausted: accepted "@ + crate::text::dec_nat(e.accepted as nat) + "/"@
        + crate::text::dec_nat(e.wanted as nat) + " distinct instances after "@ + crate::text::dec_nat(
        e.attempts as nat,
    ) + " attempts \u{2014} the family's distinct-task space is too small for this threshold"@
}

impl Exhausted {
    /// The human-readable report.
    pub fn message(&self) -> (r: String)
        ensures
            r@ == exhausted_text(*self),
    {
        let mut s = crate::text::string_of("epoch sampling exhausted: accepted ");
        crate::text::push_u64(&mut s, self.accepted as u64);
        push_str(&mut s, "/");
        crate::text::push_u64(&mut s, self.wanted as u64);
        push_str(&mut s, " distinct instances after ");
        crate::text::push_u64(&mut s, self.attempts as u64);
        push_str(&mut s, " attempts \u{2014} the family's distinct-task space is too small for this threshold");
        s
    }
}

/// Per-category oracle weights, in hundredths (`70` is `0.70`).
#[derive(Clone, Copy, Debug, PartialEq, Eq, Structural)]
pub struct Weights {
    pub behavior: u32,
    pub constraint: u32,
    pub quality: u32,
}

/// A fully materialised generated task: the model's view, the hidden oracle,
/// the prompt, and the grading configuration derived from the same seed.
pub struct GeneratedTask {
    pub id: String,
    pub category: String,
    pub prompt: String,
    pub canary: String,
    /// Where the model's answer is written, e.g. `src/lib.rs`.
    pub answer_path: String,
    /// Files given to the model, `(path, contents)` in path order.
    pub files: Vec<(String, String)>,
    /// Hidden oracle files, `(path, contents)` in path order.
    pub hidden: Vec<(String, String)>,
    /// `cargo test --test` target names; empty when the stage is absent.
    pub behavior_test: String,
    pub differential_test: String,
    pub alloc_test: String,
    /// L3 AST constraint: max `unsafe` usages; `None` opts the check out.
    pub max_unsafe: Option<u32>,
    /// L3 AST constraint: forbidden type/function/method names.
    pub forbidden_paths: Vec<String>,
    /// L3 constraint: score the answer's clippy cleanliness.
    pub check_clippy: bool,
    /// Clippy lints not counted against cleanliness.
    pub clippy_allow: Vec<String>,
    pub weights: Weights,
}

impl GeneratedTask {
    /// What the model is shown, and the hidden oracle files.
    pub fn instance(&self) -> (r: Instance)
        ensures
            r.prompt@ == self.prompt@,
            file_views(r.files@) == file_views(self.files@),
            file_views(r.hidden@) == file_views(self.hidden@),
            r.canary@ == self.canary@,
    {
        Instance {
            prompt: String::from_str(self.prompt.as_str()),
            files: copy_files(&self.files),
            hidden: copy_files(&self.hidden),
            canary: String::from_str(self.canary.as_str()),
        }
    }

    /// The given files with the answer file replaced by `answer` (or added at
    /// its place in path order): how the reference and the skeleton are graded.
    pub fn files_with_answer(&self, answer: &str) -> (r: Vec<(String, String)>)
        requires
            paths_sorted(file_views(self.files@)),
        ensures
            paths_sorted(file_views(r@)),
            forall|e: (Seq<char>, Seq<char>)|
                file_views(r@).contains(e) <==> (e == (self.answer_path@, answer@) || (file_views(
                    self.files@,
                ).contains(e) && e.0 != self.answer_path@)),
    {
        let ghost fv = file_views(self.files@);
        let ghost ap = self.answer_path@;
        let key = chars_of(self.answer_path.as_str());
        let n = self.files.len();
        let mut r: Vec<(String, String)> = Vec::new();
        let mut i: usize = 0;
        while i < n && path_less(&chars_of(self.files[i].0.as_str()), &key)
            invariant
                i <= n,
                n == self.files@.len(),
                fv == file_views(self.files@),
                paths_sorted(fv),
                key@ == ap,
                file_views(r@) == fv.take(i as int),
                forall|k: int| 0 <= k < i ==> path_lt(#[trigger] fv[k].0, ap),
            decreases n - i,
        {
            let c = copy_entry(&self.files[i]);
            let ghost before = r@;
            r.push(c);
            assert(file_views(r@) =~= file_views(before).push((c.0@, c.1@)));
            assert(file_views(r@) =~= fv.take(i + 1));
            i = i + 1;
        }
        let ghost front = file_views(r@);
        let skip_from = if i < n && crate::vocab::string_eq_str(&self.files[i].0, self.answer_path.as_str()) {
            i + 1
        } else {
            i
        };
        proof {
            if i < n && skip_from == i {
                assert(!path_lt(fv[i as int].0, ap));
                assert(fv[i as int].0 != ap);
                lemma_path_total(fv[i as int].0, ap);
            }
            if skip_from == i + 1 && skip_from < n {
                assert(path_lt(fv[i as int].0, fv[i + 1].0));
            }
        }
        let entry = (String::from_str(self.answer_path.as_str()), String::from_str(answer));
        let ghost before = r@;
        r.push(entry);
        assert(file_views(r@) =~= file_views(before).push((ap, answer@)));
        let mut j: usize = skip_from;
        while j < n
            invariant
                skip_from <= j <= n,
                i <= skip_from <= i + 1,
                n == self.files@.len(),
                fv == file_views(self.files@),
                paths_sorted(fv),
                front == fv.take(i as int),
                skip_from < n ==> path_lt(ap, fv[skip_from as int].0),
                skip_from == i + 1 ==> fv[i as int].0 == ap,
                file_views(r@) == front.push((ap, answer@)) + fv.subrange(skip_from as int, j as int),
            decreases n - j,
        {
            let c = copy_entry(&self.files[j]);
            let ghost before = r@;
            r.push(c);
            assert(file_views(r@) =~= file_views(before).push((c.0@, c.1@)));
            assert(file_views(r@) =~= front.push((ap, answer@)) + fv.subrange(skip_from as int, j + 1));
            j = j + 1;
        }
        proof {
            let rv = file_views(r@);
            assert(rv =~= fv.take(i as int).push((ap, answer@)) + fv.skip(skip_from as int));
            assert forall|a: int, b: int| 0 <= a < b < rv.len() implies path_lt(#[trigger] rv[a].0, #[trigger] rv[b].0) by {
                if b < i {
                } else if a < i && b == i {
                } else if a < i {
                    let q = b - i - 1 + skip_from;
                    assert(rv[b] == fv[q]);
                    assert(path_lt(fv[a].0, fv[q].0));
                } else if a == i {
                    let q = b - i - 1 + skip_from;
                    assert(rv[b] == fv[q]);
                    if q > skip_from {
                        assert(path_lt(fv[skip_from as int].0, fv[q].0));
                        lemma_path_transitive(ap, fv[skip_from as int].0, fv[q].0);
                    }
                } else {
                    let qa = a - i - 1 + skip_from;
                    let qb = b - i - 1 + skip_from;
                    assert(rv[a] == fv[qa] && rv[b] == fv[qb]);
                }
            }
            assert forall|e: (Seq<char>, Seq<char>)|
                rv.contains(e) <==> (e == (ap, answer@) || (fv.contains(e) && e.0 != ap)) by {
                if rv.contains(e) {
                    let k = choose|k: int| 0 <= k < rv.len() && rv[k] == e;
                    if k < i {
                        assert(fv[k] == e);
                        lemma_path_irreflexive(ap);
                    } else if k > i {
                        let q = k - i - 1 + skip_from;
                        assert(fv[q] == e);
                        if skip_from < n {
                            if q > skip_from {
                                assert(path_lt(fv[skip_from as int].0, fv[q].0));
                                lemma_path_transitive(ap, fv[skip_from as int].0, fv[q].0);
                            }
                            lemma_path_irreflexive(ap);
                        }
                    }
                }
                if e == (ap, answer@) {
                    assert(rv[i as int] == e);
                }
                if fv.contains(e) && e.0 != ap {
                    let k = choose|k: int| 0 <= k < fv.len() && fv[k] == e;
                    if k < i {
                        assert(rv[k] == e);
                    } else if k >= skip_from {
                        assert(rv[k - skip_from + i + 1] == e);
                    } else {
                        assert(k == i && skip_from == i + 1);
                    }
                }
            }
        }
        r
    }
}

/// A file list as `(path, contents)` character sequences.
pub open spec fn file_views(f: Seq<(String, String)>) -> Seq<(Seq<char>, Seq<char>)> {
    f.map_values(|e: (String, String)| (e.0@, e.1@))
}

/// The order of relative paths: by their `/`-separated segments, each
/// compared by code point; this is character order with `/` below every
/// other character (for paths without empty or `.` segments).
pub open spec fn path_lt(a: Seq<char>, b: Seq<char>) -> bool
    decreases a.len(),
{
    if a.len() == 0 {
        b.len() > 0
    } else if b.len() == 0 {
        false
    } else if a[0] != b[0] {
        a[0] == '/' || (b[0] != '/' && a[0] < b[0])
    } else {
        path_lt(a.drop_first(), b.drop_first())
    }
}

/// Strictly increasing paths: in path order, no path twice.
pub open spec fn paths_sorted(f: Seq<(Seq<char>, Seq<char>)>) -> bool {
    forall|i: int, j: int| 0 <= i < j < f.len() ==> path_lt(#[trigger] f[i].0, #[trigger] f[j].0)
}

proof fn lemma_path_irreflexive(a: Seq<char>)
    ensures
        !path_lt(a, a),
    decreases a.len(),
{
    if a.len() > 0 {
        lemma_path_irreflexive(a.drop_first());
    }
}

proof fn lemma_path_total(a: Seq<char>, b: Seq<char>)
    ensures
        a != b ==> path_lt(a, b) || path_lt(b, a),
    decreases a.len(),
{
    if a.len() > 0 && b.len() > 0 && a[0] == b[0] {
        lemma_path_total(a.drop_first(), b.drop_first());
        if a.drop_first() == b.drop_first() {
            assert(a =~= seq![a[0]] + a.drop_first());
            assert(b =~= seq![b[0]] + b.drop_first());
        }
    } else if a.len() == 0 && b.len() == 0 {
        assert(a =~= b);
    }
}

proof fn lemma_path_asymmetric(a: Seq<char>, b: Seq<char>)
    ensures
        path_lt(a, b) ==> !path_lt(b, a),
    decreases a.len(),
{
    if a.len() > 0 && b.len() > 0 && a[0] == b[0] {
        lemma_path_asymmetric(a.drop_first(), b.drop_first());
    }
}

proof fn lemma_path_transitive(a: Seq<char>, b: Seq<char>, c: Seq<char>)
    ensures
        path_lt(a, b) && path_lt(b, c) ==> path_lt(a, c),
    decreases a.len(),
{
    if a.len() > 0 && b.len() > 0 && c.len() > 0 && a[0] == b[0] && b[0] == c[0] {
        lemma_path_transitive(a.drop_first(), b.drop_first(), c.drop_first());
    }
}

/// `path_lt(a, b)`.
pub fn path_less(a: &Vec<char>, b: &Vec<char>) -> (r: bool)
    ensures
        r == path_lt(a@, b@),
{
    let mut i: usize = 0;
    assert(a@.skip(0) =~= a@);
    assert(b@.skip(0) =~= b@);
    while i < a.len() && i < b.len() && a[i] == b[i]
        invariant
            i <= a.len(),
            i <= b.len(),
            path_lt(a@, b@) == path_lt(a@.skip(i as int), b@.skip(i as int)),
        decreases a.len() - i,
    {
        assert(a@.skip(i as int).drop_first() =~= a@.skip(i + 1));
        assert(b@.skip(i as int).drop_first() =~= b@.skip(i + 1));
        i = i + 1;
    }
    if i == a.len() {
        i < b.len()
    } else if i == b.len() {
        false
    } else {
        let x = a[i];
        let y = b[i];
        assert(a@.skip(i as int)[0] == x && b@.skip(i as int)[0] == y);
        assert(x != y);
        if x == '/' {
            true
        } else if y == '/' {
            false
        } else {
            x < y
        }
    }
}

fn copy_entry(e: &(String, String)) -> (r: (String, String))
    ensures
        r.0@ == e.0@ && r.1@ == e.1@,
{
    (String::from_str(e.0.as_str()), String::from_str(e.1.as_str()))
}

/// A copy of a file list.
pub fn copy_files(f: &Vec<(String, String)>) -> (r: Vec<(String, String)>)
    ensures
        file_views(r@) == file_views(f@),
{
    let mut r: Vec<(String, String)> = Vec::new();
    let mut i: usize = 0;
    while i < f.len()
        invariant
            i <= f.len(),
            file_views(r@) == file_views(f@).take(i as int),
        decreases f.len() - i,
    {
        let c = copy_entry(&f[i]);
        let ghost before = r@;
        r.push(c);
        assert(file_views(r@) =~= file_views(before).push((c.0@, c.1@)));
        assert(file_views(r@) =~= file_views(f@).take(i + 1));
        i = i + 1;
    }
    assert(file_views(f@).take(f.len() as int) =~= file_views(f@));
    r
}

/// The manifest every generated task crate uses.
pub open spec fn cargo_toml_text() -> Seq<char> {
    "[package]\nname = \"task\"\nversion = \"0.0.0\"\nedition = \"2021\"\n\n[lib]\npath = \"src/lib.rs\"\n\n[workspace]\n"@
}

pub fn cargo_toml() -> (r: String)
    ensures
        r@ == cargo_toml_text(),
{
    String::from_str("[package]\nname = \"task\"\nversion = \"0.0.0\"\nedition = \"2021\"\n\n[lib]\npath = \"src/lib.rs\"\n\n[workspace]\n")
}

/// A task id: the family id, `/`, and the seed as 16 hex digits.
pub open spec fn task_id_text(family: Seq<char>, seed: u64) -> Seq<char> {
    family + "/"@ + hex_fixed(seed as nat, 16)
}

pub fn task_id(family: &str, seed: u64) -> (r: String)
    ensures
        r@ == task_id_text(family@, seed),
{
    let mut s = String::from_str(family);
    push_str(&mut s, "/");
    push_hex_fixed(&mut s, seed, 16);
    s
}

/// The closing paragraph of every prompt: return one rust code block, and the
/// canary reference.
pub open spec fn prompt_tail(canary: Seq<char>) -> Seq<char> {
    "Return the complete contents of `src/lib.rs` as a single ```rust code block. (ref: "@ + canary + ")\n"@
}

pub fn push_prompt_tail(s: &mut String, canary: &str)
    ensures
        final(s)@ == old(s)@ + prompt_tail(canary@),
{
    push_str(s, "Return the complete contents of `src/lib.rs` as a single ```rust code block. (ref: ");
    push_str(s, canary);
    push_str(s, ")\n");
}

/// The hidden allocation-counting test: a counting global allocator around one
/// call, `call`, on a 256-element vector `v`, which must return a positive count
/// and allocate nothing.
pub open spec fn alloc_test_text(name: Seq<char>, call: Seq<char>) -> Seq<char> {
    "use task::"@ + name + ";\nuse std::alloc::{GlobalAlloc, Layout, System};\nuse std::sync::atomic::{AtomicUsize, Ordering};\n\nstatic ALLOCS: AtomicUsize = AtomicUsize::new(0);\nstruct Counting;\nunsafe impl GlobalAlloc for Counting {\n    unsafe fn alloc(&self, l: Layout) -> *mut u8 { ALLOCS.fetch_add(1, Ordering::SeqCst); System.alloc(l) }\n    unsafe fn dealloc(&self, p: *mut u8, l: Layout) { System.dealloc(p, l) }\n}\n#[global_allocator]\nstatic GLOBAL: Counting = Counting;\n\n#[test]\nfn hot_path_does_not_allocate() {\n    let mut v: Vec<i64> = (0..256).collect();\n    let before = ALLOCS.load(Ordering::SeqCst);\n    let n = "@
        + call + ";\n    let after = ALLOCS.load(Ordering::SeqCst);\n    assert!(n > 0);\n    assert_eq!(after - before, 0, \"allocated {} time(s)\", after - before);\n}\n"@
}

pub fn alloc_test(name: &str, call: &str) -> (r: String)
    ensures
        r@ == alloc_test_text(name@, call@),
{
    let mut s = String::from_str("use task::");
    push_str(&mut s, name);
    push_str(&mut s, ";\nuse std::alloc::{GlobalAlloc, Layout, System};\nuse std::sync::atomic::{AtomicUsize, Ordering};\n\nstatic ALLOCS: AtomicUsize = AtomicUsize::new(0);\nstruct Counting;\nunsafe impl GlobalAlloc for Counting {\n    unsafe fn alloc(&self, l: Layout) -> *mut u8 { ALLOCS.fetch_add(1, Ordering::SeqCst); System.alloc(l) }\n    unsafe fn dealloc(&self, p: *mut u8, l: Layout) { System.dealloc(p, l) }\n}\n#[global_allocator]\nstatic GLOBAL: Counting = Counting;\n\n#[test]\nfn hot_path_does_not_allocate() {\n    let mut v: Vec<i64> = (0..256).collect();\n    let before = ALLOCS.load(Ordering::SeqCst);\n    let n = ");
    push_str(&mut s, call);
    push_str(&mut s, ";\n    let after = ALLOCS.load(Ordering::SeqCst);\n    assert!(n > 0);\n    assert_eq!(after - before, 0, \"allocated {} time(s)\", after - before);\n}\n");
    s
}

} // verus!
