//! Distance-aware epoch sampling. Candidate seeds are taken in order and a
//! candidate is rejected when its model view is closer than the floor to an
//! already accepted one, so the seeds of a plan are pairwise distant by
//! construction. The plan is a function of the family, the candidates, the
//! count, the floor and the attempt budget, so a replay serves the same set.
//! A family that cannot supply the count within the budget is reported as
//! `Exhausted`, never served with twins.

use vstd::prelude::*;
use crate::digest::{derive_seed, derived_seed};
use crate::gen::{GeneratedTask, Exhausted, file_views};
use crate::gen::distance::{K, shingles, shingle_set, overlap_spec, far_apart, lists_apart};
use crate::gen::registry::{Family, prompt_of, files_of, id_text};
use crate::diagnostics::strictly_sorted;
use crate::text::{push_str, string_views};
use crate::vocab::string_eq_str;

verus! {

/// The anti-twin floor for parametric families, in hundredths of the
/// shingle distance (`25` is `0.25`).
pub const MIN_INSTANCE_DISTANCE: u32 = 25;

/// The contents of the first file at `path`, or nothing.
pub open spec fn file_at(files: Seq<(Seq<char>, Seq<char>)>, path: Seq<char>) -> Seq<char>
    decreases files.len(),
{
    if files.len() == 0 {
        Seq::empty()
    } else if files[0].0 == path {
        files[0].1
    } else {
        file_at(files.drop_first(), path)
    }
}

/// What the model sees of an instance: the prompt, a newline, and the file it
/// answers in.
pub open spec fn view_text(prompt: Seq<char>, files: Seq<(Seq<char>, Seq<char>)>, path: Seq<char>) -> Seq<char> {
    prompt + "\n"@ + file_at(files, path)
}

/// The model view of instance `seed` of `f`.
pub open spec fn model_view_spec(f: Family, seed: u64) -> Seq<char> {
    view_text(prompt_of(f, seed), files_of(f, seed), "src/lib.rs"@)
}

/// Two views at least `pct` hundredths apart in shingle distance.
pub open spec fn apart(a: Seq<char>, b: Seq<char>, pct: nat) -> bool {
    far_apart(overlap_spec(shingle_set(a, K as nat), shingle_set(b, K as nat)), pct)
}

/// `seed`'s view is far enough from the view of every accepted seed.
pub open spec fn fits(f: Family, accepted: Seq<u64>, seed: u64, pct: nat) -> bool {
    forall|j: int|
        0 <= j < accepted.len() ==> #[trigger] apart(model_view_spec(f, accepted[j]), model_view_spec(f, seed), pct)
}

/// The greedy pass over `c`: the seeds accepted and the candidates examined.
/// It stops examining once `n` seeds are accepted or `max` candidates were
/// examined.
pub open spec fn greedy(f: Family, c: Seq<u64>, n: nat, pct: nat, max: nat) -> (Seq<u64>, nat)
    decreases c.len(),
{
    if c.len() == 0 {
        (Seq::empty(), 0)
    } else {
        let prev = greedy(f, c.drop_last(), n, pct, max);
        if prev.0.len() >= n || prev.1 >= max {
            prev
        } else if fits(f, prev.0, c.last(), pct) {
            (prev.0.push(c.last()), prev.1 + 1)
        } else {
            (prev.0, prev.1 + 1)
        }
    }
}

/// Every two accepted seeds are apart, the accepted seeds are among those
/// examined, and the budget and the count bound what the pass did.
pub proof fn lemma_greedy_shape(f: Family, c: Seq<u64>, n: nat, pct: nat, max: nat)
    ensures
        greedy(f, c, n, pct, max).0.len() <= greedy(f, c, n, pct, max).1,
        greedy(f, c, n, pct, max).1 <= max,
        greedy(f, c, n, pct, max).1 <= c.len(),
        greedy(f, c, n, pct, max).0.len() <= n,
        forall|i: int, j: int|
            0 <= i < j < greedy(f, c, n, pct, max).0.len() ==> apart(
                model_view_spec(f, #[trigger] greedy(f, c, n, pct, max).0[i]),
                model_view_spec(f, #[trigger] greedy(f, c, n, pct, max).0[j]),
                pct,
            ),
    decreases c.len(),
{
    if c.len() > 0 {
        lemma_greedy_shape(f, c.drop_last(), n, pct, max);
        let prev = greedy(f, c.drop_last(), n, pct, max);
        let g = greedy(f, c, n, pct, max);
        if !(prev.0.len() >= n || prev.1 >= max) && fits(f, prev.0, c.last(), pct) {
            assert forall|i: int, j: int| 0 <= i < j < g.0.len() implies apart(
                model_view_spec(f, g.0[i]),
                model_view_spec(f, g.0[j]),
                pct,
            ) by {
                if j == g.0.len() - 1 {
                    assert(g.0[j] == c.last());
                    assert(g.0[i] == prev.0[i]);
                    assert(apart(model_view_spec(f, prev.0[i]), model_view_spec(f, c.last()), pct));
                } else {
                    assert(g.0[i] == prev.0[i] && g.0[j] == prev.0[j]);
                }
            }
        }
    }
}

/// A plan: `seeds` whose model views, `views`, are pairwise at least the
/// floor apart; `attempts` candidates were examined to find them.
pub struct EpochPlan {
    pub seeds: Vec<u64>,
    pub views: Vec<String>,
    pub attempts: u32,
}

impl EpochPlan {
    /// Candidates examined but rejected as too close to an accepted one.
    pub fn rejected(&self) -> (r: u32)
        requires
            self.seeds.len() <= self.attempts,
        ensures
            r == self.attempts - self.seeds.len(),
    {
        self.attempts - self.seeds.len() as u32
    }
}

/// The contents of the first file whose path is `path`, or the empty string.
fn find_file(files: &Vec<(String, String)>, path: &str) -> (r: String)
    ensures
        r@ == file_at(file_views(files@), path@),
{
    let ghost fv = file_views(files@);
    let mut i: usize = 0;
    assert(fv.skip(0) =~= fv);
    while i < files.len()
        invariant
            i <= files.len(),
            fv == file_views(files@),
            file_at(fv, path@) == file_at(fv.skip(i as int), path@),
        decreases files.len() - i,
    {
        assert(fv.skip(i as int)[0] == fv[i as int]);
        if string_eq_str(&files[i].0, path) {
            return String::from_str(files[i].1.as_str());
        }
        assert(fv.skip(i as int).drop_first() =~= fv.skip(i + 1));
        i = i + 1;
    }
    assert(fv.skip(i as int).len() == 0);
    String::new()
}

/// The model-visible text of a generated instance: the prompt, a newline and
/// the contents of the answer file (empty when it is not among the files).
pub fn view_of(task: &GeneratedTask) -> (r: String)
    ensures
        r@ == view_text(task.prompt@, file_views(task.files@), task.answer_path@),
{
    let skeleton = find_file(&task.files, task.answer_path.as_str());
    let mut s = String::from_str(task.prompt.as_str());
    push_str(&mut s, "\n");
    push_str(&mut s, skeleton.as_str());
    s
}

/// Generate instance `seed` of `f` and return its model view.
pub fn model_view(f: &Family, seed: u64) -> (r: String)
    ensures
        r@ == model_view_spec(*f, seed),
{
    let t = f.generate(seed);
    view_of(&t)
}

/// Whether `view`'s shingle list is at least `pct` apart from each of `sh`.
fn far_from_all(sh: &Vec<Vec<String>>, sv: &Vec<String>, pct: u32) -> (r: bool)
    requires
        strictly_sorted(string_views(sv@)),
        forall|j: int| 0 <= j < sh.len() ==> strictly_sorted(#[trigger] string_views(sh@[j]@)),
    ensures
        r == forall|j: int|
            0 <= j < sh.len() ==> #[trigger] far_apart(
                overlap_spec(string_views(sh@[j]@).to_set(), string_views(sv@).to_set()),
                pct as nat,
            ),
{
    let mut j: usize = 0;
    while j < sh.len()
        invariant
            j <= sh.len(),
            strictly_sorted(string_views(sv@)),
            forall|q: int| 0 <= q < sh.len() ==> strictly_sorted(#[trigger] string_views(sh@[q]@)),
            forall|q: int|
                0 <= q < j ==> #[trigger] far_apart(
                    overlap_spec(string_views(sh@[q]@).to_set(), string_views(sv@).to_set()),
                    pct as nat,
                ),
        decreases sh.len() - j,
    {
        assert(strictly_sorted(string_views(sh@[j as int]@)));
        if !lists_apart(&sh[j], sv, pct) {
            return false;
        }
        j = j + 1;
    }
    true
}

/// Select `n` seeds from `candidates` whose model views are pairwise at least
/// `pct` hundredths apart, greedily in candidate order; at most
/// `max_attempts` candidates are examined. `Exhausted` when fewer than `n`
/// could be accepted.
pub fn plan_epoch_from(f: &Family, candidates: &[u64], n: usize, pct: u32, max_attempts: u32) -> (r: Result<
    EpochPlan,
    Exhausted,
>)
    ensures
        ({
            let g = greedy(*f, candidates@, n as nat, pct as nat, max_attempts as nat);
            match r {
                Ok(p) => {
                    &&& g.0.len() >= n
                    &&& p.seeds@ == g.0
                    &&& p.attempts == g.1
                    &&& p.views.len() == p.seeds.len()
                    &&& forall|j: int| 0 <= j < p.views.len() ==> #[trigger] p.views@[j]@ == model_view_spec(*f, p.seeds@[j])
                },
                Err(e) => {
                    &&& g.0.len() < n
                    &&& e.accepted == g.0.len()
                    &&& e.wanted == n
                    &&& e.attempts == g.1
                },
            }
        }),
        r is Ok ==> r->Ok_0.seeds.len() <= r->Ok_0.attempts,
        r is Ok ==> forall|i: int, j: int|
            0 <= i < j < r->Ok_0.views.len() ==> apart(#[trigger] r->Ok_0.views@[i]@, #[trigger] r->Ok_0.views@[j]@, pct as nat),
{
    let ghost c = candidates@;
    let mut seeds: Vec<u64> = Vec::new();
    let mut views: Vec<String> = Vec::new();
    let mut sh: Vec<Vec<String>> = Vec::new();
    let mut attempts: u32 = 0;
    let mut i: usize = 0;
    assert(c.take(0) =~= Seq::<u64>::empty());
    while i < candidates.len()
        invariant
            i <= candidates.len(),
            c == candidates@,
            seeds@ == greedy(*f, c.take(i as int), n as nat, pct as nat, max_attempts as nat).0,
            attempts == greedy(*f, c.take(i as int), n as nat, pct as nat, max_attempts as nat).1,
            views.len() == seeds.len(),
            sh.len() == seeds.len(),
            forall|j: int| 0 <= j < views.len() ==> #[trigger] views@[j]@ == model_view_spec(*f, seeds@[j]),
            forall|j: int| 0 <= j < sh.len() ==> strictly_sorted(#[trigger] string_views(sh@[j]@)),
            forall|j: int|
                0 <= j < sh.len() ==> #[trigger] string_views(sh@[j]@).to_set() == shingle_set(views@[j]@, K as nat),
        decreases candidates.len() - i,
    {
        proof {
            lemma_greedy_shape(*f, c.take(i as int), n as nat, pct as nat, max_attempts as nat);
        }
        assert(c.take(i + 1).drop_last() =~= c.take(i as int));
        assert(c.take(i + 1).last() == c[i as int]);
        if seeds.len() < n && attempts < max_attempts {
            let seed = candidates[i];
            let view = model_view(f, seed);
            let sv = shingles(view.as_str(), K);
            let ok = far_from_all(&sh, &sv, pct);
            let ghost prev = seeds@;
            assert(ok == fits(*f, prev, seed, pct as nat)) by {
                if ok {
                    assert forall|j: int| 0 <= j < prev.len() implies #[trigger] apart(
                        model_view_spec(*f, prev[j]),
                        model_view_spec(*f, seed),
                        pct as nat,
                    ) by {
                        assert(far_apart(
                            overlap_spec(string_views(sh@[j]@).to_set(), string_views(sv@).to_set()),
                            pct as nat,
                        ));
                        assert(views@[j]@ == model_view_spec(*f, seeds@[j]));
                    }
                } else {
                    let j = choose|j: int|
                        0 <= j < sh.len() && !#[trigger] far_apart(
                            overlap_spec(string_views(sh@[j]@).to_set(), string_views(sv@).to_set()),
                            pct as nat,
                        );
                    assert(views@[j]@ == model_view_spec(*f, seeds@[j]));
                    assert(string_views(sh@[j]@).to_set() == shingle_set(views@[j]@, K as nat));
                    assert(!apart(model_view_spec(*f, prev[j]), model_view_spec(*f, seed), pct as nat));
                }
            }
            if ok {
                seeds.push(seed);
                views.push(view);
                sh.push(sv);
            }
            attempts = attempts + 1;
        }
        i = i + 1;
    }
    assert(c.take(candidates.len() as int) =~= c);
    proof {
        lemma_greedy_shape(*f, c, n as nat, pct as nat, max_attempts as nat);
    }
    if seeds.len() < n {
        return Err(Exhausted { accepted: seeds.len(), wanted: n, attempts });
    }
    let plan = EpochPlan { seeds, views, attempts };
    assert forall|i: int, j: int| 0 <= i < j < plan.views.len() implies apart(
        #[trigger] plan.views@[i]@,
        #[trigger] plan.views@[j]@,
        pct as nat,
    ) by {
        assert(plan.views@[i]@ == model_view_spec(*f, plan.seeds@[i]));
        assert(plan.views@[j]@ == model_view_spec(*f, plan.seeds@[j]));
    }
    Ok(plan)
}

/// The production candidate pool of `f` for an epoch: the seeds
/// `derive_seed(epoch, id, i)` for `i` below `count`.
pub open spec fn epoch_candidates(f: Family, epoch: Seq<char>, count: nat) -> Seq<u64> {
    Seq::new(count, |i: int| derived_seed(epoch, id_text(f), i as u32) as u64)
}

/// `plan_epoch_from` over the production seed pool of `f` for `epoch`. At
/// most `max_attempts` candidates are examined, so the pool is the first
/// `max_attempts` derived seeds.
pub fn plan_epoch(f: &Family, epoch: &str, n: usize, pct: u32, max_attempts: u32) -> (r: Result<EpochPlan, Exhausted>)
    ensures
        ({
            let g = greedy(*f, epoch_candidates(*f, epoch@, max_attempts as nat), n as nat, pct as nat, max_attempts as nat);
            match r {
                Ok(p) => {
                    &&& g.0.len() >= n
                    &&& p.seeds@ == g.0
                    &&& p.attempts == g.1
                    &&& p.views.len() == p.seeds.len()
                    &&& forall|j: int| 0 <= j < p.views.len() ==> #[trigger] p.views@[j]@ == model_view_spec(*f, p.seeds@[j])
                },
                Err(e) => {
                    &&& g.0.len() < n
                    &&& e.accepted == g.0.len()
                    &&& e.wanted == n
                    &&& e.attempts == g.1
                },
            }
        }),
        r is Ok ==> forall|i: int, j: int|
            0 <= i < j < r->Ok_0.views.len() ==> apart(#[trigger] r->Ok_0.views@[i]@, #[trigger] r->Ok_0.views@[j]@, pct as nat),
{
    let id = f.id();
    let mut pool: Vec<u64> = Vec::new();
    let mut i: u32 = 0;
    while i < max_attempts
        invariant
            i <= max_attempts,
            id@ == id_text(*f),
            pool@ =~= epoch_candidates(*f, epoch@, max_attempts as nat).take(i as int),
        decreases max_attempts - i,
    {
        let s = derive_seed(epoch, id, i);
        assert(s == derived_seed(epoch@, id_text(*f), i) as u64);
        pool.push(s);
        i = i + 1;
    }
    assert(pool@ =~= epoch_candidates(*f, epoch@, max_attempts as nat));
    plan_epoch_from(f, pool.as_slice(), n, pct, max_attempts)
}

} // verus!
