//! Shared arithmetic facts for the folding families: the worked examples draw
//! small values (`|v| <= 9`, at most 8 of them), and then no accumulator of
//! any reduction the families use can leave `i64`.

use vstd::prelude::*;
use crate::rng::{Rng, draw};

verus! {

/// `100^k`.
pub open spec fn pow100(k: nat) -> int
    decreases k,
{
    if k == 0 { 1 } else { 100 * pow100((k - 1) as nat) }
}

/// `1 <= 100^a <= 100^b` for `a <= b`.
pub proof fn lemma_pow100_mono(a: nat, b: nat)
    requires
        a <= b,
    ensures
        1 <= pow100(a) <= pow100(b),
    decreases b,
{
    if a < b {
        lemma_pow100_mono(a, (b - 1) as nat);
    } else if a > 0 {
        lemma_pow100_mono((a - 1) as nat, (a - 1) as nat);
    }
}

/// `100^8` is far inside `i64`.
pub proof fn lemma_pow100_8()
    ensures
        pow100(8) == 10_000_000_000_000_000,
{
    reveal_with_fuel(pow100, 9);
}

/// Every value is small: `-9 <= v <= 9`.
pub open spec fn all_small(s: Seq<i64>) -> bool {
    forall|i: int| 0 <= i < s.len() ==> -9 <= #[trigger] s[i] <= 9
}

/// One step of a small-valued fold stays within the next power of 100:
/// `acc + v`, `acc * v`, `acc + v * v`, `acc + |v|` and `acc + 1` all do.
pub proof fn lemma_small_step(acc: int, v: int, k: nat)
    requires
        -pow100(k) <= acc <= pow100(k),
        -9 <= v <= 9,
    ensures
        -pow100(k + 1) <= acc + v <= pow100(k + 1),
        -pow100(k + 1) <= acc * v <= pow100(k + 1),
        -pow100(k + 1) <= acc + v * v <= pow100(k + 1),
        -pow100(k + 1) <= acc - v <= pow100(k + 1),
        -pow100(k + 1) <= acc + 1 <= pow100(k + 1),
        -81 <= v * v <= 81,
{
    lemma_pow100_mono(0, k);
    let p = pow100(k);
    assert(pow100(k + 1) == 100 * p);
    assert(-9 * p <= acc * v <= 9 * p) by (nonlinear_arith)
        requires -p <= acc <= p, -9 <= v <= 9, p >= 1;
    assert(0 <= v * v <= 81) by (nonlinear_arith)
        requires -9 <= v <= 9;
}

/// `i64::abs`: the absolute value; documented to overflow (and panic in debug
/// builds) on `i64::MIN`, which `requires` leaves out.
pub assume_specification[ i64::abs ](x: i64) -> (r: i64)
    requires
        x != i64::MIN,
    ensures
        r == (if x < 0 { -x } else { x as int }),
;

/// The length of the random example input whose draws start at `k`.
pub open spec fn small_len(s: u64, k: nat) -> nat {
    (2 + draw(s, k) % 7) as nat
}

/// The random example input whose draws start at `k`: a length `2..=8`, then
/// that many values in `-9..=9`.
pub open spec fn small_input(s: u64, k: nat) -> Seq<i64> {
    Seq::new(small_len(s, k), |j: int| ((draw(s, (k + 1 + j) as nat) % 19) as int - 9) as i64)
}

pub open spec fn small_next(s: u64, k: nat) -> nat {
    k + 1 + small_len(s, k)
}

pub fn random_small_input(rng: &mut Rng) -> (r: Vec<i64>)
    ensures
        final(rng).seed() == old(rng).seed(),
        r@ == small_input(old(rng).seed(), old(rng).count()),
        final(rng).count() == small_next(old(rng).seed(), old(rng).count()),
        all_small(r@),
        2 <= r@.len() <= 8,
{
    let ghost s = rng.seed();
    let ghost k = rng.count();
    let len = 2 + rng.below(7) as usize;
    let mut v: Vec<i64> = Vec::new();
    let mut j: usize = 0;
    while j < len
        invariant
            j <= len,
            len == small_len(s, k),
            rng.seed() == s,
            rng.count() == k + 1 + j,
            v@.len() == j,
            forall|q: int| 0 <= q < j ==> #[trigger] v@[q] == small_input(s, k)[q],
            all_small(v@),
        decreases len - j,
    {
        let x = rng.below(19) as i64 - 9;
        v.push(x);
        j = j + 1;
    }
    assert(v@ =~= small_input(s, k));
    v
}


} // verus!
