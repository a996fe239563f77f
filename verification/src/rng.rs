//! A small deterministic PRNG (SplitMix64). Generation must be pure in the
//! seed — same seed, byte-identical instance — so nothing here touches the OS.

use vstd::prelude::*;

verus! {

/// The SplitMix64 increment (the golden-ratio constant).
pub const GOLDEN: u64 = 0x9E3779B97F4A7C15;

/// The SplitMix64 output function applied to an advanced state.
pub open spec fn mix(state: u64) -> u64 {
    let z1 = (state ^ (state >> 30u64)).wrapping_mul(0xBF58476D1CE4E5B9u64);
    let z2 = (z1 ^ (z1 >> 27u64)).wrapping_mul(0x94D049BB133111EBu64);
    z2 ^ (z2 >> 31u64)
}

/// The generator state after `k` draws from `Rng::new(seed)`.
pub closed spec fn state_after(seed: u64, k: nat) -> u64
    decreases k,
{
    if k == 0 {
        seed.wrapping_add(GOLDEN)
    } else {
        state_after(seed, (k - 1) as nat).wrapping_add(GOLDEN)
    }
}

/// The `k`-th value (counting from 0) that `next_u64` returns on a generator
/// made by `Rng::new(seed)`.
pub closed spec fn draw(seed: u64, k: nat) -> u64 {
    mix(state_after(seed, k + 1))
}

pub struct Rng {
    state: u64,
    seed: Ghost<u64>,
    count: Ghost<nat>,
}

impl Rng {
    #[verifier::type_invariant]
    spec fn on_stream(self) -> bool {
        self.state == state_after(self.seed@, self.count@)
    }

    /// The seed this generator was made from.
    pub closed spec fn seed(&self) -> u64 {
        self.seed@
    }

    /// How many values it has returned so far.
    pub closed spec fn count(&self) -> nat {
        self.count@
    }

    pub fn new(seed: u64) -> (r: Rng)
        ensures
            r.seed() == seed,
            r.count() == 0,
    {
        Rng { state: seed.wrapping_add(GOLDEN), seed: Ghost(seed), count: Ghost(0) }
    }

    /// The next value of the stream: `draw(seed, count)`.
    pub fn next_u64(&mut self) -> (r: u64)
        ensures
            final(self).seed() == old(self).seed(),
            final(self).count() == old(self).count() + 1,
            r == draw(old(self).seed(), old(self).count()),
    {
        proof {
            use_type_invariant(&*self);
        }
        let next = self.state.wrapping_add(GOLDEN);
        let ghost c = self.count@;
        let ghost sd = self.seed@;
        *self = Rng { state: next, seed: Ghost(sd), count: Ghost(c + 1) };
        let mut z = next;
        z = (z ^ (z >> 30)).wrapping_mul(0xBF58476D1CE4E5B9);
        z = (z ^ (z >> 27)).wrapping_mul(0x94D049BB133111EB);
        z ^ (z >> 31)
    }

    /// Uniform in `0..n`: the next value of the stream, modulo `n`.
    pub fn below(&mut self, n: u64) -> (r: u64)
        requires
            n > 0,
        ensures
            final(self).seed() == old(self).seed(),
            final(self).count() == old(self).count() + 1,
            r == draw(old(self).seed(), old(self).count()) % n,
            r < n,
    {
        self.next_u64() % n
    }
}

/// The stream in closed form: the `k`-th value of `Rng::new(seed)` is the
/// output function applied to `seed + (k + 2)·GOLDEN`, modulo 2^64.
pub proof fn lemma_draw_closed_form(seed: u64, k: nat)
    ensures
        draw(seed, k) == mix(((seed as int + (k + 2) * (GOLDEN as int)) % 0x1_0000_0000_0000_0000int) as u64),
{
    lemma_state_after(seed, k + 1);
}

proof fn lemma_state_after(seed: u64, j: nat)
    ensures
        state_after(seed, j) as int == (seed as int + (j + 1) * (GOLDEN as int)) % 0x1_0000_0000_0000_0000int,
    decreases j,
{
    let m = 0x1_0000_0000_0000_0000int;
    let g = GOLDEN as int;
    if j == 0 {
        let x = seed as int + g;
        assert(x < 2 * m);
        if x >= m {
            vstd::arithmetic::div_mod::lemma_mod_sub_multiples_vanish(x, m);
            vstd::arithmetic::div_mod::lemma_small_mod((x - m) as nat, m as nat);
        } else {
            vstd::arithmetic::div_mod::lemma_small_mod(x as nat, m as nat);
        }
    } else {
        lemma_state_after(seed, (j - 1) as nat);
        let a = seed as int + j * g;
        let p = state_after(seed, (j - 1) as nat) as int;
        assert(p == a % m);
        vstd::arithmetic::div_mod::lemma_add_mod_noop(a, g, m);
        vstd::arithmetic::div_mod::lemma_small_mod(g as nat, m as nat);
        assert((p + g) % m == (a + g) % m);
        let x = p + g;
        assert(0 <= x < 2 * m);
        if x >= m {
            vstd::arithmetic::div_mod::lemma_mod_sub_multiples_vanish(x, m);
            vstd::arithmetic::div_mod::lemma_small_mod((x - m) as nat, m as nat);
        } else {
            vstd::arithmetic::div_mod::lemma_small_mod(x as nat, m as nat);
        }
        assert(a + g == seed as int + (j + 1) * g);
    }
}

/// Multiplying by `c` modulo 2^64 is one-to-one when `c` has an inverse
/// `c_inv` (`c · c_inv = 1 + t·2^64`).
proof fn lemma_mul_injective(x: u64, y: u64, c: u64, c_inv: int, t: int)
    requires
        c * c_inv == 1 + t * 0x1_0000_0000_0000_0000int,
        (x * c) % 0x1_0000_0000_0000_0000int == (y * c) % 0x1_0000_0000_0000_0000int,
    ensures
        x == y,
{
    let m = 0x1_0000_0000_0000_0000int;
    let d = x as int - y as int;
    vstd::arithmetic::div_mod::lemma_sub_mod_noop(x * c, y * c, m);
    assert((x * c - y * c) % m == 0);
    assert(d * c == x * c - y * c) by (nonlinear_arith)
        requires d == x as int - y as int;
    vstd::arithmetic::div_mod::lemma_fundamental_div_mod(d * c, m);
    let q = (d * c) / m;
    assert(d * c == m * q);
    let k = q * c_inv - d * t;
    assert(d == m * k) by (nonlinear_arith)
        requires d * c == m * q, c * c_inv == 1 + t * m, k == q * c_inv - d * t;
    assert(-m < d < m);
    assert(d == 0) by (nonlinear_arith)
        requires d == m * k, -m < d < m, m > 0;
}

/// The output function is one-to-one: each of its steps (an xor with a
/// right shift of itself, a multiplication by an odd constant) is.
pub proof fn lemma_mix_injective(x: u64, y: u64)
    requires
        mix(x) == mix(y),
    ensures
        x == y,
{
    let m = 0x1_0000_0000_0000_0000int;
    let a1 = x ^ (x >> 30u64);
    let b1 = y ^ (y >> 30u64);
    let a2 = a1.wrapping_mul(0xBF58476D1CE4E5B9u64);
    let b2 = b1.wrapping_mul(0xBF58476D1CE4E5B9u64);
    let a3 = a2 ^ (a2 >> 27u64);
    let b3 = b2 ^ (b2 >> 27u64);
    let a4 = a3.wrapping_mul(0x94D049BB133111EBu64);
    let b4 = b3.wrapping_mul(0x94D049BB133111EBu64);
    assert(a4 ^ (a4 >> 31u64) == b4 ^ (b4 >> 31u64));
    assert(a4 ^ (a4 >> 31u64) == b4 ^ (b4 >> 31u64) ==> a4 == b4) by (bit_vector);
    lemma_mul_injective(a3, b3, 0x94D049BB133111EBu64, 0x319642b2d24d8ec3int, 2077064247507883091int);
    assert(a3 == b3);
    assert(a2 ^ (a2 >> 27u64) == b2 ^ (b2 >> 27u64) ==> a2 == b2) by (bit_vector);
    lemma_mul_injective(a1, b1, 0xBF58476D1CE4E5B9u64, 0x96de1b173f119089int, 8125545580553827436int);
    assert(a1 == b1);
    assert(x ^ (x >> 30u64) == y ^ (y >> 30u64) ==> x == y) by (bit_vector);
}

/// Different seeds start different streams: the first value a generator
/// returns determines the seed it was made from.
pub proof fn law_first_draw_injective(a: u64, b: u64)
    ensures
        draw(a, 0) == draw(b, 0) ==> a == b,
{
    let m = 0x1_0000_0000_0000_0000int;
    let g2 = 2 * (GOLDEN as int);
    lemma_draw_closed_form(a, 0);
    lemma_draw_closed_form(b, 0);
    if draw(a, 0) == draw(b, 0) {
        let xa = (a as int + g2) % m;
        let xb = (b as int + g2) % m;
        assert(0 <= xa < m && 0 <= xb < m);
        lemma_mix_injective(xa as u64, xb as u64);
        assert(xa == xb);
        vstd::arithmetic::div_mod::lemma_sub_mod_noop(a as int + g2, b as int + g2, m);
        assert((a as int - b as int) % m == 0);
        if a >= b {
            vstd::arithmetic::div_mod::lemma_small_mod((a - b) as nat, m as nat);
        } else {
            vstd::arithmetic::div_mod::lemma_small_mod((b - a) as nat, m as nat);
            vstd::arithmetic::div_mod::lemma_mod_sub_multiples_vanish(a as int - b as int + m, m);
            vstd::arithmetic::div_mod::lemma_small_mod((a as int - b as int + m) as nat, m as nat);
        }
    }
}

} // verus!
