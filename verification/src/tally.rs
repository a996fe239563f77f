//! Counting over a journal: the discordant pairs of two pass bits, and the
//! cost totals behind the throughput figures, with the first unit of each
//! run segment left out for cache warmth.

use vstd::prelude::*;

verus! {

/// How many `(true, false)` and how many `(false, true)` pairs `s` holds.
pub open spec fn discordant_spec(s: Seq<(bool, bool)>) -> (nat, nat)
    decreases s.len(),
{
    if s.len() == 0 {
        (0, 0)
    } else {
        let prev = discordant_spec(s.drop_last());
        let (a, b) = s.last();
        if a && !b {
            (prev.0 + 1, prev.1)
        } else if !a && b {
            (prev.0, prev.1 + 1)
        } else {
            prev
        }
    }
}

proof fn lemma_discordant_bound(s: Seq<(bool, bool)>)
    ensures
        discordant_spec(s).0 + discordant_spec(s).1 <= s.len(),
    decreases s.len(),
{
    if s.len() > 0 {
        lemma_discordant_bound(s.drop_last());
    }
}

/// The discordant pairs: first passed while second failed, and the
/// reverse. Concordant pairs are not counted.
pub fn discordant(pairs: &[(bool, bool)]) -> (r: (u32, u32))
    requires
        pairs@.len() <= u32::MAX,
    ensures
        (r.0 as nat, r.1 as nat) == discordant_spec(pairs@),
{
    let mut first: u32 = 0;
    let mut second: u32 = 0;
    let mut i: usize = 0;
    assert(pairs@.take(0) =~= Seq::<(bool, bool)>::empty());
    while i < pairs.len()
        invariant
            i <= pairs@.len() <= u32::MAX,
            (first as nat, second as nat) == discordant_spec(pairs@.take(i as int)),
        decreases pairs.len() - i,
    {
        proof {
            lemma_discordant_bound(pairs@.take(i as int));
        }
        assert(pairs@.take(i + 1).drop_last() =~= pairs@.take(i as int));
        let (a, b) = pairs[i];
        if a && !b {
            first = first + 1;
        } else if !a && b {
            second = second + 1;
        }
        i = i + 1;
    }
    assert(pairs@.take(pairs.len() as int) =~= pairs@);
    (first, second)
}

/// Units at the start of each run segment left out of the throughput
/// totals: the first unit of a session builds with a cold cache.
pub const SEGMENT_WARMUP_UNITS: u32 = 1;

/// What the throughput totals read of one journalled unit.
#[derive(Clone, Copy, Debug, PartialEq, Eq, Structural)]
pub struct UnitCost {
    pub gen_ms: u64,
    pub grade_ms: u64,
    pub completion_tokens: u32,
    /// The unit's position in its run segment, when it has one.
    pub segment_position: Option<u32>,
    /// A scored core unit that passed.
    pub core_pass: bool,
}

/// The unit carries timing.
pub open spec fn timed(u: UnitCost) -> bool {
    u.gen_ms != 0 || u.grade_ms != 0
}

/// The unit warmed a cold cache.
pub open spec fn warmup(u: UnitCost) -> bool {
    u.segment_position matches Some(p) && p < SEGMENT_WARMUP_UNITS
}

/// Some timed unit is not a warmup unit: only then are warmup units left
/// out, so that leaving them out never drops every timed unit.
pub open spec fn steady_exists(s: Seq<UnitCost>) -> bool {
    exists|i: int| 0 <= i < s.len() && timed(#[trigger] s[i]) && !warmup(s[i])
}

/// The totals over `s`: generate and grade milliseconds, completion tokens,
/// units and core passes over the counted units, and the warmup units left
/// out. A unit counts when it is timed and not left out as warmup (`excl`
/// says whether warmup units are left out).
pub open spec fn totals_spec(s: Seq<UnitCost>, excl: bool) -> (nat, nat, nat, nat, nat, nat)
    decreases s.len(),
{
    if s.len() == 0 {
        (0, 0, 0, 0, 0, 0)
    } else {
        let p = totals_spec(s.drop_last(), excl);
        let u = s.last();
        if !timed(u) {
            p
        } else if excl && warmup(u) {
            (p.0, p.1, p.2, p.3, p.4, p.5 + 1)
        } else {
            (
                p.0 + u.gen_ms as nat,
                p.1 + u.grade_ms as nat,
                p.2 + u.completion_tokens as nat,
                p.3 + 1,
                p.4 + (if u.core_pass { 1nat } else { 0nat }),
                p.5,
            )
        }
    }
}

proof fn lemma_totals_bound(s: Seq<UnitCost>, excl: bool)
    ensures
        totals_spec(s, excl).0 <= s.len() * 0xffff_ffff_ffff_ffff,
        totals_spec(s, excl).1 <= s.len() * 0xffff_ffff_ffff_ffff,
        totals_spec(s, excl).2 <= s.len() * 0xffff_ffff,
        totals_spec(s, excl).3 + totals_spec(s, excl).5 <= s.len(),
        totals_spec(s, excl).4 <= totals_spec(s, excl).3,
    decreases s.len(),
{
    if s.len() > 0 {
        lemma_totals_bound(s.drop_last(), excl);
    }
}

/// Cost totals of the counted units.
#[derive(Clone, Copy, Debug, PartialEq, Eq, Structural)]
pub struct Totals {
    pub gen_ms: u128,
    pub grade_ms: u128,
    pub completion_tokens: u128,
    pub units: usize,
    pub core_passes: usize,
    pub warmup_excluded: usize,
}

fn any_steady(us: &[UnitCost]) -> (r: bool)
    ensures
        r == steady_exists(us@),
{
    let mut i: usize = 0;
    while i < us.len()
        invariant
            i <= us.len(),
            forall|j: int| 0 <= j < i ==> !(timed(#[trigger] us@[j]) && !warmup(us@[j])),
        decreases us.len() - i,
    {
        let u = us[i];
        let is_timed = u.gen_ms != 0 || u.grade_ms != 0;
        let is_warm = match u.segment_position {
            Some(p) => p < SEGMENT_WARMUP_UNITS,
            None => false,
        };
        if is_timed && !is_warm {
            assert(timed(us@[i as int]) && !warmup(us@[i as int]));
            return true;
        }
        i = i + 1;
    }
    false
}

/// Fold the units' costs into totals; `None` when no unit is counted. Warmup
/// units are left out only when some timed unit is not one.
pub fn fold_costs(us: &[UnitCost]) -> (r: Option<Totals>)
    ensures
        ({
            let t = totals_spec(us@, steady_exists(us@));
            match r {
                None => t.3 == 0,
                Some(x) => t.3 > 0 && x.gen_ms == t.0 && x.grade_ms == t.1 && x.completion_tokens == t.2
                    && x.units == t.3 && x.core_passes == t.4 && x.warmup_excluded == t.5,
            }
        }),
{
    let excl = any_steady(us);
    let ghost s = us@;
    let mut gen: u128 = 0;
    let mut grade: u128 = 0;
    let mut toks: u128 = 0;
    let mut units: usize = 0;
    let mut passes: usize = 0;
    let mut excluded: usize = 0;
    let mut i: usize = 0;
    assert(s.take(0) =~= Seq::<UnitCost>::empty());
    while i < us.len()
        invariant
            i <= us.len(),
            s == us@,
            (gen as nat, grade as nat, toks as nat, units as nat, passes as nat, excluded as nat)
                == totals_spec(s.take(i as int), excl),
        decreases us.len() - i,
    {
        proof {
            lemma_totals_bound(s.take(i as int), excl);
            assert(i * 0xffff_ffff_ffff_ffffnat <= 0xffff_ffff_ffff_ffffnat * 0xffff_ffff_ffff_ffffnat) by (nonlinear_arith)
                requires i <= 0xffff_ffff_ffff_ffffnat;
            assert(i * 0xffff_ffffnat <= 0xffff_ffff_ffff_ffffnat * 0xffff_ffffnat) by (nonlinear_arith)
                requires i <= 0xffff_ffff_ffff_ffffnat;
        }
        assert(s.take(i + 1).drop_last() =~= s.take(i as int));
        let u = us[i];
        let is_timed = u.gen_ms != 0 || u.grade_ms != 0;
        let is_warm = match u.segment_position {
            Some(p) => p < SEGMENT_WARMUP_UNITS,
            None => false,
        };
        if is_timed {
            if excl && is_warm {
                excluded = excluded + 1;
            } else {
                gen = gen + u.gen_ms as u128;
                grade = grade + u.grade_ms as u128;
                toks = toks + u.completion_tokens as u128;
                units = units + 1;
                if u.core_pass {
                    passes = passes + 1;
                }
            }
        }
        i = i + 1;
    }
    assert(s.take(us.len() as int) =~= s);
    if units == 0 {
        None
    } else {
        Some(Totals { gen_ms: gen, grade_ms: grade, completion_tokens: toks, units, core_passes: passes, warmup_excluded: excluded })
    }
}

/// Leaving warmup units out never drops every timed unit: when some unit
/// is timed, some unit is counted.
pub proof fn law_warmup_exclusion_keeps_a_unit(s: Seq<UnitCost>, i: int)
    requires
        0 <= i < s.len(),
        timed(s[i]),
    ensures
        totals_spec(s, steady_exists(s)).3 > 0,
    decreases s.len(),
{
    let excl = steady_exists(s);
    if excl {
        let j = choose|j: int| 0 <= j < s.len() && timed(#[trigger] s[j]) && !warmup(s[j]);
        lemma_counted_unit(s, j, excl);
    } else {
        lemma_counted_unit(s, i, excl);
    }
}

proof fn lemma_counted_unit(s: Seq<UnitCost>, j: int, excl: bool)
    requires
        0 <= j < s.len(),
        timed(s[j]),
        !(excl && warmup(s[j])),
    ensures
        totals_spec(s, excl).3 > 0,
    decreases s.len(),
{
    if j < s.len() - 1 {
        lemma_counted_unit(s.drop_last(), j, excl);
    }
}

/// How one more unit changes the totals. A unit with no timing changes
/// nothing. A timed warmup unit, when warmup is left out, only raises the
/// excluded count: none of its milliseconds, tokens or pass count. Any other
/// timed unit adds exactly its own generate and grade milliseconds, its
/// completion tokens, one unit, and one core pass when it is one.
pub proof fn law_totals_step(s: Seq<UnitCost>, u: UnitCost, excl: bool)
    ensures
        ({
            let before = totals_spec(s, excl);
            let after = totals_spec(s.push(u), excl);
            let is_timed = u.gen_ms != 0 || u.grade_ms != 0;
            let is_warm = u.segment_position matches Some(p) && p < 1;
            &&& !is_timed ==> after == before
            &&& is_timed && excl && is_warm ==> after == (before.0, before.1, before.2, before.3, before.4, before.5 + 1)
            &&& is_timed && !(excl && is_warm) ==> after.0 == before.0 + u.gen_ms
                && after.1 == before.1 + u.grade_ms && after.2 == before.2 + u.completion_tokens
                && after.3 == before.3 + 1 && after.4 == before.4 + (if u.core_pass { 1int } else { 0int })
                && after.5 == before.5
        }),
{
    assert(s.push(u).drop_last() =~= s);
    assert(s.push(u).last() == u);
}

/// The totals of two journals read one after the other are the sums of
/// their totals (with the same warmup rule).
pub proof fn law_totals_add(s: Seq<UnitCost>, t: Seq<UnitCost>, excl: bool)
    ensures
        totals_spec(s + t, excl).0 == totals_spec(s, excl).0 + totals_spec(t, excl).0,
        totals_spec(s + t, excl).1 == totals_spec(s, excl).1 + totals_spec(t, excl).1,
        totals_spec(s + t, excl).2 == totals_spec(s, excl).2 + totals_spec(t, excl).2,
        totals_spec(s + t, excl).3 == totals_spec(s, excl).3 + totals_spec(t, excl).3,
        totals_spec(s + t, excl).4 == totals_spec(s, excl).4 + totals_spec(t, excl).4,
        totals_spec(s + t, excl).5 == totals_spec(s, excl).5 + totals_spec(t, excl).5,
    decreases t.len(),
{
    if t.len() == 0 {
        assert(s + t =~= s);
    } else {
        law_totals_add(s, t.drop_last(), excl);
        assert((s + t).drop_last() =~= s + t.drop_last());
        assert((s + t).last() == t.last());
    }
}

/// Each discordant count grows by one exactly for a pair of its kind.
pub proof fn law_discordant_step(s: Seq<(bool, bool)>, a: bool, b: bool)
    ensures
        discordant_spec(s.push((a, b))) == (
            discordant_spec(s).0 + (if a && !b { 1nat } else { 0nat }),
            discordant_spec(s).1 + (if !a && b { 1nat } else { 0nat }),
        ),
{
    assert(s.push((a, b)).drop_last() =~= s);
    assert(s.push((a, b)).last() == (a, b));
}

} // verus!
