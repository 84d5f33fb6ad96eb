//! The integer side of the race kernel: who an interference item targets and how long
//! a mark lasts. The per-round movement model itself is fractional and runs outside
//! this crate.

use vstd::prelude::*;

use crate::horse::consts;
use crate::horse::logic::div_trunc;
use crate::rng::random_index;

verus! {

/// What happened to one horse in one round (for key frames and the result card).
#[derive(Clone, Copy, Debug, Default)]
pub struct StepFx {
    pub crit: bool,
    /// Frozen in place (did not dodge).
    pub frozen: bool,
    /// Dodged an interference thanks to agility.
    pub dodged: bool,
    /// Got injured this round.
    pub injured: bool,
}

/// Event counts of one horse over a race.
#[derive(Clone, Copy, Debug, Default)]
pub struct RunnerTally {
    pub crits: u32,
    pub frozen: u32,
    pub dodged: u32,
}

/// How a runner is shown.
#[derive(Debug)]
pub struct RunnerInfo {
    pub name: String,
    /// Owner's display name (empty for NPCs).
    pub owner: String,
    pub color: i16,
    pub is_npc: bool,
}

/// A runner's pre-race data.
#[derive(Debug)]
pub struct Runner {
    pub info: RunnerInfo,
    pub stats: [i32; 5],
    pub traits: i32,
}

/// The mark duration against a target with agility `agi` and trait mask `traits`:
/// [`MARK_ROUNDS`](consts::MARK_ROUNDS) less agility divided by 120 (70 with the reflex
/// trait), at least 1.
pub open spec fn mark_duration(agi: i32, traits: i32) -> int {
    let div = if consts::bit_set(traits, 7) { consts::AGI_REDUCE_DIV_REFLEX } else { consts::AGI_REDUCE_DIV };
    let v = consts::MARK_ROUNDS - div_trunc(agi as int, div as int);
    if v > 1 {
        v
    } else {
        1
    }
}

/// Rounds a mark holds `target` (see [`mark_duration`]).
pub fn mark_rounds(target: &Runner) -> (r: i32)
    ensures
        r == mark_duration(target.stats@[3], target.traits),
{
    let div = if consts::Trait::Reflex.in_mask(target.traits) {
        consts::AGI_REDUCE_DIV_REFLEX
    } else {
        consts::AGI_REDUCE_DIV
    };
    let agi = target.stats[consts::Stat::Agi.idx()];
    let q = if agi >= 0 {
        agi / div
    } else {
        -((-(agi as i64)) / div as i64) as i32
    };
    assert(-30_678_338 <= q <= 30_678_337) by (nonlinear_arith)
        requires
            div == 70 || div == 120,
            q == if agi >= 0 { agi / div } else { -((-(agi as int)) / (div as int)) },
            i32::MIN <= agi <= i32::MAX,
    ;
    let v = consts::MARK_ROUNDS - q;
    if v > 1 {
        v
    } else {
        1
    }
}

/// A mark never lasts less than one round; more agility never makes it last longer,
/// and against the same agility the reflex trait never makes it last longer either.
pub proof fn lemma_mark_duration_shape(a: i32, b: i32, traits: i32)
    requires
        0 <= a <= b,
    ensures
        mark_duration(a, traits) >= 1,
        mark_duration(b, traits) <= mark_duration(a, traits),
        mark_duration(a, consts::Trait::Reflex.spec_bit()) <= mark_duration(a, 0),
{
    let d = if consts::bit_set(traits, 7) { consts::AGI_REDUCE_DIV_REFLEX } else { consts::AGI_REDUCE_DIV };
    let (ai, bi, di) = (a as int, b as int, d as int);
    assert(ai / di <= bi / di) by (nonlinear_arith)
        requires
            0 <= ai <= bi,
            di > 0,
    ;
    assert(ai / 120 <= ai / 70) by (nonlinear_arith)
        requires
            0 <= ai,
    ;
    assert(consts::Trait::Reflex.spec_bit() == 128i32) by (bit_vector);
    assert(128i32 & (1i32 << 7i32) != 0) by (bit_vector);
    assert(0i32 & (1i32 << 7i32) == 0) by (bit_vector);
}

/// Sum of a runner's five stats.
pub open spec fn stat_sum(r: Runner) -> int {
    r.stats@[0] + r.stats@[1] + r.stats@[2] + r.stats@[3] + r.stats@[4]
}

/// Whether every runner's stat sum fits in `i32`.
pub open spec fn sums_fit(rs: Seq<Runner>) -> bool {
    forall|i: int| 0 <= i < rs.len() ==> i32::MIN <= #[trigger] stat_sum(rs[i]) <= i32::MAX
}

fn stat_total(r: &Runner) -> (t: i32)
    requires
        i32::MIN <= stat_sum(*r) <= i32::MAX,
    ensures
        t == stat_sum(*r),
{
    let s = &r.stats;
    let a: i64 = s[0] as i64 + s[1] as i64 + s[2] as i64 + s[3] as i64 + s[4] as i64;
    a as i32
}

/// The strongest opponent of `owner` (largest stat sum; the last such on a tie), or
/// `owner` itself when there is no other runner.
pub fn strongest_other(owner: usize, runners: &[Runner]) -> (r: usize)
    requires
        sums_fit(runners@),
    ensures
        (runners@.len() == 0 || (runners@.len() == 1 && owner == 0)) ==> r == owner,
        !(runners@.len() == 0 || (runners@.len() == 1 && owner == 0)) ==> {
            &&& r < runners@.len()
            &&& r != owner
            &&& forall|j: int| 0 <= j < runners@.len() && j != owner ==> stat_sum(runners@[j]) <= stat_sum(runners@[r as int])
            &&& forall|j: int| r < j < runners@.len() && j != owner ==> stat_sum(runners@[j]) < stat_sum(runners@[r as int])
        },
{
    let n = runners.len();
    let mut best: Option<usize> = None;
    let mut best_sum: i32 = 0;
    let mut i: usize = 0;
    while i < n
        invariant
            n == runners@.len(),
            i <= n,
            sums_fit(runners@),
            best is None ==> (i == 0 || (i == 1 && owner == 0)),
            best matches Some(b) ==> {
                &&& b < i
                &&& b != owner
                &&& best_sum == stat_sum(runners@[b as int])
                &&& forall|j: int| 0 <= j < i && j != owner ==> stat_sum(runners@[j]) <= best_sum
                &&& forall|j: int| b < j < i && j != owner ==> stat_sum(runners@[j]) < best_sum
            },
        decreases n - i,
    {
        if i != owner {
            let t = stat_total(&runners[i]);
            match best {
                None => {
                    best = Some(i);
                    best_sum = t;
                },
                Some(_) => {
                    if t >= best_sum {
                        best = Some(i);
                        best_sum = t;
                    }
                },
            }
        }
        i = i + 1;
    }
    match best {
        Some(b) => b,
        None => owner,
    }
}

/// The runner index a draw `roll` maps to when `owner` is skipped.
pub open spec fn skip_owner(owner: int, roll: int) -> int {
    if roll >= owner {
        roll + 1
    } else {
        roll
    }
}

/// The runner a draw `roll` from `0..n-1` selects among the `n - 1` runners other than
/// `owner`: draws at or above `owner` skip over it.
pub fn other_index(owner: usize, roll: usize) -> (r: usize)
    requires
        roll < usize::MAX,
    ensures
        r == skip_owner(owner as int, roll as int),
{
    if roll >= owner {
        roll + 1
    } else {
        roll
    }
}

/// Every runner other than `owner` is selected by exactly one draw from `0..n-1`,
/// and `owner` by none.
pub proof fn lemma_other_index_covers(owner: int, n: int, j: int)
    requires
        0 <= owner < n,
        0 <= j < n,
    ensures
        j != owner <==> exists|roll: int| 0 <= roll < n - 1 && j == #[trigger] skip_owner(owner, roll),
        forall|a: int, b: int|
            0 <= a < n - 1 && 0 <= b < n - 1 && #[trigger] skip_owner(owner, a) == #[trigger] skip_owner(owner, b) ==> a == b,
{
    if j != owner {
        let roll = if j > owner { j - 1 } else { j };
        assert(j == skip_owner(owner, roll));
    }
}

/// A uniformly drawn runner other than `owner` (`owner` itself when `n <= 1`).
pub fn pick_other(owner: usize, n: usize, rng: &mut rand::rngs::StdRng) -> (r: usize)
    ensures
        n <= 1 ==> r == owner,
        n > 1 ==> r < n && r != owner,
        n > 1 ==> exists|roll: int| 0 <= roll < n - 1 && r == #[trigger] skip_owner(owner as int, roll),
{
    if n <= 1 {
        return owner;
    }
    let roll = random_index(rng, n - 1);
    other_index(owner, roll)
}

} // verus!
