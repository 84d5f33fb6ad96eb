//! The horse game's rules: weighted draws, the gacha pity counter, stat read-out,
//! lifespan caps, resource settlement over time, race bookkeeping, item effects,
//! breeding prices and achievements. Database reads and writes happen around these
//! functions; here each rule maps a horse (or a stable) and an event to the result.

use vstd::prelude::*;

use crate::horse::consts;
use crate::horse::consts::Item;
use crate::rng::{random_below, random_index};

verus! {

/// One horse as stored: identity, appearance, stats (current values in centi-points,
/// reach in points), timed resources, health, breeding and race records.
/// Instants are microseconds since the Unix epoch; business days are day numbers.
#[derive(Clone, Debug)]
pub struct Horse {
    pub id: i64,
    pub owner_uin: i64,
    pub name: String,
    pub color: i16,
    /// 0 stallion / 1 mare.
    pub sex: i16,
    pub generation: i32,
    pub rarity: i16,
    /// Trait bit mask.
    pub traits: i32,
    pub spd: i32,
    pub sta: i32,
    pub brs: i32,
    pub agi: i32,
    pub luk: i32,
    pub pot_spd: i32,
    pub pot_sta: i32,
    pub pot_brs: i32,
    pub pot_agi: i32,
    pub pot_luk: i32,
    /// Growth × 100.
    pub growth: i32,
    pub vitality: i32,
    pub satiety: i32,
    /// Last settlement instant of vitality and satiety.
    pub state_at: i64,
    pub lifespan: i32,
    pub lifespan_cap: i32,
    pub lifespan_max: i32,
    /// 0 none / 1 light / 2 medium / 3 heavy.
    pub injury: i16,
    pub injury_until: Option<i64>,
    pub scar: i16,
    pub scar_until: Option<i64>,
    pub breed_cd_until: Option<i64>,
    pub breed_count: i32,
    /// 0 in the stable / 2 retired.
    pub status: i16,
    pub wins: i32,
    pub races: i32,
    pub train_day: i32,
    pub train_today: i32,
    pub race_day: i32,
    pub race_today: i32,
    pub bonus_day: i32,
    /// Season key `YYYY-MM`.
    pub season_key: String,
    pub season_wins: i32,
    pub invested: i64,
    pub train_total: i32,
    pub acq_seq: i32,
    pub elo: i32,
    pub elo_games: i32,
    pub desk_lv: i16,
    pub prep_lv: i16,
    pub father_id: Option<i64>,
    pub mother_id: Option<i64>,
}

impl Horse {
    /// A field-by-field copy of the horse.
    pub fn duplicate(&self) -> (r: Horse)
        ensures
            r == *self,
    {
        Horse {
            id: self.id,
            owner_uin: self.owner_uin,
            name: self.name.clone(),
            color: self.color,
            sex: self.sex,
            generation: self.generation,
            rarity: self.rarity,
            traits: self.traits,
            spd: self.spd,
            sta: self.sta,
            brs: self.brs,
            agi: self.agi,
            luk: self.luk,
            pot_spd: self.pot_spd,
            pot_sta: self.pot_sta,
            pot_brs: self.pot_brs,
            pot_agi: self.pot_agi,
            pot_luk: self.pot_luk,
            growth: self.growth,
            vitality: self.vitality,
            satiety: self.satiety,
            state_at: self.state_at,
            lifespan: self.lifespan,
            lifespan_cap: self.lifespan_cap,
            lifespan_max: self.lifespan_max,
            injury: self.injury,
            injury_until: self.injury_until,
            scar: self.scar,
            scar_until: self.scar_until,
            breed_cd_until: self.breed_cd_until,
            breed_count: self.breed_count,
            status: self.status,
            wins: self.wins,
            races: self.races,
            train_day: self.train_day,
            train_today: self.train_today,
            race_day: self.race_day,
            race_today: self.race_today,
            bonus_day: self.bonus_day,
            season_key: self.season_key.clone(),
            season_wins: self.season_wins,
            invested: self.invested,
            train_total: self.train_total,
            acq_seq: self.acq_seq,
            elo: self.elo,
            elo_games: self.elo_games,
            desk_lv: self.desk_lv,
            prep_lv: self.prep_lv,
            father_id: self.father_id,
            mother_id: self.mother_id,
        }
    }
}

// ---------------------------------------------------------------------------
// Weighted draws
// ---------------------------------------------------------------------------

/// Sum of a weight list.
pub open spec fn wsum(ws: Seq<u32>) -> int
    decreases ws.len(),
{
    if ws.len() == 0 {
        0
    } else {
        ws[0] + wsum(ws.drop_first())
    }
}

/// The index a roll `r` selects when walking the weights from index `i`: the first
/// index whose weight exceeds what is left of the roll (the last index if none does).
pub open spec fn pick_from(ws: Seq<u32>, r: int, i: int) -> int
    decreases ws.len() - i,
{
    if i >= ws.len() {
        ws.len() - 1
    } else if r < ws[i] {
        i
    } else {
        pick_from(ws, r - ws[i], i + 1)
    }
}

/// The index a weighted draw gives for the roll `r` (0 when all weights are zero).
pub open spec fn pick_by_roll(ws: Seq<u32>, r: int) -> int {
    if wsum(ws) == 0 {
        0
    } else {
        pick_from(ws, r, 0)
    }
}

proof fn lemma_wsum_split(ws: Seq<u32>, i: int)
    requires
        0 <= i < ws.len(),
    ensures
        wsum(ws.subrange(i, ws.len() as int)) == ws[i] + wsum(ws.subrange(i + 1, ws.len() as int)),
{
    assert(ws.subrange(i, ws.len() as int).drop_first() =~= ws.subrange(i + 1, ws.len() as int));
}

proof fn lemma_wsum_nonneg(ws: Seq<u32>)
    ensures
        wsum(ws) >= 0,
    decreases ws.len(),
{
    if ws.len() > 0 {
        lemma_wsum_nonneg(ws.drop_first());
    }
}

/// A roll below the remaining weight lands on an index at or after `i` whose weight is positive.
proof fn lemma_pick_lands_on_weight(ws: Seq<u32>, r: int, i: int)
    requires
        0 <= i <= ws.len(),
        0 <= r < wsum(ws.subrange(i, ws.len() as int)),
    ensures
        i <= pick_from(ws, r, i) < ws.len(),
        ws[pick_from(ws, r, i)] > 0,
    decreases ws.len() - i,
{
    if i == ws.len() {
        assert(ws.subrange(i, ws.len() as int) =~= Seq::<u32>::empty());
    } else {
        lemma_wsum_split(ws, i);
        if r >= ws[i] {
            lemma_pick_lands_on_weight(ws, r - ws[i], i + 1);
        }
    }
}

/// A weighted draw with a roll below the total weight selects an index in range whose
/// weight is positive: zero-weight entries are never drawn.
pub proof fn lemma_pick_by_roll_positive(ws: Seq<u32>, r: int)
    requires
        0 <= r < wsum(ws),
    ensures
        0 <= pick_by_roll(ws, r) < ws.len(),
        ws[pick_by_roll(ws, r)] > 0,
{
    assert(ws.subrange(0, ws.len() as int) =~= ws);
    lemma_pick_lands_on_weight(ws, r, 0);
}

/// Total of a weight list (the list's sum must fit in `u32`).
pub fn weight_total(weights: &[u32]) -> (t: u32)
    requires
        wsum(weights@) <= u32::MAX,
    ensures
        t == wsum(weights@),
{
    let n = weights.len();
    let mut total: u32 = 0;
    let mut i: usize = 0;
    assert(weights@.subrange(0, n as int) =~= weights@);
    while i < n
        invariant
            n == weights@.len(),
            i <= n,
            wsum(weights@) <= u32::MAX,
            total + wsum(weights@.subrange(i as int, n as int)) == wsum(weights@),
        decreases n - i,
    {
        proof {
            lemma_wsum_split(weights@, i as int);
            lemma_wsum_nonneg(weights@.subrange(i + 1, n as int));
        }
        total = total + weights[i];
        i = i + 1;
    }
    assert(weights@.subrange(n as int, n as int) =~= Seq::<u32>::empty());
    total
}

/// The index selected by the roll `roll` (`roll < total weight`): walking the weights,
/// the first index whose weight exceeds what is left of the roll.
pub fn pick_index(weights: &[u32], roll: u32) -> (i: usize)
    requires
        weights@.len() > 0,
        roll < wsum(weights@),
    ensures
        i == pick_by_roll(weights@, roll as int),
        i < weights@.len(),
        weights@[i as int] > 0,
{
    proof {
        lemma_pick_by_roll_positive(weights@, roll as int);
    }
    let n = weights.len();
    let mut r = roll;
    let mut i: usize = 0;
    while i < n
        invariant
            n == weights@.len(),
            n > 0,
            i <= n,
            roll < wsum(weights@),
            pick_from(weights@, roll as int, 0) == pick_from(weights@, r as int, i as int),
        decreases n - i,
    {
        if r < weights[i] {
            return i;
        }
        r = r - weights[i];
        i = i + 1;
    }
    n - 1
}

/// A weighted draw of an index of `weights` (0 when the list is empty or all weights
/// are zero). The roll comes from `rng`; a positive-weight index is always drawn when
/// the total is positive.
pub fn weighted_pick(weights: &[u32], rng: &mut rand::rngs::StdRng) -> (i: usize)
    requires
        wsum(weights@) <= u32::MAX,
    ensures
        wsum(weights@) == 0 ==> i == 0,
        wsum(weights@) > 0 ==> i < weights@.len() && weights@[i as int] > 0,
        wsum(weights@) > 0 ==> exists|r: int| 0 <= r < wsum(weights@) && i == pick_by_roll(weights@, r),
{
    let total = weight_total(weights);
    if total == 0 {
        return 0;
    }
    let roll = random_below(rng, total);
    let i = pick_index(weights, roll);
    assert(0 <= roll as int && (roll as int) < wsum(weights@) && i == pick_by_roll(weights@, roll as int));
    i
}

/// A rarity (1..=4) drawn with `weights[rarity - 1]` (rarity 1 when all weights are zero).
pub fn roll_rarity(weights: &[u32; 4], rng: &mut rand::rngs::StdRng) -> (r: i16)
    requires
        wsum(weights@) <= u32::MAX,
    ensures
        1 <= r <= 4,
        wsum(weights@) > 0 ==> weights@[r - 1] > 0,
        wsum(weights@) == 0 ==> r == 1,
{
    let ws = weights.as_slice();
    assert(ws@ == weights@);
    assert(ws@.len() == 4);
    let i = weighted_pick(ws, rng);
    assert(wsum(ws@) == 0 || wsum(ws@) > 0) by { lemma_wsum_nonneg(ws@); }
    assert(i < 4);
    i as i16 + 1
}

/// Whether `it` is a possible post-race drop: a common drop, a middle drop or a
/// treasure.
pub open spec fn is_drop(it: Item) -> bool {
    consts::DROP_COMMON@.contains(it) || consts::DROP_MID@.contains(it) || Item::TREASURE@.contains(it)
}

/// The size of the drop pool of quality `quality` (0 common, 1 middle, otherwise
/// treasure).
pub open spec fn drop_pool_len(quality: int) -> int {
    if quality == 0 {
        4
    } else if quality == 1 {
        6
    } else {
        9
    }
}

/// Entry `index` of the drop pool of quality `quality`.
pub open spec fn drop_at(quality: int, index: int) -> Item {
    if quality == 0 {
        consts::DROP_COMMON@[index]
    } else if quality == 1 {
        consts::DROP_MID@[index]
    } else {
        Item::TREASURE@[index]
    }
}

/// How many equally likely rolls pick the entry of a pool: one per entry for the
/// common and middle pools, a roll below 100 over the treasure weights for treasures.
pub open spec fn drop_rolls(quality: int) -> int {
    if quality == 0 {
        4
    } else if quality == 1 {
        6
    } else {
        100
    }
}

/// The pool entry a roll `roll` selects in the pool of quality `quality`.
pub open spec fn drop_entry(quality: int, roll: int) -> int {
    if quality == 0 || quality == 1 {
        roll
    } else {
        pick_by_roll(consts::GACHA_TREASURE_WEIGHTS@, roll)
    }
}

/// The drop of quality `quality` (0 common, 1 middle, otherwise treasure) at entry
/// `index` of its pool.
pub fn drop_of(quality: usize, index: usize) -> (r: Item)
    requires
        index < drop_pool_len(quality as int),
    ensures
        r == drop_at(quality as int, index as int),
{
    if quality == 0 {
        let pool = consts::DROP_COMMON;
        assert(pool@[index as int] == pool[index as int]);
        pool[index]
    } else if quality == 1 {
        let pool = consts::DROP_MID;
        assert(pool@[index as int] == pool[index as int]);
        pool[index]
    } else {
        let pool = Item::TREASURE;
        assert(pool@[index as int] == pool[index as int]);
        pool[index]
    }
}

/// The item of a post-race drop once the drop happened: the quality is drawn with
/// [`DROP_QUALITY_WEIGHTS`](consts::DROP_QUALITY_WEIGHTS), then a common or middle
/// drop uniformly, or a treasure with the treasure weights of the gacha; the result is
/// [`drop_at`] of what some quality roll and entry roll select.
pub fn drop_item(rng: &mut rand::rngs::StdRng) -> (r: Item)
    ensures
        is_drop(r),
        exists|qr: int, er: int|
            #![trigger drop_entry(pick_by_roll(consts::DROP_QUALITY_WEIGHTS@, qr), er)]
            0 <= qr < 100 && 0 <= er < drop_rolls(pick_by_roll(consts::DROP_QUALITY_WEIGHTS@, qr)) && r
                == drop_at(
                pick_by_roll(consts::DROP_QUALITY_WEIGHTS@, qr),
                drop_entry(pick_by_roll(consts::DROP_QUALITY_WEIGHTS@, qr), er),
            ),
{
    let w = consts::DROP_QUALITY_WEIGHTS;
    assert(wsum(w@) == 100) by {
        reveal_with_fuel(wsum, 4);
    }
    let q = weighted_pick(w.as_slice(), rng);
    let ghost qr = choose|qr: int| 0 <= qr < wsum(w@) && q == pick_by_roll(w@, qr);
    assert(q < 3);
    let (i, er) = if q == 0 || q == 1 {
        let n: usize = if q == 0 {
            4
        } else {
            6
        };
        let i = random_index(rng, n);
        let er: Ghost<int> = Ghost(i as int);
        (i, er)
    } else {
        let tw = consts::GACHA_TREASURE_WEIGHTS;
        assert(wsum(tw@) == 100) by {
            reveal_with_fuel(wsum, 10);
        }
        let i = weighted_pick(tw.as_slice(), rng);
        let er: Ghost<int> = Ghost(choose|er: int| 0 <= er < wsum(tw@) && i == pick_by_roll(tw@, er));
        (i, er)
    };
    let r = drop_of(q, i);
    proof {
        assert(drop_entry(q as int, er@) == i as int);
        assert(r == drop_at(q as int, drop_entry(q as int, er@)));
        if q == 0 {
            assert(consts::DROP_COMMON@.contains(r));
        } else if q == 1 {
            assert(consts::DROP_MID@.contains(r));
        } else {
            assert(Item::TREASURE@.contains(r));
        }
    }
    r
}

// ---------------------------------------------------------------------------
// Gacha
// ---------------------------------------------------------------------------

/// What one gacha draw yields.
#[derive(Clone, Copy, Debug, PartialEq, Eq, Structural)]
pub enum Pull {
    /// An item.
    Item(Item),
    /// A horse of the given rarity; its birth stats are rolled for that rarity.
    Horse(i16),
}

/// The pity count of a pool: the two pools count separately, the standard pool
/// guarantees a ★3+ horse at [`GACHA_PITY`](consts::GACHA_PITY) draws, the horse pool at
/// [`GACHA_HORSE_POOL_PITY`](consts::GACHA_HORSE_POOL_PITY).
pub open spec fn pity_cap(horse_pool: bool) -> int {
    if horse_pool {
        consts::GACHA_HORSE_POOL_PITY as int
    } else {
        consts::GACHA_PITY as int
    }
}

/// The extra horse weight of the soft-pity ramp at draw number `next` since the last ★3+,
/// for a pool whose guarantee comes at `cap` draws.
pub open spec fn soft_bonus(next: int, cap: int) -> int {
    let into = next - (cap - consts::GACHA_SOFT_PITY);
    if into > 0 {
        into * 4
    } else {
        0
    }
}

/// The class weights of a draw (race, training, recovery, treasure, horse) with the
/// soft-pity bonus added to the horse weight.
pub open spec fn pull_weights(class_weights: Seq<u32>, next: int, cap: int) -> Seq<u32> {
    seq![
        class_weights[0],
        class_weights[1],
        class_weights[2],
        class_weights[3],
        (class_weights[4] + soft_bonus(next, cap)) as u32,
    ]
}

/// Whether a weighted draw over `ws` can select class `c`: it has weight, or every
/// weight is zero and `c` is the first class.
pub open spec fn drawable(ws: Seq<u32>, c: int) -> bool {
    ws[c] > 0 || (c == 0 && wsum(ws) == 0)
}

/// One gacha draw in the standard pool or the horse pool. `pity` counts this pool's
/// draws since its last ★3+ horse. The draw numbered `pity + 1` is forced to be a ★3+
/// horse when it reaches the pool's [`pity_cap`]; otherwise a class is drawn with
/// `class_weights` (race, training, recovery, treasure, horse), the horse weight raised
/// by the soft-pity ramp, then an item of that class's group or a horse whose rarity is
/// drawn with `horse_rarity_weights`. A ★3+ horse resets the counter; every other result
/// advances it.
pub fn gacha_pull(
    pity: &mut i32,
    horse_pool: bool,
    class_weights: &[u32; 5],
    horse_rarity_weights: &[u32; 4],
    rng: &mut rand::rngs::StdRng,
) -> (p: Pull)
    requires
        i32::MIN + 14 <= *old(pity) < i32::MAX,
        *old(pity) + 1 < pity_cap(horse_pool) ==> wsum(class_weights@) + soft_bonus(*old(pity) + 1, pity_cap(horse_pool)) <= u32::MAX,
        wsum(horse_rarity_weights@) <= u32::MAX,
    ensures
        *old(pity) + 1 >= pity_cap(horse_pool) ==> (p matches Pull::Horse(r) && r >= 3 && *final(pity) == 0),
        p matches Pull::Horse(r) ==> 1 <= r <= 4 && *final(pity) == if r >= 3 { 0 } else { *old(pity) + 1 },
        p matches Pull::Horse(r) && *old(pity) + 1 < pity_cap(horse_pool) ==> class_weights@[4] + soft_bonus(
            *old(pity) + 1,
            pity_cap(horse_pool),
        ) > 0,
        p matches Pull::Horse(r) ==> (*old(pity) + 1 < pity_cap(horse_pool) && wsum(horse_rarity_weights@) > 0
            ==> horse_rarity_weights@[r - 1] > 0),
        p matches Pull::Horse(r) ==> (*old(pity) + 1 < pity_cap(horse_pool) && wsum(horse_rarity_weights@) == 0
            ==> r == 1),
        p matches Pull::Item(it) ==> {
            let ws = pull_weights(class_weights@, *old(pity) + 1, pity_cap(horse_pool));
            &&& *final(pity) == *old(pity) + 1
            &&& *old(pity) + 1 < pity_cap(horse_pool)
            &&& (drawable(ws, 0) && Item::RACE@.contains(it)) || (drawable(ws, 1) && Item::TRAIN@.contains(it))
                || (drawable(ws, 2) && Item::RECOVERY@.contains(it)) || (drawable(ws, 3) && Item::TREASURE@.contains(it))
        },
        0 <= *old(pity) < pity_cap(horse_pool) ==> 0 <= *final(pity) < pity_cap(horse_pool),
{
    let cap: i32 = if horse_pool {
        consts::GACHA_HORSE_POOL_PITY
    } else {
        consts::GACHA_PITY
    };
    let next = *pity + 1;
    let force = next >= cap;
    let into_soft = next - (cap - consts::GACHA_SOFT_PITY);
    let class: usize = if force {
        4
    } else {
        let bonus: u32 = if into_soft > 0 { into_soft as u32 * 4 } else { 0 };
        assert(wsum(class_weights@) == class_weights@[0] + class_weights@[1] + class_weights@[2] + class_weights@[3] + class_weights@[4]) by {
            reveal_with_fuel(wsum, 6);
        }
        let ws: [u32; 5] = [class_weights[0], class_weights[1], class_weights[2], class_weights[3], class_weights[4] + bonus];
        assert(wsum(ws@) == wsum(class_weights@) + bonus) by {
            reveal_with_fuel(wsum, 6);
        }
        assert(ws@ =~= pull_weights(class_weights@, next as int, cap as int));
        let c = weighted_pick(ws.as_slice(), rng);
        proof {
            reveal_with_fuel(wsum, 6);
        }
        c
    };
    if class == 4 {
        let rarity = if force {
            let w = consts::GACHA_PITY_RARITY_WEIGHTS;
            assert(wsum(w@) == 100) by {
                reveal_with_fuel(wsum, 5);
            }
            roll_rarity(&w, rng)
        } else {
            roll_rarity(horse_rarity_weights, rng)
        };
        *pity = if rarity >= 3 { 0 } else { next };
        Pull::Horse(rarity)
    } else if class == 3 {
        *pity = next;
        let w = consts::GACHA_TREASURE_WEIGHTS;
        assert(wsum(w@) == 100) by {
            reveal_with_fuel(wsum, 10);
        }
        let k = weighted_pick(w.as_slice(), rng);
        let group = Item::TREASURE;
        assert(group@[k as int] == group[k as int]);
        Pull::Item(group[k])
    } else if class == 2 {
        *pity = next;
        let w = consts::GACHA_RECOVERY_WEIGHTS;
        assert(wsum(w@) == 100) by {
            reveal_with_fuel(wsum, 7);
        }
        let k = weighted_pick(w.as_slice(), rng);
        let group = Item::RECOVERY;
        assert(group@[k as int] == group[k as int]);
        Pull::Item(group[k])
    } else if class == 1 {
        *pity = next;
        let w = consts::GACHA_TRAIN_WEIGHTS;
        assert(wsum(w@) == 100) by {
            reveal_with_fuel(wsum, 6);
        }
        let k = weighted_pick(w.as_slice(), rng);
        let group = Item::TRAIN;
        assert(group@[k as int] == group[k as int]);
        Pull::Item(group[k])
    } else {
        *pity = next;
        let w = consts::GACHA_RACE_WEIGHTS;
        assert(wsum(w@) == 100) by {
            reveal_with_fuel(wsum, 11);
        }
        let k = weighted_pick(w.as_slice(), rng);
        let group = Item::RACE;
        assert(group@[k as int] == group[k as int]);
        Pull::Item(group[k])
    }
}

// ---------------------------------------------------------------------------
// Stats, lifespan, health
// ---------------------------------------------------------------------------

/// Integer division rounding toward zero (Rust's `/` on signed integers).
pub open spec fn div_trunc(a: int, b: int) -> int
    recommends
        b > 0,
{
    if a >= 0 {
        a / b
    } else {
        -((-a) / b)
    }
}

/// Centi-points rounded half up to points: `(c + 50) / 100` with Rust's division.
pub open spec fn points(c: i32) -> int {
    div_trunc(c + consts::STAT_SCALE / 2, consts::STAT_SCALE as int)
}

/// Current value of a centi-point stat in points.
pub fn to_points(c: i32) -> (r: i32)
    requires
        c <= i32::MAX - 50,
    ensures
        r == points(c),
{
    let t = c + consts::STAT_SCALE / 2;
    if t >= 0 {
        t / consts::STAT_SCALE
    } else {
        -((-t) / consts::STAT_SCALE)
    }
}

/// Whether every current stat of `h` leaves room for rounding.
pub open spec fn stats_roundable(h: Horse) -> bool {
    &&& h.spd <= i32::MAX - 50
    &&& h.sta <= i32::MAX - 50
    &&& h.brs <= i32::MAX - 50
    &&& h.agi <= i32::MAX - 50
    &&& h.luk <= i32::MAX - 50
}

/// The five current stats of `h` in points (stored centi-points rounded half up),
/// in stat order.
pub fn stats_of(h: &Horse) -> (r: [i32; 5])
    requires
        stats_roundable(*h),
    ensures
        r@ == seq![points(h.spd) as i32, points(h.sta) as i32, points(h.brs) as i32, points(h.agi) as i32, points(h.luk) as i32],
{
    let r = [to_points(h.spd), to_points(h.sta), to_points(h.brs), to_points(h.agi), to_points(h.luk)];
    assert(r@ =~= seq![points(h.spd) as i32, points(h.sta) as i32, points(h.brs) as i32, points(h.agi) as i32, points(h.luk) as i32]);
    r
}

/// `v` clamped into `lo..=hi`.
pub open spec fn clamp(v: int, lo: int, hi: int) -> int {
    if v < lo {
        lo
    } else if v > hi {
        hi
    } else {
        v
    }
}

/// The lifespan cap of a horse born with luck reach `pot_luk`:
/// `400 + 4 × pot_luk`, clamped into `480..=1100`.
pub fn lifespan_max_for(pot_luk: i32) -> (r: i32)
    requires
        -500_000_000 <= pot_luk <= 500_000_000,
    ensures
        r == clamp(consts::LIFESPAN_BASE + consts::LIFESPAN_LUK_COEF * pot_luk, consts::LIFESPAN_MIN as int, consts::LIFESPAN_CAP_MAX as int),
{
    let v = consts::LIFESPAN_BASE + consts::LIFESPAN_LUK_COEF * pot_luk;
    if v < consts::LIFESPAN_MIN {
        consts::LIFESPAN_MIN
    } else if v > consts::LIFESPAN_CAP_MAX {
        consts::LIFESPAN_CAP_MAX
    } else {
        v
    }
}

/// The lifespan cap grows with the luck reach a horse is born with and always lies
/// within `LIFESPAN_MIN..=LIFESPAN_CAP_MAX`.
pub proof fn lemma_lifespan_cap_monotone(a: int, b: int)
    requires
        a <= b,
    ensures
        clamp(consts::LIFESPAN_BASE + consts::LIFESPAN_LUK_COEF * a, consts::LIFESPAN_MIN as int, consts::LIFESPAN_CAP_MAX as int)
            <= clamp(consts::LIFESPAN_BASE + consts::LIFESPAN_LUK_COEF * b, consts::LIFESPAN_MIN as int, consts::LIFESPAN_CAP_MAX as int),
        consts::LIFESPAN_MIN <= clamp(consts::LIFESPAN_BASE + consts::LIFESPAN_LUK_COEF * a, consts::LIFESPAN_MIN as int, consts::LIFESPAN_CAP_MAX as int)
            <= consts::LIFESPAN_CAP_MAX,
{
}

/// Whether the horse is injured (after settlement).
pub fn is_injured(h: &Horse) -> (r: bool)
    ensures
        r == (h.injury > 0),
{
    h.injury > 0
}

/// Severity clamped into `1..=3`, as an index `0..=2` into per-severity tables.
pub open spec fn severity_index(s: i16) -> int {
    clamp(s as int, 1, 3) - 1
}

fn severity_slot(s: i16) -> (r: usize)
    ensures
        r == severity_index(s),
{
    if s <= 1 {
        0
    } else if s == 2 {
        1
    } else {
        2
    }
}

/// Healing price of the horse's injury (severity clamped into `1..=3`).
pub fn heal_cost(h: &Horse) -> (r: i64)
    ensures
        r == consts::HEAL_COST@[severity_index(h.injury)],
{
    consts::HEAL_COST[severity_slot(h.injury)]
}

/// The name of an injury severity: 1 light, 2 medium, anything else heavy.
pub fn injury_name(severity: i16) -> (r: &'static str)
    ensures
        r@ == if severity == 1 {
            "轻伤"@
        } else if severity == 2 {
            "中伤"@
        } else {
            "重伤"@
        },
{
    if severity == 1 {
        "轻伤"
    } else if severity == 2 {
        "中伤"
    } else {
        "重伤"
    }
}

/// Races the horse already ran on business day `today` (0 when its counter belongs to
/// another day).
pub fn races_today(h: &Horse, today: i32) -> (r: i64)
    ensures
        r == if h.race_day == today { h.race_today as int } else { 0 },
{
    if h.race_day == today {
        h.race_today as i64
    } else {
        0
    }
}

/// Breeding price: by the higher parent rarity, clamped into `1..=4`.
pub fn breed_cost(f: &Horse, m: &Horse) -> (r: i64)
    ensures
        r == consts::BREED_COST_BY_RARITY@[clamp(if f.rarity >= m.rarity { f.rarity as int } else { m.rarity as int }, 1, 4) - 1],
{
    let hi = if f.rarity >= m.rarity { f.rarity } else { m.rarity };
    let i: usize = if hi <= 1 {
        0
    } else if hi >= 4 {
        3
    } else {
        (hi - 1) as usize
    };
    consts::BREED_COST_BY_RARITY[i]
}

// ---------------------------------------------------------------------------
// Settlement of timed resources and health
// ---------------------------------------------------------------------------

/// One minute in microseconds.
pub const MINUTE_MICROS: i64 = 60_000_000;
/// One hour in microseconds.
pub const HOUR_MICROS: i64 = 3_600_000_000;

/// An expired injury (no deadline, or its deadline reached) turns into a scar of the
/// same severity lasting [`SCAR_HOURS`](consts::SCAR_HOURS) from `now`.
pub open spec fn after_injury(h: Horse, now: int) -> Horse {
    if h.injury > 0 && (match h.injury_until {
        None => true,
        Some(u) => u <= now,
    }) {
        Horse {
            scar: h.injury,
            scar_until: Some((now + consts::SCAR_HOURS@[severity_index(h.injury)] * HOUR_MICROS) as i64),
            injury: 0,
            injury_until: None,
            ..h
        }
    } else {
        h
    }
}

/// An expired scar disappears.
pub open spec fn after_scar(h: Horse, now: int) -> Horse {
    if h.scar > 0 && (match h.scar_until {
        None => true,
        Some(u) => u <= now,
    }) {
        Horse { scar: 0, scar_until: None, ..h }
    } else {
        h
    }
}

/// Whole settlement blocks elapsed since the last settlement (whole minutes, then whole
/// blocks, both rounding toward zero; never negative).
pub open spec fn elapsed_blocks(h: Horse, now: int) -> int {
    let b = div_trunc(div_trunc(now - h.state_at, MINUTE_MICROS as int), consts::STATE_BLOCK_MIN as int);
    if b > 0 {
        b
    } else {
        0
    }
}

/// Each whole block restores vitality and drains satiety (both kept in `0..=100`); the
/// settlement instant advances by the whole blocks only, so the remainder carries over.
pub open spec fn after_blocks(h: Horse, now: int) -> Horse {
    let b = elapsed_blocks(h, now);
    if b > 0 {
        Horse {
            vitality: clamp(h.vitality + consts::VIT_PER_BLOCK * b, 0, consts::VIT_MAX as int) as i32,
            satiety: clamp(h.satiety - consts::SATIETY_PER_BLOCK * b, 0, consts::VIT_MAX as int) as i32,
            state_at: (h.state_at + b * consts::STATE_BLOCK_MIN * MINUTE_MICROS) as i64,
            ..h
        }
    } else {
        h
    }
}

/// Crossing into a later business day refills vitality and consumes the remainder.
pub open spec fn after_day(h: Horse, now: int, state_day: int, now_day: int) -> Horse {
    if state_day < now_day {
        Horse { vitality: consts::VIT_MAX, state_at: now as i64, ..h }
    } else {
        h
    }
}

/// The horse's state at `now`: injuries and scars expired, timed resources settled,
/// and a new business day applied. `state_day` is the business day of the horse's last
/// settlement instant and `now_day` that of `now`.
pub open spec fn settled(h: Horse, now: int, state_day: int, now_day: int) -> Horse {
    after_day(after_blocks(after_scar(after_injury(h, now), now), now), now, state_day, now_day)
}

/// An injury whose time is up becomes a scar of the same severity that lasts, from
/// `now`, 12 hours after a light injury, 24 after a medium one and 48 after a heavy
/// one (severities outside 1..=3 count as the nearest); so a heavier injury leaves a
/// longer scar.
pub proof fn lemma_expired_injury_scars(h: Horse, now: int, state_day: int, now_day: int)
    requires
        h.injury > 0,
        h.injury_until matches Some(u) ==> u <= now,
        settle_in_range(h, now),
        0 <= now,
    ensures
        ({
            let r = settled(h, now, state_day, now_day);
            let hours = if h.injury <= 1 {
                12int
            } else if h.injury == 2 {
                24int
            } else {
                48int
            };
            &&& r.injury == 0
            &&& r.injury_until is None
            &&& r.scar == h.injury
            &&& r.scar_until == Some((now + hours * 3_600_000_000) as i64)
        }),
{
    let a = after_injury(h, now);
    assert(severity_index(h.injury) == if h.injury <= 1 { 0int } else if h.injury == 2 { 1int } else { 2int });
    assert(consts::SCAR_HOURS@[0] == 12 && consts::SCAR_HOURS@[1] == 24 && consts::SCAR_HOURS@[2] == 48);
    assert(a.scar_until->0 > now);
    assert(after_scar(a, now) == a);
}

/// Settling leaves an injury whose time is not up as it is, and a new business day
/// always finds the horse at full vitality, settled as of `now`.
pub proof fn lemma_settle_keeps_running_injury_and_refills_daily(h: Horse, now: int, state_day: int, now_day: int)
    ensures
        h.injury_until matches Some(u) && u > now ==> settled(h, now, state_day, now_day).injury == h.injury
            && settled(h, now, state_day, now_day).injury_until == h.injury_until,
        h.injury <= 0 ==> settled(h, now, state_day, now_day).injury == h.injury,
        state_day < now_day ==> settled(h, now, state_day, now_day).vitality == 100 && settled(
            h,
            now,
            state_day,
            now_day,
        ).state_at == now as i64,
{
}

/// Of two horses alike but for the severity of an expired injury, the more severe one
/// carries its scar at least as long.
pub proof fn lemma_heavier_injury_longer_scar(h: Horse, g: Horse, now: int, state_day: int, now_day: int)
    requires
        g == (Horse { injury: g.injury, ..h }),
        0 < h.injury <= g.injury,
        h.injury_until matches Some(u) ==> u <= now,
        settle_in_range(h, now),
        settle_in_range(g, now),
        0 <= now,
    ensures
        settled(h, now, state_day, now_day).scar_until->0 <= settled(g, now, state_day, now_day).scar_until->0,
        h.injury < g.injury <= 3 ==> settled(h, now, state_day, now_day).scar_until->0 < settled(
            g,
            now,
            state_day,
            now_day,
        ).scar_until->0,
{
    lemma_expired_injury_scars(h, now, state_day, now_day);
    lemma_expired_injury_scars(g, now, state_day, now_day);
}

/// What [`project`] needs to stay within machine integers.
pub open spec fn settle_in_range(h: Horse, now: int) -> bool {
    &&& -300_000_000_000_000_000 <= now - h.state_at <= 300_000_000_000_000_000
    &&& now + 48 * HOUR_MICROS <= i64::MAX
    &&& -1_000_000_000 <= h.vitality <= 1_000_000_000
    &&& -1_000_000_000 <= h.satiety <= 1_000_000_000
}

/// The horse as it stands at `now`, without writing anything: see [`settled`].
pub fn project(h: &Horse, now: i64, state_day: i32, now_day: i32) -> (r: Horse)
    requires
        settle_in_range(*h, now as int),
    ensures
        r == settled(*h, now as int, state_day as int, now_day as int),
        0 <= now && h.injury > 0 && (h.injury_until matches Some(u) ==> u <= now) ==> r.scar == h.injury
            && r.scar_until == Some(
            (now + (if h.injury <= 1 {
                12int
            } else if h.injury == 2 {
                24int
            } else {
                48int
            }) * 3_600_000_000) as i64,
        ),
{
    proof {
        if 0 <= now && h.injury > 0 && (h.injury_until matches Some(u) ==> u <= now) {
            lemma_expired_injury_scars(*h, now as int, state_day as int, now_day as int);
        }
    }
    let mut out = h.duplicate();
    let injury_over = match out.injury_until {
        None => true,
        Some(u) => u <= now,
    };
    if out.injury > 0 && injury_over {
        out.scar = out.injury;
        out.scar_until = Some(now + consts::SCAR_HOURS[severity_slot(out.injury)] * HOUR_MICROS);
        out.injury = 0;
        out.injury_until = None;
    }
    let scar_over = match out.scar_until {
        None => true,
        Some(u) => u <= now,
    };
    if out.scar > 0 && scar_over {
        out.scar = 0;
        out.scar_until = None;
    }
    let diff = now - out.state_at;
    let minutes = if diff >= 0 {
        diff / MINUTE_MICROS
    } else {
        -((-diff) / MINUTE_MICROS)
    };
    let q = if minutes >= 0 {
        minutes / consts::STATE_BLOCK_MIN
    } else {
        -((-minutes) / consts::STATE_BLOCK_MIN)
    };
    let blocks = if q > 0 {
        q
    } else {
        0
    };
    assert(blocks <= 200_000_000) by (nonlinear_arith)
        requires
            diff <= 300_000_000_000_000_000,
            minutes == if diff >= 0 { diff / 60_000_000 } else { -((-diff) / 60_000_000) },
            q == if minutes >= 0 { minutes / 30 } else { -((-minutes) / 30) },
            blocks == if q > 0 { q } else { 0 },
    ;
    if blocks > 0 {
        let b = blocks as i32;
        let v = out.vitality + consts::VIT_PER_BLOCK * b;
        out.vitality = if v < 0 {
            0
        } else if v > consts::VIT_MAX {
            consts::VIT_MAX
        } else {
            v
        };
        let st = out.satiety - consts::SATIETY_PER_BLOCK * b;
        out.satiety = if st < 0 {
            0
        } else if st > consts::VIT_MAX {
            consts::VIT_MAX
        } else {
            st
        };
        assert(blocks * 30 * 60_000_000 <= diff) by (nonlinear_arith)
            requires
                blocks > 0,
                diff >= 0 ==> minutes == diff / 60_000_000,
                diff < 0 ==> minutes <= 0,
                minutes >= 0 ==> q == minutes / 30,
                minutes < 0 ==> q <= 0,
                blocks == q,
        ;
        out.state_at = out.state_at + blocks * consts::STATE_BLOCK_MIN * MINUTE_MICROS;
    }
    if state_day < now_day {
        out.vitality = consts::VIT_MAX;
        out.state_at = now;
    }
    out
}

proof fn lemma_no_blocks_after_settlement(d: int)
    requires
        0 <= d,
    ensures
        ({
            let b = (d / 60_000_000) / 30;
            let rest = d - b * 30 * 60_000_000;
            0 <= rest && (rest / 60_000_000) / 30 == 0
        }),
{
    let m = d / 60_000_000;
    let b = m / 30;
    assert(m * 60_000_000 <= d < (m + 1) * 60_000_000) by (nonlinear_arith)
        requires
            m == d / 60_000_000,
            d >= 0,
    ;
    assert(b * 30 <= m < b * 30 + 30) by (nonlinear_arith)
        requires
            b == m / 30,
            m >= 0,
    ;
    let rest = d - b * 30 * 60_000_000;
    assert(0 <= rest < 30 * 60_000_000) by (nonlinear_arith)
        requires
            m * 60_000_000 <= d < (m + 1) * 60_000_000,
            b * 30 <= m < b * 30 + 30,
            rest == d - b * 30 * 60_000_000,
    ;
    assert(rest / 60_000_000 < 30) by (nonlinear_arith)
        requires
            0 <= rest < 30 * 60_000_000,
    ;
}

/// Settling twice at the same instant within one business day is the same as settling
/// once: expired health states are gone, the leftover time is under one block.
pub proof fn lemma_settle_idempotent(h: Horse, now: int, day: int)
    requires
        settle_in_range(h, now),
    ensures
        settled(settled(h, now, day, day), now, day, day) == settled(h, now, day, day),
{
    let a = after_injury(h, now);
    let b = after_scar(a, now);
    let c = after_blocks(b, now);
    assert(after_injury(c, now) == c);
    assert(after_scar(c, now) == c);
    let d = now - b.state_at;
    if d >= 0 {
        lemma_no_blocks_after_settlement(d);
    }
    assert(elapsed_blocks(c, now) == 0);
}

/// The whole blocks in a non-negative span `d` are the `b` with `b` blocks fitting in
/// `d` and `b + 1` not.
proof fn lemma_blocks_bracket(d: int)
    requires
        0 <= d,
    ensures
        ({
            let b = (d / 60_000_000) / 30;
            b >= 0 && b * 1_800_000_000 <= d < (b + 1) * 1_800_000_000
        }),
{
    let m = d / 60_000_000;
    let b = m / 30;
    assert(m * 60_000_000 <= d < (m + 1) * 60_000_000) by (nonlinear_arith)
        requires
            m == d / 60_000_000,
            d >= 0,
    ;
    assert(b * 30 <= m < b * 30 + 30 && b >= 0) by (nonlinear_arith)
        requires
            b == m / 30,
            m >= 0,
    ;
    assert(b * 1_800_000_000 <= d < (b + 1) * 1_800_000_000) by (nonlinear_arith)
        requires
            m * 60_000_000 <= d < (m + 1) * 60_000_000,
            b * 30 <= m < b * 30 + 30,
    ;
}

/// Two brackets of the same span name the same block count.
proof fn lemma_blocks_unique(d: int, b: int, c: int)
    requires
        b * 1_800_000_000 <= d < (b + 1) * 1_800_000_000,
        c * 1_800_000_000 <= d < (c + 1) * 1_800_000_000,
    ensures
        b == c,
{
    assert(b == c) by (nonlinear_arith)
        requires
            b * 1_800_000_000 <= d < (b + 1) * 1_800_000_000,
            c * 1_800_000_000 <= d < (c + 1) * 1_800_000_000,
    ;
}

/// Block settlement carries its remainder over: settling the timed resources at `t1`
/// and then at `t2` leaves the horse exactly as settling them at `t2` at once (with
/// vitality and satiety in their `0..=100` range).
pub proof fn lemma_blocks_carry_remainder(h: Horse, t1: int, t2: int)
    requires
        h.state_at <= t1 <= t2 <= i64::MAX,
        0 <= h.vitality <= consts::VIT_MAX,
        0 <= h.satiety <= consts::VIT_MAX,
    ensures
        after_blocks(after_blocks(h, t1), t2) == after_blocks(h, t2),
{
    let d1 = t1 - h.state_at;
    let d2 = t2 - h.state_at;
    lemma_blocks_bracket(d1);
    lemma_blocks_bracket(d2);
    let b1 = elapsed_blocks(h, t1);
    let b = elapsed_blocks(h, t2);
    assert(b1 == (d1 / 60_000_000) / 30);
    assert(b == (d2 / 60_000_000) / 30);
    assert(b1 <= b) by (nonlinear_arith)
        requires
            b1 * 1_800_000_000 <= d1 < (b1 + 1) * 1_800_000_000,
            b * 1_800_000_000 <= d2 < (b + 1) * 1_800_000_000,
            d1 <= d2,
    ;
    if b1 > 0 {
        let h1 = after_blocks(h, t1);
        assert(h1.state_at == h.state_at + b1 * 1_800_000_000);
        let e = t2 - h1.state_at;
        assert(e == d2 - b1 * 1_800_000_000);
        lemma_blocks_bracket(e);
        let b2 = elapsed_blocks(h1, t2);
        assert(b2 == (e / 60_000_000) / 30);
        assert((b - b1) * 1_800_000_000 <= e < (b - b1 + 1) * 1_800_000_000) by (nonlinear_arith)
            requires
                b * 1_800_000_000 <= d2 < (b + 1) * 1_800_000_000,
                e == d2 - b1 * 1_800_000_000,
        ;
        lemma_blocks_unique(e, b2, b - b1);
        assert(b2 == b - b1);
    }
}

// ---------------------------------------------------------------------------
// Race bookkeeping and item effects
// ---------------------------------------------------------------------------

/// Records a finished race on business day `today` whose season key is `season`:
/// vitality and lifespan are spent (never below 0), races and wins counted, today's race
/// counter advanced (restarted on a new day) and season wins accumulated (restarted when
/// the season changes).
pub fn finish_race(h: &mut Horse, won: bool, today: i32, season: String)
    requires
        old(h).vitality >= i32::MIN + consts::VIT_RACE,
        old(h).lifespan >= i32::MIN + consts::LIFESPAN_RACE_COST,
        old(h).races < i32::MAX,
        old(h).wins < i32::MAX,
        old(h).race_today < i32::MAX,
        old(h).season_wins < i32::MAX,
    ensures
        final(h).vitality == if old(h).vitality - consts::VIT_RACE > 0 { old(h).vitality - consts::VIT_RACE } else { 0 },
        final(h).lifespan == if old(h).lifespan - consts::LIFESPAN_RACE_COST > 0 { old(h).lifespan - consts::LIFESPAN_RACE_COST } else { 0 },
        final(h).races == old(h).races + 1,
        final(h).wins == old(h).wins + if won { 1int } else { 0 },
        final(h).race_day == today,
        final(h).race_today == if old(h).race_day == today { old(h).race_today + 1 } else { 1 },
        final(h).season_key@ == season@,
        final(h).season_wins == if old(h).season_key@ == season@ {
            old(h).season_wins + if won { 1int } else { 0 }
        } else {
            if won { 1int } else { 0 }
        },
        *final(h) == (Horse {
            vitality: final(h).vitality,
            lifespan: final(h).lifespan,
            races: final(h).races,
            wins: final(h).wins,
            race_day: final(h).race_day,
            race_today: final(h).race_today,
            season_key: final(h).season_key,
            season_wins: final(h).season_wins,
            ..*old(h)
        }),
{
    let win_inc: i32 = if won { 1 } else { 0 };
    let v = h.vitality - consts::VIT_RACE;
    h.vitality = if v > 0 { v } else { 0 };
    let l = h.lifespan - consts::LIFESPAN_RACE_COST;
    h.lifespan = if l > 0 { l } else { 0 };
    h.races = h.races + 1;
    h.wins = h.wins + win_inc;
    h.race_today = if h.race_day == today { h.race_today + 1 } else { 1 };
    h.race_day = today;
    let same_season = h.season_key == season;
    h.season_wins = if same_season { h.season_wins + win_inc } else { win_inc };
    h.season_key = season;
}

/// Basic forage: satiety rises by [`FORAGE_SATIETY`](consts::FORAGE_SATIETY), capped at 100.
pub fn feed_basic(h: &mut Horse)
    requires
        old(h).satiety <= i32::MAX - consts::FORAGE_SATIETY,
    ensures
        *final(h) == (Horse {
            satiety: if old(h).satiety + consts::FORAGE_SATIETY < consts::VIT_MAX { (old(h).satiety + consts::FORAGE_SATIETY) as i32 } else { consts::VIT_MAX },
            ..*old(h)
        }),
{
    let s = h.satiety + consts::FORAGE_SATIETY;
    h.satiety = if s < consts::VIT_MAX { s } else { consts::VIT_MAX };
}

/// A care item: the restorable cap drops by `cap_cost` for good (not below 0) and the
/// lifespan rises by `restore` but never above the new cap.
pub fn apply_restore(h: &mut Horse, restore: i32, cap_cost: i32)
    requires
        old(h).lifespan_cap as int - cap_cost >= i32::MIN,
        old(h).lifespan_cap as int - cap_cost <= i32::MAX,
        old(h).lifespan as int + restore >= i32::MIN,
        old(h).lifespan as int + restore <= i32::MAX,
    ensures
        final(h).lifespan_cap == if old(h).lifespan_cap - cap_cost > 0 { old(h).lifespan_cap - cap_cost } else { 0 },
        final(h).lifespan == if old(h).lifespan + restore < final(h).lifespan_cap { old(h).lifespan + restore } else { final(h).lifespan_cap as int },
        *final(h) == (Horse { lifespan: final(h).lifespan, lifespan_cap: final(h).lifespan_cap, ..*old(h) }),
{
    let c = h.lifespan_cap - cap_cost;
    let new_cap = if c > 0 { c } else { 0 };
    let l = h.lifespan + restore;
    h.lifespan = if l < new_cap { l } else { new_cap };
    h.lifespan_cap = new_cap;
}

/// The reach of `stat` on `h`.
pub open spec fn reach_of(h: Horse, stat: consts::Stat) -> i32 {
    match stat {
        consts::Stat::Spd => h.pot_spd,
        consts::Stat::Sta => h.pot_sta,
        consts::Stat::Brs => h.pot_brs,
        consts::Stat::Agi => h.pot_agi,
        consts::Stat::Luk => h.pot_luk,
    }
}

/// The reach tonic: the reach of `stat` rises by [`REACH_TONIC_ADD`](consts::REACH_TONIC_ADD),
/// capped at [`REACH_HARD_MAX`](consts::REACH_HARD_MAX); returns the new reach. No other
/// field changes.
pub fn apply_reach_tonic(h: &mut Horse, stat: consts::Stat) -> (r: i32)
    requires
        reach_of(*old(h), stat) <= i32::MAX - consts::REACH_TONIC_ADD,
    ensures
        r == if reach_of(*old(h), stat) + consts::REACH_TONIC_ADD < consts::REACH_HARD_MAX { reach_of(*old(h), stat) + consts::REACH_TONIC_ADD } else { consts::REACH_HARD_MAX as int },
        reach_of(*final(h), stat) == r,
        forall|s: consts::Stat| s != stat ==> reach_of(*final(h), s) == reach_of(*old(h), s),
        *final(h) == (Horse { pot_spd: final(h).pot_spd, pot_sta: final(h).pot_sta, pot_brs: final(h).pot_brs, pot_agi: final(h).pot_agi, pot_luk: final(h).pot_luk, ..*old(h) }),
{
    let cur = match stat {
        consts::Stat::Spd => h.pot_spd,
        consts::Stat::Sta => h.pot_sta,
        consts::Stat::Brs => h.pot_brs,
        consts::Stat::Agi => h.pot_agi,
        consts::Stat::Luk => h.pot_luk,
    };
    let a = cur + consts::REACH_TONIC_ADD;
    let nv = if a < consts::REACH_HARD_MAX { a } else { consts::REACH_HARD_MAX };
    match stat {
        consts::Stat::Spd => h.pot_spd = nv,
        consts::Stat::Sta => h.pot_sta = nv,
        consts::Stat::Brs => h.pot_brs = nv,
        consts::Stat::Agi => h.pot_agi = nv,
        consts::Stat::Luk => h.pot_luk = nv,
    }
    nv
}

// ---------------------------------------------------------------------------
// Bloodlines
// ---------------------------------------------------------------------------

/// The parents recorded for horse `x` in `rows` (entries `(horse, father, mother)`),
/// looking from entry `i` on: those of the first entry for `x`, none when there is none.
pub open spec fn parents_in(rows: Seq<(i64, Option<i64>, Option<i64>)>, x: i64, i: int) -> (Option<i64>, Option<i64>)
    decreases rows.len() - i,
{
    if i < 0 || i >= rows.len() {
        (None, None)
    } else if rows[i].0 == x {
        (rows[i].1, rows[i].2)
    } else {
        parents_in(rows, x, i + 1)
    }
}

/// Whether `x` is `id` itself or one of its ancestors at most `d` generations back,
/// following the parents recorded in `rows`.
pub open spec fn is_ancestor(rows: Seq<(i64, Option<i64>, Option<i64>)>, id: i64, d: nat, x: i64) -> bool
    decreases d, 0nat,
{
    x == id || (d > 0 && (through(rows, parents_in(rows, id, 0).0, (d - 1) as nat, x) || through(
        rows,
        parents_in(rows, id, 0).1,
        (d - 1) as nat,
        x,
    )))
}

/// Whether `x` is, within `d` generations, the recorded parent `par` or one of its
/// ancestors (never, when no parent is recorded).
pub open spec fn through(rows: Seq<(i64, Option<i64>, Option<i64>)>, par: Option<i64>, d: nat, x: i64) -> bool
    decreases d, 1nat,
{
    match par {
        Some(p) => is_ancestor(rows, p, d, x),
        None => false,
    }
}

fn parents_of(rows: &Vec<(i64, Option<i64>, Option<i64>)>, x: i64) -> (r: (Option<i64>, Option<i64>))
    ensures
        r == parents_in(rows@, x, 0),
{
    let mut i: usize = 0;
    while i < rows.len()
        invariant
            i <= rows.len(),
            parents_in(rows@, x, 0) == parents_in(rows@, x, i as int),
        decreases rows.len() - i,
    {
        if rows[i].0 == x {
            return (rows[i].1, rows[i].2);
        }
        i = i + 1;
    }
    (None, None)
}

/// Whether `v` holds `x`.
pub fn contains_i64(v: &Vec<i64>, x: i64) -> (b: bool)
    ensures
        b == v@.contains(x),
{
    let mut i: usize = 0;
    while i < v.len()
        invariant
            i <= v.len(),
            forall|k: int| 0 <= k < i ==> v@[k] != x,
        decreases v.len() - i,
    {
        if v[i] == x {
            return true;
        }
        i = i + 1;
    }
    false
}

/// Adds to `out` each entry of `more` that it does not hold yet.
fn merge_into(out: &mut Vec<i64>, more: &Vec<i64>)
    requires
        old(out)@.no_duplicates(),
    ensures
        final(out)@.no_duplicates(),
        forall|x: i64| final(out)@.contains(x) <==> (old(out)@.contains(x) || more@.contains(x)),
{
    let ghost start = out@;
    let mut i: usize = 0;
    assert(more@.take(0) =~= Seq::<i64>::empty());
    while i < more.len()
        invariant
            i <= more.len(),
            out@.no_duplicates(),
            forall|x: i64| out@.contains(x) <==> (start.contains(x) || more@.take(i as int).contains(x)),
        decreases more.len() - i,
    {
        let x = more[i];
        let ghost before = out@;
        if !contains_i64(out, x) {
            out.push(x);
            proof {
                assert forall|a: int, b: int| 0 <= a < b < out@.len() implies out@[a] != out@[b] by {
                    if b == before.len() {
                        assert(before.contains(before[a]));
                    }
                }
            }
        }
        proof {
            let t0 = more@.take(i as int);
            let t1 = more@.take(i + 1);
            assert(t1 =~= t0.push(x));
            assert(t1[i as int] == x);
            assert forall|y: i64| out@.contains(y) <==> (start.contains(y) || t1.contains(y)) by {
                assert(before.contains(y) <==> (start.contains(y) || t0.contains(y)));
                if before.contains(y) {
                    let k = choose|k: int| 0 <= k < before.len() && #[trigger] before[k] == y;
                    assert(out@[k] == y);
                }
                if t0.contains(y) {
                    let k = choose|k: int| 0 <= k < t0.len() && #[trigger] t0[k] == y;
                    assert(t1[k] == y);
                }
                if y == x && !before.contains(x) {
                    assert(out@[before.len() as int] == x);
                }
                if t1.contains(y) {
                    let k = choose|k: int| 0 <= k < t1.len() && #[trigger] t1[k] == y;
                    if k < i {
                        assert(t0[k] == y);
                    }
                }
                if out@.contains(y) && !before.contains(y) {
                    let o = out@;
                    let k = choose|k: int| 0 <= k < o.len() && #[trigger] o[k] == y;
                    if k < before.len() {
                        assert(before[k] == y);
                    }
                }
            }
        }
        i = i + 1;
    }
    assert(more@.take(more.len() as int) =~= more@);
    assert(start == old(out)@);
    assert forall|x: i64| out@.contains(x) <==> (old(out)@.contains(x) || more@.contains(x)) by {
        assert(out@.contains(x) <==> (start.contains(x) || more@.take(more.len() as int).contains(x)));
    }
}

/// Horse `id` and its ancestors at most `depth` generations back (see [`is_ancestor`]),
/// each once, from the parents recorded in `rows` as `(horse, father, mother)`.
pub fn ancestors_within(rows: &Vec<(i64, Option<i64>, Option<i64>)>, id: i64, depth: u32) -> (r: Vec<i64>)
    ensures
        r@.no_duplicates(),
        forall|x: i64| r@.contains(x) <==> is_ancestor(rows@, id, depth as nat, x),
    decreases depth,
{
    let mut out: Vec<i64> = Vec::new();
    out.push(id);
    proof {
        assert(out@ =~= seq![id]);
        assert forall|x: i64| out@.contains(x) <==> x == id by {
            if out@.contains(x) {
                let o = out@;
                let k = choose|k: int| 0 <= k < o.len() && #[trigger] o[k] == x;
            }
            if x == id {
                assert(out@[0] == x);
            }
        }
    }
    if depth > 0 {
        let (f, m) = parents_of(rows, id);
        let d1: u32 = depth - 1;
        match f {
            Some(p) => {
                let ghost before = out@;
                let a = ancestors_within(rows, p, d1);
                merge_into(&mut out, &a);
                assert forall|x: i64| out@.contains(x) <==> (x == id || through(rows@, f, d1 as nat, x)) by {
                    assert(before.contains(x) <==> x == id);
                    assert(a@.contains(x) <==> is_ancestor(rows@, p, d1 as nat, x));
                    assert(out@.contains(x) <==> (before.contains(x) || a@.contains(x)));
                    assert(through(rows@, f, d1 as nat, x) == is_ancestor(rows@, p, d1 as nat, x));
                }
            },
            None => {
                assert forall|x: i64| out@.contains(x) <==> (x == id || through(rows@, f, d1 as nat, x)) by {}
            },
        }
        let ghost mid = out@;
        match m {
            Some(p) => {
                let b = ancestors_within(rows, p, d1);
                merge_into(&mut out, &b);
                assert forall|x: i64| out@.contains(x) <==> (mid.contains(x) || through(rows@, m, d1 as nat, x)) by {
                    assert(b@.contains(x) <==> is_ancestor(rows@, p, d1 as nat, x));
                    assert(out@.contains(x) <==> (mid.contains(x) || b@.contains(x)));
                    assert(through(rows@, m, d1 as nat, x) == is_ancestor(rows@, p, d1 as nat, x));
                }
            },
            None => {
                assert forall|x: i64| out@.contains(x) <==> (mid.contains(x) || through(rows@, m, d1 as nat, x)) by {}
            },
        }
        assert forall|x: i64| out@.contains(x) <==> is_ancestor(rows@, id, depth as nat, x) by {
            assert(mid.contains(x) <==> (x == id || through(rows@, f, d1 as nat, x)));
        }
    }
    out
}

/// Whether horses `a` and `b` are close kin: some horse is, within `depth` generations,
/// an ancestor of both (one being the other's ancestor, or the same horse, counts).
pub fn shares_ancestor(rows: &Vec<(i64, Option<i64>, Option<i64>)>, a: i64, b: i64, depth: u32) -> (r: bool)
    ensures
        r == exists|x: i64| is_ancestor(rows@, a, depth as nat, x) && is_ancestor(rows@, b, depth as nat, x),
{
    let sa = ancestors_within(rows, a, depth);
    let sb = ancestors_within(rows, b, depth);
    let mut i: usize = 0;
    while i < sa.len()
        invariant
            i <= sa.len(),
            forall|k: int| 0 <= k < i ==> !sb@.contains(#[trigger] sa@[k]),
            forall|x: i64| sa@.contains(x) <==> is_ancestor(rows@, a, depth as nat, x),
            forall|x: i64| sb@.contains(x) <==> is_ancestor(rows@, b, depth as nat, x),
        decreases sa.len() - i,
    {
        if contains_i64(&sb, sa[i]) {
            assert(sa@.contains(sa@[i as int]));
            assert(is_ancestor(rows@, a, depth as nat, sa@[i as int]));
            assert(is_ancestor(rows@, b, depth as nat, sa@[i as int]));
            return true;
        }
        i = i + 1;
    }
    proof {
        assert forall|x: i64| !(is_ancestor(rows@, a, depth as nat, x) && is_ancestor(rows@, b, depth as nat, x)) by {
            if is_ancestor(rows@, a, depth as nat, x) && is_ancestor(rows@, b, depth as nat, x) {
                assert(sa@.contains(x));
                let v = sa@;
                let k = choose|k: int| 0 <= k < v.len() && #[trigger] v[k] == x;
                assert(!sb@.contains(sa@[k]));
            }
        }
    }
    false
}

/// A foal's generation: one more than the later of its parents'.
pub fn child_generation(f: i32, m: i32) -> (r: i32)
    requires
        f < i32::MAX,
        m < i32::MAX,
    ensures
        r == (if f >= m { f } else { m }) + 1,
{
    (if f >= m {
        f
    } else {
        m
    }) + 1
}

/// A foal's base rarity: the parents' mean rarity rounded down.
pub fn breed_base_rarity(rf: i16, rm: i16) -> (r: i16)
    ensures
        r == (rf + rm) / 2,
{
    let sum: i32 = rf as i32 + rm as i32;
    let q = if sum >= 0 {
        sum / 2
    } else {
        -((-sum + 1) / 2)
    };
    assert(q == sum / 2) by (nonlinear_arith)
        requires
            q == if sum >= 0 { sum / 2 } else { -((-sum + 1) / 2) },
    ;
    q as i16
}

/// A foal's rarity after the base rarity moved by `delta` (+1 up, −1 down, 0 kept; the
/// star stone always gives +1), kept within `1..=4`.
pub fn shifted_rarity(base: i16, delta: i16) -> (r: i16)
    requires
        -1 <= delta <= 1,
    ensures
        r == clamp(base + delta, consts::RARITY_MIN as int, consts::RARITY_MAX as int),
{
    let v: i32 = base as i32 + delta as i32;
    if v < consts::RARITY_MIN as i32 {
        consts::RARITY_MIN
    } else if v > consts::RARITY_MAX as i32 {
        consts::RARITY_MAX
    } else {
        v as i16
    }
}

// ---------------------------------------------------------------------------
// Achievements
// ---------------------------------------------------------------------------

/// Career wins over a list of horses.
pub open spec fn wins_total(hs: Seq<Horse>) -> int
    decreases hs.len(),
{
    if hs.len() == 0 {
        0
    } else {
        wins_total(hs.drop_last()) + hs.last().wins
    }
}

/// Highest generation over a list of horses (0 for none).
pub open spec fn max_generation(hs: Seq<Horse>) -> int
    decreases hs.len(),
{
    if hs.len() == 0 {
        0
    } else {
        let m = max_generation(hs.drop_last());
        if hs.last().generation > m {
            hs.last().generation as int
        } else {
            m
        }
    }
}

/// Number of horses still in the stable (not retired).
pub open spec fn active_count(hs: Seq<Horse>) -> int
    decreases hs.len(),
{
    if hs.len() == 0 {
        0
    } else {
        active_count(hs.drop_last()) + if hs.last().status != 2 { 1int } else { 0 }
    }
}

/// Coat colours of the horses still in the stable.
pub open spec fn active_colors(hs: Seq<Horse>) -> Set<i16> {
    Set::new(|c: i16| exists|i: int| 0 <= i < hs.len() && hs[i].status != 2 && hs[i].color == c)
}

/// Whether some horse has rarity ★4 or more.
pub open spec fn any_star4(hs: Seq<Horse>) -> bool {
    exists|i: int| 0 <= i < hs.len() && hs[i].rarity >= 4
}

/// Whether some horse carries a trait.
pub open spec fn any_trait(hs: Seq<Horse>) -> bool {
    exists|i: int| 0 <= i < hs.len() && hs[i].traits != 0
}

/// The facts about one player's horses that achievements are judged on.
pub struct Dex {
    pub total_wins: i32,
    pub max_gen: i32,
    pub has_star4: bool,
    pub has_trait: bool,
    /// Distinct coat colours among the horses in the stable.
    pub colors: Vec<i16>,
    pub active: usize,
}

/// What a [`Dex`] holds for the horses `hs`.
pub open spec fn dex_of(d: Dex, hs: Seq<Horse>) -> bool {
    &&& d.total_wins == wins_total(hs)
    &&& d.max_gen == max_generation(hs)
    &&& d.has_star4 == any_star4(hs)
    &&& d.has_trait == any_trait(hs)
    &&& d.colors@.no_duplicates()
    &&& d.colors@.to_set() == active_colors(hs)
    &&& d.active == active_count(hs)
}

/// Whether every prefix sum of the horses' wins fits in `i32`.
pub open spec fn wins_fit(hs: Seq<Horse>) -> bool {
    forall|k: int| 0 <= k <= hs.len() ==> i32::MIN <= #[trigger] wins_total(hs.take(k)) <= i32::MAX
}

/// Whether `v` holds `x`.
pub fn contains_i16(v: &Vec<i16>, x: i16) -> (b: bool)
    ensures
        b == v@.contains(x),
{
    let mut i: usize = 0;
    while i < v.len()
        invariant
            i <= v.len(),
            forall|k: int| 0 <= k < i ==> v@[k] != x,
        decreases v.len() - i,
    {
        if v[i] == x {
            return true;
        }
        i = i + 1;
    }
    false
}

/// Scans a player's horses once for the achievement facts.
pub fn compute_dex(horses: &Vec<Horse>) -> (d: Dex)
    requires
        wins_fit(horses@),
    ensures
        dex_of(d, horses@),
{
    let n = horses.len();
    let mut d = Dex { total_wins: 0, max_gen: 0, has_star4: false, has_trait: false, colors: Vec::new(), active: 0 };
    let mut i: usize = 0;
    assert(horses@.take(0) =~= Seq::<Horse>::empty());
    assert(d.colors@.to_set() =~= active_colors(horses@.take(0)));
    while i < n
        invariant
            n == horses@.len(),
            i <= n,
            wins_fit(horses@),
            dex_of(d, horses@.take(i as int)),
            d.active <= i,
        decreases n - i,
    {
        let ghost pre = horses@.take(i as int);
        let ghost post = horses@.take(i + 1);
        assert(post.drop_last() =~= pre);
        assert(post.last() == horses@[i as int]);
        assert(wins_total(post) == wins_total(horses@.take(i + 1)));
        let h = &horses[i];
        d.total_wins = d.total_wins + h.wins;
        if h.generation > d.max_gen {
            d.max_gen = h.generation;
        }
        assert(any_star4(post) == (any_star4(pre) || h.rarity >= 4)) by {
            if h.rarity >= 4 {
                assert(post[i as int] == h);
            }
            if any_star4(post) && !(h.rarity >= 4) {
                let j = choose|j: int| 0 <= j < post.len() && post[j].rarity >= 4;
                assert(j < i);
                assert(pre[j] == post[j]);
            }
            if any_star4(pre) {
                let j = choose|j: int| 0 <= j < pre.len() && pre[j].rarity >= 4;
                assert(post[j] == pre[j]);
            }
        }
        assert(any_trait(post) == (any_trait(pre) || h.traits != 0)) by {
            if h.traits != 0 {
                assert(post[i as int] == h);
            }
            if any_trait(post) && !(h.traits != 0) {
                let j = choose|j: int| 0 <= j < post.len() && post[j].traits != 0;
                assert(j < i);
                assert(pre[j] == post[j]);
            }
            if any_trait(pre) {
                let j = choose|j: int| 0 <= j < pre.len() && pre[j].traits != 0;
                assert(post[j] == pre[j]);
            }
        }
        d.has_star4 = d.has_star4 || h.rarity >= 4;
        d.has_trait = d.has_trait || h.traits != 0;
        if h.status != 2 {
            d.active = d.active + 1;
            let c = h.color;
            let ghost before = d.colors@;
            if !contains_i16(&d.colors, c) {
                d.colors.push(c);
                assert(d.colors@ == before.push(c));
                assert(d.colors@.no_duplicates()) by {
                    assert forall|a: int, b: int| 0 <= a < d.colors@.len() && 0 <= b < d.colors@.len() && a != b implies d.colors@[a] != d.colors@[b] by {
                        if a < before.len() && b < before.len() {
                        } else if a == before.len() {
                            assert(!before.contains(c));
                            assert(d.colors@[b] == before[b]);
                        } else {
                            assert(!before.contains(c));
                            assert(d.colors@[a] == before[a]);
                        }
                    }
                }
            }
            assert(before.to_set() == active_colors(pre));
            assert(d.colors@ == before || (d.colors@ == before.push(c) && !before.contains(c)));
            assert forall|x: i16| d.colors@.contains(x) implies active_colors(post).contains(x) by {
                if before.contains(x) {
                    assert(before.to_set().contains(x));
                    assert(active_colors(pre).contains(x));
                    let j = choose|j: int| 0 <= j < pre.len() && pre[j].status != 2 && pre[j].color == x;
                    assert(post[j] == pre[j]);
                } else {
                    let k = choose|k: int| 0 <= k < d.colors@.len() && d.colors@[k] == x;
                    assert(k == before.len());
                    assert(x == c);
                    assert(post[i as int] == h);
                }
            }
            assert forall|x: i16| active_colors(post).contains(x) implies d.colors@.contains(x) by {
                let j = choose|j: int| 0 <= j < post.len() && post[j].status != 2 && post[j].color == x;
                if j < i {
                    assert(pre[j] == post[j]);
                    assert(active_colors(pre).contains(x));
                    assert(before.to_set().contains(x));
                    assert(before.contains(x));
                    let k = choose|k: int| 0 <= k < before.len() && before[k] == x;
                    assert(d.colors@[k] == x);
                } else {
                    assert(j == i);
                    assert(x == c);
                    if before.contains(c) {
                        let k = choose|k: int| 0 <= k < before.len() && before[k] == x;
                        assert(d.colors@[k] == x);
                    } else {
                        assert(d.colors@[before.len() as int] == c);
                    }
                }
            }
            assert(d.colors@.to_set() =~= active_colors(post));
        } else {
            assert(d.colors@.to_set() =~= active_colors(post)) by {
                assert forall|x: i16| active_colors(post).contains(x) implies active_colors(pre).contains(x) by {
                    let j = choose|j: int| 0 <= j < post.len() && post[j].status != 2 && post[j].color == x;
                    assert(j < i);
                    assert(pre[j] == post[j]);
                }
                assert forall|x: i16| active_colors(pre).contains(x) implies active_colors(post).contains(x) by {
                    let j = choose|j: int| 0 <= j < pre.len() && pre[j].status != 2 && pre[j].color == x;
                    assert(post[j] == pre[j]);
                }
            }
        }
        i = i + 1;
    }
    assert(horses@.take(n as int) =~= horses@);
    d
}

/// Whether the facts in `d` earn achievement `a`.
pub open spec fn earns(a: consts::Achievement, d: Dex) -> bool {
    match a {
        consts::Achievement::FirstWin => d.total_wins >= 1,
        consts::Achievement::HundredWins => d.total_wins >= consts::ACH_HUNDRED_WINS,
        consts::Achievement::FirstBreed => d.max_gen >= 2,
        consts::Achievement::Dynasty => d.max_gen >= consts::ACH_DYNASTY_GEN,
        consts::Achievement::Chosen => d.has_star4,
        consts::Achievement::Gifted => d.has_trait,
        consts::Achievement::Collector => d.colors@.len() >= consts::COLOR_COUNT,
        consts::Achievement::Tycoon => d.active >= consts::ACH_TYCOON_HORSES,
    }
}

/// Whether the horses `hs` earn achievement `a`.
pub open spec fn earned_by(a: consts::Achievement, hs: Seq<Horse>) -> bool {
    match a {
        consts::Achievement::FirstWin => wins_total(hs) >= 1,
        consts::Achievement::HundredWins => wins_total(hs) >= consts::ACH_HUNDRED_WINS,
        consts::Achievement::FirstBreed => max_generation(hs) >= 2,
        consts::Achievement::Dynasty => max_generation(hs) >= consts::ACH_DYNASTY_GEN,
        consts::Achievement::Chosen => any_star4(hs),
        consts::Achievement::Gifted => any_trait(hs),
        consts::Achievement::Collector => active_colors(hs).len() >= consts::COLOR_COUNT,
        consts::Achievement::Tycoon => active_count(hs) >= consts::ACH_TYCOON_HORSES,
    }
}

/// Whether the facts in `d` earn achievement `a`.
pub fn qualifies(a: consts::Achievement, d: &Dex) -> (r: bool)
    ensures
        r == earns(a, *d),
{
    match a {
        consts::Achievement::FirstWin => d.total_wins >= 1,
        consts::Achievement::HundredWins => d.total_wins >= consts::ACH_HUNDRED_WINS,
        consts::Achievement::FirstBreed => d.max_gen >= 2,
        consts::Achievement::Dynasty => d.max_gen >= consts::ACH_DYNASTY_GEN,
        consts::Achievement::Chosen => d.has_star4,
        consts::Achievement::Gifted => d.has_trait,
        consts::Achievement::Collector => d.colors.len() >= consts::COLOR_COUNT as usize,
        consts::Achievement::Tycoon => d.active >= consts::ACH_TYCOON_HORSES,
    }
}

/// Judging on a scan of the stable is judging on the stable itself.
pub proof fn lemma_dex_judges_stable(d: Dex, hs: Seq<Horse>, a: consts::Achievement)
    requires
        dex_of(d, hs),
    ensures
        earns(a, d) == earned_by(a, hs),
{
    d.colors@.unique_seq_to_set();
}

/// The achievement with code order position `k` (`0 <= k < 8`).
pub open spec fn achievement_at(k: int) -> consts::Achievement {
    if k == 0 {
        consts::Achievement::FirstWin
    } else if k == 1 {
        consts::Achievement::HundredWins
    } else if k == 2 {
        consts::Achievement::FirstBreed
    } else if k == 3 {
        consts::Achievement::Dynasty
    } else if k == 4 {
        consts::Achievement::Chosen
    } else if k == 5 {
        consts::Achievement::Gifted
    } else if k == 6 {
        consts::Achievement::Collector
    } else {
        consts::Achievement::Tycoon
    }
}

/// Among the first `k` achievements (code order), those not in `earned` that `hs` earns.
pub open spec fn newly_earned(earned: Seq<i32>, hs: Seq<Horse>, k: int) -> Seq<consts::Achievement>
    decreases k,
{
    if k <= 0 {
        seq![]
    } else {
        let a = achievement_at(k - 1);
        if !earned.contains(a.spec_code()) && earned_by(a, hs) {
            newly_earned(earned, hs, k - 1).push(a)
        } else {
            newly_earned(earned, hs, k - 1)
        }
    }
}

fn achievement_of(k: usize) -> (a: consts::Achievement)
    requires
        k < 8,
    ensures
        a == achievement_at(k as int),
{
    if k == 0 {
        consts::Achievement::FirstWin
    } else if k == 1 {
        consts::Achievement::HundredWins
    } else if k == 2 {
        consts::Achievement::FirstBreed
    } else if k == 3 {
        consts::Achievement::Dynasty
    } else if k == 4 {
        consts::Achievement::Chosen
    } else if k == 5 {
        consts::Achievement::Gifted
    } else if k == 6 {
        consts::Achievement::Collector
    } else {
        consts::Achievement::Tycoon
    }
}

/// Whether `v` holds `x`.
pub fn contains_i32(v: &Vec<i32>, x: i32) -> (b: bool)
    ensures
        b == v@.contains(x),
{
    let mut i: usize = 0;
    while i < v.len()
        invariant
            i <= v.len(),
            forall|k: int| 0 <= k < i ==> v@[k] != x,
        decreases v.len() - i,
    {
        if v[i] == x {
            return true;
        }
        i = i + 1;
    }
    false
}

/// The achievements, in code order, that the player's horses earn and whose codes are
/// not yet in `earned`.
pub fn new_achievements(earned: &Vec<i32>, horses: &Vec<Horse>) -> (r: Vec<consts::Achievement>)
    requires
        wins_fit(horses@),
    ensures
        r@ == newly_earned(earned@, horses@, 8),
{
    let d = compute_dex(horses);
    let mut r: Vec<consts::Achievement> = Vec::new();
    let mut k: usize = 0;
    while k < 8
        invariant
            k <= 8,
            dex_of(d, horses@),
            r@ == newly_earned(earned@, horses@, k as int),
        decreases 8 - k,
    {
        let a = achievement_of(k);
        proof {
            lemma_dex_judges_stable(d, horses@, a);
        }
        if !contains_i32(earned, a.code()) && qualifies(a, &d) {
            r.push(a);
        }
        k = k + 1;
    }
    r
}

/// The title shown for a player with achievement codes `earned`: among earned
/// achievements that unlock a title, the one with the highest reward, the later one in
/// code order on a tie.
pub open spec fn title_for(earned: Seq<i32>) -> Option<Seq<char>> {
    if earned.contains(2) {
        Some("百胜名驹"@)
    } else if earned.contains(5) {
        Some("天选"@)
    } else if earned.contains(4) {
        Some("名门"@)
    } else if earned.contains(7) {
        Some("集色大师"@)
    } else {
        None
    }
}

/// The player's title given the achievement codes earned (see [`title_for`]).
pub fn user_title(earned: &Vec<i32>) -> (r: Option<&'static str>)
    ensures
        r matches Some(t) ==> title_for(earned@) == Some(t@),
        r is None ==> title_for(earned@) is None,
{
    if contains_i32(earned, 2) {
        Some("百胜名驹")
    } else if contains_i32(earned, 5) {
        Some("天选")
    } else if contains_i32(earned, 4) {
        Some("名门")
    } else if contains_i32(earned, 7) {
        Some("集色大师")
    } else {
        None
    }
}

} // verus!
