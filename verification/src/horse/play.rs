//! The decisions of the horse commands: reading their arguments, whether a race,
//! training or breeding may go ahead (and at what price), which frames of a race are
//! shown live, the gacha session, and how a training roll is written into the horse.
//! Paying, storing and replying happen around these functions.

use vstd::prelude::*;

use crate::horse::consts::{self, Difficulty, Item, ItemKind, Stat};
use crate::horse::logic::{
    breed_cost, clamp, gacha_pull, pity_cap, points, races_today, roll_rarity, soft_bonus, stats_of,
    stats_roundable, weighted_pick, wsum, pick_by_roll, Horse, Pull, MINUTE_MICROS,
};
use crate::horse::pvp::int_token;
use crate::text::{
    chars_of, is_ws, parse_i64, slice_chars, split_tokens, string_from_chars, tokens, trim,
    trim_chars, views, Sep,
};

verus! {

// ---------------------------------------------------------------------------
// Arguments
// ---------------------------------------------------------------------------

/// The horse number a command starts with: its first word as an `i64`.
pub open spec fn id_of(s: Seq<char>) -> Option<i64> {
    let toks = tokens(s, Sep::Whitespace);
    if toks.len() == 0 || int_token(toks[0]) is None {
        None
    } else {
        Some(int_token(toks[0])->0 as i64)
    }
}

/// Reads the horse number a command starts with.
pub fn parse_id(s: &str) -> (r: Option<i64>)
    ensures
        r == id_of(s@),
{
    let v = chars_of(s);
    let toks = split_tokens(&v, Sep::Whitespace);
    if toks.len() == 0 {
        return None;
    }
    assert(views(toks@)[0] == toks@[0]@);
    parse_i64(&toks[0])
}

/// Difficulty and race items read from the words after the horse number, in any order:
/// a difficulty word sets the difficulty (a later one wins), a race item is kept while
/// fewer than [`MAX_RACE_ITEMS`](consts::MAX_RACE_ITEMS) are kept.
pub open spec fn race_opts_of(toks: Seq<Seq<char>>) -> (Option<Difficulty>, Seq<Item>)
    decreases toks.len(),
{
    if toks.len() == 0 {
        (None, seq![])
    } else {
        let (d, items) = race_opts_of(toks.drop_last());
        let t = trim(toks.last());
        match Difficulty::named(t) {
            Some(x) => (Some(x), items),
            None => match Item::named(t) {
                Some(it) => if it.spec_kind() == ItemKind::Race && items.len() < consts::MAX_RACE_ITEMS {
                    (d, items.push(it))
                } else {
                    (d, items)
                },
                None => (d, items),
            },
        }
    }
}

/// Reads `赛马比赛 <horse> [difficulty] [items]`: `None` without a horse number.
pub fn parse_race_args(s: &str) -> (r: Option<(i64, Option<Difficulty>, Vec<Item>)>)
    ensures
        match r {
            None => id_of(s@) is None,
            Some((id, d, items)) => id_of(s@) == Some(id) && (d, items@) == race_opts_of(
                tokens(s@, Sep::Whitespace).skip(1),
            ),
        },
{
    let v = chars_of(s);
    let toks = split_tokens(&v, Sep::Whitespace);
    if toks.len() == 0 {
        return None;
    }
    assert(views(toks@)[0] == toks@[0]@);
    let id = match parse_i64(&toks[0]) {
        Some(id) => id,
        None => {
            return None;
        },
    };
    let ghost all = views(toks@).skip(1);
    let mut d: Option<Difficulty> = None;
    let mut items: Vec<Item> = Vec::new();
    let mut i: usize = 1;
    while i < toks.len()
        invariant
            1 <= i <= toks.len(),
            all == views(toks@).skip(1),
            (d, items@) == race_opts_of(all.take(i - 1)),
        decreases toks.len() - i,
    {
        assert(all.take(i as int).drop_last() =~= all.take(i - 1));
        assert(all.take(i as int).last() == toks@[i as int]@);
        let w = string_from_chars(&toks[i]);
        match Difficulty::try_parse(w.as_str()) {
            Some(x) => {
                d = Some(x);
            },
            None => match Item::parse(w.as_str()) {
                Some(it) => {
                    if it.kind() == ItemKind::Race && items.len() < consts::MAX_RACE_ITEMS {
                        items.push(it);
                    }
                },
                None => {},
            },
        }
        i = i + 1;
    }
    assert(all.take(toks.len() - 1) =~= all);
    Some((id, d, items))
}

// ---------------------------------------------------------------------------
// Racing
// ---------------------------------------------------------------------------

/// Whole minutes from `now` until `until`, never negative.
pub open spec fn minutes_until(until: int, now: int) -> int {
    if until - now <= 0 {
        0
    } else {
        (until - now) / MINUTE_MICROS as int
    }
}

/// Minutes until the horse's injury heals on its own (`None` when it is not injured;
/// 0 when no end is recorded).
pub open spec fn injury_left(h: Horse, now: int) -> Option<int> {
    if h.injury <= 0 {
        None
    } else {
        match h.injury_until {
            Some(u) => Some(minutes_until(u as int, now)),
            None => Some(0),
        }
    }
}

/// Minutes until the injury of a settled horse heals on its own.
pub fn injury_remaining(h: &Horse, now: i64) -> (r: Option<i64>)
    requires
        0 <= now,
    ensures
        match r {
            Some(m) => injury_left(*h, now as int) == Some(m as int),
            None => injury_left(*h, now as int) is None,
        },
{
    if h.injury <= 0 {
        return None;
    }
    match h.injury_until {
        Some(u) => {
            if u <= now {
                Some(0)
            } else {
                Some((u - now) / MINUTE_MICROS)
            }
        },
        None => Some(0),
    }
}

/// Whether a PvE race may start, and what it costs.
#[derive(Clone, Copy, Debug, PartialEq, Eq, Structural)]
pub enum RaceGate {
    /// The horse is retired.
    Retired,
    /// Injured (severity), healing by itself in this many minutes.
    Injured(i16, i64),
    /// Not enough vitality.
    Tired,
    /// Race at this difficulty for this entry fee.
    Go(Difficulty, i64),
}

/// The race outcome for the settled horse `h`: retired first, then injured, then short
/// of vitality; otherwise the difficulty (the asked one, else easy for a first race and
/// normal after) and the fee, which grows with the races already run today.
pub open spec fn race_gate_of(h: Horse, asked: Option<Difficulty>, today: int, now: int) -> RaceGate {
    let d = match asked {
        Some(x) => x,
        None => if h.races == 0 { Difficulty::Easy } else { Difficulty::Normal },
    };
    let ran = if h.race_day == today { h.race_today as int } else { 0 };
    if h.status == 2 {
        RaceGate::Retired
    } else if h.injury > 0 {
        RaceGate::Injured(h.injury, injury_left(h, now)->0 as i64)
    } else if h.vitality < consts::VIT_RACE {
        RaceGate::Tired
    } else {
        RaceGate::Go(d, (d.fee() + d.fee_step() * ran) as i64)
    }
}

/// Decides whether the settled horse `h` may race (see [`race_gate_of`]).
pub fn race_gate(h: &Horse, asked: Option<Difficulty>, today: i32, now: i64) -> (r: RaceGate)
    requires
        0 <= now,
    ensures
        r == race_gate_of(*h, asked, today as int, now as int),
{
    let d = match asked {
        Some(x) => x,
        None => if h.races == 0 {
            Difficulty::Easy
        } else {
            Difficulty::Normal
        },
    };
    if h.status == 2 {
        return RaceGate::Retired;
    }
    if h.injury > 0 {
        let mins = match injury_remaining(h, now) {
            Some(m) => m,
            None => 0,
        };
        return RaceGate::Injured(h.injury, mins);
    }
    if h.vitality < consts::VIT_RACE {
        return RaceGate::Tired;
    }
    let ran = races_today(h, today);
    let fee = d.entry_fee();
    let step = d.entry_step();
    assert(0 <= step <= 1000 && 0 <= fee <= 100000) by {
        assert(d.fee_step() <= 1000 && d.fee() <= 100000);
    }
    assert(-1000 * 0x8000_0000 <= step * ran <= 1000 * 0x8000_0000) by (nonlinear_arith)
        requires
            0 <= step <= 1000,
            -0x8000_0000 <= ran <= 0x8000_0000,
    ;
    RaceGate::Go(d, fee + step * ran)
}

/// Sequence with consecutive repeats collapsed.
pub open spec fn dedup(s: Seq<usize>) -> Seq<usize>
    decreases s.len(),
{
    if s.len() <= 1 {
        s
    } else {
        let p = dedup(s.drop_last());
        if s.last() == s[s.len() - 2] {
            p
        } else {
            p.push(s.last())
        }
    }
}

/// The live frames shown from the key rounds `keys`: all of them (at most
/// `max(cap, 1)`) when there are few; otherwise `cap` rounds picked at even steps from
/// the first to the last key round, repeats collapsed.
pub open spec fn frames_of(keys: Seq<usize>, cap: int) -> Seq<usize> {
    if cap <= 1 || keys.len() <= cap {
        let c = if cap < 1 { 1 } else { cap };
        keys.take(if c < keys.len() { c } else { keys.len() as int })
    } else {
        dedup(Seq::new(cap as nat, |k: int| keys[k * (keys.len() - 1) / (cap - 1)]))
    }
}

/// Picks the key rounds shown live during a race (see [`frames_of`]).
pub fn pick_frames(key_rounds: &Vec<usize>, max: usize) -> (r: Vec<usize>)
    requires
        max > 1 && key_rounds.len() > max ==> (max - 1) * (key_rounds.len() - 1) <= usize::MAX,
    ensures
        r@ == frames_of(key_rounds@, max as int),
{
    let n = key_rounds.len();
    if max <= 1 || n <= max {
        let cap: usize = if max < 1 {
            1
        } else {
            max
        };
        let lim = if cap < n {
            cap
        } else {
            n
        };
        let mut out: Vec<usize> = Vec::new();
        let mut i: usize = 0;
        while i < lim
            invariant
                i <= lim <= n,
                n == key_rounds.len(),
                out@ == key_rounds@.take(i as int),
            decreases lim - i,
        {
            out.push(key_rounds[i]);
            assert(key_rounds@.take(i + 1) =~= key_rounds@.take(i as int).push(key_rounds@[i as int]));
            i = i + 1;
        }
        return out;
    }
    let ghost picks = Seq::new(max as nat, |k: int| key_rounds@[k * (n - 1) / (max - 1)]);
    let mut out: Vec<usize> = Vec::new();
    let mut k: usize = 0;
    while k < max
        invariant
            2 <= max,
            max < n,
            (max - 1) * (n - 1) <= usize::MAX,
            n == key_rounds.len(),
            k <= max,
            picks == Seq::new(max as nat, |k: int| key_rounds@[k * (n - 1) / (max - 1)]),
            out@ == dedup(picks.take(k as int)),
            k > 0 ==> out@.len() > 0 && out@.last() == picks[k - 1],
        decreases max - k,
    {
        assert(k * (n - 1) <= (max - 1) * (n - 1)) by (nonlinear_arith)
            requires
                k < max,
                max < n,
        ;
        assert(0 <= k * (n - 1) / (max - 1) < n) by (nonlinear_arith)
            requires
                k < max,
                2 <= max,
                max < n,
        ;
        let idx = k * (n - 1) / (max - 1);
        let x = key_rounds[idx];
        assert(picks[k as int] == x);
        assert(picks.take(k + 1).drop_last() =~= picks.take(k as int));
        if k > 0 {
            assert(picks.take(k + 1)[k - 1] == picks[k - 1]);
        }
        if k == 0 || out[out.len() - 1] != x {
            out.push(x);
        }
        proof {
            if k == 0 {
                assert(picks.take(1) =~= seq![x]);
            }
        }
        k = k + 1;
    }
    assert(picks.take(max as int) =~= picks);
    out
}

// ---------------------------------------------------------------------------
// Breeding
// ---------------------------------------------------------------------------

/// The breeding command's arguments.
#[derive(Clone, Copy, Debug, PartialEq, Eq, Structural)]
pub enum BreedArgs {
    /// Fewer than two horse numbers.
    Usage,
    /// The same horse named twice.
    SameHorse,
    /// The two horse numbers, and whether the star stone is used.
    Go(i64, i64, bool),
}

/// Reads `赛马繁殖 <stallion> <mare> [星辉石]`: both numbers, and whether the third word
/// names the star stone; the same number twice is refused.
pub open spec fn breed_args_of(s: Seq<char>) -> BreedArgs {
    let toks = tokens(s, Sep::Whitespace);
    if toks.len() < 2 || int_token(toks[0]) is None || int_token(toks[1]) is None {
        BreedArgs::Usage
    } else if int_token(toks[0]) == int_token(toks[1]) {
        BreedArgs::SameHorse
    } else {
        BreedArgs::Go(
            int_token(toks[0])->0 as i64,
            int_token(toks[1])->0 as i64,
            toks.len() >= 3 && Item::named(trim(toks[2])) == Some(Item::StarStone),
        )
    }
}

/// Reads the breeding command's arguments (see [`breed_args_of`]).
pub fn parse_breed_args(s: &str) -> (r: BreedArgs)
    ensures
        r == breed_args_of(s@),
{
    let v = chars_of(s);
    let toks = split_tokens(&v, Sep::Whitespace);
    if toks.len() < 2 {
        return BreedArgs::Usage;
    }
    assert(views(toks@)[0] == toks@[0]@);
    assert(views(toks@)[1] == toks@[1]@);
    let a = match parse_i64(&toks[0]) {
        Some(a) => a,
        None => {
            return BreedArgs::Usage;
        },
    };
    let b = match parse_i64(&toks[1]) {
        Some(b) => b,
        None => {
            return BreedArgs::Usage;
        },
    };
    if a == b {
        return BreedArgs::SameHorse;
    }
    let star = if toks.len() >= 3 {
        assert(views(toks@)[2] == toks@[2]@);
        let w = string_from_chars(&toks[2]);
        match Item::parse(w.as_str()) {
            Some(it) => it == Item::StarStone,
            None => false,
        }
    } else {
        false
    };
    BreedArgs::Go(a, b, star)
}

/// Whether a pair may breed, and at what price.
#[derive(Clone, Copy, Debug, PartialEq, Eq, Structural)]
pub enum BreedGate {
    /// Not one stallion and one mare.
    NeedPair,
    /// One of them is injured.
    Injured,
    /// This parent (true: the stallion) bred the most times allowed.
    Exhausted(bool),
    /// The mare rests for this many more minutes.
    Resting(i64),
    /// The stable is full.
    StableFull,
    /// Breed (true: the first horse named is the stallion) for this price.
    Go(bool, i64),
}

/// The breeding outcome for the settled horses `a` and `b` (as named), with `active`
/// horses in the stable: a stallion and a mare in either order; neither injured; neither
/// at the breeding limit (the stallion checked first); the mare not resting (at least one
/// minute reported); room in the stable; then the price by the higher rarity.
pub open spec fn breed_gate_of(a: Horse, b: Horse, now: int, active: int) -> BreedGate {
    let a_sire = a.sex == 0 && b.sex == 1;
    let b_sire = a.sex == 1 && b.sex == 0;
    let sire = if a_sire { a } else { b };
    let dam = if a_sire { b } else { a };
    if !a_sire && !b_sire {
        BreedGate::NeedPair
    } else if sire.injury > 0 || dam.injury > 0 {
        BreedGate::Injured
    } else if sire.breed_count >= consts::BREED_COUNT_MAX {
        BreedGate::Exhausted(true)
    } else if dam.breed_count >= consts::BREED_COUNT_MAX {
        BreedGate::Exhausted(false)
    } else if dam.breed_cd_until is Some && dam.breed_cd_until->0 > now {
        let left = (dam.breed_cd_until->0 - now) / MINUTE_MICROS as int;
        BreedGate::Resting(if left >= 1 { left as i64 } else { 1 })
    } else if active >= consts::STABLE_CAP {
        BreedGate::StableFull
    } else {
        BreedGate::Go(
            a_sire,
            consts::BREED_COST_BY_RARITY@[clamp(
                if sire.rarity >= dam.rarity { sire.rarity as int } else { dam.rarity as int },
                1,
                4,
            ) - 1],
        )
    }
}

/// Breeding goes ahead only for a stallion and a mare, both uninjured, both below the
/// breeding limit, the mare not resting, with room in the stable; and a healthy pair
/// in which a parent reached the limit is refused for that parent, the stallion named
/// first.
pub proof fn lemma_breed_gate_limits(a: Horse, b: Horse, now: int, active: int)
    requires
        0 <= now,
    ensures
        breed_gate_of(a, b, now, active) is Go ==> {
            &&& (a.sex == 0 && b.sex == 1) || (a.sex == 1 && b.sex == 0)
            &&& a.injury <= 0 && b.injury <= 0
            &&& a.breed_count < consts::BREED_COUNT_MAX && b.breed_count < consts::BREED_COUNT_MAX
            &&& active < consts::STABLE_CAP
            &&& (if a.sex == 1 { a } else { b }).breed_cd_until matches Some(u) ==> u <= now
        },
        breed_gate_of(a, b, now, active) matches BreedGate::Go(first_is_sire, _) ==> first_is_sire == (a.sex == 0),
        breed_gate_of(a, b, now, active) matches BreedGate::Resting(m) ==> {
            let dam = if a.sex == 1 { a } else { b };
            &&& dam.breed_cd_until matches Some(u) && u > now
            &&& m >= 1
            &&& m == if (dam.breed_cd_until->0 - now) / 60_000_000 >= 1 {
                (dam.breed_cd_until->0 - now) / 60_000_000
            } else {
                1
            }
        },
        ((a.sex == 0 && b.sex == 1) || (a.sex == 1 && b.sex == 0)) && a.injury <= 0 && b.injury <= 0 ==> {
            let sire = if a.sex == 0 { a } else { b };
            let dam = if a.sex == 0 { b } else { a };
            &&& sire.breed_count >= consts::BREED_COUNT_MAX ==> breed_gate_of(a, b, now, active)
                == BreedGate::Exhausted(true)
            &&& sire.breed_count < consts::BREED_COUNT_MAX && dam.breed_count >= consts::BREED_COUNT_MAX
                ==> breed_gate_of(a, b, now, active) == BreedGate::Exhausted(false)
        },
{
}

/// Decides whether `a` and `b` may breed (see [`breed_gate_of`]).
pub fn breed_gate(a: &Horse, b: &Horse, now: i64, active: usize) -> (r: BreedGate)
    requires
        0 <= now,
    ensures
        r == breed_gate_of(*a, *b, now as int, active as int),
        r is Go ==> a.breed_count < consts::BREED_COUNT_MAX && b.breed_count < consts::BREED_COUNT_MAX
            && a.injury <= 0 && b.injury <= 0,
{
    proof {
        lemma_breed_gate_limits(*a, *b, now as int, active as int);
    }
    let a_sire = a.sex == 0 && b.sex == 1;
    let b_sire = a.sex == 1 && b.sex == 0;
    if !a_sire && !b_sire {
        return BreedGate::NeedPair;
    }
    let (sire, dam) = if a_sire {
        (a, b)
    } else {
        (b, a)
    };
    if sire.injury > 0 || dam.injury > 0 {
        return BreedGate::Injured;
    }
    if sire.breed_count >= consts::BREED_COUNT_MAX {
        return BreedGate::Exhausted(true);
    }
    if dam.breed_count >= consts::BREED_COUNT_MAX {
        return BreedGate::Exhausted(false);
    }
    match dam.breed_cd_until {
        Some(u) => {
            if u > now {
                let m = (u - now) / MINUTE_MICROS;
                return BreedGate::Resting(
                    if m >= 1 {
                        m
                    } else {
                        1
                    },
                );
            }
        },
        None => {},
    }
    if active >= consts::STABLE_CAP {
        return BreedGate::StableFull;
    }
    BreedGate::Go(a_sire, breed_cost(sire, dam))
}

/// What a foal starts with as career investment: the breeding price, plus the star
/// stone's resale price when one was used.
pub fn foal_invested(cost: i64, star_stone: bool) -> (r: i64)
    requires
        0 <= cost <= 1_000_000_000,
    ensures
        r == cost + if star_stone { consts::quarter_at_least_one(Item::StarStone.spec_base_value() as int) } else { 0 },
{
    if star_stone {
        let p = Item::StarStone.sell_price();
        assert(p <= 1_000_000) by {
            assert(Item::StarStone.spec_base_value() <= 4_000_000);
        }
        cost + p
    } else {
        cost
    }
}

// ---------------------------------------------------------------------------
// Renaming
// ---------------------------------------------------------------------------

/// The arguments of `赛马改名 <horse> <name>`.
#[derive(Debug)]
pub enum RenameArgs {
    /// No whitespace after the number: no name given.
    Usage,
    /// The number is not a number.
    BadId,
    /// The name is empty or longer than [`NAME_MAX_CHARS`](consts::NAME_MAX_CHARS).
    BadName,
    /// Horse number and new name.
    Go(i64, String),
}

/// Index of the first whitespace character of `s` at or after `from`, if any.
pub open spec fn first_ws(s: Seq<char>, from: int) -> Option<int>
    decreases s.len() - from,
{
    if from >= s.len() || from < 0 {
        None
    } else if is_ws(s[from]) {
        Some(from)
    } else {
        first_ws(s, from + 1)
    }
}

/// Reads the rename command: the trimmed text is split at its first whitespace
/// character into the number and the name, each trimmed.
pub fn parse_rename(s: &str) -> (r: RenameArgs)
    ensures
        ({
            let t = trim(s@);
            match first_ws(t, 0) {
                None => r is Usage,
                Some(p) => {
                    let id = int_token(trim(t.take(p)));
                    let name = trim(t.skip(p + 1));
                    if id is None {
                        r is BadId
                    } else if name.len() == 0 || name.len() > consts::NAME_MAX_CHARS {
                        r is BadName
                    } else {
                        r matches RenameArgs::Go(i, n) && i == id->0 && n@ == name
                    }
                },
            }
        }),
{
    let v = chars_of(s);
    let t = trim_chars(&v);
    let mut p: usize = 0;
    while p < t.len()
        invariant
            p <= t.len(),
            first_ws(t@, 0) == first_ws(t@, p as int),
        ensures
            p <= t.len(),
            first_ws(t@, 0) == first_ws(t@, p as int),
            p < t.len() ==> is_ws(t@[p as int]),
        decreases t.len() - p,
    {
        if crate::text::char_is_ws(t[p]) {
            break;
        }
        p = p + 1;
    }
    if p == t.len() {
        return RenameArgs::Usage;
    }
    let head = slice_chars(&t, 0, p);
    let tail = slice_chars(&t, p + 1, t.len());
    assert(head@ =~= t@.take(p as int));
    assert(tail@ =~= t@.skip(p + 1));
    let id_part = trim_chars(&head);
    let id = match parse_i64(&id_part) {
        Some(id) => id,
        None => {
            return RenameArgs::BadId;
        },
    };
    let name = trim_chars(&tail);
    if name.len() == 0 || name.len() > consts::NAME_MAX_CHARS {
        return RenameArgs::BadName;
    }
    RenameArgs::Go(id, string_from_chars(&name))
}

// ---------------------------------------------------------------------------
// Training
// ---------------------------------------------------------------------------

/// The arguments of `赛马训练 <horse> <stat> [training item]`.
#[derive(Clone, Copy, Debug, PartialEq, Eq, Structural)]
pub enum TrainArgs {
    /// No horse number or no stat word.
    Usage,
    /// The stat word names no stat.
    NoStat,
    /// Horse number, stat, and the training item brought (a non-training item counts as none).
    Go(i64, Stat, Option<Item>),
}

/// The meaning of the training command's arguments.
pub open spec fn train_args_of(s: Seq<char>) -> TrainArgs {
    let toks = tokens(s, Sep::Whitespace);
    if toks.len() < 2 || int_token(toks[0]) is None {
        TrainArgs::Usage
    } else if Stat::named(trim(toks[1])) is None {
        TrainArgs::NoStat
    } else {
        let item = if toks.len() >= 3 && Item::named(trim(toks[2])) is Some
            && Item::named(trim(toks[2]))->0.spec_kind() == ItemKind::Train {
            Item::named(trim(toks[2]))
        } else {
            None
        };
        TrainArgs::Go(int_token(toks[0])->0 as i64, Stat::named(trim(toks[1]))->0, item)
    }
}

/// Reads the training command's arguments (see [`train_args_of`]).
pub fn parse_train_args(s: &str) -> (r: TrainArgs)
    ensures
        r == train_args_of(s@),
{
    let v = chars_of(s);
    let toks = split_tokens(&v, Sep::Whitespace);
    if toks.len() < 2 {
        return TrainArgs::Usage;
    }
    assert(views(toks@)[0] == toks@[0]@);
    assert(views(toks@)[1] == toks@[1]@);
    let id = match parse_i64(&toks[0]) {
        Some(id) => id,
        None => {
            return TrainArgs::Usage;
        },
    };
    let w = string_from_chars(&toks[1]);
    let stat = match Stat::parse(w.as_str()) {
        Some(st) => st,
        None => {
            return TrainArgs::NoStat;
        },
    };
    let item = if toks.len() >= 3 {
        assert(views(toks@)[2] == toks@[2]@);
        let w2 = string_from_chars(&toks[2]);
        match Item::parse(w2.as_str()) {
            Some(it) => if it.kind() == ItemKind::Train {
                Some(it)
            } else {
                None
            },
            None => None,
        }
    } else {
        None
    };
    TrainArgs::Go(id, stat, item)
}

/// Whether a horse may train.
#[derive(Clone, Copy, Debug, PartialEq, Eq, Structural)]
pub enum TrainGate {
    Retired,
    Tired,
    Go,
}

/// Training needs a horse in the stable with [`VIT_TRAIN`](consts::VIT_TRAIN) vitality
/// (on its settled state).
pub fn train_gate(h: &Horse) -> (r: TrainGate)
    ensures
        r == if h.status == 2 {
            TrainGate::Retired
        } else if h.vitality < consts::VIT_TRAIN {
            TrainGate::Tired
        } else {
            TrainGate::Go
        },
{
    if h.status == 2 {
        TrainGate::Retired
    } else if h.vitality < consts::VIT_TRAIN {
        TrainGate::Tired
    } else {
        TrainGate::Go
    }
}

/// Coins per hundred points of the trained stat's current value added to a training's price.
pub const TRAIN_COST_PER_100_POINTS: i64 = 28;

/// The current value in points of `stat` on `h`.
pub open spec fn points_of(h: Horse, stat: Stat) -> int {
    match stat {
        Stat::Spd => points(h.spd),
        Stat::Sta => points(h.sta),
        Stat::Brs => points(h.brs),
        Stat::Agi => points(h.agi),
        Stat::Luk => points(h.luk),
    }
}

/// `x / 100` rounded to the nearest integer, halves away from zero.
pub open spec fn round_hundredths(x: int) -> int {
    if x >= 0 {
        (x + 50) / 100
    } else {
        -((-x + 50) / 100)
    }
}

/// The price of training `focus` on business day `today`: the base price, a step per
/// training of that horse already done today, and 0.28 coin per point of the stat's
/// current value, rounded to the nearest coin.
pub open spec fn train_cost_of(h: Horse, focus: Stat, today: int) -> int {
    let count = if h.train_day == today { h.train_today as int } else { 0 };
    consts::TRAIN_BASE_COST + consts::TRAIN_COST_STEP * count + round_hundredths(
        points_of(h, focus) * TRAIN_COST_PER_100_POINTS,
    )
}

/// The price of training a stat grows with the current value of that very stat: the
/// per-point term of each focus is `round(0.28 × points)` of its own field, whatever the
/// other stats are.
pub proof fn lemma_train_cost_reads_the_focus(h: Horse, today: int)
    ensures
        ({
            let base = consts::TRAIN_BASE_COST + consts::TRAIN_COST_STEP * (if h.train_day == today {
                h.train_today as int
            } else {
                0
            });
            &&& train_cost_of(h, Stat::Spd, today) == base + round_hundredths(points(h.spd) * 28)
            &&& train_cost_of(h, Stat::Sta, today) == base + round_hundredths(points(h.sta) * 28)
            &&& train_cost_of(h, Stat::Brs, today) == base + round_hundredths(points(h.brs) * 28)
            &&& train_cost_of(h, Stat::Agi, today) == base + round_hundredths(points(h.agi) * 28)
            &&& train_cost_of(h, Stat::Luk, today) == base + round_hundredths(points(h.luk) * 28)
        }),
{
}

/// Two horses that differ only in their current stats and agree on the focus stat pay
/// the same price for training it: the other stats do not enter the price.
pub proof fn lemma_train_cost_other_stats_irrelevant(h: Horse, g: Horse, focus: Stat, today: int)
    requires
        g == (Horse { spd: g.spd, sta: g.sta, brs: g.brs, agi: g.agi, luk: g.luk, ..h }),
        points_of(g, focus) == points_of(h, focus),
    ensures
        train_cost_of(g, focus, today) == train_cost_of(h, focus, today),
{
}

/// Prices one training (see [`train_cost_of`]).
pub fn train_cost(h: &Horse, focus: Stat, today: i32) -> (r: i64)
    requires
        stats_roundable(*h),
    ensures
        r == train_cost_of(*h, focus, today as int),
        r == consts::TRAIN_BASE_COST + consts::TRAIN_COST_STEP * (if h.train_day == today {
            h.train_today as int
        } else {
            0
        }) + round_hundredths(
            match focus {
                Stat::Spd => points(h.spd),
                Stat::Sta => points(h.sta),
                Stat::Brs => points(h.brs),
                Stat::Agi => points(h.agi),
                Stat::Luk => points(h.luk),
            } * 28,
        ),
{
    proof {
        lemma_train_cost_reads_the_focus(*h, today as int);
    }
    let count: i64 = if h.train_day == today {
        h.train_today as i64
    } else {
        0
    };
    let st = stats_of(h);
    let cur = st[focus.idx()] as i64;
    assert(cur == points_of(*h, focus));
    let x = cur * TRAIN_COST_PER_100_POINTS;
    let part = if x >= 0 {
        (x + 50) / 100
    } else {
        -((-x + 50) / 100)
    };
    consts::TRAIN_BASE_COST + consts::TRAIN_COST_STEP * count + part
}

/// What a training item does: better-roll weight bumps, and the focus, drill-pass and
/// limit-break effects.
#[derive(Clone, Copy, Debug, PartialEq, Eq, Structural)]
pub struct TrainAid {
    /// Extra weight toward good rolls (feeds).
    pub feed_bump: u32,
    /// Focus feed: no spill into another stat, focus gain ×1.5.
    pub focus_only: bool,
    /// Drill pass: this training costs no vitality.
    pub no_vit: bool,
    /// Limit-break pill: ignore the talent ceiling this time.
    pub break_ceiling: bool,
}

impl TrainAid {
    /// The effects of the training item brought (`None`: plain training).
    pub fn of(item: Option<Item>) -> (r: TrainAid)
        ensures
            r.feed_bump == match item {
                Some(i) => i.spec_feed_bump(),
                None => 0,
            },
            r.focus_only == (item == Some(Item::FocusFeed)),
            r.no_vit == (item == Some(Item::DrillPass)),
            r.break_ceiling == (item == Some(Item::BreakPill)),
    {
        TrainAid {
            feed_bump: match item {
                Some(i) => i.feed_bump(),
                None => 0,
            },
            focus_only: item == Some(Item::FocusFeed),
            no_vit: item == Some(Item::DrillPass),
            break_ceiling: item == Some(Item::BreakPill),
        }
    }
}

/// How far a training roll leans toward the good tiers: one step per 40 luck (at most
/// four), the feed's bump, and one more when well fed.
pub open spec fn good_bump(luk: int, feed_bump: int, well_fed: bool) -> int {
    (if luk < 40 {
        0int
    } else if luk >= 160 {
        4int
    } else {
        luk / 40
    }) + feed_bump + if well_fed {
        1int
    } else {
        0int
    }
}

/// The weights of the four training tiers (dim, plain, good, great): the bump takes
/// three per step from the dim tier (not below zero) and adds two per step to the good
/// tier and one to the great tier; a hungry horse gets 15 more on the dim tier and half
/// (rounded down) on the two upper tiers.
pub open spec fn tier_weights(luk: int, feed_bump: int, hungry: bool, well_fed: bool) -> Seq<u32> {
    let g = good_bump(luk, feed_bump, well_fed);
    let t = consts::TRAIN_TIERS_TENTHS;
    let w0 = if t[0].0 > 3 * g { t[0].0 - 3 * g } else { 0 };
    let w2 = t[2].0 + 2 * g;
    let w3 = t[3].0 + g;
    if hungry {
        seq![(w0 + 15) as u32, t[1].0, (w2 / 2) as u32, (w3 / 2) as u32]
    } else {
        seq![w0 as u32, t[1].0, w2 as u32, w3 as u32]
    }
}

/// What the tier weights need to stay within `u32`, their sum included.
pub open spec fn tier_weights_fit(luk: int, feed_bump: int, hungry: bool, well_fed: bool) -> bool {
    let g = good_bump(luk, feed_bump, well_fed);
    &&& 3 * g <= u32::MAX
    &&& !hungry ==> 3 * g + 60 <= u32::MAX
}

/// The tier weights of one training roll (see [`tier_weights`]).
pub fn train_tier_weights(luk: i32, feed_bump: u32, hungry: bool, well_fed: bool) -> (w: [u32; 4])
    requires
        tier_weights_fit(luk as int, feed_bump as int, hungry, well_fed),
    ensures
        w@ == tier_weights(luk as int, feed_bump as int, hungry, well_fed),
{
    let lb: u32 = if luk < 40 {
        0
    } else if luk >= 160 {
        4
    } else {
        (luk / 40) as u32
    };
    let good: u32 = lb + feed_bump + if well_fed {
        1
    } else {
        0
    };
    let t = consts::TRAIN_TIERS_TENTHS;
    let mut w: [u32; 4] = [t[0].0.saturating_sub(good * 3), t[1].0, t[2].0 + good * 2, t[3].0 + good];
    if hungry {
        w[0] = w[0] + 15;
        w[2] = w[2] / 2;
        w[3] = w[3] / 2;
    }
    assert(w@ =~= tier_weights(luk as int, feed_bump as int, hungry, well_fed));
    w
}

proof fn lemma_tier_weights_sum(luk: int, feed_bump: int, hungry: bool, well_fed: bool)
    requires
        0 <= feed_bump,
        tier_weights_fit(luk, feed_bump, hungry, well_fed),
    ensures
        0 < wsum(tier_weights(luk, feed_bump, hungry, well_fed)) <= u32::MAX,
{
    let w = tier_weights(luk, feed_bump, hungry, well_fed);
    reveal_with_fuel(wsum, 5);
    assert(w.drop_first().drop_first().drop_first().drop_first() =~= Seq::<u32>::empty());
}

/// Draws the tier of one training roll: index `t` is drawn with weight
/// `tier_weights(..)[t]`, so a tier of weight zero is never drawn.
pub fn roll_train_tier(luk: i32, feed_bump: u32, hungry: bool, well_fed: bool, rng: &mut rand::rngs::StdRng) -> (t: usize)
    requires
        tier_weights_fit(luk as int, feed_bump as int, hungry, well_fed),
    ensures
        t < 4,
        tier_weights(luk as int, feed_bump as int, hungry, well_fed)[t as int] > 0,
        exists|r: int|
            0 <= r < wsum(tier_weights(luk as int, feed_bump as int, hungry, well_fed)) && t == pick_by_roll(
                tier_weights(luk as int, feed_bump as int, hungry, well_fed),
                r,
            ),
{
    let w = train_tier_weights(luk, feed_bump, hungry, well_fed);
    proof {
        lemma_tier_weights_sum(luk as int, feed_bump as int, hungry, well_fed);
    }
    let ws = w.as_slice();
    assert(ws@ == w@);
    weighted_pick(ws, rng)
}

/// The stored (centi-point) value of `stat` on `h`.
pub open spec fn centi_of(h: Horse, stat: Stat) -> i32 {
    match stat {
        Stat::Spd => h.spd,
        Stat::Sta => h.sta,
        Stat::Brs => h.brs,
        Stat::Agi => h.agi,
        Stat::Luk => h.luk,
    }
}

/// The stored stats as a sequence in stat order.
pub open spec fn centis(h: Horse) -> Seq<i32> {
    seq![h.spd, h.sta, h.brs, h.agi, h.luk]
}

/// The robustness bound of a stored stat: [`STAT_SANITY_MAX`](consts::STAT_SANITY_MAX) points.
pub open spec fn sanity_cap() -> int {
    consts::STAT_SANITY_MAX * consts::STAT_SCALE
}

/// `v` plus `g`, capped at the robustness bound.
pub open spec fn grown(v: int, g: int) -> i32 {
    if v + g < sanity_cap() {
        (v + g) as i32
    } else {
        sanity_cap() as i32
    }
}

/// The stored stats after a training roll: the focus gains `focus_gain` and the spill
/// stat (if any, never the focus) its gain, both capped at the robustness bound.
pub open spec fn trained_centis(h: Horse, focus: Stat, focus_gain: int, spill: Option<(Stat, i32)>) -> Seq<i32> {
    let c = centis(h);
    let c1 = c.update(focus.index() as int, grown(c[focus.index() as int] as int, focus_gain));
    match spill {
        Some((s, g)) => c1.update(s.index() as int, grown(c1[s.index() as int] as int, g as int)),
        None => c1,
    }
}

/// Writes a training roll into the horse: the stat gains (centi-points, rolled outside),
/// today's training count (restarted on a new day), the career training count, the
/// vitality spent (none with a drill pass) and one point of lifespan.
pub fn apply_training(h: &mut Horse, focus: Stat, focus_gain: i32, spill: Option<(Stat, i32)>, no_vit: bool, today: i32)
    requires
        0 <= focus_gain <= sanity_cap(),
        spill matches Some((s, g)) ==> s != focus && 0 <= g <= sanity_cap(),
        forall|i: int| 0 <= i < 5 ==> centis(*old(h))[i] <= i32::MAX - sanity_cap(),
        old(h).train_today < i32::MAX,
        old(h).train_total < i32::MAX,
        old(h).vitality >= i32::MIN + consts::VIT_TRAIN,
        old(h).lifespan > i32::MIN,
    ensures
        centis(*final(h)) == trained_centis(*old(h), focus, focus_gain as int, spill),
        *final(h) == (Horse {
            spd: final(h).spd,
            sta: final(h).sta,
            brs: final(h).brs,
            agi: final(h).agi,
            luk: final(h).luk,
            train_day: today,
            train_today: if old(h).train_day == today { (old(h).train_today + 1) as i32 } else { 1 },
            train_total: (old(h).train_total + 1) as i32,
            vitality: if no_vit {
                old(h).vitality
            } else if old(h).vitality - consts::VIT_TRAIN < 0 {
                0
            } else {
                (old(h).vitality - consts::VIT_TRAIN) as i32
            },
            lifespan: if old(h).lifespan - consts::LIFESPAN_TRAIN_COST < 0 {
                0
            } else {
                (old(h).lifespan - consts::LIFESPAN_TRAIN_COST) as i32
            },
            ..*old(h)
        }),
{
    let cap: i32 = consts::STAT_SANITY_MAX * consts::STAT_SCALE;
    let mut c: [i32; 5] = [h.spd, h.sta, h.brs, h.agi, h.luk];
    assert(c@ =~= centis(*h));
    let fi = focus.idx();
    let a = c[fi] + focus_gain;
    c[fi] = if a < cap {
        a
    } else {
        cap
    };
    let ghost c1 = c@;
    match spill {
        Some((s, g)) => {
            let si = s.idx();
            assert(si != fi);
            let b = c[si] + g;
            c[si] = if b < cap {
                b
            } else {
                cap
            };
        },
        None => {},
    }
    assert(c@ =~= trained_centis(*old(h), focus, focus_gain as int, spill));
    h.spd = c[0];
    h.sta = c[1];
    h.brs = c[2];
    h.agi = c[3];
    h.luk = c[4];
    h.train_today = if h.train_day == today {
        h.train_today + 1
    } else {
        1
    };
    h.train_day = today;
    h.train_total = h.train_total + 1;
    if !no_vit {
        let v = h.vitality - consts::VIT_TRAIN;
        h.vitality = if v < 0 {
            0
        } else {
            v
        };
    }
    let l = h.lifespan - consts::LIFESPAN_TRAIN_COST;
    h.lifespan = if l < 0 {
        0
    } else {
        l
    };
    assert(centis(*h) =~= c@);
}

// ---------------------------------------------------------------------------
// Gacha sessions
// ---------------------------------------------------------------------------

/// The price of a session: a single or a ten-draw, in the standard or the horse pool.
pub fn gacha_cost(count: usize, horse_pool: bool) -> (r: i64)
    ensures
        r == if horse_pool {
            if count == 1 { consts::GACHA_HORSE_POOL_SINGLE_COST } else { consts::GACHA_HORSE_POOL_TEN_COST }
        } else {
            if count == 1 { consts::GACHA_SINGLE_COST } else { consts::GACHA_TEN_COST }
        },
{
    if horse_pool {
        if count == 1 {
            consts::GACHA_HORSE_POOL_SINGLE_COST
        } else {
            consts::GACHA_HORSE_POOL_TEN_COST
        }
    } else {
        if count == 1 {
            consts::GACHA_SINGLE_COST
        } else {
            consts::GACHA_TEN_COST
        }
    }
}

/// Whether a draw is a ★3+ horse.
pub open spec fn is_high(p: Pull) -> bool {
    p matches Pull::Horse(x) && x >= 3
}

/// The pity counter after a run of draws: a ★3+ horse resets it, anything else adds one.
pub open spec fn pity_after(pity: int, pulls: Seq<Pull>) -> int
    decreases pulls.len(),
{
    if pulls.len() == 0 {
        pity
    } else {
        let p = pity_after(pity, pulls.drop_last());
        match pulls.last() {
            Pull::Horse(r) => if r >= 3 { 0 } else { p + 1 },
            Pull::Item(_) => p + 1,
        }
    }
}

/// The draws of one session, the pity counter after them, and the rarity of the extra
/// horse a ten-draw without any horse grants (not counted by the pity counter).
#[derive(Clone, Debug)]
pub struct GachaRun {
    pub pulls: Vec<Pull>,
    pub pity: i32,
    pub extra: Option<i16>,
}

/// Draws a session of `count` in the standard or the horse pool from that pool's pity
/// counter `pity` (the pools count separately). The counter stays below the pool's
/// [`pity_cap`]; a session that reaches it holds a ★3+ horse; a session of ten or more
/// without any horse grants one extra horse.
pub fn gacha_run(pity: i32, count: usize, horse_pool: bool, rng: &mut rand::rngs::StdRng) -> (r: GachaRun)
    requires
        0 <= pity < pity_cap(horse_pool),
        count <= 1000,
    ensures
        r.pulls@.len() == count,
        r.pity == pity_after(pity as int, r.pulls@),
        forall|k: int| 0 <= k <= count ==> 0 <= #[trigger] pity_after(pity as int, r.pulls@.take(k)) < pity_cap(horse_pool),
        0 <= r.pity < pity_cap(horse_pool),
        forall|i: int| 0 <= i < count ==> (#[trigger] r.pulls@[i] matches Pull::Horse(x) ==> 1 <= x <= 4),
        pity + count >= pity_cap(horse_pool) ==> exists|i: int| 0 <= i < count && is_high(#[trigger] r.pulls@[i]),
        r.extra is Some == (count >= 10 && forall|i: int| 0 <= i < count ==> #[trigger] r.pulls@[i] is Item),
        r.extra matches Some(x) ==> 1 <= x <= 4,
{
    let class_weights: [u32; 5] = if horse_pool {
        consts::GACHA_HORSE_POOL_CLASS_WEIGHTS
    } else {
        consts::GACHA_CLASS_WEIGHTS
    };
    let rarity_weights: [u32; 4] = if horse_pool {
        consts::GACHA_HORSE_POOL_RARITY_WEIGHTS
    } else {
        consts::GACHA_HORSE_RARITY_WEIGHTS
    };
    assert(wsum(class_weights@) == 100) by {
        reveal_with_fuel(wsum, 6);
    }
    assert(wsum(rarity_weights@) == 100) by {
        reveal_with_fuel(wsum, 5);
    }
    let mut cur = pity;
    let mut pulls: Vec<Pull> = Vec::new();
    let mut high = false;
    let mut any_horse = false;
    let mut i: usize = 0;
    while i < count
        invariant
            i <= count <= 1000,
            0 <= pity < pity_cap(horse_pool),
            wsum(class_weights@) == 100,
            wsum(rarity_weights@) == 100,
            0 <= cur < pity_cap(horse_pool),
            pulls@.len() == i,
            cur == pity_after(pity as int, pulls@),
            forall|k: int| 0 <= k <= i ==> 0 <= #[trigger] pity_after(pity as int, pulls@.take(k)) < pity_cap(horse_pool),
            forall|k: int| 0 <= k < i ==> (#[trigger] pulls@[k] matches Pull::Horse(x) ==> 1 <= x <= 4),
            high == exists|k: int| 0 <= k < i && is_high(#[trigger] pulls@[k]),
            !high ==> cur == pity + i,
            any_horse == !(forall|k: int| 0 <= k < i ==> #[trigger] pulls@[k] is Item),
        decreases count - i,
    {
        let before = cur;
        let ghost old_pulls = pulls@;
        assert(soft_bonus(before + 1, pity_cap(horse_pool)) <= 60);
        let p = gacha_pull(&mut cur, horse_pool, &class_weights, &rarity_weights, rng);
        pulls.push(p);
        assert(pulls@.drop_last() =~= old_pulls);
        assert(pulls@[i as int] == p);
        match p {
            Pull::Horse(x) => {
                any_horse = true;
                if x >= 3 {
                    high = true;
                }
            },
            Pull::Item(_) => {},
        }
        proof {
            assert forall|k: int| 0 <= k < i implies pulls@[k] == old_pulls[k] by {}
            assert forall|k: int| 0 <= k <= i + 1 implies 0 <= #[trigger] pity_after(pity as int, pulls@.take(k)) < pity_cap(horse_pool) by {
                if k <= i {
                    assert(pulls@.take(k) =~= old_pulls.take(k));
                } else {
                    assert(pulls@.take(k) =~= pulls@);
                }
            }
            if high {
                if !is_high(p) {
                    let k = choose|k: int| 0 <= k < i && is_high(#[trigger] old_pulls[k]);
                    assert(pulls@[k] == old_pulls[k]);
                }
            } else {
                assert forall|k: int| 0 <= k < i + 1 implies !(is_high(#[trigger] pulls@[k])) by {
                    if k < i {
                        assert(pulls@[k] == old_pulls[k]);
                    }
                }
            }
            if any_horse {
                if !(p is Horse) {
                    let k = choose|k: int| 0 <= k < i && !(#[trigger] old_pulls[k] is Item);
                    assert(pulls@[k] == old_pulls[k]);
                }
            } else {
                assert forall|k: int| 0 <= k < i + 1 implies #[trigger] pulls@[k] is Item by {
                    if k < i {
                        assert(pulls@[k] == old_pulls[k]);
                    }
                }
            }
        }
        i = i + 1;
    }
    assert(pulls@.take(0) =~= Seq::<Pull>::empty());
    let extra = if count >= 10 && !any_horse {
        Some(roll_rarity(&rarity_weights, rng))
    } else {
        None
    };
    GachaRun { pulls, pity: cur, extra }
}

/// Where a horse from the gacha goes: into the stable while it has room (`None`),
/// otherwise it is paid out at the refund for its rarity (clamped into `1..=4`).
pub fn place_or_refund(stable_n: usize, rarity: i16) -> (r: Option<i64>)
    ensures
        stable_n < consts::STABLE_CAP ==> r is None,
        stable_n >= consts::STABLE_CAP ==> r == Some(consts::GACHA_HORSE_FULL_REFUND_BY_RARITY@[clamp(rarity as int, 1, 4) - 1]),
{
    if stable_n < consts::STABLE_CAP {
        None
    } else {
        let i: usize = if rarity <= 1 {
            0
        } else if rarity >= 4 {
            3
        } else {
            (rarity - 1) as usize
        };
        Some(consts::GACHA_HORSE_FULL_REFUND_BY_RARITY[i])
    }
}

/// Whether a drawn item is shown as rare: every treasure, and the top item of each
/// other class.
pub open spec fn is_rare_item(it: Item) -> bool {
    match it {
        Item::ReachTonic | Item::GrowthHerb | Item::TraitBook | Item::TraitReroll | Item::StarStone
        | Item::RedString | Item::BreedCharm | Item::Dye | Item::NameTag | Item::Steady | Item::Mark
        | Item::Reflect | Item::Clover | Item::Feed2 | Item::BreakPill | Item::Care3 => true,
        _ => false,
    }
}

/// Whether a drawn item is shown as rare (see [`is_rare_item`]).
pub fn is_rare_pull(it: Item) -> (r: bool)
    ensures
        r == is_rare_item(it),
{
    match it {
        Item::ReachTonic | Item::GrowthHerb | Item::TraitBook | Item::TraitReroll | Item::StarStone
        | Item::RedString | Item::BreedCharm | Item::Dye | Item::NameTag | Item::Steady | Item::Mark
        | Item::Reflect | Item::Clover | Item::Feed2 | Item::BreakPill | Item::Care3 => true,
        _ => false,
    }
}

/// Draws left until the ★3+ guarantee of the standard pool or the horse pool.
pub fn pity_left(pity: i32, horse_pool: bool) -> (r: i32)
    requires
        pity > i32::MIN + consts::GACHA_PITY,
    ensures
        r == if pity_cap(horse_pool) - pity > 0 { pity_cap(horse_pool) - pity } else { 0 },
{
    let cap: i32 = if horse_pool {
        consts::GACHA_HORSE_POOL_PITY
    } else {
        consts::GACHA_PITY
    };
    let d = cap - pity;
    if d > 0 {
        d
    } else {
        0
    }
}

// ---------------------------------------------------------------------------
// Small command decisions
// ---------------------------------------------------------------------------

/// Whose horse a number names.
#[derive(Clone, Copy, Debug, PartialEq, Eq, Structural)]
pub enum Ownership {
    /// The asker's.
    Mine,
    /// Someone else's.
    NotMine,
    /// No such horse.
    Missing,
}

/// Whether the horse found (`owner` is its owner, `None` when there is none) is the
/// asker's.
pub fn ownership(owner: Option<i64>, uin: i64) -> (r: Ownership)
    ensures
        r == match owner {
            Some(o) => if o == uin { Ownership::Mine } else { Ownership::NotMine },
            None => Ownership::Missing,
        },
{
    match owner {
        Some(o) => if o == uin {
            Ownership::Mine
        } else {
            Ownership::NotMine
        },
        None => Ownership::Missing,
    }
}

/// Minutes until the scar of a settled horse fades (`None` without a scar; 0 when no
/// end is recorded).
pub fn scar_remaining(h: &Horse, now: i64) -> (r: Option<i64>)
    requires
        0 <= now,
    ensures
        h.scar <= 0 ==> r is None,
        h.scar > 0 ==> r == Some(match h.scar_until {
            Some(u) => minutes_until(u as int, now as int) as i64,
            None => 0,
        }),
{
    if h.scar <= 0 {
        return None;
    }
    match h.scar_until {
        Some(u) => if u <= now {
            Some(0)
        } else {
            Some((u - now) / MINUTE_MICROS)
        },
        None => Some(0),
    }
}

/// The quantity of a shop purchase: the word as an `i32`, 1 when absent or not a
/// number, clamped into `1..=`[`ITEM_STACK_CAP`](consts::ITEM_STACK_CAP).
pub fn shop_qty(word: Option<&str>) -> (r: i32)
    ensures
        r == match word {
            Some(w) => match in_range_i32(w@) {
                Some(n) => clamp(n, 1, consts::ITEM_STACK_CAP as int) as i32,
                None => 1,
            },
            None => 1,
        },
{
    let n = match word {
        Some(w) => {
            let v = chars_of(w);
            match crate::text::parse_i32(&v) {
                Some(n) => n,
                None => 1,
            }
        },
        None => 1,
    };
    if n < 1 {
        1
    } else if n > consts::ITEM_STACK_CAP {
        consts::ITEM_STACK_CAP
    } else {
        n
    }
}

/// The `i32` a word reads as.
pub open spec fn in_range_i32(w: Seq<char>) -> Option<int> {
    crate::text::in_range(crate::text::signed_literal(w), i32::MIN as int, i32::MAX as int)
}

/// The quantity of a sale: the word as an `i32`, 1 when absent or not a number, at least 1.
pub fn sell_qty(word: Option<&str>) -> (r: i32)
    ensures
        r == match word {
            Some(w) => match in_range_i32(w@) {
                Some(n) => if n < 1 { 1 } else { n as i32 },
                None => 1,
            },
            None => 1,
        },
{
    let n = match word {
        Some(w) => {
            let v = chars_of(w);
            match crate::text::parse_i32(&v) {
                Some(n) => n,
                None => 1,
            }
        },
        None => 1,
    };
    if n < 1 {
        1
    } else {
        n
    }
}

/// Which ranking `赛马榜` shows.
#[derive(Clone, Copy, Debug, PartialEq, Eq, Structural)]
pub enum RankMode {
    /// Career wins.
    Wins,
    /// Wins this season.
    Season,
    /// Win rate.
    WinRate,
}

/// The ranking asked: `赛季…` for the season, `胜率…` for the win rate, career wins otherwise.
pub fn rank_mode(args: &str) -> (r: RankMode)
    ensures
        r == if crate::text::strip_prefix(trim(args@), "赛季"@) is Some {
            RankMode::Season
        } else if crate::text::strip_prefix(trim(args@), "胜率"@) is Some {
            RankMode::WinRate
        } else {
            RankMode::Wins
        },
{
    let t = crate::text::trimmed(args);
    if crate::text::strip_prefix_lit(&t, "赛季").is_some() {
        RankMode::Season
    } else if crate::text::strip_prefix_lit(&t, "胜率").is_some() {
        RankMode::WinRate
    } else {
        RankMode::Wins
    }
}

} // verus!
