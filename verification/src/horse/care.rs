//! Direct edits of one horse (refills, healing, injuries, breeding marks, cosmetics,
//! spending records) and the use-item command: what an item would do to a given horse,
//! or why it cannot be used on it.

use vstd::prelude::*;

use crate::horse::consts::{self, coat_index, Item, ItemKind, Stat, Trait};
use crate::horse::logic::{apply_reach_tonic, apply_restore, reach_of, severity_index, Horse, HOUR_MICROS};
use crate::rng::random_index;
use crate::text::{
    chars_of, in_range, parse_i64, signed_literal, split_tokens, string_from_chars, tokens, trim,
    trim_chars, views, Sep,
};

verus! {

/// Largest instant (µs) at which every timer set here still fits in an `i64`.
pub const LATEST_INSTANT: i64 = 9_000_000_000_000_000_000;

// ---------------------------------------------------------------------------
// Edits of one horse
// ---------------------------------------------------------------------------

/// `v` capped at [`VIT_MAX`](consts::VIT_MAX).
pub open spec fn capped(v: int) -> i32 {
    if v > consts::VIT_MAX {
        consts::VIT_MAX
    } else {
        v as i32
    }
}

/// Energy drink: vitality up by `amount`, capped at the maximum.
pub fn restore_vitality(h: &mut Horse, amount: i32)
    requires
        i32::MIN <= old(h).vitality + amount <= i32::MAX,
    ensures
        *final(h) == (Horse { vitality: capped(old(h).vitality + amount), ..*old(h) }),
{
    let v = h.vitality + amount;
    h.vitality = if v > consts::VIT_MAX {
        consts::VIT_MAX
    } else {
        v
    };
}

/// Fine forage: satiety up by `amount`, capped at the maximum.
pub fn restore_satiety(h: &mut Horse, amount: i32)
    requires
        i32::MIN <= old(h).satiety + amount <= i32::MAX,
    ensures
        *final(h) == (Horse { satiety: capped(old(h).satiety + amount), ..*old(h) }),
{
    let v = h.satiety + amount;
    h.satiety = if v > consts::VIT_MAX {
        consts::VIT_MAX
    } else {
        v
    };
}

/// Red string: the mare may breed again at once.
pub fn clear_breed_cd(h: &mut Horse)
    ensures
        *final(h) == (Horse { breed_cd_until: None, ..*old(h) }),
{
    h.breed_cd_until = None;
}

/// Breeding charm: one breeding fewer on record (not below zero), i.e. one more allowed.
pub fn reduce_breed_count(h: &mut Horse)
    ensures
        *final(h) == (Horse {
            breed_count: if old(h).breed_count - 1 < 0 { 0 } else { (old(h).breed_count - 1) as i32 },
            ..*old(h)
        }),
{
    h.breed_count = if h.breed_count <= 0 {
        0
    } else {
        h.breed_count - 1
    };
}

/// One more breeding on record (for each parent of a foal).
pub fn bump_breed_count(h: &mut Horse)
    requires
        old(h).breed_count < i32::MAX,
    ensures
        *final(h) == (Horse { breed_count: (old(h).breed_count + 1) as i32, ..*old(h) }),
{
    h.breed_count = h.breed_count + 1;
}

/// The mare rests [`BREED_COOLDOWN_HOURS`](consts::BREED_COOLDOWN_HOURS) from `now`.
pub fn set_breed_cd(h: &mut Horse, now: i64)
    requires
        0 <= now <= LATEST_INSTANT,
    ensures
        *final(h) == (Horse {
            breed_cd_until: Some((now + consts::BREED_COOLDOWN_HOURS * HOUR_MICROS) as i64),
            ..*old(h)
        }),
{
    h.breed_cd_until = Some(now + consts::BREED_COOLDOWN_HOURS * HOUR_MICROS);
}

/// Dye: a new coat colour.
pub fn set_color(h: &mut Horse, color: i16)
    ensures
        *final(h) == (Horse { color, ..*old(h) }),
{
    h.color = color;
}

/// Name tag or rename command: a new name.
pub fn set_name(h: &mut Horse, name: String)
    ensures
        *final(h) == (Horse { name, ..*old(h) }),
{
    h.name = name;
}

/// Retire (2) or return to the stable (0).
pub fn set_status(h: &mut Horse, status: i16)
    ensures
        *final(h) == (Horse { status, ..*old(h) }),
{
    h.status = status;
}

/// Coins spent on the horse are added to its career investment.
pub fn add_invested(h: &mut Horse, amount: i64)
    requires
        i64::MIN <= old(h).invested + amount <= i64::MAX,
    ensures
        *final(h) == (Horse { invested: (old(h).invested + amount) as i64, ..*old(h) }),
{
    h.invested = h.invested + amount;
}

/// Healing now: the injury is gone but leaves a scar of the same severity, which lasts
/// [`SCAR_HOURS`](consts::SCAR_HOURS) for that severity from `now` (no scar when there
/// was no injury).
pub fn heal(h: &mut Horse, now: i64)
    requires
        0 <= now <= LATEST_INSTANT,
    ensures
        *final(h) == (Horse {
            injury: 0,
            injury_until: None,
            scar: old(h).injury,
            scar_until: if old(h).injury > 0 {
                Some((now + consts::SCAR_HOURS@[severity_index(old(h).injury)] * HOUR_MICROS) as i64)
            } else {
                None
            },
            ..*old(h)
        }),
{
    let scar = h.injury;
    let idx: usize = if scar <= 1 {
        0
    } else if scar == 2 {
        1
    } else {
        2
    };
    let until = if scar > 0 {
        Some(now + consts::SCAR_HOURS[idx] * HOUR_MICROS)
    } else {
        None
    };
    h.injury = 0;
    h.injury_until = None;
    h.scar = scar;
    h.scar_until = until;
}

/// An injury of `severity` from a race, healing by itself after
/// [`INJURY_HOURS`](consts::INJURY_HOURS) for that severity (clamped to 1..=3).
pub fn set_injury(h: &mut Horse, severity: i16, now: i64)
    requires
        0 <= now <= LATEST_INSTANT,
    ensures
        *final(h) == (Horse {
            injury: severity,
            injury_until: Some((now + consts::INJURY_HOURS@[severity_index(severity)] * HOUR_MICROS) as i64),
            ..*old(h)
        }),
{
    let idx: usize = if severity <= 1 {
        0
    } else if severity == 2 {
        1
    } else {
        2
    };
    h.injury = severity;
    h.injury_until = Some(now + consts::INJURY_HOURS[idx] * HOUR_MICROS);
}

/// A trait mask lists at most as many traits as bits looked at.
pub proof fn lemma_traits_in_len(mask: i32, n: int)
    requires
        0 <= n,
    ensures
        consts::traits_in(mask, n).len() <= n,
    decreases n,
{
    if n > 0 {
        lemma_traits_in_len(mask, n - 1);
    }
}

/// Number of traits in a trait mask.
pub open spec fn trait_count(mask: i32) -> int {
    consts::traits_in(mask, 10).len() as int
}

/// A trait that `mask` does not hold yet, drawn uniformly among those; `None` when the
/// mask holds all ten.
pub fn missing_trait(mask: i32, rng: &mut rand::rngs::StdRng) -> (r: Option<Trait>)
    ensures
        r matches Some(t) ==> !consts::bit_set(mask, t.spec_index() as int),
        r is None <==> forall|i: int| 0 <= i < 10 ==> consts::bit_set(mask, i),
{
    let mut avail: Vec<Trait> = Vec::new();
    let mut i: i32 = 0;
    while i < 10
        invariant
            0 <= i <= 10,
            forall|k: int| 0 <= k < avail@.len() ==> !consts::bit_set(mask, (#[trigger] avail@[k]).spec_index() as int),
            forall|j: int| 0 <= j < i && !consts::bit_set(mask, j) ==> avail@.len() > 0,
            avail@.len() > 0 ==> exists|j: int| 0 <= j < i && !consts::bit_set(mask, j),
        decreases 10 - i,
    {
        let t = Trait::at(i);
        if !t.in_mask(mask) {
            avail.push(t);
        }
        i = i + 1;
    }
    if avail.len() == 0 {
        return None;
    }
    let k = random_index(rng, avail.len());
    Some(avail[k])
}

/// Trait book: when the horse has fewer than [`TRAIT_MAX`](consts::TRAIT_MAX) traits,
/// it learns one it does not have yet, drawn uniformly; returns the trait learnt.
pub fn add_random_trait(h: &mut Horse, rng: &mut rand::rngs::StdRng) -> (r: Option<Trait>)
    ensures
        trait_count(old(h).traits) >= consts::TRAIT_MAX ==> r is None && *final(h) == *old(h),
        r is None ==> *final(h) == *old(h),
        r matches Some(t) ==> {
            &&& trait_count(old(h).traits) < consts::TRAIT_MAX
            &&& !consts::bit_set(old(h).traits, t.spec_index() as int)
            &&& *final(h) == (Horse { traits: old(h).traits | t.spec_bit(), ..*old(h) })
        },
        trait_count(old(h).traits) < consts::TRAIT_MAX && (exists|i: int|
            0 <= i < 10 && !consts::bit_set(old(h).traits, i)) ==> r is Some,
{
    let have = Trait::from_mask(h.traits);
    proof {
        lemma_traits_in_len(h.traits, 10);
    }
    if have.len() as u32 >= consts::TRAIT_MAX {
        return None;
    }
    match missing_trait(h.traits, rng) {
        Some(t) => {
            h.traits = h.traits | t.bit();
            Some(t)
        },
        None => None,
    }
}

// ---------------------------------------------------------------------------
// The use-item command
// ---------------------------------------------------------------------------

/// The arguments of `赛马用 <horse> <item> [...]`.
#[derive(Debug)]
pub enum UseArgs {
    /// No horse number.
    Usage,
    /// No item, or not an item used on a horse.
    NoItem,
    /// Horse number, item and the remaining words.
    Go(i64, Item, Vec<Vec<char>>),
}

/// The words after the horse number and the item.
pub open spec fn use_rest(toks: Seq<Seq<char>>) -> Seq<Seq<char>> {
    if toks.len() >= 2 {
        toks.skip(2)
    } else {
        seq![]
    }
}

/// Reads the use-item command's arguments.
pub fn parse_use_args(s: &str) -> (r: UseArgs)
    ensures
        ({
            let toks = tokens(s@, Sep::Whitespace);
            if toks.len() == 0 || in_range(signed_literal(toks[0]), i64::MIN as int, i64::MAX as int) is None {
                r is Usage
            } else if toks.len() < 2 || Item::named(trim(toks[1])) is None || Item::named(trim(toks[1]))->0.spec_kind()
                != ItemKind::Use {
                r is NoItem
            } else {
                r matches UseArgs::Go(id, item, rest) && id == in_range(signed_literal(toks[0]), i64::MIN as int, i64::MAX as int)->0
                    && item == Item::named(trim(toks[1]))->0 && views(rest@) == use_rest(toks)
            }
        }),
{
    let v = chars_of(s);
    let toks = split_tokens(&v, Sep::Whitespace);
    if toks.len() == 0 {
        return UseArgs::Usage;
    }
    assert(views(toks@)[0] == toks@[0]@);
    let id = match parse_i64(&toks[0]) {
        Some(id) => id,
        None => {
            return UseArgs::Usage;
        },
    };
    if toks.len() < 2 {
        return UseArgs::NoItem;
    }
    assert(views(toks@)[1] == toks@[1]@);
    let w = string_from_chars(&toks[1]);
    let item = match Item::parse(w.as_str()) {
        Some(it) => it,
        None => {
            return UseArgs::NoItem;
        },
    };
    if item.kind() != ItemKind::Use {
        return UseArgs::NoItem;
    }
    let mut rest: Vec<Vec<char>> = Vec::new();
    let mut i: usize = 2;
    while i < toks.len()
        invariant
            2 <= i <= toks.len(),
            views(rest@) == views(toks@).subrange(2, i as int),
        decreases toks.len() - i,
    {
        let c = toks[i].clone();
        let ghost before = rest@;
        rest.push(c);
        assert(views(rest@) =~= views(before).push(c@));
        assert(views(toks@).subrange(2, i + 1) =~= views(toks@).subrange(2, i as int).push(toks@[i as int]@));
        i = i + 1;
    }
    assert(views(toks@).subrange(2, toks.len() as int) =~= views(toks@).skip(2));
    UseArgs::Go(id, item, rest)
}

/// The words joined by single spaces.
pub open spec fn joined(ws: Seq<Seq<char>>) -> Seq<char>
    decreases ws.len(),
{
    if ws.len() == 0 {
        seq![]
    } else if ws.len() == 1 {
        ws[0]
    } else {
        joined(ws.drop_last()) + " "@ + ws.last()
    }
}

/// What using an item on a horse comes to.
#[derive(Clone, Copy, Debug, PartialEq, Eq, Structural)]
pub enum UseOutcome {
    /// Reach tonic without a stat.
    NeedStat,
    /// Trait book on a horse with the most traits.
    TraitsFull,
    /// Energy drink at full vitality.
    VitalityFull,
    /// Medicine on a healthy horse.
    NotInjured,
    /// Fine forage at full satiety.
    SatietyFull,
    /// Care at full lifespan.
    LifeFull,
    /// Red string on a stallion.
    NotMare,
    /// Red string on a mare not resting.
    NoCooldown,
    /// Breeding charm on a horse that never bred.
    NeverBred,
    /// Dye without a known coat colour.
    NeedColor,
    /// Dye to the colour it has.
    SameColor,
    /// Name tag with an empty or too long name.
    BadName,
    /// The star stone is brought to breeding instead.
    AtBreeding,
    /// Not an item used here.
    NotHere,
    /// Raise the reach of this stat.
    Tonic(Stat),
    /// Re-roll growth.
    Growth,
    /// Learn a new trait.
    LearnTrait,
    /// Re-roll the traits.
    RerollTraits,
    /// Refill vitality.
    Energy,
    /// Heal the injury.
    Medicine,
    /// Refill satiety.
    Forage,
    /// Restore lifespan (and give up some of its cap).
    Care,
    /// Clear the mare's breeding rest.
    RedString,
    /// Allow one more breeding.
    Charm,
    /// Dye to this colour.
    Dye(i16),
    /// Rename (the new name is returned beside the outcome).
    Rename,
}

/// The name a name tag gives: the words joined by spaces, trimmed.
pub open spec fn tag_name(rest: Seq<Seq<char>>) -> Seq<char> {
    trim(joined(rest))
}

/// What using `item` on the settled horse `h` at `now` comes to, given the remaining
/// words `rest` (a stat, a colour or a new name where the item needs one). Nothing is
/// consumed unless the outcome is an effect.
pub open spec fn use_outcome(item: Item, h: Horse, rest: Seq<Seq<char>>, now: int) -> UseOutcome {
    match item {
        Item::ReachTonic => if rest.len() == 0 || Stat::named(trim(rest[0])) is None {
            UseOutcome::NeedStat
        } else {
            UseOutcome::Tonic(Stat::named(trim(rest[0]))->0)
        },
        Item::GrowthHerb => UseOutcome::Growth,
        Item::TraitBook => if trait_count(h.traits) >= consts::TRAIT_MAX {
            UseOutcome::TraitsFull
        } else {
            UseOutcome::LearnTrait
        },
        Item::TraitReroll => UseOutcome::RerollTraits,
        Item::EnergyDrink => if h.vitality >= consts::VIT_MAX {
            UseOutcome::VitalityFull
        } else {
            UseOutcome::Energy
        },
        Item::Medicine => if h.injury <= 0 {
            UseOutcome::NotInjured
        } else {
            UseOutcome::Medicine
        },
        Item::FineForage => if h.satiety >= consts::VIT_MAX {
            UseOutcome::SatietyFull
        } else {
            UseOutcome::Forage
        },
        Item::Care1 | Item::Care2 | Item::Care3 => if h.lifespan >= h.lifespan_cap {
            UseOutcome::LifeFull
        } else {
            UseOutcome::Care
        },
        Item::RedString => if h.sex != 1 {
            UseOutcome::NotMare
        } else if h.breed_cd_until is None || h.breed_cd_until->0 <= now {
            UseOutcome::NoCooldown
        } else {
            UseOutcome::RedString
        },
        Item::BreedCharm => if h.breed_count <= 0 {
            UseOutcome::NeverBred
        } else {
            UseOutcome::Charm
        },
        Item::Dye => if rest.len() == 0 || coat_index(trim(rest[0])) is None {
            UseOutcome::NeedColor
        } else if coat_index(trim(rest[0]))->0 == h.color {
            UseOutcome::SameColor
        } else {
            UseOutcome::Dye(coat_index(trim(rest[0]))->0)
        },
        Item::NameTag => if tag_name(rest).len() == 0 || tag_name(rest).len() > consts::NAME_MAX_CHARS {
            UseOutcome::BadName
        } else {
            UseOutcome::Rename
        },
        Item::StarStone => UseOutcome::AtBreeding,
        _ => UseOutcome::NotHere,
    }
}

fn join_words(rest: &Vec<Vec<char>>) -> (r: Vec<char>)
    ensures
        r@ == joined(views(rest@)),
{
    let mut out: Vec<char> = Vec::new();
    let mut i: usize = 0;
    while i < rest.len()
        invariant
            i <= rest.len(),
            out@ == joined(views(rest@).take(i as int)),
        decreases rest.len() - i,
    {
        let ghost before = out@;
        proof {
            reveal_strlit(" ");
        }
        assert(views(rest@).take(i + 1).drop_last() =~= views(rest@).take(i as int));
        assert(views(rest@).take(i + 1).last() == rest@[i as int]@);
        if i > 0 {
            out.push(' ');
        }
        let w = &rest[i];
        let mut j: usize = 0;
        let ghost mid = out@;
        while j < w.len()
            invariant
                j <= w.len(),
                out@ == mid + w@.take(j as int),
            decreases w.len() - j,
        {
            out.push(w[j]);
            assert(w@.take(j + 1) =~= w@.take(j as int).push(w@[j as int]));
            assert(out@ =~= mid + w@.take(j + 1));
            j = j + 1;
        }
        assert(w@.take(w.len() as int) =~= w@);
        if i == 0 {
            assert(views(rest@).take(1) =~= seq![w@]);
            assert(out@ =~= w@);
        } else {
            assert(mid =~= before + " "@);
            assert(out@ =~= before + " "@ + w@);
        }
        i = i + 1;
    }
    assert(views(rest@).take(rest.len() as int) =~= views(rest@));
    out
}

/// Decides what using `item` on the settled horse `h` at `now` comes to (see
/// [`use_outcome`]); for a name tag the new name is returned too (empty otherwise).
pub fn use_check(item: Item, h: &Horse, rest: &Vec<Vec<char>>, now: i64) -> (r: (UseOutcome, String))
    ensures
        r.0 == use_outcome(item, *h, views(rest@), now as int),
        r.0 is Rename ==> r.1@ == tag_name(views(rest@)),
{
    let none = String::new();
    if rest.len() > 0 {
        assert(views(rest@)[0] == rest@[0]@);
    }
    match item {
        Item::ReachTonic => {
            if rest.len() == 0 {
                return (UseOutcome::NeedStat, none);
            }
            let w = string_from_chars(&rest[0]);
            match Stat::parse(w.as_str()) {
                Some(s) => (UseOutcome::Tonic(s), none),
                None => (UseOutcome::NeedStat, none),
            }
        },
        Item::GrowthHerb => (UseOutcome::Growth, none),
        Item::TraitBook => {
            let have = Trait::from_mask(h.traits);
            proof {
                lemma_traits_in_len(h.traits, 10);
            }
            if have.len() as u32 >= consts::TRAIT_MAX {
                (UseOutcome::TraitsFull, none)
            } else {
                (UseOutcome::LearnTrait, none)
            }
        },
        Item::TraitReroll => (UseOutcome::RerollTraits, none),
        Item::EnergyDrink => if h.vitality >= consts::VIT_MAX {
            (UseOutcome::VitalityFull, none)
        } else {
            (UseOutcome::Energy, none)
        },
        Item::Medicine => if h.injury <= 0 {
            (UseOutcome::NotInjured, none)
        } else {
            (UseOutcome::Medicine, none)
        },
        Item::FineForage => if h.satiety >= consts::VIT_MAX {
            (UseOutcome::SatietyFull, none)
        } else {
            (UseOutcome::Forage, none)
        },
        Item::Care1 | Item::Care2 | Item::Care3 => if h.lifespan >= h.lifespan_cap {
            (UseOutcome::LifeFull, none)
        } else {
            (UseOutcome::Care, none)
        },
        Item::RedString => {
            if h.sex != 1 {
                (UseOutcome::NotMare, none)
            } else {
                match h.breed_cd_until {
                    None => (UseOutcome::NoCooldown, none),
                    Some(u) => if u <= now {
                        (UseOutcome::NoCooldown, none)
                    } else {
                        (UseOutcome::RedString, none)
                    },
                }
            }
        },
        Item::BreedCharm => if h.breed_count <= 0 {
            (UseOutcome::NeverBred, none)
        } else {
            (UseOutcome::Charm, none)
        },
        Item::Dye => {
            if rest.len() == 0 {
                return (UseOutcome::NeedColor, none);
            }
            let w = string_from_chars(&rest[0]);
            match consts::color_index(w.as_str()) {
                None => (UseOutcome::NeedColor, none),
                Some(c) => if c == h.color {
                    (UseOutcome::SameColor, none)
                } else {
                    (UseOutcome::Dye(c), none)
                },
            }
        },
        Item::NameTag => {
            let j = join_words(rest);
            let name = trim_chars(&j);
            if name.len() == 0 || name.len() > consts::NAME_MAX_CHARS {
                (UseOutcome::BadName, none)
            } else {
                (UseOutcome::Rename, string_from_chars(&name))
            }
        },
        Item::StarStone => (UseOutcome::AtBreeding, none),
        _ => (UseOutcome::NotHere, none),
    }
}

/// Whether an item is one of the rare growth materials
/// ([`Item::TREASURE`](consts::Item::TREASURE)).
pub open spec fn is_treasure(it: Item) -> bool {
    match it {
        Item::ReachTonic | Item::GrowthHerb | Item::TraitBook | Item::TraitReroll | Item::StarStone
        | Item::RedString | Item::BreedCharm | Item::Dye | Item::NameTag => true,
        _ => false,
    }
}

/// What using `item` adds to the horse's career investment: the resale price of a rare
/// growth material, nothing for anything else.
pub fn use_investment(item: Item) -> (r: i64)
    ensures
        r == if is_treasure(item) {
            consts::quarter_at_least_one(item.spec_base_value() as int)
        } else {
            0
        },
{
    match item {
        Item::ReachTonic | Item::GrowthHerb | Item::TraitBook | Item::TraitReroll | Item::StarStone
        | Item::RedString | Item::BreedCharm | Item::Dye | Item::NameTag => item.sell_price(),
        _ => 0,
    }
}

/// Whether an outcome is an effect on the horse. Only an effect takes the item: every
/// refusal leaves the bag and the horse as they were.
pub open spec fn is_effect(o: UseOutcome) -> bool {
    match o {
        UseOutcome::Tonic(_) | UseOutcome::Growth | UseOutcome::LearnTrait | UseOutcome::RerollTraits
        | UseOutcome::Energy | UseOutcome::Medicine | UseOutcome::Forage | UseOutcome::Care
        | UseOutcome::RedString | UseOutcome::Charm | UseOutcome::Dye(_) | UseOutcome::Rename => true,
        _ => false,
    }
}

/// What using `item` adds to the career investment (see [`use_investment`]).
pub open spec fn investment_of(item: Item) -> int {
    if is_treasure(item) {
        consts::quarter_at_least_one(item.spec_base_value() as int)
    } else {
        0
    }
}

/// Uses `item` on the settled horse `h` at `now`, with `held` of the item in the bag,
/// and returns the outcome (see [`use_outcome`]) and how many the bag holds afterwards.
/// When the outcome is an effect and the bag holds one, exactly one is taken and the
/// effect is applied; the horse then also counts a rare growth material's resale price
/// as invested. Otherwise nothing is taken and the horse is unchanged. `rolled` is the
/// new growth for a growth herb and the new trait mask for a trait re-roll, both drawn
/// beforehand.
pub fn apply_use(
    item: Item,
    h: &mut Horse,
    rest: &Vec<Vec<char>>,
    now: i64,
    held: i64,
    rolled: i32,
    rng: &mut rand::rngs::StdRng,
) -> (r: (UseOutcome, i64))
    requires
        0 <= now <= LATEST_INSTANT,
        forall|s: Stat| reach_of(*old(h), s) <= i32::MAX - consts::REACH_TONIC_ADD,
        old(h).lifespan_cap as int - item.spec_life_cap_cost() >= i32::MIN,
        old(h).lifespan as int + item.spec_life_restore() <= i32::MAX,
        old(h).invested + investment_of(item) <= i64::MAX,
    ensures
        r.0 == use_outcome(item, *old(h), views(rest@), now as int),
        !(is_effect(r.0) && held >= 1) ==> r.1 == held && *final(h) == *old(h),
        is_effect(r.0) && held >= 1 ==> r.1 == held - 1 && final(h).invested == old(h).invested + investment_of(item),
        is_effect(r.0) && held >= 1 ==> {
            let inv = final(h).invested;
            match r.0 {
                UseOutcome::Tonic(s) => {
                    &&& reach_of(*final(h), s) == if reach_of(*old(h), s) + consts::REACH_TONIC_ADD
                        < consts::REACH_HARD_MAX {
                        reach_of(*old(h), s) + consts::REACH_TONIC_ADD
                    } else {
                        consts::REACH_HARD_MAX as int
                    }
                    &&& forall|t: Stat| t != s ==> reach_of(*final(h), t) == reach_of(*old(h), t)
                    &&& *final(h) == (Horse {
                        pot_spd: final(h).pot_spd,
                        pot_sta: final(h).pot_sta,
                        pot_brs: final(h).pot_brs,
                        pot_agi: final(h).pot_agi,
                        pot_luk: final(h).pot_luk,
                        invested: inv,
                        ..*old(h)
                    })
                },
                UseOutcome::Growth => *final(h) == (Horse { growth: rolled, invested: inv, ..*old(h) }),
                UseOutcome::LearnTrait => {
                    &&& *final(h) == (Horse { traits: final(h).traits, invested: inv, ..*old(h) })
                    &&& final(h).traits == old(h).traits || exists|t: Trait|
                        !consts::bit_set(old(h).traits, t.spec_index() as int) && final(h).traits == (
                        old(h).traits | t.spec_bit())
                },
                UseOutcome::RerollTraits => *final(h) == (Horse { traits: rolled, invested: inv, ..*old(h) }),
                UseOutcome::Energy => *final(h) == (Horse {
                    vitality: capped(old(h).vitality + consts::ENERGY_RESTORE),
                    ..*old(h)
                }),
                UseOutcome::Medicine => *final(h) == (Horse {
                    injury: 0,
                    injury_until: None,
                    scar: old(h).injury,
                    scar_until: Some((now + consts::SCAR_HOURS@[severity_index(old(h).injury)] * HOUR_MICROS) as i64),
                    ..*old(h)
                }),
                UseOutcome::Forage => *final(h) == (Horse {
                    satiety: capped(old(h).satiety + consts::FINE_FORAGE_SATIETY),
                    ..*old(h)
                }),
                UseOutcome::Care => {
                    let cap = if old(h).lifespan_cap - item.spec_life_cap_cost() > 0 {
                        old(h).lifespan_cap - item.spec_life_cap_cost()
                    } else {
                        0
                    };
                    &&& final(h).lifespan_cap == cap
                    &&& final(h).lifespan == if old(h).lifespan + item.spec_life_restore() < cap {
                        old(h).lifespan + item.spec_life_restore()
                    } else {
                        cap
                    }
                    &&& *final(h) == (Horse {
                        lifespan: final(h).lifespan,
                        lifespan_cap: final(h).lifespan_cap,
                        ..*old(h)
                    })
                },
                UseOutcome::RedString => *final(h) == (Horse { breed_cd_until: None, invested: inv, ..*old(h) }),
                UseOutcome::Charm => *final(h) == (Horse {
                    breed_count: if old(h).breed_count - 1 < 0 { 0 } else { (old(h).breed_count - 1) as i32 },
                    invested: inv,
                    ..*old(h)
                }),
                UseOutcome::Dye(c) => *final(h) == (Horse { color: c, invested: inv, ..*old(h) }),
                UseOutcome::Rename => {
                    &&& final(h).name@ == tag_name(views(rest@))
                    &&& *final(h) == (Horse { name: final(h).name, invested: inv, ..*old(h) })
                },
                _ => true,
            }
        },
{
    let (outcome, name) = use_check(item, h, rest, now);
    let effect = match outcome {
        UseOutcome::Tonic(_) | UseOutcome::Growth | UseOutcome::LearnTrait | UseOutcome::RerollTraits
        | UseOutcome::Energy | UseOutcome::Medicine | UseOutcome::Forage | UseOutcome::Care
        | UseOutcome::RedString | UseOutcome::Charm | UseOutcome::Dye(_) | UseOutcome::Rename => true,
        _ => false,
    };
    if !effect || held < 1 {
        return (outcome, held);
    }
    match outcome {
        UseOutcome::Tonic(s) => {
            apply_reach_tonic(h, s);
        },
        UseOutcome::Growth => {
            h.growth = rolled;
        },
        UseOutcome::LearnTrait => {
            add_random_trait(h, rng);
        },
        UseOutcome::RerollTraits => {
            h.traits = rolled;
        },
        UseOutcome::Energy => {
            restore_vitality(h, consts::ENERGY_RESTORE);
        },
        UseOutcome::Medicine => {
            heal(h, now);
        },
        UseOutcome::Forage => {
            restore_satiety(h, consts::FINE_FORAGE_SATIETY);
        },
        UseOutcome::Care => {
            apply_restore(h, item.life_restore(), item.life_cap_cost());
        },
        UseOutcome::RedString => {
            clear_breed_cd(h);
        },
        UseOutcome::Charm => {
            reduce_breed_count(h);
        },
        UseOutcome::Dye(c) => {
            set_color(h, c);
        },
        UseOutcome::Rename => {
            set_name(h, name);
        },
        _ => {},
    }
    let inv = use_investment(item);
    add_invested(h, inv);
    (outcome, held - 1)
}

} // verus!
