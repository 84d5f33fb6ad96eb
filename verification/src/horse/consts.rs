//! The horse-racing game's enums and integer tuning constants: the five stats, race
//! difficulties, items, traits, achievements and facilities, with their names, aliases and
//! per-variant numbers. The fractional tuning coefficients of the race and training
//! formulas live with the simulation code that uses them.

use vstd::prelude::*;

use crate::text::{all_ws, eq_lit, is_ws, lemma_trim_padded, trim, trimmed};

verus! {

/// Number of stat dimensions.
pub const STAT_COUNT: usize = 5;
/// Reference value for displays and formulas (not a hard cap).
pub const STAT_MAX: i32 = 200;
/// Robustness bound on a current stat value (points).
pub const STAT_SANITY_MAX: i32 = 2000;
/// Storage precision of current stats: stored value = points × this (centi-points).
pub const STAT_SCALE: i32 = 100;
/// Display normalisation reference (bars and radar fill at this value).
pub const DISPLAY_REF: i32 = 360;
/// Lower bounds of the aptitude grades C/B/A/S.
pub const APTITUDE_BANDS: [i32; 4] = [75, 120, 180, 260];
/// Lowest rarity (stars).
pub const RARITY_MIN: i16 = 1;
/// Highest rarity (stars).
pub const RARITY_MAX: i16 = 4;
/// Rarity of the free starter horse.
pub const STARTER_RARITY: i16 = 2;
/// Coins granted with the starter horse.
pub const STARTER_GRANT: i64 = 120;
/// Lower clamp of a stat's reach.
pub const REACH_MIN: i32 = 20;
/// Robustness upper clamp of a stat's reach.
pub const REACH_HARD_MAX: i32 = 220;
/// Soft reach baseline per rarity (index = rarity − 1).
pub const REACH_BASELINE: [i32; 4] = [60, 90, 120, 150];
/// Birth reach stays within the baseline plus this margin.
pub const BIRTH_REACH_MARGIN: i32 = 8;
/// Growth (×100) lower clamp.
pub const GROWTH_MIN: i32 = 65;
/// Growth (×100) upper clamp.
pub const GROWTH_MAX: i32 = 155;
/// Number of coat colours.
pub const COLOR_COUNT: i16 = 6;
/// Maximum vitality (satiety uses the same 0..=100 range).
pub const VIT_MAX: i32 = 100;
/// Vitality spent by a training session.
pub const VIT_TRAIN: i32 = 12;
/// Vitality spent by a race.
pub const VIT_RACE: i32 = 15;
/// Length in minutes of one settlement block of timed resources.
pub const STATE_BLOCK_MIN: i64 = 30;
/// Vitality regained per block.
pub const VIT_PER_BLOCK: i32 = 5;
/// Satiety lost per block.
pub const SATIETY_PER_BLOCK: i32 = 2;
/// Below this satiety a horse counts as hungry.
pub const SATIETY_LOW: i32 = 30;
/// Above this satiety a horse counts as well fed.
pub const SATIETY_HIGH: i32 = 70;
/// Lifespan cap base: cap = BASE + LUK_COEF × luck reach, clamped.
pub const LIFESPAN_BASE: i32 = 400;
/// Lifespan cap coefficient per point of luck reach.
pub const LIFESPAN_LUK_COEF: i32 = 4;
/// Lower clamp of the lifespan cap.
pub const LIFESPAN_MIN: i32 = 480;
/// Upper clamp of the lifespan cap.
pub const LIFESPAN_CAP_MAX: i32 = 1100;
/// Lifespan spent per race.
pub const LIFESPAN_RACE_COST: i32 = 6;
/// Lifespan spent per training session.
pub const LIFESPAN_TRAIN_COST: i32 = 1;
/// Base weights of light / medium / heavy injuries.
pub const INJURY_SEVERITY_BASE: [u32; 3] = [60, 30, 10];
/// Heavy-relapse percentage at scar level 1.
pub const SCAR_RELAPSE_HEAVY_BASE: u32 = 25;
/// Heavy-relapse percentage increment per scar level.
pub const SCAR_RELAPSE_HEAVY_STEP: u32 = 20;
/// Scar duration in hours (index = scar level − 1).
pub const SCAR_HOURS: [i64; 3] = [12, 24, 48];
/// Recovery time of an injury in hours (index = severity − 1).
pub const INJURY_HOURS: [i64; 3] = [3, 8, 16];
/// Healing price per severity (index = severity − 1).
pub const HEAL_COST: [i64; 3] = [30, 40, 100];
/// Races during which only light injuries can happen.
pub const NEWBIE_INJURY_GRACE: i32 = 10;
/// Price of basic forage.
pub const FORAGE_COST: i64 = 6;
/// Satiety restored by basic forage.
pub const FORAGE_SATIETY: i32 = 35;
/// Base training price.
pub const TRAIN_BASE_COST: i64 = 26;
/// Training price increment per session already done today.
pub const TRAIN_COST_STEP: i64 = 7;
/// Training roll tiers `(weight, low, high)` (dull, plain, good, critical); the roll's
/// magnitude range in tenths of a point.
pub const TRAIN_TIERS_TENTHS: [(u32, i32, i32); 4] = [(40, 20, 50), (38, 40, 90), (18, 80, 150), (4, 140, 240)];
/// The weighted mean magnitude of [`TRAIN_TIERS_TENTHS`] in tenths of a point (the sum of
/// weight × tier midpoint over 100).
pub const TRAIN_MAG_MEAN_TENTHS: i32 = 67;
/// Training sessions that are not subject to the global decay.
pub const TRAIN_GLOBAL_FREE: i32 = 40;
/// Agility divisor of the mark-duration reduction.
pub const AGI_REDUCE_DIV: i32 = 120;
/// Agility divisor of the mark-duration reduction with the reflex trait.
pub const AGI_REDUCE_DIV_REFLEX: i32 = 70;
/// Stat value at which race effects (crit, dodge) saturate.
pub const STAT_EFFECT_REF: i32 = 285;
/// Stamina reference of the late-race factor.
pub const STAMINA_STAT_REF: i32 = 255;
/// Rounds a tripwire freezes its target.
pub const FREEZE_ROUNDS: i32 = 1;
/// From this stamina on the stamina tonic is halved.
pub const STAMINA_TONIC_STA_GATE: i32 = 150;
/// More opponents than this make the starting gun stronger.
pub const SCARE_BIG_FIELD: usize = 4;
/// Base rounds of the mark item before the agility reduction.
pub const MARK_ROUNDS: i32 = 3;
/// Base stable capacity (active horses).
pub const STABLE_CAP: usize = 16;
/// Base of the horse item id range in the shared inventory.
pub const HORSE_ITEM_BASE: i32 = 1000;
/// Width of the horse item id range.
pub const HORSE_ITEM_SPAN: i32 = 100;
/// Reach added by the reach tonic.
pub const REACH_TONIC_ADD: i32 = 12;
/// Vitality restored by the energy drink.
pub const ENERGY_RESTORE: i32 = 50;
/// Satiety restored by fine forage.
pub const FINE_FORAGE_SATIETY: i32 = 70;
/// Stack limit of one item in the backpack.
pub const ITEM_STACK_CAP: i32 = 99;
/// Items one horse may carry into a race.
pub const MAX_RACE_ITEMS: usize = 2;
/// Price of a single standard-pool draw.
pub const GACHA_SINGLE_COST: i64 = 170;
/// Price of ten standard-pool draws.
pub const GACHA_TEN_COST: i64 = 1580;
/// Draws after which the standard pool guarantees a ★3+ horse.
pub const GACHA_PITY: i32 = 30;
/// Draws after which the horse pool guarantees a ★3+ horse.
pub const GACHA_HORSE_POOL_PITY: i32 = 25;
/// Length of the soft-pity ramp before the guarantee.
pub const GACHA_SOFT_PITY: i32 = 15;
/// Standard pool class weights (race item, training item, recovery, treasure, horse).
pub const GACHA_CLASS_WEIGHTS: [u32; 5] = [72, 10, 8, 6, 4];
/// Price of a single horse-pool draw.
pub const GACHA_HORSE_POOL_SINGLE_COST: i64 = 350;
/// Price of ten horse-pool draws.
pub const GACHA_HORSE_POOL_TEN_COST: i64 = 3200;
/// Horse pool class weights.
pub const GACHA_HORSE_POOL_CLASS_WEIGHTS: [u32; 5] = [19, 7, 5, 4, 65];
/// Weights within the race-item class (order of `Item::RACE`).
pub const GACHA_RACE_WEIGHTS: [u32; 10] = [22, 8, 14, 12, 8, 16, 7, 6, 4, 3];
/// Weights within the training-item class (order of `Item::TRAIN`).
pub const GACHA_TRAIN_WEIGHTS: [u32; 5] = [40, 18, 22, 15, 5];
/// Weights within the recovery class (order of `Item::RECOVERY`).
pub const GACHA_RECOVERY_WEIGHTS: [u32; 6] = [34, 16, 6, 20, 12, 12];
/// Weights within the treasure class (order of `Item::TREASURE`).
pub const GACHA_TREASURE_WEIGHTS: [u32; 9] = [16, 14, 12, 10, 8, 12, 8, 12, 8];
/// Rarity weights of a standard-pool horse.
pub const GACHA_HORSE_RARITY_WEIGHTS: [u32; 4] = [48, 37, 12, 3];
/// Rarity weights of a horse-pool horse.
pub const GACHA_HORSE_POOL_RARITY_WEIGHTS: [u32; 4] = [38, 38, 19, 5];
/// Rarity weights of a guaranteed horse.
pub const GACHA_PITY_RARITY_WEIGHTS: [u32; 4] = [0, 0, 82, 18];
/// Coins refunded for a drawn horse that does not fit the stable, per rarity.
pub const GACHA_HORSE_FULL_REFUND_BY_RARITY: [i64; 4] = [100, 220, 480, 900];
/// Breeding price by the higher parent rarity.
pub const BREED_COST_BY_RARITY: [i64; 4] = [300, 500, 800, 1200];
/// Breeding cooldown of a mare in hours.
pub const BREED_COOLDOWN_HOURS: i64 = 48;
/// Times an ordinary horse may sire or foal.
pub const BREED_COUNT_MAX: i32 = 5;
/// Times a bloodline-library stud may sire.
pub const STUD_BREED_COUNT_MAX: i32 = 12;
/// Generations searched for a common ancestor.
pub const BREED_INCEST_DEPTH: u32 = 3;
/// Retirement reward floor.
pub const RETIRE_REWARD_BASE: i64 = 100;
/// Renaming price.
pub const RENAME_COST: i64 = 50;
/// Longest horse name in characters.
pub const NAME_MAX_CHARS: usize = 12;
/// Largest PvP room.
pub const PVP_ROOM_CAP: usize = 8;
/// Smallest PvP stake.
pub const PVP_STAKE_MIN: i64 = 20;
/// Default PvP stake.
pub const PVP_STAKE_DEFAULT: i64 = 50;
/// Largest PvP stake.
pub const PVP_STAKE_MAX: i64 = 2000;
/// Seconds a PvP lobby waits for entrants.
pub const PVP_LOBBY_TIMEOUT_SECS: u64 = 120;
/// Most traits one horse can carry.
pub const TRAIT_MAX: u32 = 2;
/// Rows shown on the horse leaderboards.
pub const RANK_TOP: u64 = 10;
/// Races needed to enter the win-rate board.
pub const RANK_MIN_RACES: i32 = 30;
/// Coins for the first win of a business day.
pub const DAILY_FIRST_WIN_BONUS: i64 = 50;
/// Quality weights of a post-race drop (common, middle, treasure).
pub const DROP_QUALITY_WEIGHTS: [u32; 3] = [74, 22, 4];
/// The common drops.
pub const DROP_COMMON: [Item; 4] = [Item::Care1, Item::Feed1, Item::FineForage, Item::EnergyDrink];
/// The middle-quality drops.
pub const DROP_MID: [Item; 6] = [Item::Boost, Item::Banana, Item::Mark, Item::Scare, Item::Feed2, Item::Care2];
/// Generation required by the dynasty achievement.
pub const ACH_DYNASTY_GEN: i32 = 5;
/// Career wins required by the hundred-wins achievement.
pub const ACH_HUNDRED_WINS: i32 = 100;
/// Active horses required by the tycoon achievement.
pub const ACH_TYCOON_HORSES: usize = 10;
/// Acquisition ordinal up to which horses are tax free.
pub const STABLE_TAX_FREE_N: i32 = 4;
/// Daily stable tax per rarity.
pub const STABLE_TAX_BY_RARITY: [i64; 4] = [1, 3, 7, 14];
/// Highest training-ground level.
pub const FAC_TRAIN_MAX_LV: i16 = 8;
/// Highest stable level.
pub const FAC_STABLE_MAX_LV: i16 = 8;
/// Cherished-horse slots by stable level 0..=8.
pub const CHERISH_SLOTS_BY_STABLE_LV: [usize; 9] = [0, 1, 1, 2, 2, 2, 3, 3, 3];
/// Highest bloodline-shrine level.
pub const FAC_BLOOD_MAX_LV: i16 = 8;
/// Highest warehouse level.
pub const FAC_WAREHOUSE_MAX_LV: i16 = 8;
/// Stable capacity added per warehouse level.
pub const FAC_WAREHOUSE_CAP_PER_LV: usize = 1;
/// Stable capacity with a full warehouse.
pub const STABLE_CAP_HARD_MAX: usize = 24;
/// Highest level of a horse's private training desk.
pub const DESK_MAX_LV: i16 = 5;
/// Reach cap raised per desk level.
pub const DESK_REACH_PER_LV: i32 = 3;
/// Highest level of a horse's PvP preparation.
pub const PREP_MAX_LV: i16 = 5;
/// Base capacity of the bloodline library.
pub const BLOODLINE_LIB_CAP: usize = 6;
/// Fee for depositing a retired horse into the library, per rarity.
pub const DEPOSIT_FEE_BY_RARITY: [i64; 4] = [200, 400, 800, 1500];
/// Initial ELO of horses and owners.
pub const ELO_INIT: i32 = 1200;
/// Placement games with the higher K factor.
pub const ELO_PLACEMENT_GAMES: i32 = 10;

/// Coat colour names (index = colour value).
pub const COLOR_NAMES: [&'static str; 6] = ["枣红", "栗色", "乌骓", "白龙", "青骢", "金棕"];

/// The name of coat colour `i` (for `0 <= i < 6`).
pub open spec fn coat_name(i: int) -> Seq<char> {
    if i == 0 {
        "枣红"@
    } else if i == 1 {
        "栗色"@
    } else if i == 2 {
        "乌骓"@
    } else if i == 3 {
        "白龙"@
    } else if i == 4 {
        "青骢"@
    } else {
        "金棕"@
    }
}

/// The colour slot whose name `c` shows: `c` itself within `0..=5`, the first colour
/// for any value outside that range.
pub open spec fn shown_color(c: i16) -> int {
    if 0 <= c <= 5 {
        c as int
    } else {
        0
    }
}

/// The coat colour name of `c`; a value outside the colour range falls back to the
/// first name.
pub fn color_name(c: i16) -> (r: &'static str)
    ensures
        r@ == coat_name(shown_color(c)),
{
    if c == 1 {
        "栗色"
    } else if c == 2 {
        "乌骓"
    } else if c == 3 {
        "白龙"
    } else if c == 4 {
        "青骢"
    } else if c == 5 {
        "金棕"
    } else {
        "枣红"
    }
}

/// The colour value named by the trimmed text `t`.
pub open spec fn coat_index(t: Seq<char>) -> Option<i16> {
    if t == "枣红"@ {
        Some(0)
    } else if t == "栗色"@ {
        Some(1)
    } else if t == "乌骓"@ {
        Some(2)
    } else if t == "白龙"@ {
        Some(3)
    } else if t == "青骢"@ {
        Some(4)
    } else if t == "金棕"@ {
        Some(5)
    } else {
        None
    }
}

/// The colour value whose name is `s` (surrounding whitespace ignored).
pub fn color_index(s: &str) -> (r: Option<i16>)
    ensures
        r == coat_index(trim(s@)),
{
    let t = trimmed(s);
    if eq_lit(&t, "枣红") {
        Some(0)
    } else if eq_lit(&t, "栗色") {
        Some(1)
    } else if eq_lit(&t, "乌骓") {
        Some(2)
    } else if eq_lit(&t, "白龙") {
        Some(3)
    } else if eq_lit(&t, "青骢") {
        Some(4)
    } else if eq_lit(&t, "金棕") {
        Some(5)
    } else {
        None
    }
}

/// One stat dimension; its index is its position in a horse's stat array.
#[derive(Clone, Copy, Debug, PartialEq, Eq, Structural)]
pub enum Stat {
    /// Speed: base distance per round.
    Spd,
    /// Stamina: resists late-race slowdown and injuries.
    Sta,
    /// Burst: distance, crits and comebacks.
    Brs,
    /// Agility: dodges, shorter marks, quick starts.
    Agi,
    /// Luck: drops, reward bonus, training quality.
    Luk,
}

impl Stat {
    /// All five stats in index order.
    pub const ALL: [Stat; STAT_COUNT] = [Stat::Spd, Stat::Sta, Stat::Brs, Stat::Agi, Stat::Luk];

    /// The index of this stat in a stat array.
    pub open spec fn index(self) -> usize {
        match self {
            Stat::Spd => 0,
            Stat::Sta => 1,
            Stat::Brs => 2,
            Stat::Agi => 3,
            Stat::Luk => 4,
        }
    }

    /// The index of this stat in a stat array.
    pub fn idx(self) -> (r: usize)
        ensures
            r == self.index(),
    {
        match self {
            Stat::Spd => 0,
            Stat::Sta => 1,
            Stat::Brs => 2,
            Stat::Agi => 3,
            Stat::Luk => 4,
        }
    }

    /// The display name of this stat as a character sequence.
    pub open spec fn spec_name(self) -> Seq<char> {
        match self {
            Stat::Spd => "速度"@,
            Stat::Sta => "耐力"@,
            Stat::Brs => "爆发"@,
            Stat::Agi => "敏捷"@,
            Stat::Luk => "幸运"@,
        }
    }

    /// The display name of this stat.
    pub fn name(self) -> (r: &'static str)
        ensures
            r@ == self.spec_name(),
    {
        match self {
            Stat::Spd => "速度",
            Stat::Sta => "耐力",
            Stat::Brs => "爆发",
            Stat::Agi => "敏捷",
            Stat::Luk => "幸运",
        }
    }

    /// The stat named by the (already trimmed) text `t`, if any.
    pub open spec fn named(t: Seq<char>) -> Option<Stat> {
        if t == "速度"@ || t == "速"@ {
            Some(Stat::Spd)
        } else if t == "耐力"@ || t == "耐"@ {
            Some(Stat::Sta)
        } else if t == "爆发"@ || t == "爆"@ {
            Some(Stat::Brs)
        } else if t == "敏捷"@ || t == "敏"@ {
            Some(Stat::Agi)
        } else if t == "幸运"@ || t == "运"@ {
            Some(Stat::Luk)
        } else {
            None
        }
    }

    /// Parses user input naming a stat (full name or alias, surrounding whitespace ignored).
    pub fn parse(s: &str) -> (r: Option<Stat>)
        ensures
            r == Stat::named(trim(s@)),
    {
        let t = trimmed(s);
        if eq_lit(&t, "速度") || eq_lit(&t, "速") {
            Some(Stat::Spd)
        } else if eq_lit(&t, "耐力") || eq_lit(&t, "耐") {
            Some(Stat::Sta)
        } else if eq_lit(&t, "爆发") || eq_lit(&t, "爆") {
            Some(Stat::Brs)
        } else if eq_lit(&t, "敏捷") || eq_lit(&t, "敏") {
            Some(Stat::Agi)
        } else if eq_lit(&t, "幸运") || eq_lit(&t, "运") {
            Some(Stat::Luk)
        } else {
            None
        }
    }

}

/// The stat at index `i` (`0 <= i < 5`).
pub open spec fn stat_at(i: int) -> Stat {
    if i == 0 {
        Stat::Spd
    } else if i == 1 {
        Stat::Sta
    } else if i == 2 {
        Stat::Brs
    } else if i == 3 {
        Stat::Agi
    } else {
        Stat::Luk
    }
}

/// A race difficulty: how strong the NPC field is relative to the player.
#[derive(Clone, Copy, Debug, PartialEq, Eq, Structural)]
pub enum Difficulty {
    Easy,
    Normal,
    Hard,
    /// The end-game tier above Hard.
    Master,
}

impl Difficulty {

    /// The difficulty named by the (already trimmed) text `t`, if any.
    pub open spec fn named(t: Seq<char>) -> Option<Difficulty> {
        if t == "简单"@ || t == "易"@ || t == "easy"@ {
            Some(Difficulty::Easy)
        } else if t == "普通"@ || t == "normal"@ {
            Some(Difficulty::Normal)
        } else if t == "困难"@ || t == "难"@ || t == "hard"@ {
            Some(Difficulty::Hard)
        } else if t == "大师"@ || t == "锦标"@ || t == "master"@ {
            Some(Difficulty::Master)
        } else {
            None
        }
    }

    /// Parses user input naming a difficulty (full name or alias, surrounding whitespace ignored).
    pub fn try_parse(s: &str) -> (r: Option<Difficulty>)
        ensures
            r == Difficulty::named(trim(s@)),
    {
        let t = trimmed(s);
        if eq_lit(&t, "简单") || eq_lit(&t, "易") || eq_lit(&t, "easy") {
            Some(Difficulty::Easy)
        } else if eq_lit(&t, "普通") || eq_lit(&t, "normal") {
            Some(Difficulty::Normal)
        } else if eq_lit(&t, "困难") || eq_lit(&t, "难") || eq_lit(&t, "hard") {
            Some(Difficulty::Hard)
        } else if eq_lit(&t, "大师") || eq_lit(&t, "锦标") || eq_lit(&t, "master") {
            Some(Difficulty::Master)
        } else {
            None
        }
    }

    /// The display name of this difficulty as a character sequence.
    pub open spec fn spec_name(self) -> Seq<char> {
        match self {
            Difficulty::Easy => "简单"@,
            Difficulty::Normal => "普通"@,
            Difficulty::Hard => "困难"@,
            Difficulty::Master => "大师"@,
        }
    }

    /// The display name of this difficulty.
    pub fn name(self) -> (r: &'static str)
        ensures
            r@ == self.spec_name(),
    {
        match self {
            Difficulty::Easy => "简单",
            Difficulty::Normal => "普通",
            Difficulty::Hard => "困难",
            Difficulty::Master => "大师",
        }
    }

    /// Index of this difficulty (Easy 0 … Master 3) into per-difficulty tables.
    pub open spec fn index(self) -> usize {
        match self {
            Difficulty::Easy => 0,
            Difficulty::Normal => 1,
            Difficulty::Hard => 2,
            Difficulty::Master => 3,
        }
    }

    /// Index of this difficulty (Easy 0 … Master 3) into per-difficulty tables.
    pub fn idx(self) -> (r: usize)
        ensures
            r == self.index(),
    {
        match self {
            Difficulty::Easy => 0,
            Difficulty::Normal => 1,
            Difficulty::Hard => 2,
            Difficulty::Master => 3,
        }
    }

    /// Number of NPC horses (the field is this plus the player).
    pub open spec fn npcs(self) -> usize {
        match self {
            Difficulty::Easy => 3,
            Difficulty::Normal => 4,
            Difficulty::Hard => 5,
            Difficulty::Master => 6,
        }
    }

    /// Number of NPC horses (the field is this plus the player).
    pub fn npc_count(self) -> (r: usize)
        ensures
            r == self.npcs(),
    {
        match self {
            Difficulty::Easy => 3,
            Difficulty::Normal => 4,
            Difficulty::Hard => 5,
            Difficulty::Master => 6,
        }
    }

    /// Base entry fee.
    pub open spec fn fee(self) -> i64 {
        match self {
            Difficulty::Easy => 5,
            Difficulty::Normal => 25,
            Difficulty::Hard => 45,
            Difficulty::Master => 70,
        }
    }

    /// Base entry fee.
    pub fn entry_fee(self) -> (r: i64)
        ensures
            r == self.fee(),
    {
        match self {
            Difficulty::Easy => 5,
            Difficulty::Normal => 25,
            Difficulty::Hard => 45,
            Difficulty::Master => 70,
        }
    }

    /// Base reward of the winner.
    pub open spec fn base_reward(self) -> i64 {
        match self {
            Difficulty::Easy => 30,
            Difficulty::Normal => 80,
            Difficulty::Hard => 135,
            Difficulty::Master => 240,
        }
    }

    /// Base reward of the winner.
    pub fn reward_base(self) -> (r: i64)
        ensures
            r == self.base_reward(),
    {
        match self {
            Difficulty::Easy => 30,
            Difficulty::Normal => 80,
            Difficulty::Hard => 135,
            Difficulty::Master => 240,
        }
    }

    /// Entry fee increment per race the horse already ran today.
    pub open spec fn fee_step(self) -> i64 {
        match self {
            Difficulty::Easy => 5,
            Difficulty::Normal => 10,
            Difficulty::Hard => 18,
            Difficulty::Master => 25,
        }
    }

    /// Entry fee increment per race the horse already ran today.
    pub fn entry_step(self) -> (r: i64)
        ensures
            r == self.fee_step(),
    {
        match self {
            Difficulty::Easy => 5,
            Difficulty::Normal => 10,
            Difficulty::Hard => 18,
            Difficulty::Master => 25,
        }
    }

}

/// Where an item is used.
#[derive(Clone, Copy, Debug, PartialEq, Eq, Structural)]
pub enum ItemKind {
    /// Carried into a race.
    Race,
    /// Eaten during training.
    Train,
    /// Used on a horse outside races (recovery, growth, breeding, cosmetics).
    Use,
}

/// An item of the shared backpack. Its stored number is its `code`.
#[derive(Clone, Copy, Debug, PartialEq, Eq, Structural)]
pub enum Item {
    Boost,
    Clover,
    LateBoost,
    StaminaTonic,
    Steady,
    Banana,
    Scare,
    Mark,
    Shield,
    Reflect,
    Feed1,
    Feed2,
    FocusFeed,
    DrillPass,
    BreakPill,
    Care1,
    Care2,
    Care3,
    EnergyDrink,
    Medicine,
    FineForage,
    ReachTonic,
    GrowthHerb,
    TraitBook,
    TraitReroll,
    StarStone,
    RedString,
    BreedCharm,
    Dye,
    NameTag,
}

/// Base of an item price: the sell price is a quarter of the base value, at least 1.
pub open spec fn quarter_at_least_one(v: int) -> int {
    if v / 4 >= 1 {
        v / 4
    } else {
        1
    }
}

impl Item {
    /// Every item.
    pub const ALL: [Item; 30] = [
        Item::Boost,
        Item::Clover,
        Item::LateBoost,
        Item::StaminaTonic,
        Item::Steady,
        Item::Banana,
        Item::Scare,
        Item::Mark,
        Item::Shield,
        Item::Reflect,
        Item::Feed1,
        Item::Feed2,
        Item::FocusFeed,
        Item::DrillPass,
        Item::BreakPill,
        Item::Care1,
        Item::Care2,
        Item::Care3,
        Item::EnergyDrink,
        Item::Medicine,
        Item::FineForage,
        Item::ReachTonic,
        Item::GrowthHerb,
        Item::TraitBook,
        Item::TraitReroll,
        Item::StarStone,
        Item::RedString,
        Item::BreedCharm,
        Item::Dye,
        Item::NameTag,
    ];
    /// Race items (order of `GACHA_RACE_WEIGHTS`).
    pub const RACE: [Item; 10] = [
        Item::Boost,
        Item::Clover,
        Item::LateBoost,
        Item::StaminaTonic,
        Item::Steady,
        Item::Banana,
        Item::Scare,
        Item::Mark,
        Item::Shield,
        Item::Reflect,
    ];
    /// Training items (order of `GACHA_TRAIN_WEIGHTS`).
    pub const TRAIN: [Item; 5] = [Item::Feed1, Item::Feed2, Item::FocusFeed, Item::DrillPass, Item::BreakPill];
    /// Recovery items (order of `GACHA_RECOVERY_WEIGHTS`).
    pub const RECOVERY: [Item; 6] = [
        Item::Care1,
        Item::Care2,
        Item::Care3,
        Item::EnergyDrink,
        Item::Medicine,
        Item::FineForage,
    ];
    /// Treasures (order of `GACHA_TREASURE_WEIGHTS`).
    pub const TREASURE: [Item; 9] = [
        Item::ReachTonic,
        Item::GrowthHerb,
        Item::TraitBook,
        Item::TraitReroll,
        Item::StarStone,
        Item::RedString,
        Item::BreedCharm,
        Item::Dye,
        Item::NameTag,
    ];

    /// The item's number within the horse item range.
    pub open spec fn spec_code(self) -> i32 {
        match self {
            Item::Boost => 0,
            Item::Clover => 4,
            Item::LateBoost => 10,
            Item::StaminaTonic => 11,
            Item::Steady => 12,
            Item::Banana => 1,
            Item::Scare => 3,
            Item::Mark => 13,
            Item::Shield => 2,
            Item::Reflect => 14,
            Item::Feed1 => 5,
            Item::Feed2 => 6,
            Item::FocusFeed => 15,
            Item::DrillPass => 16,
            Item::BreakPill => 17,
            Item::Care1 => 7,
            Item::Care2 => 8,
            Item::Care3 => 9,
            Item::EnergyDrink => 18,
            Item::Medicine => 19,
            Item::FineForage => 20,
            Item::ReachTonic => 21,
            Item::GrowthHerb => 22,
            Item::TraitBook => 23,
            Item::TraitReroll => 24,
            Item::StarStone => 25,
            Item::RedString => 26,
            Item::BreedCharm => 27,
            Item::Dye => 28,
            Item::NameTag => 29,
        }
    }

    /// The item's number within the horse item range.
    pub fn code(self) -> (r: i32)
        ensures
            r == self.spec_code(),
    {
        match self {
            Item::Boost => 0,
            Item::Clover => 4,
            Item::LateBoost => 10,
            Item::StaminaTonic => 11,
            Item::Steady => 12,
            Item::Banana => 1,
            Item::Scare => 3,
            Item::Mark => 13,
            Item::Shield => 2,
            Item::Reflect => 14,
            Item::Feed1 => 5,
            Item::Feed2 => 6,
            Item::FocusFeed => 15,
            Item::DrillPass => 16,
            Item::BreakPill => 17,
            Item::Care1 => 7,
            Item::Care2 => 8,
            Item::Care3 => 9,
            Item::EnergyDrink => 18,
            Item::Medicine => 19,
            Item::FineForage => 20,
            Item::ReachTonic => 21,
            Item::GrowthHerb => 22,
            Item::TraitBook => 23,
            Item::TraitReroll => 24,
            Item::StarStone => 25,
            Item::RedString => 26,
            Item::BreedCharm => 27,
            Item::Dye => 28,
            Item::NameTag => 29,
        }
    }

    /// The item's id in the shared backpack.
    pub open spec fn spec_global_id(self) -> int {
        HORSE_ITEM_BASE + self.spec_code()
    }

    /// The item's id in the shared backpack (range base plus the item's number).
    pub fn global_id(self) -> (r: i32)
        ensures
            r == self.spec_global_id(),
    {
        HORSE_ITEM_BASE + self.code()
    }

    /// The item with a given number, if any.
    pub open spec fn of_code(c: int) -> Option<Item> {
        if c == 0 {
            Some(Item::Boost)
        } else if c == 1 {
            Some(Item::Banana)
        } else if c == 2 {
            Some(Item::Shield)
        } else if c == 3 {
            Some(Item::Scare)
        } else if c == 4 {
            Some(Item::Clover)
        } else if c == 5 {
            Some(Item::Feed1)
        } else if c == 6 {
            Some(Item::Feed2)
        } else if c == 7 {
            Some(Item::Care1)
        } else if c == 8 {
            Some(Item::Care2)
        } else if c == 9 {
            Some(Item::Care3)
        } else if c == 10 {
            Some(Item::LateBoost)
        } else if c == 11 {
            Some(Item::StaminaTonic)
        } else if c == 12 {
            Some(Item::Steady)
        } else if c == 13 {
            Some(Item::Mark)
        } else if c == 14 {
            Some(Item::Reflect)
        } else if c == 15 {
            Some(Item::FocusFeed)
        } else if c == 16 {
            Some(Item::DrillPass)
        } else if c == 17 {
            Some(Item::BreakPill)
        } else if c == 18 {
            Some(Item::EnergyDrink)
        } else if c == 19 {
            Some(Item::Medicine)
        } else if c == 20 {
            Some(Item::FineForage)
        } else if c == 21 {
            Some(Item::ReachTonic)
        } else if c == 22 {
            Some(Item::GrowthHerb)
        } else if c == 23 {
            Some(Item::TraitBook)
        } else if c == 24 {
            Some(Item::TraitReroll)
        } else if c == 25 {
            Some(Item::StarStone)
        } else if c == 26 {
            Some(Item::RedString)
        } else if c == 27 {
            Some(Item::BreedCharm)
        } else if c == 28 {
            Some(Item::Dye)
        } else if c == 29 {
            Some(Item::NameTag)
        } else {
            None
        }
    }

    /// The horse item whose backpack id is `id`, if any.
    pub fn from_global(id: i32) -> (r: Option<Item>)
        ensures
            r == Item::of_code(id - HORSE_ITEM_BASE),
            r matches Some(it) ==> it.spec_global_id() == id,
    {
        if id < HORSE_ITEM_BASE || id > HORSE_ITEM_BASE + 29 {
            return None;
        }
        let c = id - HORSE_ITEM_BASE;
        if c == 0 {
            Some(Item::Boost)
        } else if c == 1 {
            Some(Item::Banana)
        } else if c == 2 {
            Some(Item::Shield)
        } else if c == 3 {
            Some(Item::Scare)
        } else if c == 4 {
            Some(Item::Clover)
        } else if c == 5 {
            Some(Item::Feed1)
        } else if c == 6 {
            Some(Item::Feed2)
        } else if c == 7 {
            Some(Item::Care1)
        } else if c == 8 {
            Some(Item::Care2)
        } else if c == 9 {
            Some(Item::Care3)
        } else if c == 10 {
            Some(Item::LateBoost)
        } else if c == 11 {
            Some(Item::StaminaTonic)
        } else if c == 12 {
            Some(Item::Steady)
        } else if c == 13 {
            Some(Item::Mark)
        } else if c == 14 {
            Some(Item::Reflect)
        } else if c == 15 {
            Some(Item::FocusFeed)
        } else if c == 16 {
            Some(Item::DrillPass)
        } else if c == 17 {
            Some(Item::BreakPill)
        } else if c == 18 {
            Some(Item::EnergyDrink)
        } else if c == 19 {
            Some(Item::Medicine)
        } else if c == 20 {
            Some(Item::FineForage)
        } else if c == 21 {
            Some(Item::ReachTonic)
        } else if c == 22 {
            Some(Item::GrowthHerb)
        } else if c == 23 {
            Some(Item::TraitBook)
        } else if c == 24 {
            Some(Item::TraitReroll)
        } else if c == 25 {
            Some(Item::StarStone)
        } else if c == 26 {
            Some(Item::RedString)
        } else if c == 27 {
            Some(Item::BreedCharm)
        } else if c == 28 {
            Some(Item::Dye)
        } else if c == 29 {
            Some(Item::NameTag)
        } else {
            None
        }
    }

    /// The item's kind.
    pub open spec fn spec_kind(self) -> ItemKind {
        match self {
            Item::Boost => ItemKind::Race,
            Item::Clover => ItemKind::Race,
            Item::LateBoost => ItemKind::Race,
            Item::StaminaTonic => ItemKind::Race,
            Item::Steady => ItemKind::Race,
            Item::Banana => ItemKind::Race,
            Item::Scare => ItemKind::Race,
            Item::Mark => ItemKind::Race,
            Item::Shield => ItemKind::Race,
            Item::Reflect => ItemKind::Race,
            Item::Feed1 => ItemKind::Train,
            Item::Feed2 => ItemKind::Train,
            Item::FocusFeed => ItemKind::Train,
            Item::DrillPass => ItemKind::Train,
            Item::BreakPill => ItemKind::Train,
            Item::Care1 => ItemKind::Use,
            Item::Care2 => ItemKind::Use,
            Item::Care3 => ItemKind::Use,
            Item::EnergyDrink => ItemKind::Use,
            Item::Medicine => ItemKind::Use,
            Item::FineForage => ItemKind::Use,
            Item::ReachTonic => ItemKind::Use,
            Item::GrowthHerb => ItemKind::Use,
            Item::TraitBook => ItemKind::Use,
            Item::TraitReroll => ItemKind::Use,
            Item::StarStone => ItemKind::Use,
            Item::RedString => ItemKind::Use,
            Item::BreedCharm => ItemKind::Use,
            Item::Dye => ItemKind::Use,
            Item::NameTag => ItemKind::Use,
        }
    }

    /// The item's kind.
    pub fn kind(self) -> (r: ItemKind)
        ensures
            r == self.spec_kind(),
    {
        match self {
            Item::Boost => ItemKind::Race,
            Item::Clover => ItemKind::Race,
            Item::LateBoost => ItemKind::Race,
            Item::StaminaTonic => ItemKind::Race,
            Item::Steady => ItemKind::Race,
            Item::Banana => ItemKind::Race,
            Item::Scare => ItemKind::Race,
            Item::Mark => ItemKind::Race,
            Item::Shield => ItemKind::Race,
            Item::Reflect => ItemKind::Race,
            Item::Feed1 => ItemKind::Train,
            Item::Feed2 => ItemKind::Train,
            Item::FocusFeed => ItemKind::Train,
            Item::DrillPass => ItemKind::Train,
            Item::BreakPill => ItemKind::Train,
            Item::Care1 => ItemKind::Use,
            Item::Care2 => ItemKind::Use,
            Item::Care3 => ItemKind::Use,
            Item::EnergyDrink => ItemKind::Use,
            Item::Medicine => ItemKind::Use,
            Item::FineForage => ItemKind::Use,
            Item::ReachTonic => ItemKind::Use,
            Item::GrowthHerb => ItemKind::Use,
            Item::TraitBook => ItemKind::Use,
            Item::TraitReroll => ItemKind::Use,
            Item::StarStone => ItemKind::Use,
            Item::RedString => ItemKind::Use,
            Item::BreedCharm => ItemKind::Use,
            Item::Dye => ItemKind::Use,
            Item::NameTag => ItemKind::Use,
        }
    }

    /// The class label on a gacha result card as a character sequence.
    pub open spec fn spec_class_name(self) -> Seq<char> {
        match self {
            Item::Boost => "道具"@,
            Item::Clover => "道具"@,
            Item::LateBoost => "道具"@,
            Item::StaminaTonic => "道具"@,
            Item::Steady => "道具"@,
            Item::Banana => "道具"@,
            Item::Scare => "道具"@,
            Item::Mark => "道具"@,
            Item::Shield => "道具"@,
            Item::Reflect => "道具"@,
            Item::Feed1 => "训练"@,
            Item::Feed2 => "训练"@,
            Item::FocusFeed => "训练"@,
            Item::DrillPass => "训练"@,
            Item::BreakPill => "训练"@,
            Item::Care1 => "恢复"@,
            Item::Care2 => "恢复"@,
            Item::Care3 => "恢复"@,
            Item::EnergyDrink => "恢复"@,
            Item::Medicine => "恢复"@,
            Item::FineForage => "恢复"@,
            Item::ReachTonic => "珍材"@,
            Item::GrowthHerb => "珍材"@,
            Item::TraitBook => "珍材"@,
            Item::TraitReroll => "珍材"@,
            Item::StarStone => "珍材"@,
            Item::RedString => "珍材"@,
            Item::BreedCharm => "珍材"@,
            Item::Dye => "珍材"@,
            Item::NameTag => "珍材"@,
        }
    }

    /// The class label on a gacha result card.
    pub fn gacha_class_name(self) -> (r: &'static str)
        ensures
            r@ == self.spec_class_name(),
    {
        match self {
            Item::Boost => "道具",
            Item::Clover => "道具",
            Item::LateBoost => "道具",
            Item::StaminaTonic => "道具",
            Item::Steady => "道具",
            Item::Banana => "道具",
            Item::Scare => "道具",
            Item::Mark => "道具",
            Item::Shield => "道具",
            Item::Reflect => "道具",
            Item::Feed1 => "训练",
            Item::Feed2 => "训练",
            Item::FocusFeed => "训练",
            Item::DrillPass => "训练",
            Item::BreakPill => "训练",
            Item::Care1 => "恢复",
            Item::Care2 => "恢复",
            Item::Care3 => "恢复",
            Item::EnergyDrink => "恢复",
            Item::Medicine => "恢复",
            Item::FineForage => "恢复",
            Item::ReachTonic => "珍材",
            Item::GrowthHerb => "珍材",
            Item::TraitBook => "珍材",
            Item::TraitReroll => "珍材",
            Item::StarStone => "珍材",
            Item::RedString => "珍材",
            Item::BreedCharm => "珍材",
            Item::Dye => "珍材",
            Item::NameTag => "珍材",
        }
    }

    /// Lifespan restored (care items; 0 otherwise).
    pub open spec fn spec_life_restore(self) -> i32 {
        match self {
            Item::Boost => 0,
            Item::Clover => 0,
            Item::LateBoost => 0,
            Item::StaminaTonic => 0,
            Item::Steady => 0,
            Item::Banana => 0,
            Item::Scare => 0,
            Item::Mark => 0,
            Item::Shield => 0,
            Item::Reflect => 0,
            Item::Feed1 => 0,
            Item::Feed2 => 0,
            Item::FocusFeed => 0,
            Item::DrillPass => 0,
            Item::BreakPill => 0,
            Item::Care1 => 90,
            Item::Care2 => 200,
            Item::Care3 => 360,
            Item::EnergyDrink => 0,
            Item::Medicine => 0,
            Item::FineForage => 0,
            Item::ReachTonic => 0,
            Item::GrowthHerb => 0,
            Item::TraitBook => 0,
            Item::TraitReroll => 0,
            Item::StarStone => 0,
            Item::RedString => 0,
            Item::BreedCharm => 0,
            Item::Dye => 0,
            Item::NameTag => 0,
        }
    }

    /// Lifespan restored (care items; 0 otherwise).
    pub fn life_restore(self) -> (r: i32)
        ensures
            r == self.spec_life_restore(),
    {
        match self {
            Item::Boost => 0,
            Item::Clover => 0,
            Item::LateBoost => 0,
            Item::StaminaTonic => 0,
            Item::Steady => 0,
            Item::Banana => 0,
            Item::Scare => 0,
            Item::Mark => 0,
            Item::Shield => 0,
            Item::Reflect => 0,
            Item::Feed1 => 0,
            Item::Feed2 => 0,
            Item::FocusFeed => 0,
            Item::DrillPass => 0,
            Item::BreakPill => 0,
            Item::Care1 => 90,
            Item::Care2 => 200,
            Item::Care3 => 360,
            Item::EnergyDrink => 0,
            Item::Medicine => 0,
            Item::FineForage => 0,
            Item::ReachTonic => 0,
            Item::GrowthHerb => 0,
            Item::TraitBook => 0,
            Item::TraitReroll => 0,
            Item::StarStone => 0,
            Item::RedString => 0,
            Item::BreedCharm => 0,
            Item::Dye => 0,
            Item::NameTag => 0,
        }
    }

    /// Permanent loss of the restorable lifespan cap (care items; 0 otherwise).
    pub open spec fn spec_life_cap_cost(self) -> i32 {
        match self {
            Item::Boost => 0,
            Item::Clover => 0,
            Item::LateBoost => 0,
            Item::StaminaTonic => 0,
            Item::Steady => 0,
            Item::Banana => 0,
            Item::Scare => 0,
            Item::Mark => 0,
            Item::Shield => 0,
            Item::Reflect => 0,
            Item::Feed1 => 0,
            Item::Feed2 => 0,
            Item::FocusFeed => 0,
            Item::DrillPass => 0,
            Item::BreakPill => 0,
            Item::Care1 => 48,
            Item::Care2 => 90,
            Item::Care3 => 150,
            Item::EnergyDrink => 0,
            Item::Medicine => 0,
            Item::FineForage => 0,
            Item::ReachTonic => 0,
            Item::GrowthHerb => 0,
            Item::TraitBook => 0,
            Item::TraitReroll => 0,
            Item::StarStone => 0,
            Item::RedString => 0,
            Item::BreedCharm => 0,
            Item::Dye => 0,
            Item::NameTag => 0,
        }
    }

    /// Permanent loss of the restorable lifespan cap (care items; 0 otherwise).
    pub fn life_cap_cost(self) -> (r: i32)
        ensures
            r == self.spec_life_cap_cost(),
    {
        match self {
            Item::Boost => 0,
            Item::Clover => 0,
            Item::LateBoost => 0,
            Item::StaminaTonic => 0,
            Item::Steady => 0,
            Item::Banana => 0,
            Item::Scare => 0,
            Item::Mark => 0,
            Item::Shield => 0,
            Item::Reflect => 0,
            Item::Feed1 => 0,
            Item::Feed2 => 0,
            Item::FocusFeed => 0,
            Item::DrillPass => 0,
            Item::BreakPill => 0,
            Item::Care1 => 48,
            Item::Care2 => 90,
            Item::Care3 => 150,
            Item::EnergyDrink => 0,
            Item::Medicine => 0,
            Item::FineForage => 0,
            Item::ReachTonic => 0,
            Item::GrowthHerb => 0,
            Item::TraitBook => 0,
            Item::TraitReroll => 0,
            Item::StarStone => 0,
            Item::RedString => 0,
            Item::BreedCharm => 0,
            Item::Dye => 0,
            Item::NameTag => 0,
        }
    }

    /// Training quality bonus (feeds; 0 otherwise).
    pub open spec fn spec_feed_bump(self) -> u32 {
        match self {
            Item::Boost => 0,
            Item::Clover => 0,
            Item::LateBoost => 0,
            Item::StaminaTonic => 0,
            Item::Steady => 0,
            Item::Banana => 0,
            Item::Scare => 0,
            Item::Mark => 0,
            Item::Shield => 0,
            Item::Reflect => 0,
            Item::Feed1 => 4,
            Item::Feed2 => 9,
            Item::FocusFeed => 0,
            Item::DrillPass => 0,
            Item::BreakPill => 0,
            Item::Care1 => 0,
            Item::Care2 => 0,
            Item::Care3 => 0,
            Item::EnergyDrink => 0,
            Item::Medicine => 0,
            Item::FineForage => 0,
            Item::ReachTonic => 0,
            Item::GrowthHerb => 0,
            Item::TraitBook => 0,
            Item::TraitReroll => 0,
            Item::StarStone => 0,
            Item::RedString => 0,
            Item::BreedCharm => 0,
            Item::Dye => 0,
            Item::NameTag => 0,
        }
    }

    /// Training quality bonus (feeds; 0 otherwise).
    pub fn feed_bump(self) -> (r: u32)
        ensures
            r == self.spec_feed_bump(),
    {
        match self {
            Item::Boost => 0,
            Item::Clover => 0,
            Item::LateBoost => 0,
            Item::StaminaTonic => 0,
            Item::Steady => 0,
            Item::Banana => 0,
            Item::Scare => 0,
            Item::Mark => 0,
            Item::Shield => 0,
            Item::Reflect => 0,
            Item::Feed1 => 4,
            Item::Feed2 => 9,
            Item::FocusFeed => 0,
            Item::DrillPass => 0,
            Item::BreakPill => 0,
            Item::Care1 => 0,
            Item::Care2 => 0,
            Item::Care3 => 0,
            Item::EnergyDrink => 0,
            Item::Medicine => 0,
            Item::FineForage => 0,
            Item::ReachTonic => 0,
            Item::GrowthHerb => 0,
            Item::TraitBook => 0,
            Item::TraitReroll => 0,
            Item::StarStone => 0,
            Item::RedString => 0,
            Item::BreedCharm => 0,
            Item::Dye => 0,
            Item::NameTag => 0,
        }
    }

    /// Price in the horse shop; `None` for items the shop does not sell.
    pub open spec fn spec_shop_price(self) -> Option<i64> {
        match self {
            Item::Boost => None,
            Item::Clover => None,
            Item::LateBoost => None,
            Item::StaminaTonic => None,
            Item::Steady => None,
            Item::Banana => None,
            Item::Scare => None,
            Item::Mark => None,
            Item::Shield => None,
            Item::Reflect => None,
            Item::Feed1 => None,
            Item::Feed2 => None,
            Item::FocusFeed => None,
            Item::DrillPass => None,
            Item::BreakPill => None,
            Item::Care1 => None,
            Item::Care2 => None,
            Item::Care3 => None,
            Item::EnergyDrink => None,
            Item::Medicine => None,
            Item::FineForage => None,
            Item::ReachTonic => Some(3500),
            Item::GrowthHerb => Some(2800),
            Item::TraitBook => Some(1800),
            Item::TraitReroll => Some(2200),
            Item::StarStone => Some(4000),
            Item::RedString => Some(1500),
            Item::BreedCharm => Some(3000),
            Item::Dye => Some(300),
            Item::NameTag => None,
        }
    }

    /// Price in the horse shop; `None` for items the shop does not sell.
    pub fn shop_price(self) -> (r: Option<i64>)
        ensures
            r == self.spec_shop_price(),
    {
        match self {
            Item::Boost => None,
            Item::Clover => None,
            Item::LateBoost => None,
            Item::StaminaTonic => None,
            Item::Steady => None,
            Item::Banana => None,
            Item::Scare => None,
            Item::Mark => None,
            Item::Shield => None,
            Item::Reflect => None,
            Item::Feed1 => None,
            Item::Feed2 => None,
            Item::FocusFeed => None,
            Item::DrillPass => None,
            Item::BreakPill => None,
            Item::Care1 => None,
            Item::Care2 => None,
            Item::Care3 => None,
            Item::EnergyDrink => None,
            Item::Medicine => None,
            Item::FineForage => None,
            Item::ReachTonic => Some(3500),
            Item::GrowthHerb => Some(2800),
            Item::TraitBook => Some(1800),
            Item::TraitReroll => Some(2200),
            Item::StarStone => Some(4000),
            Item::RedString => Some(1500),
            Item::BreedCharm => Some(3000),
            Item::Dye => Some(300),
            Item::NameTag => None,
        }
    }

    /// Reference value for selling and overflow refunds (the shop price for treasures).
    pub open spec fn spec_base_value(self) -> i64 {
        match self {
            Item::Boost => 60,
            Item::Clover => 120,
            Item::LateBoost => 90,
            Item::StaminaTonic => 90,
            Item::Steady => 70,
            Item::Banana => 80,
            Item::Scare => 90,
            Item::Mark => 100,
            Item::Shield => 70,
            Item::Reflect => 130,
            Item::Feed1 => 50,
            Item::Feed2 => 110,
            Item::FocusFeed => 80,
            Item::DrillPass => 60,
            Item::BreakPill => 150,
            Item::Care1 => 60,
            Item::Care2 => 130,
            Item::Care3 => 220,
            Item::EnergyDrink => 40,
            Item::Medicine => 80,
            Item::FineForage => 24,
            Item::ReachTonic => 3500,
            Item::GrowthHerb => 2800,
            Item::TraitBook => 1800,
            Item::TraitReroll => 2200,
            Item::StarStone => 4000,
            Item::RedString => 1500,
            Item::BreedCharm => 3000,
            Item::Dye => 300,
            Item::NameTag => 50,
        }
    }

    /// Reference value for selling and overflow refunds (the shop price for treasures).
    pub fn base_value(self) -> (r: i64)
        ensures
            r == self.spec_base_value(),
    {
        match self {
            Item::Boost => 60,
            Item::Clover => 120,
            Item::LateBoost => 90,
            Item::StaminaTonic => 90,
            Item::Steady => 70,
            Item::Banana => 80,
            Item::Scare => 90,
            Item::Mark => 100,
            Item::Shield => 70,
            Item::Reflect => 130,
            Item::Feed1 => 50,
            Item::Feed2 => 110,
            Item::FocusFeed => 80,
            Item::DrillPass => 60,
            Item::BreakPill => 150,
            Item::Care1 => 60,
            Item::Care2 => 130,
            Item::Care3 => 220,
            Item::EnergyDrink => 40,
            Item::Medicine => 80,
            Item::FineForage => 24,
            Item::ReachTonic => 3500,
            Item::GrowthHerb => 2800,
            Item::TraitBook => 1800,
            Item::TraitReroll => 2200,
            Item::StarStone => 4000,
            Item::RedString => 1500,
            Item::BreedCharm => 3000,
            Item::Dye => 300,
            Item::NameTag => 50,
        }
    }

    /// Sell price: a quarter of the base value rounded down, at least 1.
    pub fn sell_price(self) -> (r: i64)
        ensures
            r == quarter_at_least_one(self.spec_base_value() as int),
    {
        let q = self.base_value() / 4;
        if q >= 1 {
            q
        } else {
            1
        }
    }

    /// The display name of the item as a character sequence.
    pub open spec fn spec_name(self) -> Seq<char> {
        match self {
            Item::Boost => "冲刺"@,
            Item::Clover => "四叶草"@,
            Item::LateBoost => "终盘冲刺"@,
            Item::StaminaTonic => "定心丸"@,
            Item::Steady => "稳行"@,
            Item::Banana => "绊马索"@,
            Item::Scare => "鸣枪惊群"@,
            Item::Mark => "盯防"@,
            Item::Shield => "护身符"@,
            Item::Reflect => "回马枪"@,
            Item::Feed1 => "精饲料"@,
            Item::Feed2 => "滋补膏"@,
            Item::FocusFeed => "专注饲料"@,
            Item::DrillPass => "集训券"@,
            Item::BreakPill => "破限丹"@,
            Item::Care1 => "刷洗"@,
            Item::Care2 => "推拿"@,
            Item::Care3 => "温泉疗养"@,
            Item::EnergyDrink => "能量饮"@,
            Item::Medicine => "金疮药"@,
            Item::FineForage => "精草料"@,
            Item::ReachTonic => "育骨精料"@,
            Item::GrowthHerb => "洗髓草"@,
            Item::TraitBook => "特性秘传"@,
            Item::TraitReroll => "静心符"@,
            Item::StarStone => "星辉石"@,
            Item::RedString => "红绳"@,
            Item::BreedCharm => "续种符"@,
            Item::Dye => "染色剂"@,
            Item::NameTag => "改名牌"@,
        }
    }

    /// The display name of the item.
    pub fn name(self) -> (r: &'static str)
        ensures
            r@ == self.spec_name(),
    {
        match self {
            Item::Boost => "冲刺",
            Item::Clover => "四叶草",
            Item::LateBoost => "终盘冲刺",
            Item::StaminaTonic => "定心丸",
            Item::Steady => "稳行",
            Item::Banana => "绊马索",
            Item::Scare => "鸣枪惊群",
            Item::Mark => "盯防",
            Item::Shield => "护身符",
            Item::Reflect => "回马枪",
            Item::Feed1 => "精饲料",
            Item::Feed2 => "滋补膏",
            Item::FocusFeed => "专注饲料",
            Item::DrillPass => "集训券",
            Item::BreakPill => "破限丹",
            Item::Care1 => "刷洗",
            Item::Care2 => "推拿",
            Item::Care3 => "温泉疗养",
            Item::EnergyDrink => "能量饮",
            Item::Medicine => "金疮药",
            Item::FineForage => "精草料",
            Item::ReachTonic => "育骨精料",
            Item::GrowthHerb => "洗髓草",
            Item::TraitBook => "特性秘传",
            Item::TraitReroll => "静心符",
            Item::StarStone => "星辉石",
            Item::RedString => "红绳",
            Item::BreedCharm => "续种符",
            Item::Dye => "染色剂",
            Item::NameTag => "改名牌",
        }
    }

    /// The item named by the (already trimmed) text `t`, if any.
    pub open spec fn named(t: Seq<char>) -> Option<Item> {
        if t == "冲刺"@ || t == "加速"@ {
            Some(Item::Boost)
        } else if t == "四叶草"@ || t == "幸运草"@ || t == "幸运四叶草"@ {
            Some(Item::Clover)
        } else if t == "终盘冲刺"@ || t == "终盘"@ || t == "后程冲刺"@ {
            Some(Item::LateBoost)
        } else if t == "定心丸"@ || t == "定心"@ {
            Some(Item::StaminaTonic)
        } else if t == "稳行"@ {
            Some(Item::Steady)
        } else if t == "绊马索"@ || t == "绊马"@ {
            Some(Item::Banana)
        } else if t == "鸣枪惊群"@ || t == "鸣枪"@ || t == "惊群"@ {
            Some(Item::Scare)
        } else if t == "盯防"@ {
            Some(Item::Mark)
        } else if t == "护身符"@ || t == "护身"@ || t == "护盾"@ {
            Some(Item::Shield)
        } else if t == "回马枪"@ || t == "回马"@ {
            Some(Item::Reflect)
        } else if t == "精饲料"@ || t == "精料"@ {
            Some(Item::Feed1)
        } else if t == "滋补膏"@ || t == "补膏"@ || t == "滋补"@ {
            Some(Item::Feed2)
        } else if t == "专注饲料"@ || t == "专注"@ {
            Some(Item::FocusFeed)
        } else if t == "集训券"@ || t == "集训"@ {
            Some(Item::DrillPass)
        } else if t == "破限丹"@ || t == "破限"@ {
            Some(Item::BreakPill)
        } else if t == "刷洗"@ || t == "刷毛"@ {
            Some(Item::Care1)
        } else if t == "推拿"@ || t == "按摩"@ {
            Some(Item::Care2)
        } else if t == "温泉疗养"@ || t == "温泉"@ || t == "疗养"@ {
            Some(Item::Care3)
        } else if t == "能量饮"@ || t == "能量"@ {
            Some(Item::EnergyDrink)
        } else if t == "金疮药"@ || t == "金疮"@ {
            Some(Item::Medicine)
        } else if t == "精草料"@ || t == "精草"@ {
            Some(Item::FineForage)
        } else if t == "育骨精料"@ || t == "育骨"@ {
            Some(Item::ReachTonic)
        } else if t == "洗髓草"@ || t == "洗髓"@ {
            Some(Item::GrowthHerb)
        } else if t == "特性秘传"@ || t == "秘传"@ {
            Some(Item::TraitBook)
        } else if t == "静心符"@ || t == "静心"@ {
            Some(Item::TraitReroll)
        } else if t == "星辉石"@ || t == "星辉"@ {
            Some(Item::StarStone)
        } else if t == "红绳"@ {
            Some(Item::RedString)
        } else if t == "续种符"@ || t == "续种"@ {
            Some(Item::BreedCharm)
        } else if t == "染色剂"@ || t == "染色"@ {
            Some(Item::Dye)
        } else if t == "改名牌"@ || t == "名牌"@ {
            Some(Item::NameTag)
        } else {
            None
        }
    }

    /// Parses user input naming a item (full name or alias, surrounding whitespace ignored).
    pub fn parse(s: &str) -> (r: Option<Item>)
        ensures
            r == Item::named(trim(s@)),
    {
        let t = trimmed(s);
        if eq_lit(&t, "冲刺") || eq_lit(&t, "加速") {
            Some(Item::Boost)
        } else if eq_lit(&t, "四叶草") || eq_lit(&t, "幸运草") || eq_lit(&t, "幸运四叶草") {
            Some(Item::Clover)
        } else if eq_lit(&t, "终盘冲刺") || eq_lit(&t, "终盘") || eq_lit(&t, "后程冲刺") {
            Some(Item::LateBoost)
        } else if eq_lit(&t, "定心丸") || eq_lit(&t, "定心") {
            Some(Item::StaminaTonic)
        } else if eq_lit(&t, "稳行") {
            Some(Item::Steady)
        } else if eq_lit(&t, "绊马索") || eq_lit(&t, "绊马") {
            Some(Item::Banana)
        } else if eq_lit(&t, "鸣枪惊群") || eq_lit(&t, "鸣枪") || eq_lit(&t, "惊群") {
            Some(Item::Scare)
        } else if eq_lit(&t, "盯防") {
            Some(Item::Mark)
        } else if eq_lit(&t, "护身符") || eq_lit(&t, "护身") || eq_lit(&t, "护盾") {
            Some(Item::Shield)
        } else if eq_lit(&t, "回马枪") || eq_lit(&t, "回马") {
            Some(Item::Reflect)
        } else if eq_lit(&t, "精饲料") || eq_lit(&t, "精料") {
            Some(Item::Feed1)
        } else if eq_lit(&t, "滋补膏") || eq_lit(&t, "补膏") || eq_lit(&t, "滋补") {
            Some(Item::Feed2)
        } else if eq_lit(&t, "专注饲料") || eq_lit(&t, "专注") {
            Some(Item::FocusFeed)
        } else if eq_lit(&t, "集训券") || eq_lit(&t, "集训") {
            Some(Item::DrillPass)
        } else if eq_lit(&t, "破限丹") || eq_lit(&t, "破限") {
            Some(Item::BreakPill)
        } else if eq_lit(&t, "刷洗") || eq_lit(&t, "刷毛") {
            Some(Item::Care1)
        } else if eq_lit(&t, "推拿") || eq_lit(&t, "按摩") {
            Some(Item::Care2)
        } else if eq_lit(&t, "温泉疗养") || eq_lit(&t, "温泉") || eq_lit(&t, "疗养") {
            Some(Item::Care3)
        } else if eq_lit(&t, "能量饮") || eq_lit(&t, "能量") {
            Some(Item::EnergyDrink)
        } else if eq_lit(&t, "金疮药") || eq_lit(&t, "金疮") {
            Some(Item::Medicine)
        } else if eq_lit(&t, "精草料") || eq_lit(&t, "精草") {
            Some(Item::FineForage)
        } else if eq_lit(&t, "育骨精料") || eq_lit(&t, "育骨") {
            Some(Item::ReachTonic)
        } else if eq_lit(&t, "洗髓草") || eq_lit(&t, "洗髓") {
            Some(Item::GrowthHerb)
        } else if eq_lit(&t, "特性秘传") || eq_lit(&t, "秘传") {
            Some(Item::TraitBook)
        } else if eq_lit(&t, "静心符") || eq_lit(&t, "静心") {
            Some(Item::TraitReroll)
        } else if eq_lit(&t, "星辉石") || eq_lit(&t, "星辉") {
            Some(Item::StarStone)
        } else if eq_lit(&t, "红绳") {
            Some(Item::RedString)
        } else if eq_lit(&t, "续种符") || eq_lit(&t, "续种") {
            Some(Item::BreedCharm)
        } else if eq_lit(&t, "染色剂") || eq_lit(&t, "染色") {
            Some(Item::Dye)
        } else if eq_lit(&t, "改名牌") || eq_lit(&t, "名牌") {
            Some(Item::NameTag)
        } else {
            None
        }
    }

    /// The effect description of the item as a character sequence.
    pub open spec fn spec_effect(self) -> Seq<char> {
        match self {
            Item::Boost => "起跑后短暂提速"@,
            Item::Clover => "整场更容易打出暴击;自己领先时弱些"@,
            Item::LateBoost => "最后一程发力提速"@,
            Item::StaminaTonic => "补后程掉速,越到后段越顶用;耐力本来高的话用处不大"@,
            Item::Steady => "发挥更稳少出冷门——领先/PvP 才划算,落后慎用"@,
            Item::Banana => "绊一名对手,原地踉跄一下"@,
            Item::Scare => "一声炸响,全体对手短暂减速"@,
            Item::Mark => "死缠一名对手持续减速,对手敏捷越高挣脱越快"@,
            Item::Shield => "挡掉对手的下一次干扰"@,
            Item::Reflect => "挡掉一次干扰,还反弹给一名对手"@,
            Item::Feed1 => "训练时喂,更容易练出好值"@,
            Item::Feed2 => "训练时喂,出好值的概率明显更高"@,
            Item::FocusFeed => "训练时喂,这次不溢出、主练维涨更多"@,
            Item::DrillPass => "这次训练不耗体力"@,
            Item::BreakPill => "这次训练无视天赋线,练满也大涨"@,
            Item::Care1 => "简单打理,回一点寿命(用多了上限会永久降一些)"@,
            Item::Care2 => "舒筋活血,回一截寿命(用多了上限会永久降)"@,
            Item::Care3 => "好生将养,回一大截寿命(用多了上限会永久降不少)"@,
            Item::EnergyDrink => "灌一瓶,回点体力"@,
            Item::Medicine => "敷上药,立刻治好伤(不花币)"@,
            Item::FineForage => "上等草料,大幅回饱食"@,
            Item::ReachTonic => "长期调养,永久提升一维资质上限"@,
            Item::GrowthHerb => "脱胎换骨,重摇成长快慢"@,
            Item::TraitBook => "得一手秘传,随机学一条特性"@,
            Item::TraitReroll => "静下心来,重摇全部特性"@,
            Item::StarStone => "繁殖时带上,下一胎必定升一星"@,
            Item::RedString => "牵一根红绳,母马立刻可再繁殖"@,
            Item::BreedCharm => "续上香火,这匹马多配一次"@,
            Item::Dye => "给马换个毛色"@,
            Item::NameTag => "免费改一次名"@,
        }
    }

    /// The effect description of the item.
    pub fn effect_desc(self) -> (r: &'static str)
        ensures
            r@ == self.spec_effect(),
    {
        match self {
            Item::Boost => "起跑后短暂提速",
            Item::Clover => "整场更容易打出暴击;自己领先时弱些",
            Item::LateBoost => "最后一程发力提速",
            Item::StaminaTonic => "补后程掉速,越到后段越顶用;耐力本来高的话用处不大",
            Item::Steady => "发挥更稳少出冷门——领先/PvP 才划算,落后慎用",
            Item::Banana => "绊一名对手,原地踉跄一下",
            Item::Scare => "一声炸响,全体对手短暂减速",
            Item::Mark => "死缠一名对手持续减速,对手敏捷越高挣脱越快",
            Item::Shield => "挡掉对手的下一次干扰",
            Item::Reflect => "挡掉一次干扰,还反弹给一名对手",
            Item::Feed1 => "训练时喂,更容易练出好值",
            Item::Feed2 => "训练时喂,出好值的概率明显更高",
            Item::FocusFeed => "训练时喂,这次不溢出、主练维涨更多",
            Item::DrillPass => "这次训练不耗体力",
            Item::BreakPill => "这次训练无视天赋线,练满也大涨",
            Item::Care1 => "简单打理,回一点寿命(用多了上限会永久降一些)",
            Item::Care2 => "舒筋活血,回一截寿命(用多了上限会永久降)",
            Item::Care3 => "好生将养,回一大截寿命(用多了上限会永久降不少)",
            Item::EnergyDrink => "灌一瓶,回点体力",
            Item::Medicine => "敷上药,立刻治好伤(不花币)",
            Item::FineForage => "上等草料,大幅回饱食",
            Item::ReachTonic => "长期调养,永久提升一维资质上限",
            Item::GrowthHerb => "脱胎换骨,重摇成长快慢",
            Item::TraitBook => "得一手秘传,随机学一条特性",
            Item::TraitReroll => "静下心来,重摇全部特性",
            Item::StarStone => "繁殖时带上,下一胎必定升一星",
            Item::RedString => "牵一根红绳,母马立刻可再繁殖",
            Item::BreedCharm => "续上香火,这匹马多配一次",
            Item::Dye => "给马换个毛色",
            Item::NameTag => "免费改一次名",
        }
    }

}

/// A passive trait; its bit in a trait mask is its `index`.
#[derive(Clone, Copy, Debug, PartialEq, Eq, Structural)]
pub enum Trait {
    LateSurge,
    QuickStart,
    CritBeast,
    IronHoof,
    Genius,
    Tenacious,
    Pursuer,
    Reflex,
    Fortuitous,
    Gale,
}

/// The trait with bit index `i` (`0 <= i < 10`).
pub open spec fn trait_at(i: int) -> Trait {
    if i == 0 {
        Trait::LateSurge
    } else if i == 1 {
        Trait::QuickStart
    } else if i == 2 {
        Trait::CritBeast
    } else if i == 3 {
        Trait::IronHoof
    } else if i == 4 {
        Trait::Genius
    } else if i == 5 {
        Trait::Tenacious
    } else if i == 6 {
        Trait::Pursuer
    } else if i == 7 {
        Trait::Reflex
    } else if i == 8 {
        Trait::Fortuitous
    } else {
        Trait::Gale
    }
}

/// Whether bit `k` is set in `mask`.
pub open spec fn bit_set(mask: i32, k: int) -> bool {
    mask & (1i32 << (k as i32)) != 0
}

/// The traits whose bits among the first `n` are set in `mask`, in bit order.
pub open spec fn traits_in(mask: i32, n: int) -> Seq<Trait>
    decreases n,
{
    if n <= 0 {
        seq![]
    } else if bit_set(mask, n - 1) {
        traits_in(mask, n - 1).push(trait_at(n - 1))
    } else {
        traits_in(mask, n - 1)
    }
}

impl Trait {
    /// Every trait in bit order.
    pub const ALL: [Trait; 10] = [
        Trait::LateSurge,
        Trait::QuickStart,
        Trait::CritBeast,
        Trait::IronHoof,
        Trait::Genius,
        Trait::Tenacious,
        Trait::Pursuer,
        Trait::Reflex,
        Trait::Fortuitous,
        Trait::Gale,
    ];

    /// The trait's bit index.
    pub open spec fn spec_index(self) -> i32 {
        match self {
            Trait::LateSurge => 0,
            Trait::QuickStart => 1,
            Trait::CritBeast => 2,
            Trait::IronHoof => 3,
            Trait::Genius => 4,
            Trait::Tenacious => 5,
            Trait::Pursuer => 6,
            Trait::Reflex => 7,
            Trait::Fortuitous => 8,
            Trait::Gale => 9,
        }
    }

    /// The trait's bit index.
    pub fn index(self) -> (r: i32)
        ensures
            r == self.spec_index(),
    {
        match self {
            Trait::LateSurge => 0,
            Trait::QuickStart => 1,
            Trait::CritBeast => 2,
            Trait::IronHoof => 3,
            Trait::Genius => 4,
            Trait::Tenacious => 5,
            Trait::Pursuer => 6,
            Trait::Reflex => 7,
            Trait::Fortuitous => 8,
            Trait::Gale => 9,
        }
    }

    /// The trait's bit in a trait mask.
    pub open spec fn spec_bit(self) -> i32 {
        1i32 << (self.spec_index())
    }

    /// The trait's bit in a trait mask.
    pub fn bit(self) -> (r: i32)
        ensures
            r == self.spec_bit(),
    {
        1i32 << self.index()
    }

    /// Whether `mask` holds this trait.
    pub fn in_mask(self, mask: i32) -> (r: bool)
        ensures
            r == bit_set(mask, self.spec_index() as int),
    {
        mask & self.bit() != 0
    }

    /// The traits held by `mask`, in bit order.
    pub fn from_mask(mask: i32) -> (r: Vec<Trait>)
        ensures
            r@ == traits_in(mask, 10),
    {
        let mut r: Vec<Trait> = Vec::new();
        let mut i: i32 = 0;
        while i < 10
            invariant
                0 <= i <= 10,
                r@ == traits_in(mask, i as int),
            decreases 10 - i,
        {
            let t = Trait::at(i);
            if t.in_mask(mask) {
                r.push(t);
            }
            i = i + 1;
        }
        r
    }

    /// The trait with bit index `i`.
    pub fn at(i: i32) -> (r: Trait)
        requires
            0 <= i < 10,
        ensures
            r == trait_at(i as int),
            r.spec_index() == i,
    {
        if i == 0 {
            Trait::LateSurge
        } else if i == 1 {
            Trait::QuickStart
        } else if i == 2 {
            Trait::CritBeast
        } else if i == 3 {
            Trait::IronHoof
        } else if i == 4 {
            Trait::Genius
        } else if i == 5 {
            Trait::Tenacious
        } else if i == 6 {
            Trait::Pursuer
        } else if i == 7 {
            Trait::Reflex
        } else if i == 8 {
            Trait::Fortuitous
        } else {
            Trait::Gale
        }
    }

    /// The display name of the trait as a character sequence.
    pub open spec fn spec_name(self) -> Seq<char> {
        match self {
            Trait::LateSurge => "后程之王"@,
            Trait::QuickStart => "闪电起步"@,
            Trait::CritBeast => "暴击体质"@,
            Trait::IronHoof => "铁蹄"@,
            Trait::Genius => "天才"@,
            Trait::Tenacious => "韧者"@,
            Trait::Pursuer => "追击者"@,
            Trait::Reflex => "反射神经"@,
            Trait::Fortuitous => "幸运儿"@,
            Trait::Gale => "疾风"@,
        }
    }

    /// The display name of the trait.
    pub fn name(self) -> (r: &'static str)
        ensures
            r@ == self.spec_name(),
    {
        match self {
            Trait::LateSurge => "后程之王",
            Trait::QuickStart => "闪电起步",
            Trait::CritBeast => "暴击体质",
            Trait::IronHoof => "铁蹄",
            Trait::Genius => "天才",
            Trait::Tenacious => "韧者",
            Trait::Pursuer => "追击者",
            Trait::Reflex => "反射神经",
            Trait::Fortuitous => "幸运儿",
            Trait::Gale => "疾风",
        }
    }

}

/// An achievement: granted once, pays a coin reward and may unlock a title.
#[derive(Clone, Copy, Debug, PartialEq, Eq, Structural)]
pub enum Achievement {
    FirstWin,
    HundredWins,
    FirstBreed,
    Dynasty,
    Chosen,
    Gifted,
    Collector,
    Tycoon,
}

impl Achievement {
    /// Every achievement in code order.
    pub const ALL: [Achievement; 8] = [
        Achievement::FirstWin,
        Achievement::HundredWins,
        Achievement::FirstBreed,
        Achievement::Dynasty,
        Achievement::Chosen,
        Achievement::Gifted,
        Achievement::Collector,
        Achievement::Tycoon,
    ];

    /// The achievement's stored code.
    pub open spec fn spec_code(self) -> i32 {
        match self {
            Achievement::FirstWin => 1,
            Achievement::HundredWins => 2,
            Achievement::FirstBreed => 3,
            Achievement::Dynasty => 4,
            Achievement::Chosen => 5,
            Achievement::Gifted => 6,
            Achievement::Collector => 7,
            Achievement::Tycoon => 8,
        }
    }

    /// The achievement's stored code.
    pub fn code(self) -> (r: i32)
        ensures
            r == self.spec_code(),
    {
        match self {
            Achievement::FirstWin => 1,
            Achievement::HundredWins => 2,
            Achievement::FirstBreed => 3,
            Achievement::Dynasty => 4,
            Achievement::Chosen => 5,
            Achievement::Gifted => 6,
            Achievement::Collector => 7,
            Achievement::Tycoon => 8,
        }
    }

    /// The display name of the achievement as a character sequence.
    pub open spec fn spec_name(self) -> Seq<char> {
        match self {
            Achievement::FirstWin => "初出茅庐"@,
            Achievement::HundredWins => "百战之师"@,
            Achievement::FirstBreed => "育马有道"@,
            Achievement::Dynasty => "名门望族"@,
            Achievement::Chosen => "天选之驹"@,
            Achievement::Gifted => "天赋异禀"@,
            Achievement::Collector => "集色大师"@,
            Achievement::Tycoon => "赛马大户"@,
        }
    }

    /// The display name of the achievement.
    pub fn name(self) -> (r: &'static str)
        ensures
            r@ == self.spec_name(),
    {
        match self {
            Achievement::FirstWin => "初出茅庐",
            Achievement::HundredWins => "百战之师",
            Achievement::FirstBreed => "育马有道",
            Achievement::Dynasty => "名门望族",
            Achievement::Chosen => "天选之驹",
            Achievement::Gifted => "天赋异禀",
            Achievement::Collector => "集色大师",
            Achievement::Tycoon => "赛马大户",
        }
    }

    /// The condition text of the achievement as a character sequence.
    pub open spec fn spec_desc(self) -> Seq<char> {
        match self {
            Achievement::FirstWin => "任一匹马首次夺冠"@,
            Achievement::HundredWins => "生涯累计 100 胜"@,
            Achievement::FirstBreed => "配出过后代"@,
            Achievement::Dynasty => "养出第 5 代及以上的马"@,
            Achievement::Chosen => "拥有一匹 ★4 马"@,
            Achievement::Gifted => "拥有一匹带特性的马"@,
            Achievement::Collector => "在厩马集齐 6 种毛色"@,
            Achievement::Tycoon => "在厩满 10 匹马"@,
        }
    }

    /// The condition text of the achievement.
    pub fn desc(self) -> (r: &'static str)
        ensures
            r@ == self.spec_desc(),
    {
        match self {
            Achievement::FirstWin => "任一匹马首次夺冠",
            Achievement::HundredWins => "生涯累计 100 胜",
            Achievement::FirstBreed => "配出过后代",
            Achievement::Dynasty => "养出第 5 代及以上的马",
            Achievement::Chosen => "拥有一匹 ★4 马",
            Achievement::Gifted => "拥有一匹带特性的马",
            Achievement::Collector => "在厩马集齐 6 种毛色",
            Achievement::Tycoon => "在厩满 10 匹马",
        }
    }

    /// Coins granted with the achievement.
    pub open spec fn spec_reward(self) -> i64 {
        match self {
            Achievement::FirstWin => 30,
            Achievement::HundredWins => 300,
            Achievement::FirstBreed => 50,
            Achievement::Dynasty => 200,
            Achievement::Chosen => 200,
            Achievement::Gifted => 40,
            Achievement::Collector => 150,
            Achievement::Tycoon => 100,
        }
    }

    /// Coins granted with the achievement.
    pub fn reward(self) -> (r: i64)
        ensures
            r == self.spec_reward(),
    {
        match self {
            Achievement::FirstWin => 30,
            Achievement::HundredWins => 300,
            Achievement::FirstBreed => 50,
            Achievement::Dynasty => 200,
            Achievement::Chosen => 200,
            Achievement::Gifted => 40,
            Achievement::Collector => 150,
            Achievement::Tycoon => 100,
        }
    }

    /// The title unlocked by the achievement, as characters.
    pub open spec fn spec_title(self) -> Option<Seq<char>> {
        match self {
            Achievement::FirstWin => None,
            Achievement::HundredWins => Some("百胜名驹"@),
            Achievement::FirstBreed => None,
            Achievement::Dynasty => Some("名门"@),
            Achievement::Chosen => Some("天选"@),
            Achievement::Gifted => None,
            Achievement::Collector => Some("集色大师"@),
            Achievement::Tycoon => None,
        }
    }

    /// The title unlocked by the achievement, if any.
    pub fn title(self) -> (r: Option<&'static str>)
        ensures
            r matches Some(t) ==> self.spec_title() == Some(t@),
            r is None ==> self.spec_title() is None,
    {
        match self {
            Achievement::FirstWin => None,
            Achievement::HundredWins => Some("百胜名驹"),
            Achievement::FirstBreed => None,
            Achievement::Dynasty => Some("名门"),
            Achievement::Chosen => Some("天选"),
            Achievement::Gifted => None,
            Achievement::Collector => Some("集色大师"),
            Achievement::Tycoon => None,
        }
    }
}

/// An account-wide facility.
#[derive(Clone, Copy, Debug, PartialEq, Eq, Structural)]
pub enum Facility {
    /// Lowers training prices.
    TrainGround,
    /// Lowers healing prices and stable tax, opens cherish slots.
    Stable,
    /// Lowers breeding prices.
    Bloodline,
    /// Raises stable capacity.
    Warehouse,
}

impl Facility {
    /// Every facility.
    pub const ALL: [Facility; 4] = [Facility::TrainGround, Facility::Stable, Facility::Bloodline, Facility::Warehouse];

    /// The facility named by the (already trimmed) text `t`, if any.
    pub open spec fn named(t: Seq<char>) -> Option<Facility> {
        if t == "训练场"@ || t == "训练"@ {
            Some(Facility::TrainGround)
        } else if t == "马场"@ {
            Some(Facility::Stable)
        } else if t == "血统祠堂"@ || t == "祠堂"@ || t == "血统"@ {
            Some(Facility::Bloodline)
        } else if t == "仓库"@ {
            Some(Facility::Warehouse)
        } else {
            None
        }
    }

    /// Parses user input naming a facility (full name or alias, surrounding whitespace ignored).
    pub fn parse(s: &str) -> (r: Option<Facility>)
        ensures
            r == Facility::named(trim(s@)),
    {
        let t = trimmed(s);
        if eq_lit(&t, "训练场") || eq_lit(&t, "训练") {
            Some(Facility::TrainGround)
        } else if eq_lit(&t, "马场") {
            Some(Facility::Stable)
        } else if eq_lit(&t, "血统祠堂") || eq_lit(&t, "祠堂") || eq_lit(&t, "血统") {
            Some(Facility::Bloodline)
        } else if eq_lit(&t, "仓库") {
            Some(Facility::Warehouse)
        } else {
            None
        }
    }

    /// The display name of the facility as a character sequence.
    pub open spec fn spec_name(self) -> Seq<char> {
        match self {
            Facility::TrainGround => "训练场"@,
            Facility::Stable => "马场"@,
            Facility::Bloodline => "血统祠堂"@,
            Facility::Warehouse => "仓库"@,
        }
    }

    /// The display name of the facility.
    pub fn name(self) -> (r: &'static str)
        ensures
            r@ == self.spec_name(),
    {
        match self {
            Facility::TrainGround => "训练场",
            Facility::Stable => "马场",
            Facility::Bloodline => "血统祠堂",
            Facility::Warehouse => "仓库",
        }
    }

    /// The effect text of the facility as a character sequence.
    pub open spec fn spec_effect(self) -> Seq<char> {
        match self {
            Facility::TrainGround => "降训练费"@,
            Facility::Stable => "降治疗费、减厩养税,开珍爱槽"@,
            Facility::Bloodline => "降繁殖费"@,
            Facility::Warehouse => "扩在厩上限"@,
        }
    }

    /// The effect text of the facility.
    pub fn effect(self) -> (r: &'static str)
        ensures
            r@ == self.spec_effect(),
    {
        match self {
            Facility::TrainGround => "降训练费",
            Facility::Stable => "降治疗费、减厩养税,开珍爱槽",
            Facility::Bloodline => "降繁殖费",
            Facility::Warehouse => "扩在厩上限",
        }
    }

    /// The facility's highest level.
    pub open spec fn spec_max_lv(self) -> i16 {
        match self {
            Facility::TrainGround => FAC_TRAIN_MAX_LV,
            Facility::Stable => FAC_STABLE_MAX_LV,
            Facility::Bloodline => FAC_BLOOD_MAX_LV,
            Facility::Warehouse => FAC_WAREHOUSE_MAX_LV,
        }
    }

    /// The facility's highest level.
    pub fn max_lv(self) -> (r: i16)
        ensures
            r == self.spec_max_lv(),
    {
        match self {
            Facility::TrainGround => FAC_TRAIN_MAX_LV,
            Facility::Stable => FAC_STABLE_MAX_LV,
            Facility::Bloodline => FAC_BLOOD_MAX_LV,
            Facility::Warehouse => FAC_WAREHOUSE_MAX_LV,
        }
    }

}

/// A per-horse facility of a cherished horse.
#[derive(Clone, Copy, Debug, PartialEq, Eq, Structural)]
pub enum HorseFacility {
    /// Raises the horse's own reach cap.
    Desk,
    /// PvP-only power multiplier.
    Prep,
}

impl HorseFacility {

    /// The per-horse facility named by the (already trimmed) text `t`, if any.
    pub open spec fn named(t: Seq<char>) -> Option<HorseFacility> {
        if t == "训练台"@ || t == "专属训练台"@ {
            Some(HorseFacility::Desk)
        } else if t == "战意"@ || t == "战意调理"@ || t == "专属战意调理"@ {
            Some(HorseFacility::Prep)
        } else {
            None
        }
    }

    /// Parses user input naming a per-horse facility (full name or alias, surrounding whitespace ignored).
    pub fn parse(s: &str) -> (r: Option<HorseFacility>)
        ensures
            r == HorseFacility::named(trim(s@)),
    {
        let t = trimmed(s);
        if eq_lit(&t, "训练台") || eq_lit(&t, "专属训练台") {
            Some(HorseFacility::Desk)
        } else if eq_lit(&t, "战意") || eq_lit(&t, "战意调理") || eq_lit(&t, "专属战意调理") {
            Some(HorseFacility::Prep)
        } else {
            None
        }
    }

    /// The display name of the facility as a character sequence.
    pub open spec fn spec_name(self) -> Seq<char> {
        match self {
            HorseFacility::Desk => "专属训练台"@,
            HorseFacility::Prep => "专属战意调理"@,
        }
    }

    /// The display name of the facility.
    pub fn name(self) -> (r: &'static str)
        ensures
            r@ == self.spec_name(),
    {
        match self {
            HorseFacility::Desk => "专属训练台",
            HorseFacility::Prep => "专属战意调理",
        }
    }

    /// The effect text of the facility as a character sequence.
    pub open spec fn spec_effect(self) -> Seq<char> {
        match self {
            HorseFacility::Desk => "抬高这匹马的资质上限"@,
            HorseFacility::Prep => "加这匹马的 PvP 战力,只在 PvP 生效"@,
        }
    }

    /// The effect text of the facility.
    pub fn effect(self) -> (r: &'static str)
        ensures
            r@ == self.spec_effect(),
    {
        match self {
            HorseFacility::Desk => "抬高这匹马的资质上限",
            HorseFacility::Prep => "加这匹马的 PvP 战力,只在 PvP 生效",
        }
    }

    /// The facility's highest level.
    pub open spec fn spec_max_lv(self) -> i16 {
        match self {
            HorseFacility::Desk => DESK_MAX_LV,
            HorseFacility::Prep => PREP_MAX_LV,
        }
    }

    /// The facility's highest level.
    pub fn max_lv(self) -> (r: i16)
        ensures
            r == self.spec_max_lv(),
    {
        match self {
            HorseFacility::Desk => DESK_MAX_LV,
            HorseFacility::Prep => PREP_MAX_LV,
        }
    }

}

/// A stat's name, with any whitespace around it, parses back to that stat.
pub proof fn lemma_stat_name_parses(v: Stat, pre: Seq<char>, post: Seq<char>)
    requires
        all_ws(pre),
        all_ws(post),
    ensures
        Stat::named(trim(pre + v.spec_name() + post)) == Some(v),
{
    reveal_strlit("速度");
    reveal_strlit("速");
    reveal_strlit("耐力");
    reveal_strlit("耐");
    reveal_strlit("爆发");
    reveal_strlit("爆");
    reveal_strlit("敏捷");
    reveal_strlit("敏");
    reveal_strlit("幸运");
    reveal_strlit("运");
    lemma_trim_padded(pre, v.spec_name(), post);
    match v {
        Stat::Spd => {},
        Stat::Sta => {
            assert("耐力"@[0] != "速度"@[0]);
        },
        Stat::Brs => {
            assert("爆发"@[0] != "速度"@[0]
                && "爆发"@[0] != "耐力"@[0]);
        },
        Stat::Agi => {
            assert("敏捷"@[0] != "速度"@[0]
                && "敏捷"@[0] != "耐力"@[0]
                && "敏捷"@[0] != "爆发"@[0]);
        },
        Stat::Luk => {
            assert("幸运"@[0] != "速度"@[0]
                && "幸运"@[0] != "耐力"@[0]
                && "幸运"@[0] != "爆发"@[0]
                && "幸运"@[0] != "敏捷"@[0]);
        },
    }
}

/// A difficulty's name, with any whitespace around it, parses back to that difficulty.
pub proof fn lemma_difficulty_name_parses(v: Difficulty, pre: Seq<char>, post: Seq<char>)
    requires
        all_ws(pre),
        all_ws(post),
    ensures
        Difficulty::named(trim(pre + v.spec_name() + post)) == Some(v),
{
    reveal_strlit("简单");
    reveal_strlit("易");
    reveal_strlit("easy");
    reveal_strlit("普通");
    reveal_strlit("normal");
    reveal_strlit("困难");
    reveal_strlit("难");
    reveal_strlit("hard");
    reveal_strlit("大师");
    reveal_strlit("锦标");
    reveal_strlit("master");
    lemma_trim_padded(pre, v.spec_name(), post);
    match v {
        Difficulty::Easy => {},
        Difficulty::Normal => {
            assert("普通"@[0] != "简单"@[0]);
        },
        Difficulty::Hard => {
            assert("困难"@[0] != "简单"@[0]
                && "困难"@[0] != "普通"@[0]);
        },
        Difficulty::Master => {
            assert("大师"@[0] != "简单"@[0]
                && "大师"@[0] != "普通"@[0]
                && "大师"@[0] != "困难"@[0]);
        },
    }
}

/// An item's name, with any whitespace around it, parses back to that item.
pub proof fn lemma_item_name_parses(v: Item, pre: Seq<char>, post: Seq<char>)
    requires
        all_ws(pre),
        all_ws(post),
    ensures
        Item::named(trim(pre + v.spec_name() + post)) == Some(v),
{
    reveal_strlit("冲刺");
    reveal_strlit("加速");
    reveal_strlit("四叶草");
    reveal_strlit("幸运草");
    reveal_strlit("幸运四叶草");
    reveal_strlit("终盘冲刺");
    reveal_strlit("终盘");
    reveal_strlit("后程冲刺");
    reveal_strlit("定心丸");
    reveal_strlit("定心");
    reveal_strlit("稳行");
    reveal_strlit("绊马索");
    reveal_strlit("绊马");
    reveal_strlit("鸣枪惊群");
    reveal_strlit("鸣枪");
    reveal_strlit("惊群");
    reveal_strlit("盯防");
    reveal_strlit("护身符");
    reveal_strlit("护身");
    reveal_strlit("护盾");
    reveal_strlit("回马枪");
    reveal_strlit("回马");
    reveal_strlit("精饲料");
    reveal_strlit("精料");
    reveal_strlit("滋补膏");
    reveal_strlit("补膏");
    reveal_strlit("滋补");
    reveal_strlit("专注饲料");
    reveal_strlit("专注");
    reveal_strlit("集训券");
    reveal_strlit("集训");
    reveal_strlit("破限丹");
    reveal_strlit("破限");
    reveal_strlit("刷洗");
    reveal_strlit("刷毛");
    reveal_strlit("推拿");
    reveal_strlit("按摩");
    reveal_strlit("温泉疗养");
    reveal_strlit("温泉");
    reveal_strlit("疗养");
    reveal_strlit("能量饮");
    reveal_strlit("能量");
    reveal_strlit("金疮药");
    reveal_strlit("金疮");
    reveal_strlit("精草料");
    reveal_strlit("精草");
    reveal_strlit("育骨精料");
    reveal_strlit("育骨");
    reveal_strlit("洗髓草");
    reveal_strlit("洗髓");
    reveal_strlit("特性秘传");
    reveal_strlit("秘传");
    reveal_strlit("静心符");
    reveal_strlit("静心");
    reveal_strlit("星辉石");
    reveal_strlit("星辉");
    reveal_strlit("红绳");
    reveal_strlit("续种符");
    reveal_strlit("续种");
    reveal_strlit("染色剂");
    reveal_strlit("染色");
    reveal_strlit("改名牌");
    reveal_strlit("名牌");
    lemma_trim_padded(pre, v.spec_name(), post);
    match v {
        Item::Boost => {},
        Item::Clover => {},
        Item::LateBoost => {},
        Item::StaminaTonic => {
            assert("定心丸"@[0] != "四叶草"@[0]
                && "定心丸"@[0] != "幸运草"@[0]);
        },
        Item::Steady => {
            assert("稳行"@[0] != "冲刺"@[0]
                && "稳行"@[0] != "加速"@[0]
                && "稳行"@[0] != "终盘"@[0]
                && "稳行"@[0] != "定心"@[0]);
        },
        Item::Banana => {
            assert("绊马索"@[0] != "四叶草"@[0]
                && "绊马索"@[0] != "幸运草"@[0]
                && "绊马索"@[0] != "定心丸"@[0]);
        },
        Item::Scare => {
            assert("鸣枪惊群"@[0] != "终盘冲刺"@[0]
                && "鸣枪惊群"@[0] != "后程冲刺"@[0]);
        },
        Item::Mark => {
            assert("盯防"@[0] != "冲刺"@[0]
                && "盯防"@[0] != "加速"@[0]
                && "盯防"@[0] != "终盘"@[0]
                && "盯防"@[0] != "定心"@[0]
                && "盯防"@[0] != "稳行"@[0]
                && "盯防"@[0] != "绊马"@[0]
                && "盯防"@[0] != "鸣枪"@[0]
                && "盯防"@[0] != "惊群"@[0]);
        },
        Item::Shield => {
            assert("护身符"@[0] != "四叶草"@[0]
                && "护身符"@[0] != "幸运草"@[0]
                && "护身符"@[0] != "定心丸"@[0]
                && "护身符"@[0] != "绊马索"@[0]);
        },
        Item::Reflect => {
            assert("回马枪"@[0] != "四叶草"@[0]
                && "回马枪"@[0] != "幸运草"@[0]
                && "回马枪"@[0] != "定心丸"@[0]
                && "回马枪"@[0] != "绊马索"@[0]
                && "回马枪"@[0] != "护身符"@[0]);
        },
        Item::Feed1 => {
            assert("精饲料"@[0] != "四叶草"@[0]
                && "精饲料"@[0] != "幸运草"@[0]
                && "精饲料"@[0] != "定心丸"@[0]
                && "精饲料"@[0] != "绊马索"@[0]
                && "精饲料"@[0] != "护身符"@[0]
                && "精饲料"@[0] != "回马枪"@[0]);
        },
        Item::Feed2 => {
            assert("滋补膏"@[0] != "四叶草"@[0]
                && "滋补膏"@[0] != "幸运草"@[0]
                && "滋补膏"@[0] != "定心丸"@[0]
                && "滋补膏"@[0] != "绊马索"@[0]
                && "滋补膏"@[0] != "护身符"@[0]
                && "滋补膏"@[0] != "回马枪"@[0]
                && "滋补膏"@[0] != "精饲料"@[0]);
        },
        Item::FocusFeed => {
            assert("专注饲料"@[0] != "终盘冲刺"@[0]
                && "专注饲料"@[0] != "后程冲刺"@[0]
                && "专注饲料"@[0] != "鸣枪惊群"@[0]);
        },
        Item::DrillPass => {
            assert("集训券"@[0] != "四叶草"@[0]
                && "集训券"@[0] != "幸运草"@[0]
                && "集训券"@[0] != "定心丸"@[0]
                && "集训券"@[0] != "绊马索"@[0]
                && "集训券"@[0] != "护身符"@[0]
                && "集训券"@[0] != "回马枪"@[0]
                && "集训券"@[0] != "精饲料"@[0]
                && "集训券"@[0] != "滋补膏"@[0]);
        },
        Item::BreakPill => {
            assert("破限丹"@[0] != "四叶草"@[0]
                && "破限丹"@[0] != "幸运草"@[0]
                && "破限丹"@[0] != "定心丸"@[0]
                && "破限丹"@[0] != "绊马索"@[0]
                && "破限丹"@[0] != "护身符"@[0]
                && "破限丹"@[0] != "回马枪"@[0]
                && "破限丹"@[0] != "精饲料"@[0]
                && "破限丹"@[0] != "滋补膏"@[0]
                && "破限丹"@[0] != "集训券"@[0]);
        },
        Item::Care1 => {
            assert("刷洗"@[0] != "冲刺"@[0]
                && "刷洗"@[0] != "加速"@[0]
                && "刷洗"@[0] != "终盘"@[0]
                && "刷洗"@[0] != "定心"@[0]
                && "刷洗"@[0] != "稳行"@[0]
                && "刷洗"@[0] != "绊马"@[0]
                && "刷洗"@[0] != "鸣枪"@[0]
                && "刷洗"@[0] != "惊群"@[0]
                && "刷洗"@[0] != "盯防"@[0]
                && "刷洗"@[0] != "护身"@[0]
                && "刷洗"@[0] != "护盾"@[0]
                && "刷洗"@[0] != "回马"@[0]
                && "刷洗"@[0] != "精料"@[0]
                && "刷洗"@[0] != "补膏"@[0]
                && "刷洗"@[0] != "滋补"@[0]
                && "刷洗"@[0] != "专注"@[0]
                && "刷洗"@[0] != "集训"@[0]
                && "刷洗"@[0] != "破限"@[0]);
        },
        Item::Care2 => {
            assert("推拿"@[0] != "冲刺"@[0]
                && "推拿"@[0] != "加速"@[0]
                && "推拿"@[0] != "终盘"@[0]
                && "推拿"@[0] != "定心"@[0]
                && "推拿"@[0] != "稳行"@[0]
                && "推拿"@[0] != "绊马"@[0]
                && "推拿"@[0] != "鸣枪"@[0]
                && "推拿"@[0] != "惊群"@[0]
                && "推拿"@[0] != "盯防"@[0]
                && "推拿"@[0] != "护身"@[0]
                && "推拿"@[0] != "护盾"@[0]
                && "推拿"@[0] != "回马"@[0]
                && "推拿"@[0] != "精料"@[0]
                && "推拿"@[0] != "补膏"@[0]
                && "推拿"@[0] != "滋补"@[0]
                && "推拿"@[0] != "专注"@[0]
                && "推拿"@[0] != "集训"@[0]
                && "推拿"@[0] != "破限"@[0]
                && "推拿"@[0] != "刷洗"@[0]
                && "推拿"@[0] != "刷毛"@[0]);
        },
        Item::Care3 => {
            assert("温泉疗养"@[0] != "终盘冲刺"@[0]
                && "温泉疗养"@[0] != "后程冲刺"@[0]
                && "温泉疗养"@[0] != "鸣枪惊群"@[0]
                && "温泉疗养"@[0] != "专注饲料"@[0]);
        },
        Item::EnergyDrink => {
            assert("能量饮"@[0] != "四叶草"@[0]
                && "能量饮"@[0] != "幸运草"@[0]
                && "能量饮"@[0] != "定心丸"@[0]
                && "能量饮"@[0] != "绊马索"@[0]
                && "能量饮"@[0] != "护身符"@[0]
                && "能量饮"@[0] != "回马枪"@[0]
                && "能量饮"@[0] != "精饲料"@[0]
                && "能量饮"@[0] != "滋补膏"@[0]
                && "能量饮"@[0] != "集训券"@[0]
                && "能量饮"@[0] != "破限丹"@[0]);
        },
        Item::Medicine => {
            assert("金疮药"@[0] != "四叶草"@[0]
                && "金疮药"@[0] != "幸运草"@[0]
                && "金疮药"@[0] != "定心丸"@[0]
                && "金疮药"@[0] != "绊马索"@[0]
                && "金疮药"@[0] != "护身符"@[0]
                && "金疮药"@[0] != "回马枪"@[0]
                && "金疮药"@[0] != "精饲料"@[0]
                && "金疮药"@[0] != "滋补膏"@[0]
                && "金疮药"@[0] != "集训券"@[0]
                && "金疮药"@[0] != "破限丹"@[0]
                && "金疮药"@[0] != "能量饮"@[0]);
        },
        Item::FineForage => {
            assert("精草料"@[0] != "四叶草"@[0]
                && "精草料"@[0] != "幸运草"@[0]
                && "精草料"@[0] != "定心丸"@[0]
                && "精草料"@[0] != "绊马索"@[0]
                && "精草料"@[0] != "护身符"@[0]
                && "精草料"@[0] != "回马枪"@[0]
                && "精草料"@[1] != "精饲料"@[1]
                && "精草料"@[0] != "滋补膏"@[0]
                && "精草料"@[0] != "集训券"@[0]
                && "精草料"@[0] != "破限丹"@[0]
                && "精草料"@[0] != "能量饮"@[0]
                && "精草料"@[0] != "金疮药"@[0]);
        },
        Item::ReachTonic => {
            assert("育骨精料"@[0] != "终盘冲刺"@[0]
                && "育骨精料"@[0] != "后程冲刺"@[0]
                && "育骨精料"@[0] != "鸣枪惊群"@[0]
                && "育骨精料"@[0] != "专注饲料"@[0]
                && "育骨精料"@[0] != "温泉疗养"@[0]);
        },
        Item::GrowthHerb => {
            assert("洗髓草"@[0] != "四叶草"@[0]
                && "洗髓草"@[0] != "幸运草"@[0]
                && "洗髓草"@[0] != "定心丸"@[0]
                && "洗髓草"@[0] != "绊马索"@[0]
                && "洗髓草"@[0] != "护身符"@[0]
                && "洗髓草"@[0] != "回马枪"@[0]
                && "洗髓草"@[0] != "精饲料"@[0]
                && "洗髓草"@[0] != "滋补膏"@[0]
                && "洗髓草"@[0] != "集训券"@[0]
                && "洗髓草"@[0] != "破限丹"@[0]
                && "洗髓草"@[0] != "能量饮"@[0]
                && "洗髓草"@[0] != "金疮药"@[0]
                && "洗髓草"@[0] != "精草料"@[0]);
        },
        Item::TraitBook => {
            assert("特性秘传"@[0] != "终盘冲刺"@[0]
                && "特性秘传"@[0] != "后程冲刺"@[0]
                && "特性秘传"@[0] != "鸣枪惊群"@[0]
                && "特性秘传"@[0] != "专注饲料"@[0]
                && "特性秘传"@[0] != "温泉疗养"@[0]
                && "特性秘传"@[0] != "育骨精料"@[0]);
        },
        Item::TraitReroll => {
            assert("静心符"@[0] != "四叶草"@[0]
                && "静心符"@[0] != "幸运草"@[0]
                && "静心符"@[0] != "定心丸"@[0]
                && "静心符"@[0] != "绊马索"@[0]
                && "静心符"@[0] != "护身符"@[0]
                && "静心符"@[0] != "回马枪"@[0]
                && "静心符"@[0] != "精饲料"@[0]
                && "静心符"@[0] != "滋补膏"@[0]
                && "静心符"@[0] != "集训券"@[0]
                && "静心符"@[0] != "破限丹"@[0]
                && "静心符"@[0] != "能量饮"@[0]
                && "静心符"@[0] != "金疮药"@[0]
                && "静心符"@[0] != "精草料"@[0]
                && "静心符"@[0] != "洗髓草"@[0]);
        },
        Item::StarStone => {
            assert("星辉石"@[0] != "四叶草"@[0]
                && "星辉石"@[0] != "幸运草"@[0]
                && "星辉石"@[0] != "定心丸"@[0]
                && "星辉石"@[0] != "绊马索"@[0]
                && "星辉石"@[0] != "护身符"@[0]
                && "星辉石"@[0] != "回马枪"@[0]
                && "星辉石"@[0] != "精饲料"@[0]
                && "星辉石"@[0] != "滋补膏"@[0]
                && "星辉石"@[0] != "集训券"@[0]
                && "星辉石"@[0] != "破限丹"@[0]
                && "星辉石"@[0] != "能量饮"@[0]
                && "星辉石"@[0] != "金疮药"@[0]
                && "星辉石"@[0] != "精草料"@[0]
                && "星辉石"@[0] != "洗髓草"@[0]
                && "星辉石"@[0] != "静心符"@[0]);
        },
        Item::RedString => {
            assert("红绳"@[0] != "冲刺"@[0]
                && "红绳"@[0] != "加速"@[0]
                && "红绳"@[0] != "终盘"@[0]
                && "红绳"@[0] != "定心"@[0]
                && "红绳"@[0] != "稳行"@[0]
                && "红绳"@[0] != "绊马"@[0]
                && "红绳"@[0] != "鸣枪"@[0]
                && "红绳"@[0] != "惊群"@[0]
                && "红绳"@[0] != "盯防"@[0]
                && "红绳"@[0] != "护身"@[0]
                && "红绳"@[0] != "护盾"@[0]
                && "红绳"@[0] != "回马"@[0]
                && "红绳"@[0] != "精料"@[0]
                && "红绳"@[0] != "补膏"@[0]
                && "红绳"@[0] != "滋补"@[0]
                && "红绳"@[0] != "专注"@[0]
                && "红绳"@[0] != "集训"@[0]
                && "红绳"@[0] != "破限"@[0]
                && "红绳"@[0] != "刷洗"@[0]
                && "红绳"@[0] != "刷毛"@[0]
                && "红绳"@[0] != "推拿"@[0]
                && "红绳"@[0] != "按摩"@[0]
                && "红绳"@[0] != "温泉"@[0]
                && "红绳"@[0] != "疗养"@[0]
                && "红绳"@[0] != "能量"@[0]
                && "红绳"@[0] != "金疮"@[0]
                && "红绳"@[0] != "精草"@[0]
                && "红绳"@[0] != "育骨"@[0]
                && "红绳"@[0] != "洗髓"@[0]
                && "红绳"@[0] != "秘传"@[0]
                && "红绳"@[0] != "静心"@[0]
                && "红绳"@[0] != "星辉"@[0]);
        },
        Item::BreedCharm => {
            assert("续种符"@[0] != "四叶草"@[0]
                && "续种符"@[0] != "幸运草"@[0]
                && "续种符"@[0] != "定心丸"@[0]
                && "续种符"@[0] != "绊马索"@[0]
                && "续种符"@[0] != "护身符"@[0]
                && "续种符"@[0] != "回马枪"@[0]
                && "续种符"@[0] != "精饲料"@[0]
                && "续种符"@[0] != "滋补膏"@[0]
                && "续种符"@[0] != "集训券"@[0]
                && "续种符"@[0] != "破限丹"@[0]
                && "续种符"@[0] != "能量饮"@[0]
                && "续种符"@[0] != "金疮药"@[0]
                && "续种符"@[0] != "精草料"@[0]
                && "续种符"@[0] != "洗髓草"@[0]
                && "续种符"@[0] != "静心符"@[0]
                && "续种符"@[0] != "星辉石"@[0]);
        },
        Item::Dye => {
            assert("染色剂"@[0] != "四叶草"@[0]
                && "染色剂"@[0] != "幸运草"@[0]
                && "染色剂"@[0] != "定心丸"@[0]
                && "染色剂"@[0] != "绊马索"@[0]
                && "染色剂"@[0] != "护身符"@[0]
                && "染色剂"@[0] != "回马枪"@[0]
                && "染色剂"@[0] != "精饲料"@[0]
                && "染色剂"@[0] != "滋补膏"@[0]
                && "染色剂"@[0] != "集训券"@[0]
                && "染色剂"@[0] != "破限丹"@[0]
                && "染色剂"@[0] != "能量饮"@[0]
                && "染色剂"@[0] != "金疮药"@[0]
                && "染色剂"@[0] != "精草料"@[0]
                && "染色剂"@[0] != "洗髓草"@[0]
                && "染色剂"@[0] != "静心符"@[0]
                && "染色剂"@[0] != "星辉石"@[0]
                && "染色剂"@[0] != "续种符"@[0]);
        },
        Item::NameTag => {
            assert("改名牌"@[0] != "四叶草"@[0]
                && "改名牌"@[0] != "幸运草"@[0]
                && "改名牌"@[0] != "定心丸"@[0]
                && "改名牌"@[0] != "绊马索"@[0]
                && "改名牌"@[0] != "护身符"@[0]
                && "改名牌"@[0] != "回马枪"@[0]
                && "改名牌"@[0] != "精饲料"@[0]
                && "改名牌"@[0] != "滋补膏"@[0]
                && "改名牌"@[0] != "集训券"@[0]
                && "改名牌"@[0] != "破限丹"@[0]
                && "改名牌"@[0] != "能量饮"@[0]
                && "改名牌"@[0] != "金疮药"@[0]
                && "改名牌"@[0] != "精草料"@[0]
                && "改名牌"@[0] != "洗髓草"@[0]
                && "改名牌"@[0] != "静心符"@[0]
                && "改名牌"@[0] != "星辉石"@[0]
                && "改名牌"@[0] != "续种符"@[0]
                && "改名牌"@[0] != "染色剂"@[0]);
        },
    }
}

/// A facility's name, with any whitespace around it, parses back to that facility.
pub proof fn lemma_facility_name_parses(v: Facility, pre: Seq<char>, post: Seq<char>)
    requires
        all_ws(pre),
        all_ws(post),
    ensures
        Facility::named(trim(pre + v.spec_name() + post)) == Some(v),
{
    reveal_strlit("训练场");
    reveal_strlit("训练");
    reveal_strlit("马场");
    reveal_strlit("血统祠堂");
    reveal_strlit("祠堂");
    reveal_strlit("血统");
    reveal_strlit("仓库");
    lemma_trim_padded(pre, v.spec_name(), post);
    match v {
        Facility::TrainGround => {},
        Facility::Stable => {
            assert("马场"@[0] != "训练"@[0]);
        },
        Facility::Bloodline => {},
        Facility::Warehouse => {
            assert("仓库"@[0] != "训练"@[0]
                && "仓库"@[0] != "马场"@[0]
                && "仓库"@[0] != "祠堂"@[0]
                && "仓库"@[0] != "血统"@[0]);
        },
    }
}

/// A horse facility's name, with any whitespace around it, parses back to that facility.
pub proof fn lemma_horse_facility_name_parses(v: HorseFacility, pre: Seq<char>, post: Seq<char>)
    requires
        all_ws(pre),
        all_ws(post),
    ensures
        HorseFacility::named(trim(pre + v.spec_name() + post)) == Some(v),
{
    reveal_strlit("训练台");
    reveal_strlit("专属训练台");
    reveal_strlit("战意");
    reveal_strlit("战意调理");
    reveal_strlit("专属战意调理");
    lemma_trim_padded(pre, v.spec_name(), post);
    match v {
        HorseFacility::Desk => {},
        HorseFacility::Prep => {},
    }
}

/// A colour's name, with any whitespace around it, reads back as that colour.
pub proof fn lemma_color_name_parses(c: int, pre: Seq<char>, post: Seq<char>)
    requires
        0 <= c < COLOR_COUNT,
        all_ws(pre),
        all_ws(post),
    ensures
        coat_index(trim(pre + coat_name(c) + post)) == Some(c as i16),
{
    reveal_strlit("枣红");
    reveal_strlit("栗色");
    reveal_strlit("乌骓");
    reveal_strlit("白龙");
    reveal_strlit("青骢");
    reveal_strlit("金棕");
    lemma_trim_padded(pre, coat_name(c), post);
    assert("栗色"@[0] != "枣红"@[0]
        && "乌骓"@[0] != "枣红"@[0] && "乌骓"@[0] != "栗色"@[0]
        && "白龙"@[0] != "枣红"@[0] && "白龙"@[0] != "栗色"@[0] && "白龙"@[0] != "乌骓"@[0]
        && "青骢"@[0] != "枣红"@[0] && "青骢"@[0] != "栗色"@[0] && "青骢"@[0] != "乌骓"@[0]
        && "青骢"@[0] != "白龙"@[0]
        && "金棕"@[0] != "枣红"@[0] && "金棕"@[0] != "栗色"@[0] && "金棕"@[0] != "乌骓"@[0]
        && "金棕"@[0] != "白龙"@[0] && "金棕"@[0] != "青骢"@[0]);
}

/// No word names both a difficulty and an item, so a race command's words are read
/// one way only.
pub proof fn lemma_difficulty_words_are_not_items(t: Seq<char>)
    ensures
        Difficulty::named(t) is Some ==> Item::named(t) is None,
{
    reveal_strlit("简单");
    reveal_strlit("易");
    reveal_strlit("easy");
    reveal_strlit("普通");
    reveal_strlit("normal");
    reveal_strlit("困难");
    reveal_strlit("难");
    reveal_strlit("hard");
    reveal_strlit("大师");
    reveal_strlit("锦标");
    reveal_strlit("master");
    reveal_strlit("冲刺");
    reveal_strlit("加速");
    reveal_strlit("四叶草");
    reveal_strlit("幸运草");
    reveal_strlit("幸运四叶草");
    reveal_strlit("终盘冲刺");
    reveal_strlit("终盘");
    reveal_strlit("后程冲刺");
    reveal_strlit("定心丸");
    reveal_strlit("定心");
    reveal_strlit("稳行");
    reveal_strlit("绊马索");
    reveal_strlit("绊马");
    reveal_strlit("鸣枪惊群");
    reveal_strlit("鸣枪");
    reveal_strlit("惊群");
    reveal_strlit("盯防");
    reveal_strlit("护身符");
    reveal_strlit("护身");
    reveal_strlit("护盾");
    reveal_strlit("回马枪");
    reveal_strlit("回马");
    reveal_strlit("精饲料");
    reveal_strlit("精料");
    reveal_strlit("滋补膏");
    reveal_strlit("补膏");
    reveal_strlit("滋补");
    reveal_strlit("专注饲料");
    reveal_strlit("专注");
    reveal_strlit("集训券");
    reveal_strlit("集训");
    reveal_strlit("破限丹");
    reveal_strlit("破限");
    reveal_strlit("刷洗");
    reveal_strlit("刷毛");
    reveal_strlit("推拿");
    reveal_strlit("按摩");
    reveal_strlit("温泉疗养");
    reveal_strlit("温泉");
    reveal_strlit("疗养");
    reveal_strlit("能量饮");
    reveal_strlit("能量");
    reveal_strlit("金疮药");
    reveal_strlit("金疮");
    reveal_strlit("精草料");
    reveal_strlit("精草");
    reveal_strlit("育骨精料");
    reveal_strlit("育骨");
    reveal_strlit("洗髓草");
    reveal_strlit("洗髓");
    reveal_strlit("特性秘传");
    reveal_strlit("秘传");
    reveal_strlit("静心符");
    reveal_strlit("静心");
    reveal_strlit("星辉石");
    reveal_strlit("星辉");
    reveal_strlit("红绳");
    reveal_strlit("续种符");
    reveal_strlit("续种");
    reveal_strlit("染色剂");
    reveal_strlit("染色");
    reveal_strlit("改名牌");
    reveal_strlit("名牌");
    assert(2 <= "冲刺"@.len() <= 5
        && 2 <= "加速"@.len() <= 5
        && 2 <= "四叶草"@.len() <= 5
        && 2 <= "幸运草"@.len() <= 5
        && 2 <= "幸运四叶草"@.len() <= 5
        && 2 <= "终盘冲刺"@.len() <= 5
        && 2 <= "终盘"@.len() <= 5
        && 2 <= "后程冲刺"@.len() <= 5
        && 2 <= "定心丸"@.len() <= 5
        && 2 <= "定心"@.len() <= 5
        && 2 <= "稳行"@.len() <= 5
        && 2 <= "绊马索"@.len() <= 5
        && 2 <= "绊马"@.len() <= 5
        && 2 <= "鸣枪惊群"@.len() <= 5
        && 2 <= "鸣枪"@.len() <= 5
        && 2 <= "惊群"@.len() <= 5
        && 2 <= "盯防"@.len() <= 5
        && 2 <= "护身符"@.len() <= 5
        && 2 <= "护身"@.len() <= 5
        && 2 <= "护盾"@.len() <= 5
        && 2 <= "回马枪"@.len() <= 5
        && 2 <= "回马"@.len() <= 5
        && 2 <= "精饲料"@.len() <= 5
        && 2 <= "精料"@.len() <= 5
        && 2 <= "滋补膏"@.len() <= 5
        && 2 <= "补膏"@.len() <= 5
        && 2 <= "滋补"@.len() <= 5
        && 2 <= "专注饲料"@.len() <= 5
        && 2 <= "专注"@.len() <= 5
        && 2 <= "集训券"@.len() <= 5
        && 2 <= "集训"@.len() <= 5
        && 2 <= "破限丹"@.len() <= 5
        && 2 <= "破限"@.len() <= 5
        && 2 <= "刷洗"@.len() <= 5
        && 2 <= "刷毛"@.len() <= 5
        && 2 <= "推拿"@.len() <= 5
        && 2 <= "按摩"@.len() <= 5
        && 2 <= "温泉疗养"@.len() <= 5
        && 2 <= "温泉"@.len() <= 5
        && 2 <= "疗养"@.len() <= 5
        && 2 <= "能量饮"@.len() <= 5
        && 2 <= "能量"@.len() <= 5
        && 2 <= "金疮药"@.len() <= 5
        && 2 <= "金疮"@.len() <= 5
        && 2 <= "精草料"@.len() <= 5
        && 2 <= "精草"@.len() <= 5
        && 2 <= "育骨精料"@.len() <= 5
        && 2 <= "育骨"@.len() <= 5
        && 2 <= "洗髓草"@.len() <= 5
        && 2 <= "洗髓"@.len() <= 5
        && 2 <= "特性秘传"@.len() <= 5
        && 2 <= "秘传"@.len() <= 5
        && 2 <= "静心符"@.len() <= 5
        && 2 <= "静心"@.len() <= 5
        && 2 <= "星辉石"@.len() <= 5
        && 2 <= "星辉"@.len() <= 5
        && 2 <= "红绳"@.len() <= 5
        && 2 <= "续种符"@.len() <= 5
        && 2 <= "续种"@.len() <= 5
        && 2 <= "染色剂"@.len() <= 5
        && 2 <= "染色"@.len() <= 5
        && 2 <= "改名牌"@.len() <= 5
        && 2 <= "名牌"@.len() <= 5);
    if t == "简单"@ {
        assert("简单"@[0] != "冲刺"@[0]
            && "简单"@[0] != "加速"@[0]
            && "简单"@[0] != "终盘"@[0]
            && "简单"@[0] != "定心"@[0]
            && "简单"@[0] != "稳行"@[0]
            && "简单"@[0] != "绊马"@[0]
            && "简单"@[0] != "鸣枪"@[0]
            && "简单"@[0] != "惊群"@[0]
            && "简单"@[0] != "盯防"@[0]
            && "简单"@[0] != "护身"@[0]
            && "简单"@[0] != "护盾"@[0]
            && "简单"@[0] != "回马"@[0]
            && "简单"@[0] != "精料"@[0]
            && "简单"@[0] != "补膏"@[0]
            && "简单"@[0] != "滋补"@[0]
            && "简单"@[0] != "专注"@[0]
            && "简单"@[0] != "集训"@[0]
            && "简单"@[0] != "破限"@[0]
            && "简单"@[0] != "刷洗"@[0]
            && "简单"@[0] != "刷毛"@[0]
            && "简单"@[0] != "推拿"@[0]
            && "简单"@[0] != "按摩"@[0]
            && "简单"@[0] != "温泉"@[0]
            && "简单"@[0] != "疗养"@[0]
            && "简单"@[0] != "能量"@[0]
            && "简单"@[0] != "金疮"@[0]
            && "简单"@[0] != "精草"@[0]
            && "简单"@[0] != "育骨"@[0]
            && "简单"@[0] != "洗髓"@[0]
            && "简单"@[0] != "秘传"@[0]
            && "简单"@[0] != "静心"@[0]
            && "简单"@[0] != "星辉"@[0]
            && "简单"@[0] != "红绳"@[0]
            && "简单"@[0] != "续种"@[0]
            && "简单"@[0] != "染色"@[0]
            && "简单"@[0] != "名牌"@[0]);
    } else if t == "易"@ {
        assert("易"@.len() == 1);
    } else if t == "easy"@ {
        assert("easy"@[0] != "终盘冲刺"@[0]
            && "easy"@[0] != "后程冲刺"@[0]
            && "easy"@[0] != "鸣枪惊群"@[0]
            && "easy"@[0] != "专注饲料"@[0]
            && "easy"@[0] != "温泉疗养"@[0]
            && "easy"@[0] != "育骨精料"@[0]
            && "easy"@[0] != "特性秘传"@[0]);
    } else if t == "普通"@ {
        assert("普通"@[0] != "冲刺"@[0]
            && "普通"@[0] != "加速"@[0]
            && "普通"@[0] != "终盘"@[0]
            && "普通"@[0] != "定心"@[0]
            && "普通"@[0] != "稳行"@[0]
            && "普通"@[0] != "绊马"@[0]
            && "普通"@[0] != "鸣枪"@[0]
            && "普通"@[0] != "惊群"@[0]
            && "普通"@[0] != "盯防"@[0]
            && "普通"@[0] != "护身"@[0]
            && "普通"@[0] != "护盾"@[0]
            && "普通"@[0] != "回马"@[0]
            && "普通"@[0] != "精料"@[0]
            && "普通"@[0] != "补膏"@[0]
            && "普通"@[0] != "滋补"@[0]
            && "普通"@[0] != "专注"@[0]
            && "普通"@[0] != "集训"@[0]
            && "普通"@[0] != "破限"@[0]
            && "普通"@[0] != "刷洗"@[0]
            && "普通"@[0] != "刷毛"@[0]
            && "普通"@[0] != "推拿"@[0]
            && "普通"@[0] != "按摩"@[0]
            && "普通"@[0] != "温泉"@[0]
            && "普通"@[0] != "疗养"@[0]
            && "普通"@[0] != "能量"@[0]
            && "普通"@[0] != "金疮"@[0]
            && "普通"@[0] != "精草"@[0]
            && "普通"@[0] != "育骨"@[0]
            && "普通"@[0] != "洗髓"@[0]
            && "普通"@[0] != "秘传"@[0]
            && "普通"@[0] != "静心"@[0]
            && "普通"@[0] != "星辉"@[0]
            && "普通"@[0] != "红绳"@[0]
            && "普通"@[0] != "续种"@[0]
            && "普通"@[0] != "染色"@[0]
            && "普通"@[0] != "名牌"@[0]);
    } else if t == "normal"@ {
        assert("normal"@.len() == 6);
    } else if t == "困难"@ {
        assert("困难"@[0] != "冲刺"@[0]
            && "困难"@[0] != "加速"@[0]
            && "困难"@[0] != "终盘"@[0]
            && "困难"@[0] != "定心"@[0]
            && "困难"@[0] != "稳行"@[0]
            && "困难"@[0] != "绊马"@[0]
            && "困难"@[0] != "鸣枪"@[0]
            && "困难"@[0] != "惊群"@[0]
            && "困难"@[0] != "盯防"@[0]
            && "困难"@[0] != "护身"@[0]
            && "困难"@[0] != "护盾"@[0]
            && "困难"@[0] != "回马"@[0]
            && "困难"@[0] != "精料"@[0]
            && "困难"@[0] != "补膏"@[0]
            && "困难"@[0] != "滋补"@[0]
            && "困难"@[0] != "专注"@[0]
            && "困难"@[0] != "集训"@[0]
            && "困难"@[0] != "破限"@[0]
            && "困难"@[0] != "刷洗"@[0]
            && "困难"@[0] != "刷毛"@[0]
            && "困难"@[0] != "推拿"@[0]
            && "困难"@[0] != "按摩"@[0]
            && "困难"@[0] != "温泉"@[0]
            && "困难"@[0] != "疗养"@[0]
            && "困难"@[0] != "能量"@[0]
            && "困难"@[0] != "金疮"@[0]
            && "困难"@[0] != "精草"@[0]
            && "困难"@[0] != "育骨"@[0]
            && "困难"@[0] != "洗髓"@[0]
            && "困难"@[0] != "秘传"@[0]
            && "困难"@[0] != "静心"@[0]
            && "困难"@[0] != "星辉"@[0]
            && "困难"@[0] != "红绳"@[0]
            && "困难"@[0] != "续种"@[0]
            && "困难"@[0] != "染色"@[0]
            && "困难"@[0] != "名牌"@[0]);
    } else if t == "难"@ {
        assert("难"@.len() == 1);
    } else if t == "hard"@ {
        assert("hard"@[0] != "终盘冲刺"@[0]
            && "hard"@[0] != "后程冲刺"@[0]
            && "hard"@[0] != "鸣枪惊群"@[0]
            && "hard"@[0] != "专注饲料"@[0]
            && "hard"@[0] != "温泉疗养"@[0]
            && "hard"@[0] != "育骨精料"@[0]
            && "hard"@[0] != "特性秘传"@[0]);
    } else if t == "大师"@ {
        assert("大师"@[0] != "冲刺"@[0]
            && "大师"@[0] != "加速"@[0]
            && "大师"@[0] != "终盘"@[0]
            && "大师"@[0] != "定心"@[0]
            && "大师"@[0] != "稳行"@[0]
            && "大师"@[0] != "绊马"@[0]
            && "大师"@[0] != "鸣枪"@[0]
            && "大师"@[0] != "惊群"@[0]
            && "大师"@[0] != "盯防"@[0]
            && "大师"@[0] != "护身"@[0]
            && "大师"@[0] != "护盾"@[0]
            && "大师"@[0] != "回马"@[0]
            && "大师"@[0] != "精料"@[0]
            && "大师"@[0] != "补膏"@[0]
            && "大师"@[0] != "滋补"@[0]
            && "大师"@[0] != "专注"@[0]
            && "大师"@[0] != "集训"@[0]
            && "大师"@[0] != "破限"@[0]
            && "大师"@[0] != "刷洗"@[0]
            && "大师"@[0] != "刷毛"@[0]
            && "大师"@[0] != "推拿"@[0]
            && "大师"@[0] != "按摩"@[0]
            && "大师"@[0] != "温泉"@[0]
            && "大师"@[0] != "疗养"@[0]
            && "大师"@[0] != "能量"@[0]
            && "大师"@[0] != "金疮"@[0]
            && "大师"@[0] != "精草"@[0]
            && "大师"@[0] != "育骨"@[0]
            && "大师"@[0] != "洗髓"@[0]
            && "大师"@[0] != "秘传"@[0]
            && "大师"@[0] != "静心"@[0]
            && "大师"@[0] != "星辉"@[0]
            && "大师"@[0] != "红绳"@[0]
            && "大师"@[0] != "续种"@[0]
            && "大师"@[0] != "染色"@[0]
            && "大师"@[0] != "名牌"@[0]);
    } else if t == "锦标"@ {
        assert("锦标"@[0] != "冲刺"@[0]
            && "锦标"@[0] != "加速"@[0]
            && "锦标"@[0] != "终盘"@[0]
            && "锦标"@[0] != "定心"@[0]
            && "锦标"@[0] != "稳行"@[0]
            && "锦标"@[0] != "绊马"@[0]
            && "锦标"@[0] != "鸣枪"@[0]
            && "锦标"@[0] != "惊群"@[0]
            && "锦标"@[0] != "盯防"@[0]
            && "锦标"@[0] != "护身"@[0]
            && "锦标"@[0] != "护盾"@[0]
            && "锦标"@[0] != "回马"@[0]
            && "锦标"@[0] != "精料"@[0]
            && "锦标"@[0] != "补膏"@[0]
            && "锦标"@[0] != "滋补"@[0]
            && "锦标"@[0] != "专注"@[0]
            && "锦标"@[0] != "集训"@[0]
            && "锦标"@[0] != "破限"@[0]
            && "锦标"@[0] != "刷洗"@[0]
            && "锦标"@[0] != "刷毛"@[0]
            && "锦标"@[0] != "推拿"@[0]
            && "锦标"@[0] != "按摩"@[0]
            && "锦标"@[0] != "温泉"@[0]
            && "锦标"@[0] != "疗养"@[0]
            && "锦标"@[0] != "能量"@[0]
            && "锦标"@[0] != "金疮"@[0]
            && "锦标"@[0] != "精草"@[0]
            && "锦标"@[0] != "育骨"@[0]
            && "锦标"@[0] != "洗髓"@[0]
            && "锦标"@[0] != "秘传"@[0]
            && "锦标"@[0] != "静心"@[0]
            && "锦标"@[0] != "星辉"@[0]
            && "锦标"@[0] != "红绳"@[0]
            && "锦标"@[0] != "续种"@[0]
            && "锦标"@[0] != "染色"@[0]
            && "锦标"@[0] != "名牌"@[0]);
    } else if t == "master"@ {
        assert("master"@.len() == 6);
    }
}

/// The four gacha groups split the items: each item is in exactly one of them, its kind
/// is `Race` for the race group, `Train` for the training group and `Use` for the other
/// two, and its gacha class name is the group's name.
pub proof fn lemma_item_groups(it: Item)
    ensures
        it.spec_kind() == ItemKind::Race <==> Item::RACE@.contains(it),
        it.spec_kind() == ItemKind::Train <==> Item::TRAIN@.contains(it),
        it.spec_kind() == ItemKind::Use <==> (Item::RECOVERY@.contains(it) || Item::TREASURE@.contains(it)),
        it.spec_class_name() == "道具"@ <==> Item::RACE@.contains(it),
        it.spec_class_name() == "训练"@ <==> Item::TRAIN@.contains(it),
        it.spec_class_name() == "恢复"@ <==> Item::RECOVERY@.contains(it),
        it.spec_class_name() == "珍材"@ <==> Item::TREASURE@.contains(it),
        (Item::RACE@.contains(it) as int) + (Item::TRAIN@.contains(it) as int) + (Item::RECOVERY@.contains(it) as int)
            + (Item::TREASURE@.contains(it) as int) == 1,
{
    reveal_strlit("道具");
    reveal_strlit("训练");
    reveal_strlit("恢复");
    reveal_strlit("珍材");
    assert("道具"@[0] != "训练"@[0] && "道具"@[0] != "恢复"@[0] && "道具"@[0] != "珍材"@[0]
        && "训练"@[0] != "恢复"@[0] && "训练"@[0] != "珍材"@[0] && "恢复"@[0] != "珍材"@[0]);
    assert(Item::RACE@ =~= seq![Item::Boost, Item::Clover, Item::LateBoost, Item::StaminaTonic, Item::Steady, Item::Banana, Item::Scare, Item::Mark, Item::Shield, Item::Reflect]);
    assert(Item::TRAIN@ =~= seq![Item::Feed1, Item::Feed2, Item::FocusFeed, Item::DrillPass, Item::BreakPill]);
    assert(Item::RECOVERY@ =~= seq![Item::Care1, Item::Care2, Item::Care3, Item::EnergyDrink, Item::Medicine, Item::FineForage]);
    assert(Item::TREASURE@ =~= seq![Item::ReachTonic, Item::GrowthHerb, Item::TraitBook, Item::TraitReroll, Item::StarStone, Item::RedString, Item::BreedCharm, Item::Dye, Item::NameTag]);
    assert(Item::RACE@.contains(it) <==> exists|k: int| 0 <= k < 10 && Item::RACE@[k] == it);
    assert(Item::TRAIN@.contains(it) <==> exists|k: int| 0 <= k < 5 && Item::TRAIN@[k] == it);
    assert(Item::RECOVERY@.contains(it) <==> exists|k: int| 0 <= k < 6 && Item::RECOVERY@[k] == it);
    assert(Item::TREASURE@.contains(it) <==> exists|k: int| 0 <= k < 9 && Item::TREASURE@[k] == it);
    match it {
        Item::Boost => assert(Item::RACE@[0] == it),
        Item::Clover => assert(Item::RACE@[1] == it),
        Item::LateBoost => assert(Item::RACE@[2] == it),
        Item::StaminaTonic => assert(Item::RACE@[3] == it),
        Item::Steady => assert(Item::RACE@[4] == it),
        Item::Banana => assert(Item::RACE@[5] == it),
        Item::Scare => assert(Item::RACE@[6] == it),
        Item::Mark => assert(Item::RACE@[7] == it),
        Item::Shield => assert(Item::RACE@[8] == it),
        Item::Reflect => assert(Item::RACE@[9] == it),
        Item::Feed1 => assert(Item::TRAIN@[0] == it),
        Item::Feed2 => assert(Item::TRAIN@[1] == it),
        Item::FocusFeed => assert(Item::TRAIN@[2] == it),
        Item::DrillPass => assert(Item::TRAIN@[3] == it),
        Item::BreakPill => assert(Item::TRAIN@[4] == it),
        Item::Care1 => assert(Item::RECOVERY@[0] == it),
        Item::Care2 => assert(Item::RECOVERY@[1] == it),
        Item::Care3 => assert(Item::RECOVERY@[2] == it),
        Item::EnergyDrink => assert(Item::RECOVERY@[3] == it),
        Item::Medicine => assert(Item::RECOVERY@[4] == it),
        Item::FineForage => assert(Item::RECOVERY@[5] == it),
        Item::ReachTonic => assert(Item::TREASURE@[0] == it),
        Item::GrowthHerb => assert(Item::TREASURE@[1] == it),
        Item::TraitBook => assert(Item::TREASURE@[2] == it),
        Item::TraitReroll => assert(Item::TREASURE@[3] == it),
        Item::StarStone => assert(Item::TREASURE@[4] == it),
        Item::RedString => assert(Item::TREASURE@[5] == it),
        Item::BreedCharm => assert(Item::TREASURE@[6] == it),
        Item::Dye => assert(Item::TREASURE@[7] == it),
        Item::NameTag => assert(Item::TREASURE@[8] == it),
    }
}

proof fn lemma_low_bits()
    by (bit_vector)
    ensures
        (1i32 << 0i32) & (1i32 << 0i32) != 0,
        0i32 & (1i32 << 0i32) == 0,
        (1i32 << 1i32) & (1i32 << 0i32) == 0,
        (1i32 << 2i32) & (1i32 << 0i32) == 0,
        (1i32 << 3i32) & (1i32 << 0i32) == 0,
        (1i32 << 4i32) & (1i32 << 0i32) == 0,
        (1i32 << 5i32) & (1i32 << 0i32) == 0,
        (1i32 << 6i32) & (1i32 << 0i32) == 0,
        (1i32 << 7i32) & (1i32 << 0i32) == 0,
        (1i32 << 8i32) & (1i32 << 0i32) == 0,
        (1i32 << 9i32) & (1i32 << 0i32) == 0,
        (1i32 << 1i32) & (1i32 << 1i32) != 0,
        0i32 & (1i32 << 1i32) == 0,
        (1i32 << 0i32) & (1i32 << 1i32) == 0,
        (1i32 << 2i32) & (1i32 << 1i32) == 0,
        (1i32 << 3i32) & (1i32 << 1i32) == 0,
        (1i32 << 4i32) & (1i32 << 1i32) == 0,
        (1i32 << 5i32) & (1i32 << 1i32) == 0,
        (1i32 << 6i32) & (1i32 << 1i32) == 0,
        (1i32 << 7i32) & (1i32 << 1i32) == 0,
        (1i32 << 8i32) & (1i32 << 1i32) == 0,
        (1i32 << 9i32) & (1i32 << 1i32) == 0,
        (1i32 << 2i32) & (1i32 << 2i32) != 0,
        0i32 & (1i32 << 2i32) == 0,
        (1i32 << 0i32) & (1i32 << 2i32) == 0,
        (1i32 << 1i32) & (1i32 << 2i32) == 0,
        (1i32 << 3i32) & (1i32 << 2i32) == 0,
        (1i32 << 4i32) & (1i32 << 2i32) == 0,
        (1i32 << 5i32) & (1i32 << 2i32) == 0,
        (1i32 << 6i32) & (1i32 << 2i32) == 0,
        (1i32 << 7i32) & (1i32 << 2i32) == 0,
        (1i32 << 8i32) & (1i32 << 2i32) == 0,
        (1i32 << 9i32) & (1i32 << 2i32) == 0,
        (1i32 << 3i32) & (1i32 << 3i32) != 0,
        0i32 & (1i32 << 3i32) == 0,
        (1i32 << 0i32) & (1i32 << 3i32) == 0,
        (1i32 << 1i32) & (1i32 << 3i32) == 0,
        (1i32 << 2i32) & (1i32 << 3i32) == 0,
        (1i32 << 4i32) & (1i32 << 3i32) == 0,
        (1i32 << 5i32) & (1i32 << 3i32) == 0,
        (1i32 << 6i32) & (1i32 << 3i32) == 0,
        (1i32 << 7i32) & (1i32 << 3i32) == 0,
        (1i32 << 8i32) & (1i32 << 3i32) == 0,
        (1i32 << 9i32) & (1i32 << 3i32) == 0,
        (1i32 << 4i32) & (1i32 << 4i32) != 0,
        0i32 & (1i32 << 4i32) == 0,
        (1i32 << 0i32) & (1i32 << 4i32) == 0,
        (1i32 << 1i32) & (1i32 << 4i32) == 0,
        (1i32 << 2i32) & (1i32 << 4i32) == 0,
        (1i32 << 3i32) & (1i32 << 4i32) == 0,
        (1i32 << 5i32) & (1i32 << 4i32) == 0,
        (1i32 << 6i32) & (1i32 << 4i32) == 0,
        (1i32 << 7i32) & (1i32 << 4i32) == 0,
        (1i32 << 8i32) & (1i32 << 4i32) == 0,
        (1i32 << 9i32) & (1i32 << 4i32) == 0,
        (1i32 << 5i32) & (1i32 << 5i32) != 0,
        0i32 & (1i32 << 5i32) == 0,
        (1i32 << 0i32) & (1i32 << 5i32) == 0,
        (1i32 << 1i32) & (1i32 << 5i32) == 0,
        (1i32 << 2i32) & (1i32 << 5i32) == 0,
        (1i32 << 3i32) & (1i32 << 5i32) == 0,
        (1i32 << 4i32) & (1i32 << 5i32) == 0,
        (1i32 << 6i32) & (1i32 << 5i32) == 0,
        (1i32 << 7i32) & (1i32 << 5i32) == 0,
        (1i32 << 8i32) & (1i32 << 5i32) == 0,
        (1i32 << 9i32) & (1i32 << 5i32) == 0,
        (1i32 << 6i32) & (1i32 << 6i32) != 0,
        0i32 & (1i32 << 6i32) == 0,
        (1i32 << 0i32) & (1i32 << 6i32) == 0,
        (1i32 << 1i32) & (1i32 << 6i32) == 0,
        (1i32 << 2i32) & (1i32 << 6i32) == 0,
        (1i32 << 3i32) & (1i32 << 6i32) == 0,
        (1i32 << 4i32) & (1i32 << 6i32) == 0,
        (1i32 << 5i32) & (1i32 << 6i32) == 0,
        (1i32 << 7i32) & (1i32 << 6i32) == 0,
        (1i32 << 8i32) & (1i32 << 6i32) == 0,
        (1i32 << 9i32) & (1i32 << 6i32) == 0,
        (1i32 << 7i32) & (1i32 << 7i32) != 0,
        0i32 & (1i32 << 7i32) == 0,
        (1i32 << 0i32) & (1i32 << 7i32) == 0,
        (1i32 << 1i32) & (1i32 << 7i32) == 0,
        (1i32 << 2i32) & (1i32 << 7i32) == 0,
        (1i32 << 3i32) & (1i32 << 7i32) == 0,
        (1i32 << 4i32) & (1i32 << 7i32) == 0,
        (1i32 << 5i32) & (1i32 << 7i32) == 0,
        (1i32 << 6i32) & (1i32 << 7i32) == 0,
        (1i32 << 8i32) & (1i32 << 7i32) == 0,
        (1i32 << 9i32) & (1i32 << 7i32) == 0,
        (1i32 << 8i32) & (1i32 << 8i32) != 0,
        0i32 & (1i32 << 8i32) == 0,
        (1i32 << 0i32) & (1i32 << 8i32) == 0,
        (1i32 << 1i32) & (1i32 << 8i32) == 0,
        (1i32 << 2i32) & (1i32 << 8i32) == 0,
        (1i32 << 3i32) & (1i32 << 8i32) == 0,
        (1i32 << 4i32) & (1i32 << 8i32) == 0,
        (1i32 << 5i32) & (1i32 << 8i32) == 0,
        (1i32 << 6i32) & (1i32 << 8i32) == 0,
        (1i32 << 7i32) & (1i32 << 8i32) == 0,
        (1i32 << 9i32) & (1i32 << 8i32) == 0,
        (1i32 << 9i32) & (1i32 << 9i32) != 0,
        0i32 & (1i32 << 9i32) == 0,
        (1i32 << 0i32) & (1i32 << 9i32) == 0,
        (1i32 << 1i32) & (1i32 << 9i32) == 0,
        (1i32 << 2i32) & (1i32 << 9i32) == 0,
        (1i32 << 3i32) & (1i32 << 9i32) == 0,
        (1i32 << 4i32) & (1i32 << 9i32) == 0,
        (1i32 << 5i32) & (1i32 << 9i32) == 0,
        (1i32 << 6i32) & (1i32 << 9i32) == 0,
        (1i32 << 7i32) & (1i32 << 9i32) == 0,
        (1i32 << 8i32) & (1i32 << 9i32) == 0,
{
}

/// Each trait owns its own bit among the first ten: its bit holds it, the empty mask
/// holds nothing, and another trait's bit does not hold it.
pub proof fn lemma_trait_bits(t: Trait, u: Trait)
    ensures
        0 <= t.spec_index() < 10,
        bit_set(t.spec_bit(), t.spec_index() as int),
        !bit_set(0, t.spec_index() as int),
        t != u ==> !bit_set(u.spec_bit(), t.spec_index() as int),
{
    lemma_low_bits();
    match t {
        Trait::LateSurge => match u {
                Trait::LateSurge => {},
                Trait::QuickStart => {},
                Trait::CritBeast => {},
                Trait::IronHoof => {},
                Trait::Genius => {},
                Trait::Tenacious => {},
                Trait::Pursuer => {},
                Trait::Reflex => {},
                Trait::Fortuitous => {},
                Trait::Gale => {},
            },
        Trait::QuickStart => match u {
                Trait::LateSurge => {},
                Trait::QuickStart => {},
                Trait::CritBeast => {},
                Trait::IronHoof => {},
                Trait::Genius => {},
                Trait::Tenacious => {},
                Trait::Pursuer => {},
                Trait::Reflex => {},
                Trait::Fortuitous => {},
                Trait::Gale => {},
            },
        Trait::CritBeast => match u {
                Trait::LateSurge => {},
                Trait::QuickStart => {},
                Trait::CritBeast => {},
                Trait::IronHoof => {},
                Trait::Genius => {},
                Trait::Tenacious => {},
                Trait::Pursuer => {},
                Trait::Reflex => {},
                Trait::Fortuitous => {},
                Trait::Gale => {},
            },
        Trait::IronHoof => match u {
                Trait::LateSurge => {},
                Trait::QuickStart => {},
                Trait::CritBeast => {},
                Trait::IronHoof => {},
                Trait::Genius => {},
                Trait::Tenacious => {},
                Trait::Pursuer => {},
                Trait::Reflex => {},
                Trait::Fortuitous => {},
                Trait::Gale => {},
            },
        Trait::Genius => match u {
                Trait::LateSurge => {},
                Trait::QuickStart => {},
                Trait::CritBeast => {},
                Trait::IronHoof => {},
                Trait::Genius => {},
                Trait::Tenacious => {},
                Trait::Pursuer => {},
                Trait::Reflex => {},
                Trait::Fortuitous => {},
                Trait::Gale => {},
            },
        Trait::Tenacious => match u {
                Trait::LateSurge => {},
                Trait::QuickStart => {},
                Trait::CritBeast => {},
                Trait::IronHoof => {},
                Trait::Genius => {},
                Trait::Tenacious => {},
                Trait::Pursuer => {},
                Trait::Reflex => {},
                Trait::Fortuitous => {},
                Trait::Gale => {},
            },
        Trait::Pursuer => match u {
                Trait::LateSurge => {},
                Trait::QuickStart => {},
                Trait::CritBeast => {},
                Trait::IronHoof => {},
                Trait::Genius => {},
                Trait::Tenacious => {},
                Trait::Pursuer => {},
                Trait::Reflex => {},
                Trait::Fortuitous => {},
                Trait::Gale => {},
            },
        Trait::Reflex => match u {
                Trait::LateSurge => {},
                Trait::QuickStart => {},
                Trait::CritBeast => {},
                Trait::IronHoof => {},
                Trait::Genius => {},
                Trait::Tenacious => {},
                Trait::Pursuer => {},
                Trait::Reflex => {},
                Trait::Fortuitous => {},
                Trait::Gale => {},
            },
        Trait::Fortuitous => match u {
                Trait::LateSurge => {},
                Trait::QuickStart => {},
                Trait::CritBeast => {},
                Trait::IronHoof => {},
                Trait::Genius => {},
                Trait::Tenacious => {},
                Trait::Pursuer => {},
                Trait::Reflex => {},
                Trait::Fortuitous => {},
                Trait::Gale => {},
            },
        Trait::Gale => match u {
                Trait::LateSurge => {},
                Trait::QuickStart => {},
                Trait::CritBeast => {},
                Trait::IronHoof => {},
                Trait::Genius => {},
                Trait::Tenacious => {},
                Trait::Pursuer => {},
                Trait::Reflex => {},
                Trait::Fortuitous => {},
                Trait::Gale => {},
            },
    }
}

proof fn lemma_traits_in_prefix(mask: i32, n: int)
    requires
        0 <= n <= 10,
    ensures
        traits_in(mask, n) == Trait::ALL@.take(n).filter(|t: Trait| bit_set(mask, t.spec_index() as int)),
    decreases n,
{
    reveal(Seq::filter);
    let all = Trait::ALL@;
    assert(all =~= seq![
        Trait::LateSurge,
        Trait::QuickStart,
        Trait::CritBeast,
        Trait::IronHoof,
        Trait::Genius,
        Trait::Tenacious,
        Trait::Pursuer,
        Trait::Reflex,
        Trait::Fortuitous,
        Trait::Gale,
    ]);
    if n == 0 {
        assert(all.take(0) =~= Seq::<Trait>::empty());
    } else {
        lemma_traits_in_prefix(mask, n - 1);
        let s = all.take(n);
        assert(s.drop_last() =~= all.take(n - 1));
        assert(s.last() == all[n - 1]);
        assert(all[n - 1] == trait_at(n - 1) && trait_at(n - 1).spec_index() == n - 1);
    }
}

/// The traits a mask holds are the traits of [`Trait::ALL`] whose bit is set, in that
/// order; so there are at most ten.
pub proof fn lemma_from_mask_filters(mask: i32)
    ensures
        traits_in(mask, 10) == Trait::ALL@.filter(|t: Trait| bit_set(mask, t.spec_index() as int)),
        traits_in(mask, 10).len() <= 10,
{
    lemma_traits_in_prefix(mask, 10);
    assert(Trait::ALL@.take(10) =~= Trait::ALL@);
    Trait::ALL@.lemma_filter_len(|t: Trait| bit_set(mask, t.spec_index() as int));
}

} // verus!
