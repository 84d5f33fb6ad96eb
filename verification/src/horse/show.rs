//! How horses are shown: star strings, sex and stat labels, growth tags, the power label
//! of the PvP lobby, a race's summary line, and the pacing and palette of the replay
//! animation.

use vstd::prelude::*;

use crate::horse::consts::{self, Stat};
use crate::horse::logic::{points, stats_of, stats_roundable, Horse};
use crate::horse::race::RunnerTally;
use crate::text::{decimal, push_decimal, push_str, string_from_chars};

verus! {

/// `n` copies of `s`.
pub open spec fn repeated(s: Seq<char>, n: nat) -> Seq<char>
    decreases n,
{
    if n == 0 {
        seq![]
    } else {
        repeated(s, (n - 1) as nat) + s
    }
}

/// The rarity as four stars: filled up to the rarity (clamped into `0..=4`), hollow after.
pub open spec fn stars_of(rarity: i16) -> Seq<char> {
    let r: nat = if rarity < 0 { 0 } else if rarity > consts::RARITY_MAX { 4 } else { rarity as nat };
    repeated("★"@, r) + repeated("☆"@, (4 - r) as nat)
}

/// Shows a rarity as four stars (see [`stars_of`]).
pub fn stars(rarity: i16) -> (r: String)
    ensures
        r@ == stars_of(rarity),
{
    let r: usize = if rarity < 0 {
        0
    } else if rarity > consts::RARITY_MAX {
        4
    } else {
        rarity as usize
    };
    let mut b: Vec<char> = Vec::new();
    let mut i: usize = 0;
    while i < r
        invariant
            i <= r <= 4,
            b@ == repeated("★"@, i as nat),
        decreases r - i,
    {
        push_str(&mut b, "★");
        i = i + 1;
    }
    let ghost filled = b@;
    let mut j: usize = 0;
    while j < 4 - r
        invariant
            j <= 4 - r,
            r <= 4,
            b@ == filled + repeated("☆"@, j as nat),
        decreases 4 - r - j,
    {
        push_str(&mut b, "☆");
        assert(filled + repeated("☆"@, (j + 1) as nat) =~= filled + repeated("☆"@, j as nat) + "☆"@);
        j = j + 1;
    }
    string_from_chars(&b)
}

/// `公` for a stallion (0), `母` otherwise.
pub fn sex_str(sex: i16) -> (r: &'static str)
    ensures
        r@ == if sex == 0 { "公"@ } else { "母"@ },
{
    if sex == 0 {
        "公"
    } else {
        "母"
    }
}

/// One-character label of a stat.
pub open spec fn abbr_of(s: Stat) -> Seq<char> {
    match s {
        Stat::Spd => "速"@,
        Stat::Sta => "耐"@,
        Stat::Brs => "爆"@,
        Stat::Agi => "敏"@,
        Stat::Luk => "运"@,
    }
}

/// One-character label of a stat.
pub fn stat_abbr(s: Stat) -> (r: &'static str)
    ensures
        r@ == abbr_of(s),
{
    match s {
        Stat::Spd => "速",
        Stat::Sta => "耐",
        Stat::Brs => "爆",
        Stat::Agi => "敏",
        Stat::Luk => "运",
    }
}

/// Growth (×100) as a tag: `快` from 115, `慢` up to 85, `中` between.
pub fn growth_tag(growth: i32) -> (r: &'static str)
    ensures
        r@ == if growth >= 115 { "快"@ } else if growth <= 85 { "慢"@ } else { "中"@ },
{
    if growth >= 115 {
        "快"
    } else if growth <= 85 {
        "慢"
    } else {
        "中"
    }
}

/// The lobby's power label of a horse: `★<rarity> 速<a> 耐<b> 爆<c> 敏<d> 运<e>` with the
/// five stats in points.
pub fn horse_power_label(h: &Horse) -> (r: String)
    requires
        stats_roundable(*h),
    ensures
        r@ == "★"@ + decimal(h.rarity as int) + " 速"@ + decimal(points(h.spd)) + " 耐"@ + decimal(points(h.sta))
            + " 爆"@ + decimal(points(h.brs)) + " 敏"@ + decimal(points(h.agi)) + " 运"@ + decimal(points(h.luk)),
{
    let s = stats_of(h);
    let mut b: Vec<char> = Vec::new();
    push_str(&mut b, "★");
    push_decimal(&mut b, h.rarity as i64);
    push_str(&mut b, " 速");
    push_decimal(&mut b, s[0] as i64);
    push_str(&mut b, " 耐");
    push_decimal(&mut b, s[1] as i64);
    push_str(&mut b, " 爆");
    push_decimal(&mut b, s[2] as i64);
    push_str(&mut b, " 敏");
    push_decimal(&mut b, s[3] as i64);
    push_str(&mut b, " 运");
    push_decimal(&mut b, s[4] as i64);
    string_from_chars(&b)
}

/// The parts of a race summary: crits, rounds frozen and dodges, each when non-zero.
pub open spec fn summary_parts(t: RunnerTally) -> Seq<Seq<char>> {
    let a = if t.crits > 0 { seq!["触发暴击 "@ + decimal(t.crits as int) + " 次"@] } else { seq![] };
    let b = if t.frozen > 0 { seq!["被冻 "@ + decimal(t.frozen as int) + " 回合"@] } else { seq![] };
    let c = if t.dodged > 0 { seq!["闪避 "@ + decimal(t.dodged as int) + " 次"@] } else { seq![] };
    a + b + c
}

/// Parts joined by ` · `.
pub open spec fn dot_joined(ps: Seq<Seq<char>>) -> Seq<char>
    decreases ps.len(),
{
    if ps.len() == 0 {
        seq![]
    } else if ps.len() == 1 {
        ps[0]
    } else {
        dot_joined(ps.drop_last()) + " · "@ + ps.last()
    }
}

/// A runner's race in one line: the [`summary_parts`] joined by ` · `, or `全程稳健发挥`
/// when nothing happened.
pub fn race_summary(t: &RunnerTally) -> (r: String)
    ensures
        r@ == if summary_parts(*t).len() == 0 { "全程稳健发挥"@ } else { dot_joined(summary_parts(*t)) },
{
    let mut b: Vec<char> = Vec::new();
    let ghost mut parts: Seq<Seq<char>> = seq![];
    if t.crits > 0 {
        push_str(&mut b, "触发暴击 ");
        push_decimal(&mut b, t.crits as i64);
        push_str(&mut b, " 次");
        proof {
            parts = parts.push("触发暴击 "@ + decimal(t.crits as int) + " 次"@);
        }
        assert(b@ =~= dot_joined(parts));
    }
    if t.frozen > 0 {
        let ghost before = parts;
        if b.len() > 0 {
            push_str(&mut b, " · ");
        }
        push_str(&mut b, "被冻 ");
        push_decimal(&mut b, t.frozen as i64);
        push_str(&mut b, " 回合");
        proof {
            parts = parts.push("被冻 "@ + decimal(t.frozen as int) + " 回合"@);
            assert(parts.drop_last() =~= before);
        }
        assert(b@ =~= dot_joined(parts));
    }
    if t.dodged > 0 {
        let ghost before = parts;
        if b.len() > 0 {
            push_str(&mut b, " · ");
        }
        push_str(&mut b, "闪避 ");
        push_decimal(&mut b, t.dodged as i64);
        push_str(&mut b, " 次");
        proof {
            parts = parts.push("闪避 "@ + decimal(t.dodged as int) + " 次"@);
            assert(parts.drop_last() =~= before);
        }
        assert(b@ =~= dot_joined(parts));
    }
    assert(parts =~= summary_parts(*t));
    if b.len() == 0 {
        push_str(&mut b, "全程稳健发挥");
    }
    string_from_chars(&b)
}

// ---------------------------------------------------------------------------
// Replay animation
// ---------------------------------------------------------------------------

/// Time budget of a replay in milliseconds.
pub const BUDGET_MS: u32 = 8_000;
/// Shortest frame delay in milliseconds.
pub const DELAY_MIN: u32 = 80;
/// Longest frame delay in milliseconds.
pub const DELAY_MAX: u32 = 150;
/// Most frames in a replay.
pub const FRAME_CAP: usize = 90;

/// `ceil(a / b)`.
pub open spec fn div_ceil(a: int, b: int) -> int {
    (a + b - 1) / b
}

/// The replay pacing for a race of `rounds` rounds: one frame per round at the longest
/// delay while that fits the time budget; otherwise every `step`-th round so that at
/// most [`FRAME_CAP`] frames remain, each shown for the budget spread over them (in
/// tens of milliseconds, clamped to the delay range).
pub open spec fn pacing_of(rounds: int) -> (int, int) {
    let calm = BUDGET_MS / DELAY_MAX;
    if rounds <= calm {
        (1, DELAY_MAX as int)
    } else {
        let step = if div_ceil(rounds, FRAME_CAP as int) < 1 { 1 } else { div_ceil(rounds, FRAME_CAP as int) };
        let frames = if div_ceil(rounds, step) < 1 { 1 } else { div_ceil(rounds, step) };
        let raw = BUDGET_MS as int / frames / 10 * 10;
        (step, if raw < DELAY_MIN { DELAY_MIN as int } else if raw > DELAY_MAX { DELAY_MAX as int } else { raw })
    }
}

/// The replay's frame step and delay for `rounds` rounds (see [`pacing_of`]).
pub fn adaptive(rounds: usize) -> (r: (usize, u32))
    requires
        rounds <= 1_000_000_000,
    ensures
        (r.0 as int, r.1 as int) == pacing_of(rounds as int),
        r.0 >= 1,
        DELAY_MIN <= r.1 <= DELAY_MAX,
        r.0 > 1 ==> div_ceil(rounds as int, r.0 as int) <= FRAME_CAP,
{
    let calm = (BUDGET_MS / DELAY_MAX) as usize;
    if rounds <= calm {
        return (1, DELAY_MAX);
    }
    let s0 = (rounds + FRAME_CAP - 1) / FRAME_CAP;
    let step = if s0 < 1 {
        1
    } else {
        s0
    };
    let f0 = (rounds + step - 1) / step;
    let frames: u32 = if f0 < 1 {
        1
    } else {
        assert(f0 <= rounds) by (nonlinear_arith)
            requires
                f0 == (rounds + step - 1) / (step as int),
                step >= 1,
                rounds >= 1,
        ;
        f0 as u32
    };
    let raw = BUDGET_MS / frames / 10 * 10;
    let delay = if raw < DELAY_MIN {
        DELAY_MIN
    } else if raw > DELAY_MAX {
        DELAY_MAX
    } else {
        raw
    };
    proof {
        if step > 1 {
            assert(div_ceil(rounds as int, step as int) <= FRAME_CAP) by (nonlinear_arith)
                requires
                    step == (rounds + FRAME_CAP - 1) / (FRAME_CAP as int),
                    step >= 1,
                    rounds >= 1,
            ;
        }
    }
    (step, delay)
}

/// Replay palette slot of a coat colour: after the three track colours, clamped into
/// the coat range.
pub fn horse_idx(color: i16) -> (r: u8)
    ensures
        r == 3 + if color < 0 { 0 } else if color > consts::COLOR_COUNT - 1 { consts::COLOR_COUNT - 1 } else { color as int },
{
    let c: i16 = if color < 0 {
        0
    } else if color > consts::COLOR_COUNT - 1 {
        consts::COLOR_COUNT - 1
    } else {
        color
    };
    3 + c as u8
}

/// The replay palette: lane, alternate lane and finish line, then the six coats in
/// coat order, as RGB triples.
pub fn palette() -> (r: Vec<u8>)
    ensures
        r@ == seq![200u8, 230, 180, 186, 218, 166, 220, 60, 60, 139, 58, 42, 160, 82, 45, 48, 48, 48, 232, 232,
            232, 122, 139, 139, 200, 144, 46],
{
    let r = vec![200u8, 230, 180, 186, 218, 166, 220, 60, 60, 139, 58, 42, 160, 82, 45, 48, 48, 48, 232, 232,
        232, 122, 139, 139, 200, 144, 46];
    r
}

/// An owner's shown name: the self-chosen nickname, else the account nickname, else
/// `玩家#<site id>`.
pub open spec fn owner_name_of(alias: Seq<char>, nickname: Option<Seq<char>>, id: i64) -> Seq<char> {
    if alias.len() > 0 {
        alias
    } else if nickname is Some && nickname->0.len() > 0 {
        nickname->0
    } else {
        "玩家#"@ + decimal(id as int)
    }
}

/// An owner's shown name (see [`owner_name_of`]).
pub fn owner_name(alias: &str, nickname: &Option<String>, id: i64) -> (r: String)
    ensures
        r@ == owner_name_of(alias@, match nickname {
            Some(n) => Some(n@),
            None => None,
        }, id),
{
    let a = crate::text::chars_of(alias);
    if a.len() > 0 {
        return string_from_chars(&a);
    }
    if let Some(n) = nickname {
        let nv = crate::text::chars_of(n.as_str());
        if nv.len() > 0 {
            return string_from_chars(&nv);
        }
    }
    let mut b: Vec<char> = Vec::new();
    push_str(&mut b, "玩家#");
    push_decimal(&mut b, id);
    string_from_chars(&b)
}

/// An owner's label on a horse card: the shown name and ` #<site id>`, or `玩家#<account>`
/// for someone not registered.
pub fn owner_label(user: Option<(&str, &Option<String>, i64)>, uin: i64) -> (r: String)
    ensures
        r@ == match user {
            Some((alias, nick, id)) => owner_name_of(alias@, match nick {
                Some(n) => Some(n@),
                None => None,
            }, id) + " #"@ + decimal(id as int),
            None => "玩家#"@ + decimal(uin as int),
        },
{
    match user {
        Some((alias, nick, id)) => {
            let name = owner_name(alias, nick, id);
            let mut b = crate::text::chars_of(name.as_str());
            push_str(&mut b, " #");
            push_decimal(&mut b, id);
            string_from_chars(&b)
        },
        None => {
            let mut b: Vec<char> = Vec::new();
            push_str(&mut b, "玩家#");
            push_decimal(&mut b, uin);
            string_from_chars(&b)
        },
    }
}

} // verus!
