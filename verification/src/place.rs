//! The shared pixel board: a 256×144 canvas of palette indices that players paint one
//! cell at a time for coins, with a level-dependent cooldown. Here: prices, cooldowns,
//! the decision sequence of a placement, the canvas replay, and the board's command
//! argument parsers.

use vstd::prelude::*;

use crate::horse::logic::div_trunc;
use crate::text::{
    Sep, chars_of, eq_lit, lower_chars, lowercase, parse_i32, parse_i64, parse_usize,
    signed_literal, split_tokens, strip_prefix, strip_prefix_lit, strip_suffix_all,
    strip_suffix_all_lit, tokens, trim, trimmed, unsigned_literal, in_range, views,
};

verus! {

/// Canvas width in cells.
pub const W: u32 = 256;
/// Canvas height in cells.
pub const H: u32 = 144;
/// Palette index of an empty cell.
pub const EMPTY: u8 = 0;
/// Block grid columns.
pub const BLOCK_COLS: i32 = 4;
/// Block grid rows.
pub const BLOCK_ROWS: i32 = 4;
/// Block width in cells.
pub const BLOCK_W: i32 = 64;
/// Block height in cells.
pub const BLOCK_H: i32 = 36;
/// Number of blocks.
pub const BLOCKS: u8 = 16;
/// Placements between two stored canvas snapshots.
pub const SNAPSHOT_EVERY: i64 = 5_000;
/// Experience one placement gives.
pub const EXP_PER_PLACE: i64 = 2;

/// Cooldown between placements in seconds: `max(900, 7200 − 240 × level)`.
pub open spec fn cooldown_of(level: int) -> int {
    let v = 7200 - level * 240;
    if v > 900 {
        v
    } else {
        900
    }
}

/// Cooldown between placements in seconds: two hours less four minutes per level,
/// never under fifteen minutes.
pub fn cooldown_secs(level: i64) -> (r: i64)
    requires
        -30_000_000_000_000_000 <= level <= 30_000_000_000_000_000,
    ensures
        r == cooldown_of(level as int),
{
    let v = 7200 - level * 240;
    if v > 900 {
        v
    } else {
        900
    }
}

/// Integer division rounding toward zero, for a non-zero divisor of either sign.
pub open spec fn quot(a: int, b: int) -> int {
    if b > 0 {
        div_trunc(a, b)
    } else {
        -div_trunc(a, -b)
    }
}

/// Price of one cell: `min(20, 1 + placed / (50 + 10 × level))`.
pub open spec fn price_of(placed: int, level: int) -> int {
    let v = 1 + quot(placed, 50 + level * 10);
    if v < 20 {
        v
    } else {
        20
    }
}

/// For a player with `placed >= 0` placements at a level `>= 0`, the price is
/// `min(20, 1 + placed / (50 + 10 × level))` with the division rounding down.
pub proof fn lemma_price_formula(placed: int, level: int)
    requires
        placed >= 0,
        level >= 0,
    ensures
        price_of(placed, level) == if 1 + (placed as int) / (50 + 10 * level) < 20 {
            1 + (placed as int) / (50 + 10 * level)
        } else {
            20
        },
{
    assert(50 + level * 10 == 50 + 10 * level);
}

/// A higher level never makes a cell dearer: for the same number of earlier placements,
/// the price at a level is at most the price at any lower level.
pub proof fn lemma_price_falls_with_level(placed: int, lo: int, hi: int)
    requires
        placed >= 0,
        0 <= lo <= hi,
    ensures
        price_of(placed, hi) <= price_of(placed, lo),
{
    lemma_price_formula(placed, lo);
    lemma_price_formula(placed, hi);
    vstd::arithmetic::div_mod::lemma_div_is_ordered_by_denominator(placed, 50 + 10 * lo, 50 + 10 * hi);
}

/// Price of one cell after `placed` placements at `level`: one coin plus one per
/// `50 + 10 × level` placements, at most 20.
pub fn price(placed: i64, level: i64) -> (r: i64)
    requires
        -900_000_000_000_000_000 <= level <= 900_000_000_000_000_000,
        50 + level * 10 != 0,
    ensures
        r == price_of(placed as int, level as int),
        placed >= 0 && level >= 0 ==> r == if 1 + (placed as int) / (50 + 10 * level) < 20 {
            1 + (placed as int) / (50 + 10 * level)
        } else {
            20
        },
{
    proof {
        if placed >= 0 && level >= 0 {
            lemma_price_formula(placed as int, level as int);
        }
    }
    let d = 50 + level * 10;
    let a = placed as i128;
    let dd = d as i128;
    let ua: i128 = if a >= 0 { a } else { -a };
    let ud: i128 = if dd >= 0 { dd } else { -dd };
    let m = ua / ud;
    assert(m <= ua) by (nonlinear_arith)
        requires
            ua >= 0,
            ud >= 1,
            m == ua / ud,
    ;
    let q: i128 = if (a >= 0) == (dd > 0) { m } else { -m };
    assert(q == quot(placed as int, d as int));
    if q >= 19 {
        20
    } else {
        (1 + q) as i64
    }
}

/// Replay price: one coin per started thousand strokes, between 1 and 88.
pub fn replay_cost(strokes: i64) -> (r: i64)
    requires
        strokes <= i64::MAX - 999,
    ensures
        r == crate::horse::logic::clamp(div_trunc(strokes + 999, 1000), 1, 88),
{
    let t = strokes + 999;
    let q = if t >= 0 {
        t / 1000
    } else {
        -((-(t as i128) / 1000) as i64)
    };
    if q < 1 {
        1
    } else if q > 88 {
        88
    } else {
        q
    }
}

/// Top-left cell of block `n` (1..=16, row-major; `n` clamped into range).
pub fn block_origin(n: u8) -> (r: (i32, i32))
    ensures
        ({
            let i = crate::horse::logic::clamp(n as int, 1, 16) - 1;
            r.0 == (i % 4) * 64 && r.1 == (i / 4) * 36
        }),
{
    let m: u8 = if n < 1 {
        1
    } else if n > BLOCKS {
        BLOCKS
    } else {
        n
    };
    let i = (m - 1) as i32;
    ((i % BLOCK_COLS) * BLOCK_W, (i / BLOCK_COLS) * BLOCK_H)
}

/// Whether `(x, y)` lies on the canvas.
pub open spec fn on_canvas(x: int, y: int) -> bool {
    0 <= x < W && 0 <= y < H
}

/// Whether `(x, y)` lies on the canvas.
pub fn in_bounds(x: i32, y: i32) -> (b: bool)
    ensures
        b == on_canvas(x as int, y as int),
{
    0 <= x && x < W as i32 && 0 <= y && y < H as i32
}

/// Whether the text is a keyword asking for the clean share picture.
pub fn is_clean_kw(s: &str) -> (b: bool)
    ensures
        b == (s@ == "净"@ || s@ == "干净"@ || s@ == "clean"@ || s@ == "分享"@ || s@ == "share"@),
{
    let v = chars_of(s);
    eq_lit(&v, "净") || eq_lit(&v, "干净") || eq_lit(&v, "clean") || eq_lit(&v, "分享") || eq_lit(&v, "share")
}

/// The coordinates a text denotes: exactly two pieces between coordinate separators
/// (commas, semicolons, colons, spaces, tabs, `|`), each an `i32` literal.
pub open spec fn coords_of(s: Seq<char>) -> Option<(i32, i32)> {
    let t = tokens(s, Sep::Coordinate);
    if t.len() != 2 {
        None
    } else {
        match (in_range(signed_literal(t[0]), i32::MIN as int, i32::MAX as int), in_range(signed_literal(t[1]), i32::MIN as int, i32::MAX as int)) {
            (Some(x), Some(y)) => Some((x as i32, y as i32)),
            _ => None,
        }
    }
}

/// Parses `x,y` (any coordinate separators; empty pieces ignored).
pub fn parse_xy(s: &str) -> (r: Option<(i32, i32)>)
    ensures
        r == coords_of(s@),
{
    let v = chars_of(s);
    let parts = split_tokens(&v, Sep::Coordinate);
    if parts.len() != 2 {
        return None;
    }
    assert(views(parts@)[0] == parts@[0]@);
    assert(views(parts@)[1] == parts@[1]@);
    let x = match parse_i32(&parts[0]) {
        Some(x) => x,
        None => return None,
    };
    let y = match parse_i32(&parts[1]) {
        Some(y) => y,
        None => return None,
    };
    Some((x, y))
}

/// `t` without all of its leading `#` / `＃` characters.
pub open spec fn strip_hashes(t: Seq<char>) -> Seq<char>
    decreases t.len(),
{
    if t.len() > 0 && (t[0] == '#' || t[0] == '＃') {
        strip_hashes(t.drop_first())
    } else {
        t
    }
}

/// The block number a text names: optional leading `#`s, then an integer in `1..=16`.
pub open spec fn block_of(s: Seq<char>) -> Option<u8> {
    match in_range(signed_literal(strip_hashes(trim(s))), i64::MIN as int, i64::MAX as int) {
        Some(n) => if 1 <= n <= 16 {
            Some(n as u8)
        } else {
            None
        },
        None => None,
    }
}

/// Parses a block number such as `#3`.
pub fn parse_block(s: &str) -> (r: Option<u8>)
    ensures
        r == block_of(s@),
{
    let t = trimmed(s);
    let mut i: usize = 0;
    assert(t@.subrange(0, t@.len() as int) =~= t@);
    while i < t.len() && (t[i] == '#' || t[i] == '＃')
        invariant
            i <= t.len(),
            strip_hashes(t@) == strip_hashes(t@.subrange(i as int, t@.len() as int)),
        decreases t.len() - i,
    {
        assert(t@.subrange(i as int, t@.len() as int).drop_first() =~= t@.subrange(i + 1, t@.len() as int));
        i = i + 1;
    }
    let rest = crate::text::slice_chars(&t, i, t.len());
    match parse_i64(&rest) {
        Some(n) => if 1 <= n && n <= BLOCKS as i64 {
            Some(n as u8)
        } else {
            None
        },
        None => None,
    }
}

/// The day count of a lowered token such as `7天` / `7d` / `7day` / `7days`: the text
/// without the suffixes 天, then `days`, then `day`, then `d` (each stripped as often as
/// it repeats) must differ from the token and be a positive `i64`.
pub open spec fn days_of(low: Seq<char>) -> Option<i64> {
    let num = strip_suffix_all(strip_suffix_all(strip_suffix_all(strip_suffix_all(low, "天"@), "days"@), "day"@), "d"@);
    if num == low {
        None
    } else {
        match in_range(signed_literal(num), i64::MIN as int, i64::MAX as int) {
            Some(n) => if n > 0 {
                Some(n as i64)
            } else {
                None
            },
            None => None,
        }
    }
}

/// Parses a day count such as `7天` or `7d` from an already lowered token.
pub fn parse_days(low: &str) -> (r: Option<i64>)
    ensures
        r == days_of(low@),
{
    let v = chars_of(low);
    let a = strip_suffix_all_lit(&v, "天");
    let b = strip_suffix_all_lit(&a, "days");
    let c = strip_suffix_all_lit(&b, "day");
    let num = strip_suffix_all_lit(&c, "d");
    if crate::text::eq_chars(&num, &v) {
        return None;
    }
    match parse_i64(&num) {
        Some(n) => if n > 0 {
            Some(n)
        } else {
            None
        },
        None => None,
    }
}

/// Replay options: a window of recent days, strokes merged per frame, total frames.
#[derive(Clone, Copy, Debug, PartialEq, Eq)]
pub struct ReplayArgs {
    /// Replay only the last N days; `None` replays everything.
    pub days: Option<i64>,
    /// Strokes merged into one frame.
    pub step: Option<usize>,
    /// Total number of frames.
    pub frames: Option<usize>,
}

/// The option a single lowered token sets, if any: `step=N`, `帧=N` / `frames=N`, or a
/// day count.
pub enum ReplayOpt {
    Step(usize),
    Frames(usize),
    Days(i64),
    Ignored,
}

/// What the lowered token `low` means as a replay option.
pub open spec fn replay_opt_of(low: Seq<char>) -> ReplayOpt {
    let step = match strip_prefix(low, "step="@) {
        Some(rest) => in_range(unsigned_literal(rest), 0, usize::MAX as int),
        None => None,
    };
    let frames = match strip_prefix(low, "帧="@) {
        Some(rest) => in_range(unsigned_literal(rest), 0, usize::MAX as int),
        None => match strip_prefix(low, "frames="@) {
            Some(rest) => in_range(unsigned_literal(rest), 0, usize::MAX as int),
            None => None,
        },
    };
    if step is Some {
        ReplayOpt::Step(step->0 as usize)
    } else if frames is Some {
        ReplayOpt::Frames(frames->0 as usize)
    } else {
        match days_of(low) {
            Some(d) => ReplayOpt::Days(d),
            None => ReplayOpt::Ignored,
        }
    }
}

/// The replay options after reading the lowered tokens `toks` in order; a later token
/// overrides an earlier one of the same kind.
pub open spec fn replay_args_of(toks: Seq<Seq<char>>) -> ReplayArgs
    decreases toks.len(),
{
    if toks.len() == 0 {
        ReplayArgs { days: None, step: None, frames: None }
    } else {
        let a = replay_args_of(toks.drop_last());
        match replay_opt_of(toks.last()) {
            ReplayOpt::Step(v) => ReplayArgs { step: Some(v), ..a },
            ReplayOpt::Frames(v) => ReplayArgs { frames: Some(v), ..a },
            ReplayOpt::Days(v) => ReplayArgs { days: Some(v), ..a },
            ReplayOpt::Ignored => a,
        }
    }
}

/// What one lowered token sets (see [`replay_opt_of`]).
pub fn replay_opt(low: &Vec<char>) -> (r: ReplayOpt)
    ensures
        r == replay_opt_of(low@),
{
    let step = match strip_prefix_lit(low, "step=") {
        Some(rest) => parse_usize(&rest),
        None => None,
    };
    let frames = match strip_prefix_lit(low, "帧=") {
        Some(rest) => parse_usize(&rest),
        None => match strip_prefix_lit(low, "frames=") {
            Some(rest) => parse_usize(&rest),
            None => None,
        },
    };
    match step {
        Some(v) => ReplayOpt::Step(v),
        None => match frames {
            Some(v) => ReplayOpt::Frames(v),
            None => {
                let s = crate::text::string_from_chars(low);
                match parse_days(s.as_str()) {
                    Some(d) => ReplayOpt::Days(d),
                    None => ReplayOpt::Ignored,
                }
            },
        },
    }
}

/// Parses the replay command's arguments: whitespace-separated tokens, each lowered,
/// read in order (see [`replay_args_of`]); unknown tokens are ignored.
pub fn parse_replay_args(rest: &str) -> (r: ReplayArgs)
    ensures
        r == replay_args_of(tokens(rest@, Sep::Whitespace).map_values(|t: Seq<char>| lowercase(t))),
{
    let v = chars_of(rest);
    let toks = split_tokens(&v, Sep::Whitespace);
    let ghost lowered = tokens(rest@, Sep::Whitespace).map_values(|t: Seq<char>| lowercase(t));
    let mut args = ReplayArgs { days: None, step: None, frames: None };
    let mut i: usize = 0;
    while i < toks.len()
        invariant
            i <= toks.len(),
            views(toks@) == tokens(rest@, Sep::Whitespace),
            lowered == tokens(rest@, Sep::Whitespace).map_values(|t: Seq<char>| lowercase(t)),
            args == replay_args_of(lowered.take(i as int)),
        decreases toks.len() - i,
    {
        let low = lower_chars(&toks[i]);
        assert(views(toks@)[i as int] == toks@[i as int]@);
        assert(lowered.take(i + 1).drop_last() =~= lowered.take(i as int));
        assert(lowered.take(i + 1).last() == low@);
        match replay_opt(&low) {
            ReplayOpt::Step(x) => args.step = Some(x),
            ReplayOpt::Frames(x) => args.frames = Some(x),
            ReplayOpt::Days(x) => args.days = Some(x),
            ReplayOpt::Ignored => {},
        }
        i = i + 1;
    }
    assert(lowered.take(toks.len() as int) =~= lowered);
    args
}

// ---------------------------------------------------------------------------
// Canvas replay
// ---------------------------------------------------------------------------

/// Cell index of `(x, y)` in a row-major canvas buffer.
pub open spec fn cell_of(x: int, y: int) -> int {
    y * W + x
}

/// The canvas after painting `rows` (x, y, colour) in order over `base`; strokes off the
/// canvas are skipped.
pub open spec fn painted(base: Seq<u8>, rows: Seq<(i32, i32, u8)>) -> Seq<u8>
    decreases rows.len(),
{
    if rows.len() == 0 {
        base
    } else {
        let prev = painted(base, rows.drop_last());
        let (x, y, c) = rows.last();
        if on_canvas(x as int, y as int) {
            prev.update(cell_of(x as int, y as int), c)
        } else {
            prev
        }
    }
}

/// Paints the strokes onto the canvas buffer in order, skipping strokes off the canvas.
pub fn apply_strokes(buf: &mut Vec<u8>, rows: &[(i32, i32, u8)])
    requires
        old(buf)@.len() == W * H,
    ensures
        final(buf)@ == painted(old(buf)@, rows@),
{
    let mut i: usize = 0;
    while i < rows.len()
        invariant
            i <= rows.len(),
            buf@.len() == W * H,
            buf@ == painted(old(buf)@, rows@.take(i as int)),
        decreases rows.len() - i,
    {
        let (x, y, c) = rows[i];
        assert(rows@.take(i + 1).drop_last() =~= rows@.take(i as int));
        assert(rows@.take(i + 1).last() == rows@[i as int]);
        if 0 <= x && x < W as i32 && 0 <= y && y < H as i32 {
            let k = (y as u32 * W + x as u32) as usize;
            buf.set(k, c);
        }
        i = i + 1;
    }
    assert(rows@.take(rows@.len() as int) =~= rows@);
}

/// Index of the last stroke of `rows` at `(x, y)`, or −1 when none is.
pub open spec fn last_hit(rows: Seq<(i32, i32, u8)>, x: int, y: int) -> int
    decreases rows.len(),
{
    if rows.len() == 0 {
        -1
    } else if rows.last().0 == x && rows.last().1 == y {
        rows.len() - 1
    } else {
        last_hit(rows.drop_last(), x, y)
    }
}

/// Replaying strokes: the buffer keeps its size, and each on-canvas cell ends with the
/// colour of the last stroke at it, or its starting colour if no stroke was.
pub proof fn lemma_painted_last_stroke_wins(base: Seq<u8>, rows: Seq<(i32, i32, u8)>, x: int, y: int)
    requires
        base.len() == W * H,
        on_canvas(x, y),
    ensures
        painted(base, rows).len() == W * H,
        -1 <= last_hit(rows, x, y) < rows.len(),
        painted(base, rows)[cell_of(x, y)] == if last_hit(rows, x, y) >= 0 {
            rows[last_hit(rows, x, y)].2
        } else {
            base[cell_of(x, y)]
        },
    decreases rows.len(),
{
    if rows.len() > 0 {
        let prev_rows = rows.drop_last();
        lemma_painted_last_stroke_wins(base, prev_rows, x, y);
        let (lx, ly, lc) = rows.last();
        assert(0 <= cell_of(x, y) < W * H) by (nonlinear_arith)
            requires
                0 <= x < 256,
                0 <= y < 144,
        ;
        if on_canvas(lx as int, ly as int) {
            assert(0 <= cell_of(lx as int, ly as int) < W * H) by (nonlinear_arith)
                requires
                    0 <= lx < 256,
                    0 <= ly < 144,
            ;
            assert(cell_of(lx as int, ly as int) == cell_of(x, y) <==> (lx == x && ly == y)) by (nonlinear_arith)
                requires
                    0 <= x < 256,
                    0 <= y < 144,
                    0 <= lx < 256,
                    0 <= ly < 144,
            ;
        }
        let k = last_hit(prev_rows, x, y);
        if k >= 0 {
            assert(rows[k] == prev_rows[k]);
        }
    }
}

// ---------------------------------------------------------------------------
// Cooldown and placement decision
// ---------------------------------------------------------------------------

/// Whether a player is still cooling down: with the last placement at `last` and the
/// current instant `now` (microseconds), the remaining wait rounded up to minutes and
/// the interval in minutes; `None` when a placement is allowed.
pub open spec fn cooldown_left(level: int, last: Option<i64>, now: int) -> Option<(i64, i64)> {
    match last {
        None => None,
        Some(l) => {
            let interval = cooldown_of(level);
            let remain = interval - div_trunc(now - l, 1_000_000);
            if remain > 0 {
                Some((div_trunc(remain + 59, 60) as i64, div_trunc(interval, 60) as i64))
            } else {
                None
            }
        },
    }
}

/// The remaining cooldown of a player at `level` whose last placement was at `last`.
pub fn cooldown_remaining(level: i64, last: Option<i64>, now: i64) -> (r: Option<(i64, i64)>)
    requires
        -30_000_000_000_000_000 <= level <= 30_000_000_000_000_000,
        last matches Some(l) ==> i64::MIN <= now - l <= i64::MAX,
    ensures
        r == cooldown_left(level as int, last, now as int),
{
    match last {
        None => None,
        Some(l) => {
            let interval = cooldown_secs(level);
            let d = now - l;
            let elapsed = if d >= 0 {
                d / 1_000_000
            } else {
                -((-(d as i128) / 1_000_000) as i64)
            };
            let remain = interval - elapsed;
            if remain > 0 {
                Some(((remain + 59) / 60, interval / 60))
            } else {
                None
            }
        },
    }
}

/// The outcome of a placement attempt.
#[derive(Clone, Copy, Debug, PartialEq, Eq, Structural)]
pub enum PlaceResult {
    /// Placed: the price paid and the balance afterwards.
    Placed { cost: i64, balance: i64 },
    /// Still cooling down: minutes left and the interval in minutes.
    Cooldown { remain_min: i64, interval_min: i64 },
    /// Not enough coins: the price and the balance.
    Poor { cost: i64, have: i64 },
    /// The cell already has this colour (nothing charged, no cooldown).
    Same,
    /// The coordinates are off the canvas.
    OutOfRange,
}

/// The row a placement appends to the board's history: the cell and its colour before
/// and after.
#[derive(Clone, Copy, Debug, PartialEq, Eq, Structural)]
pub struct HistoryRow {
    pub x: i32,
    pub y: i32,
    pub old_color: u8,
    pub new_color: u8,
}

/// What to do with a placement attempt: refuse it with a result, or write it.
#[derive(Clone, Copy, Debug, PartialEq, Eq, Structural)]
pub enum PlaceStep {
    Refuse(PlaceResult),
    /// One write, all or nothing: take `cost` coins (only while the balance still
    /// covers them), set cell `(row.x, row.y)` to `row.new_color`, append `row` to the
    /// history and add `exp` experience.
    Charge { cost: i64, row: HistoryRow, exp: i64 },
}

/// The checks of a placement, in order: the cell must be on the canvas, the player out
/// of cooldown, the colour different from the cell's current `old` colour, and the
/// balance `coin` at least the price for `placed` earlier placements at `level`.
pub open spec fn place_step_of(x: i32, y: i32, cooldown: Option<(i64, i64)>, old: u8, color: u8, placed: int, level: int, coin: int) -> PlaceStep {
    if !on_canvas(x as int, y as int) {
        PlaceStep::Refuse(PlaceResult::OutOfRange)
    } else if cooldown is Some {
        let (remain_min, interval_min) = cooldown->0;
        PlaceStep::Refuse(PlaceResult::Cooldown { remain_min, interval_min })
    } else if old == color {
        PlaceStep::Refuse(PlaceResult::Same)
    } else if coin < price_of(placed, level) {
        PlaceStep::Refuse(PlaceResult::Poor { cost: price_of(placed, level) as i64, have: coin as i64 })
    } else {
        PlaceStep::Charge {
            cost: price_of(placed, level) as i64,
            row: HistoryRow { x, y, old_color: old, new_color: color },
            exp: EXP_PER_PLACE,
        }
    }
}

/// Decides a placement attempt (see [`place_step_of`]). `cooldown` is the player's
/// [`cooldown_remaining`], `old` the cell's colour ([`EMPTY`] for an unpainted cell).
pub fn try_place(x: i32, y: i32, cooldown: Option<(i64, i64)>, old: u8, color: u8, placed: i64, level: i64, coin: i64) -> (r: PlaceStep)
    requires
        -900_000_000_000_000_000 <= level <= 900_000_000_000_000_000,
        50 + level * 10 != 0,
    ensures
        r == place_step_of(x, y, cooldown, old, color, placed as int, level as int, coin as int),
{
    if !in_bounds(x, y) {
        return PlaceStep::Refuse(PlaceResult::OutOfRange);
    }
    if let Some((remain_min, interval_min)) = cooldown {
        return PlaceStep::Refuse(PlaceResult::Cooldown { remain_min, interval_min });
    }
    if old == color {
        return PlaceStep::Refuse(PlaceResult::Same);
    }
    let cost = price(placed, level);
    if coin < cost {
        return PlaceStep::Refuse(PlaceResult::Poor { cost, have: coin });
    }
    PlaceStep::Charge { cost, row: HistoryRow { x, y, old_color: old, new_color: color }, exp: EXP_PER_PLACE }
}

/// The result of a placement once the store ran its write: `Placed` with the balance
/// read back when the debit went through, `Poor` with the balance read back when the
/// balance no longer covered `cost` and the whole write was rolled back.
pub fn charge_result(cost: i64, debited: bool, balance: i64) -> (r: PlaceResult)
    ensures
        r == if debited {
            PlaceResult::Placed { cost, balance }
        } else {
            PlaceResult::Poor { cost, have: balance }
        },
{
    if debited {
        PlaceResult::Placed { cost, balance }
    } else {
        PlaceResult::Poor { cost, have: balance }
    }
}

// ---------------------------------------------------------------------------
// Viewing and history
// ---------------------------------------------------------------------------

/// The cooldown notice: minutes left, the interval, and the player's level.
pub fn cooldown_msg(remain_min: i64, interval_min: i64, level: i64) -> (r: String)
    ensures
        r@ == "手还没缓过来，再等 "@ + crate::text::decimal(remain_min as int) + " 分钟（你 "@
            + crate::text::decimal(level as int) + " 级，间隔 "@ + crate::text::decimal(interval_min as int)
            + " 分钟）"@,
{
    let mut b: Vec<char> = Vec::new();
    crate::text::push_str(&mut b, "手还没缓过来，再等 ");
    crate::text::push_decimal(&mut b, remain_min);
    crate::text::push_str(&mut b, " 分钟（你 ");
    crate::text::push_decimal(&mut b, level);
    crate::text::push_str(&mut b, " 级，间隔 ");
    crate::text::push_decimal(&mut b, interval_min);
    crate::text::push_str(&mut b, " 分钟）");
    crate::text::string_from_chars(&b)
}

/// What `画板 [...]` shows.
#[derive(Clone, Copy, Debug, PartialEq, Eq, Structural)]
pub enum BoardView {
    /// The whole board.
    Full,
    /// The clean share picture.
    Clean,
    /// The zoomed window around a cell.
    Zoom(i32, i32),
    /// A cell off the canvas.
    OffCanvas,
    /// Anything else: show the usage.
    Usage,
}

/// The view asked by the (trimmed) argument of `画板`.
pub open spec fn board_view_of(rest: Seq<char>) -> BoardView {
    if rest.len() == 0 {
        BoardView::Full
    } else if rest == "净"@ || rest == "干净"@ || rest == "clean"@ || rest == "分享"@ || rest == "share"@ {
        BoardView::Clean
    } else {
        match coords_of(rest) {
            Some((x, y)) => if on_canvas(x as int, y as int) { BoardView::Zoom(x, y) } else { BoardView::OffCanvas },
            None => BoardView::Usage,
        }
    }
}

/// Decides what `画板` shows for its argument (see [`board_view_of`]).
pub fn board_view(args: &str) -> (r: BoardView)
    ensures
        r == board_view_of(trim(args@)),
{
    let t = trimmed(args);
    if t.len() == 0 {
        return BoardView::Full;
    }
    let s = crate::text::string_from_chars(&t);
    if is_clean_kw(s.as_str()) {
        return BoardView::Clean;
    }
    match parse_xy(s.as_str()) {
        Some((x, y)) => if in_bounds(x, y) {
            BoardView::Zoom(x, y)
        } else {
            BoardView::OffCanvas
        },
        None => BoardView::Usage,
    }
}

/// Smallest account number taken as a person (smaller numbers are system ids).
pub const MIN_UIN: i64 = 10000;

/// Reads an account number typed as text: an `i64` that is a person's number.
pub fn parse_uin(s: &str) -> (r: Option<i64>)
    ensures
        r == match in_range(signed_literal(trim(s@)), i64::MIN as int, i64::MAX as int) {
            Some(n) => if n >= MIN_UIN { Some(n as i64) } else { None },
            None => None,
        },
{
    let t = trimmed(s);
    match parse_i64(&t) {
        Some(n) => if n >= MIN_UIN {
            Some(n)
        } else {
            None
        },
        None => None,
    }
}

/// Whose placements the history command lists.
#[derive(Clone, Copy, Debug, PartialEq, Eq, Structural)]
pub enum HistoryScope {
    /// The sender's own.
    Own,
    /// One person's.
    Person(i64),
    /// The most recent on the whole board.
    Recent,
    /// One cell's.
    Cell(i32, i32),
    /// A cell off the canvas.
    OffCanvas,
    /// Not understood: show the usage.
    Usage,
}

/// The scope of `画板历史`: a non-superuser always sees their own; a superuser names a
/// person (a mention first, else a typed account number), or nothing (the most recent),
/// or a cell.
pub open spec fn history_scope_of(superuser: bool, mention: Option<i64>, rest: Seq<char>) -> HistoryScope {
    let typed = match in_range(signed_literal(trim(rest)), i64::MIN as int, i64::MAX as int) {
        Some(n) => if n >= MIN_UIN { Some(n as i64) } else { None },
        None => None,
    };
    if !superuser {
        HistoryScope::Own
    } else if mention is Some {
        HistoryScope::Person(mention->0)
    } else if typed is Some {
        HistoryScope::Person(typed->0)
    } else if rest.len() == 0 {
        HistoryScope::Recent
    } else {
        match coords_of(rest) {
            Some((x, y)) => if on_canvas(x as int, y as int) { HistoryScope::Cell(x, y) } else { HistoryScope::OffCanvas },
            None => HistoryScope::Usage,
        }
    }
}

/// Decides the history command's scope for the (trimmed) argument `rest`.
pub fn history_scope(superuser: bool, mention: Option<i64>, rest: &str) -> (r: HistoryScope)
    ensures
        r == history_scope_of(superuser, mention, rest@),
{
    if !superuser {
        return HistoryScope::Own;
    }
    if let Some(u) = mention {
        return HistoryScope::Person(u);
    }
    if let Some(u) = parse_uin(rest) {
        return HistoryScope::Person(u);
    }
    let v = chars_of(rest);
    if v.len() == 0 {
        return HistoryScope::Recent;
    }
    match parse_xy(rest) {
        Some((x, y)) => if in_bounds(x, y) {
            HistoryScope::Cell(x, y)
        } else {
            HistoryScope::OffCanvas
        },
        None => HistoryScope::Usage,
    }
}

/// The people of `uins` in order of first appearance.
pub open spec fn first_seen(uins: Seq<i64>) -> Seq<i64>
    decreases uins.len(),
{
    if uins.len() == 0 {
        seq![]
    } else {
        let p = first_seen(uins.drop_last());
        if p.contains(uins.last()) {
            p
        } else {
            p.push(uins.last())
        }
    }
}

/// The positions in `uins` (below `n`) that belong to `u`, in order.
pub open spec fn rows_of(uins: Seq<i64>, u: i64, n: int) -> Seq<usize>
    decreases n,
{
    if n <= 0 {
        seq![]
    } else if uins[n - 1] == u {
        rows_of(uins, u, n - 1).push((n - 1) as usize)
    } else {
        rows_of(uins, u, n - 1)
    }
}

proof fn lemma_first_seen_contains(uins: Seq<i64>, u: i64)
    ensures
        first_seen(uins).contains(u) == uins.contains(u),
    decreases uins.len(),
{
    if uins.len() > 0 {
        let d = uins.drop_last();
        let x = uins.last();
        lemma_first_seen_contains(d, u);
        let p = first_seen(d);
        let q = first_seen(uins);
        assert(q == p || q == p.push(x));
        // membership in uins: in the prefix or the last element
        assert(uins.contains(u) == (d.contains(u) || x == u)) by {
            if uins.contains(u) {
                let i = choose|i: int| 0 <= i < uins.len() && #[trigger] uins[i] == u;
                if i < d.len() {
                    assert(d[i] == u);
                }
            }
            if d.contains(u) {
                let i = choose|i: int| 0 <= i < d.len() && #[trigger] d[i] == u;
                assert(uins[i] == u);
            }
            if x == u {
                assert(uins[uins.len() - 1] == u);
            }
        }
        // membership in p.push(x)
        assert(p.push(x).contains(u) == (p.contains(u) || x == u)) by {
            let px = p.push(x);
            if px.contains(u) {
                let i = choose|i: int| 0 <= i < px.len() && #[trigger] px[i] == u;
                if i < p.len() {
                    assert(p[i] == u);
                }
            }
            if p.contains(u) {
                let i = choose|i: int| 0 <= i < p.len() && #[trigger] p[i] == u;
                assert(px[i] == u);
            }
            if x == u {
                assert(px[p.len() as int] == u);
            }
        }
        if p.contains(x) {
            assert(q == p);
            if x == u {
                assert(p.contains(u));
            }
        } else {
            assert(q == p.push(x));
        }
    }
}

/// Groups history rows by person: the people in order of first appearance, each with
/// the positions of their rows in order (rows come newest first, so people come by
/// latest activity).
pub fn group_by_person(uins: &Vec<i64>) -> (r: Vec<(i64, Vec<usize>)>)
    ensures
        r@.len() == first_seen(uins@).len(),
        forall|k: int| 0 <= k < r@.len() ==> (#[trigger] r@[k]).0 == first_seen(uins@)[k]
            && r@[k].1@ == rows_of(uins@, r@[k].0, uins@.len() as int),
{
    let mut out: Vec<(i64, Vec<usize>)> = Vec::new();
    let mut i: usize = 0;
    while i < uins.len()
        invariant
            i <= uins.len(),
            out@.len() == first_seen(uins@.take(i as int)).len(),
            forall|k: int| 0 <= k < out@.len() ==> (#[trigger] out@[k]).0 == first_seen(uins@.take(i as int))[k]
                && out@[k].1@ == rows_of(uins@, out@[k].0, i as int),
        decreases uins.len() - i,
    {
        let u = uins[i];
        let ghost pre = uins@.take(i as int);
        assert(uins@.take(i + 1).drop_last() =~= pre);
        assert(uins@.take(i + 1).last() == u);
        let mut j: usize = 0;
        while j < out.len()
            invariant
                j <= out@.len(),
                forall|k: int| 0 <= k < j ==> (#[trigger] out@[k]).0 != u,
            ensures
                j <= out@.len(),
                forall|k: int| 0 <= k < j ==> (#[trigger] out@[k]).0 != u,
                j < out@.len() ==> out@[j as int].0 == u,
            decreases out@.len() - j,
        {
            if out[j].0 == u {
                break;
            }
            j = j + 1;
        }
        proof {
            lemma_first_seen_contains(pre, u);
        }
        if j < out.len() && out[j].0 == u {
            let ghost before = out@;
            assert(first_seen(pre)[j as int] == u);
            assert(first_seen(pre).contains(u));
            let mut entry = out.remove(j);
            entry.1.push(i);
            out.insert(j, entry);
            assert forall|k: int| 0 <= k < out@.len() implies (#[trigger] out@[k]).0 == first_seen(uins@.take(i + 1))[k]
                && out@[k].1@ == rows_of(uins@, out@[k].0, i + 1) by {
                if k != j {
                    assert(out@[k] == before[k]);
                    assert(before[k].0 != u) by {
                        // distinct people: first_seen has no repeats
                        lemma_first_seen_distinct(pre);
                    }
                }
            }
        } else {
            assert(!first_seen(pre).contains(u)) by {
                if first_seen(pre).contains(u) {
                    let k = choose|k: int| 0 <= k < first_seen(pre).len() && first_seen(pre)[k] == u;
                    assert(out@[k].0 == u);
                }
            }
            let ghost before = out@;
            let mut rows: Vec<usize> = Vec::new();
            rows.push(i);
            out.push((u, rows));
            assert forall|k: int| 0 <= k < out@.len() implies (#[trigger] out@[k]).0 == first_seen(uins@.take(i + 1))[k]
                && out@[k].1@ == rows_of(uins@, out@[k].0, i + 1) by {
                if k < before.len() {
                    assert(out@[k] == before[k]);
                    assert(before[k].0 != u);
                } else {
                    lemma_rows_of_absent(uins@, u, i as int);
                    assert(rows@ =~= seq![i]);
                }
            }
        }
        i = i + 1;
    }
    assert(uins@.take(uins.len() as int) =~= uins@);
    out
}

proof fn lemma_first_seen_distinct(uins: Seq<i64>)
    ensures
        forall|a: int, b: int| 0 <= a < b < first_seen(uins).len() ==> first_seen(uins)[a] != first_seen(uins)[b],
    decreases uins.len(),
{
    if uins.len() > 0 {
        lemma_first_seen_distinct(uins.drop_last());
        let p = first_seen(uins.drop_last());
        if !p.contains(uins.last()) {
            assert forall|a: int, b: int| 0 <= a < b < p.push(uins.last()).len() implies p.push(uins.last())[a] != p.push(uins.last())[b] by {
                if b == p.len() {
                    assert(p[a] != uins.last());
                }
            }
        }
    }
}

/// A person with no row before `n` has no rows there.
proof fn lemma_rows_of_absent(uins: Seq<i64>, u: i64, n: int)
    requires
        0 <= n <= uins.len(),
        !uins.take(n).contains(u),
    ensures
        rows_of(uins, u, n) == Seq::<usize>::empty(),
    decreases n,
{
    if n > 0 {
        assert(uins.take(n)[n - 1] == uins[n - 1]);
        if uins.take(n - 1).contains(u) {
            let k = choose|k: int| 0 <= k < n - 1 && #[trigger] uins.take(n - 1)[k] == u;
            assert(uins.take(n)[k] == u);
        }
        lemma_rows_of_absent(uins, u, n - 1);
    }
}

/// People shown in one history message (the forward holds 100 entries with the summary).
pub const HISTORY_MAX_PEOPLE: usize = 99;

/// The summary line of a history listing: the header, then `<rows> 笔 · <people> 人`,
/// noting when only the most active [`HISTORY_MAX_PEOPLE`] are shown.
pub fn history_head(header: &str, rows: usize, people: usize) -> (r: String)
    requires
        rows <= i64::MAX,
        people <= i64::MAX,
    ensures
        r@ == header@ + "\n"@ + crate::text::decimal(rows as int) + " 笔 · "@ + crate::text::decimal(people as int) + " 人"@
            + if people > HISTORY_MAX_PEOPLE { "（仅显示活跃前 99 人）"@ } else { seq![] },
{
    let mut b = chars_of(header);
    crate::text::push_str(&mut b, "\n");
    crate::text::push_decimal(&mut b, rows as i64);
    crate::text::push_str(&mut b, " 笔 · ");
    crate::text::push_decimal(&mut b, people as i64);
    crate::text::push_str(&mut b, " 人");
    if people > HISTORY_MAX_PEOPLE {
        crate::text::push_str(&mut b, "（仅显示活跃前 99 人）");
    }
    crate::text::string_from_chars(&b)
}

/// The personal-data line of the board: `画板落格 <n> 格`, nothing before the first placement.
pub fn profile_line(placed: i64) -> (r: Option<String>)
    ensures
        placed == 0 ==> r is None,
        placed != 0 ==> (r matches Some(s) && s@ == "画板落格 "@ + crate::text::decimal(placed as int) + " 格"@),
{
    if placed == 0 {
        return None;
    }
    let mut b: Vec<char> = Vec::new();
    crate::text::push_str(&mut b, "画板落格 ");
    crate::text::push_decimal(&mut b, placed);
    crate::text::push_str(&mut b, " 格");
    Some(crate::text::string_from_chars(&b))
}

} // verus!
