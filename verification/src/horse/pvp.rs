//! Group PvP rooms: reading stakes and race items from a command tail, whether a horse
//! may start, the lobby that collects entrants and side bets, and how the prize pool and
//! the side-bet pool are split once the race has an order of finish.

use vstd::prelude::*;

use crate::horse::consts::{self, Item, ItemKind};
use crate::horse::logic::{is_injured, Horse};
use crate::text::{
    chars_of, eq_lit, in_range, parse_i64, signed_literal, split_tokens, string_from_chars,
    strip_prefix, strip_prefix_lit, tokens, trim, trim_chars, views, Sep,
};

verus! {

/// The value of a token as `str::parse::<i64>()` reads it.
pub open spec fn int_token(t: Seq<char>) -> Option<int> {
    in_range(signed_literal(t), i64::MIN as int, i64::MAX as int)
}

/// `v` clamped into the stake range.
pub open spec fn clamp_stake(v: int) -> i64 {
    if v < consts::PVP_STAKE_MIN {
        consts::PVP_STAKE_MIN
    } else if v > consts::PVP_STAKE_MAX {
        consts::PVP_STAKE_MAX
    } else {
        v as i64
    }
}

/// Stake and race items read from `toks` in order: a number sets the stake (clamped;
/// a later number wins), a race item is kept while fewer than
/// [`MAX_RACE_ITEMS`](consts::MAX_RACE_ITEMS) are kept, anything else is ignored.
pub open spec fn stake_items_of(toks: Seq<Seq<char>>) -> (Option<i64>, Seq<Item>)
    decreases toks.len(),
{
    if toks.len() == 0 {
        (None, seq![])
    } else {
        let (stake, items) = stake_items_of(toks.drop_last());
        let t = toks.last();
        match int_token(t) {
            Some(n) => (Some(clamp_stake(n)), items),
            None => match Item::named(trim(t)) {
                Some(it) => if it.spec_kind() == ItemKind::Race && items.len()
                    < consts::MAX_RACE_ITEMS {
                    (stake, items.push(it))
                } else {
                    (stake, items)
                },
                None => (stake, items),
            },
        }
    }
}

fn clamp_to_stake(n: i64) -> (r: i64)
    ensures
        r == clamp_stake(n as int),
{
    if n < consts::PVP_STAKE_MIN {
        consts::PVP_STAKE_MIN
    } else if n > consts::PVP_STAKE_MAX {
        consts::PVP_STAKE_MAX
    } else {
        n
    }
}

/// Reads the stake and the race items from already split tokens (see [`stake_items_of`]).
pub fn stake_items_from(toks: &Vec<Vec<char>>, from: usize) -> (r: (Option<i64>, Vec<Item>))
    requires
        from <= toks.len(),
    ensures
        (r.0, r.1@) == stake_items_of(views(toks@).skip(from as int)),
        r.1@.len() <= consts::MAX_RACE_ITEMS,
{
    let ghost all = views(toks@).skip(from as int);
    let mut stake: Option<i64> = None;
    let mut items: Vec<Item> = Vec::new();
    let mut i: usize = from;
    while i < toks.len()
        invariant
            from <= i <= toks.len(),
            all == views(toks@).skip(from as int),
            (stake, items@) == stake_items_of(all.take(i - from)),
            items@.len() <= consts::MAX_RACE_ITEMS,
        decreases toks.len() - i,
    {
        proof {
            lemma_stake_items_len(all.take(i - from));
        }
        assert(all.take(i - from + 1).drop_last() =~= all.take(i - from));
        assert(all.take(i - from + 1).last() == toks@[i as int]@);
        match parse_i64(&toks[i]) {
            Some(n) => {
                stake = Some(clamp_to_stake(n));
            },
            None => {
                let s = string_from_chars(&toks[i]);
                match Item::parse(s.as_str()) {
                    Some(it) => {
                        if it.kind() == ItemKind::Race && items.len() < consts::MAX_RACE_ITEMS {
                            items.push(it);
                        }
                    },
                    None => {},
                }
            },
        }
        i = i + 1;
    }
    assert(all.take(toks.len() - from) =~= all);
    (stake, items)
}

/// The item list of [`stake_items_of`] never holds more than the race-item limit.
pub proof fn lemma_stake_items_len(toks: Seq<Seq<char>>)
    ensures
        stake_items_of(toks).1.len() <= consts::MAX_RACE_ITEMS,
    decreases toks.len(),
{
    if toks.len() > 0 {
        lemma_stake_items_len(toks.drop_last());
    }
}

/// Parses the tail of an open or join command: the stake (if a number is given) and up
/// to two race items, in any order.
pub fn parse_stake_items(rest: &str) -> (r: (Option<i64>, Vec<Item>))
    ensures
        (r.0, r.1@) == stake_items_of(tokens(rest@, Sep::Whitespace)),
{
    let v = chars_of(rest);
    let toks = split_tokens(&v, Sep::Whitespace);
    let r = stake_items_from(&toks, 0);
    assert(views(toks@).skip(0) =~= views(toks@));
    r
}

// ---------------------------------------------------------------------------
// Fitness to race
// ---------------------------------------------------------------------------

/// Why a horse may or may not start (checked on its settled state).
#[derive(Clone, Copy, Debug, PartialEq, Eq, Structural)]
pub enum EntryCheck {
    Fit,
    Retired,
    Injured,
    Tired,
}

/// The entry outcome: retired first, then injured, then short of vitality.
pub open spec fn entry_check_of(h: Horse) -> EntryCheck {
    if h.status == 2 {
        EntryCheck::Retired
    } else if h.injury > 0 {
        EntryCheck::Injured
    } else if h.vitality < consts::VIT_RACE {
        EntryCheck::Tired
    } else {
        EntryCheck::Fit
    }
}

/// Whether a settled horse may start a PvP race, and if not why.
pub fn entry_check(h: &Horse) -> (r: EntryCheck)
    ensures
        r == entry_check_of(*h),
{
    if h.status == 2 {
        EntryCheck::Retired
    } else if is_injured(h) {
        EntryCheck::Injured
    } else if h.vitality < consts::VIT_RACE {
        EntryCheck::Tired
    } else {
        EntryCheck::Fit
    }
}

/// The first entrant of a field that may no longer start, with its outcome.
pub open spec fn first_unfit(hs: Seq<Horse>, from: int) -> Option<(int, EntryCheck)>
    decreases hs.len() - from,
{
    if from >= hs.len() || from < 0 {
        None
    } else if entry_check_of(hs[from]) != EntryCheck::Fit {
        Some((from, entry_check_of(hs[from])))
    } else {
        first_unfit(hs, from + 1)
    }
}

/// The re-check before the start: the index and outcome of the first horse of the
/// field that may no longer start, or `None` when every one still may.
pub fn field_recheck(field: &Vec<Horse>) -> (r: Option<(usize, EntryCheck)>)
    ensures
        match r {
            Some((i, c)) => first_unfit(field@, 0) == Some((i as int, c)),
            None => first_unfit(field@, 0) is None,
        },
{
    let mut i: usize = 0;
    while i < field.len()
        invariant
            i <= field.len(),
            first_unfit(field@, 0) == first_unfit(field@, i as int),
        decreases field.len() - i,
    {
        let c = entry_check(&field[i]);
        if c != EntryCheck::Fit {
            return Some((i, c));
        }
        i = i + 1;
    }
    None
}

// ---------------------------------------------------------------------------
// The lobby
// ---------------------------------------------------------------------------

/// An open room: the host, the stake every runner pays, the runners as
/// `(uin, horse id)` (the host first) and the side bets as `(uin, horse id, amount)`.
#[derive(Clone, Debug)]
pub struct Lobby {
    pub host: i64,
    pub stake: i64,
    pub entrants: Vec<(i64, i64)>,
    pub bets: Vec<(i64, i64, i64)>,
}

/// Whether `uin` runs in the field `ents`.
pub open spec fn runs(ents: Seq<(i64, i64)>, uin: i64) -> bool {
    exists|i: int| 0 <= i < ents.len() && #[trigger] ents[i].0 == uin
}

/// Whether horse `hid` runs in the field `ents`.
pub open spec fn horse_runs(ents: Seq<(i64, i64)>, hid: i64) -> bool {
    exists|i: int| 0 <= i < ents.len() && #[trigger] ents[i].1 == hid
}

/// Whether `uin` placed one of the side bets `bets`.
pub open spec fn has_bet(bets: Seq<(i64, i64, i64)>, uin: i64) -> bool {
    exists|i: int| 0 <= i < bets.len() && #[trigger] bets[i].0 == uin
}

/// What a group message means to an open room.
#[derive(Clone, Copy, Debug, PartialEq, Eq, Structural)]
pub enum LobbyCall {
    /// Not addressed to the room.
    Ignore,
    /// A join from someone already running.
    AlreadyIn,
    /// A join from someone who placed a side bet (running and betting exclude each other).
    AlreadyBet,
    /// A join without a horse number.
    JoinUsage,
    /// A join with this horse: validate it and charge the stake, then seat.
    Join(i64),
    /// A side bet from a runner.
    BetIsRunner,
    /// A second side bet from the same person.
    BetTwice,
    /// A side bet without a horse number and an amount.
    BetUsage,
    /// A side bet on a horse that does not run.
    NoSuchHorse,
    /// A side bet `(horse, amount)` (amount clamped): charge it, then record it.
    Bet(i64, i64),
    /// The host asked to start with fewer than two runners.
    NeedTwo,
    /// The host starts the race.
    Start,
    /// The host closes the room.
    Cancel,
}

/// The meaning of message `text` from `sender`, after trimming, in the order the room
/// checks it: a join (`赛马报名 <horse> [items]`), a side bet (`赛马押 <horse> <amount>`),
/// or the host's start (`赛马开跑`) or close (`赛马散场`).
pub open spec fn lobby_call(l: Lobby, sender: i64, text: Seq<char>) -> LobbyCall {
    let t = trim(text);
    let ents = l.entrants@;
    let bets = l.bets@;
    match strip_prefix(t, "赛马报名"@) {
        Some(rest) => {
            let toks = tokens(rest, Sep::Whitespace);
            if runs(ents, sender) {
                LobbyCall::AlreadyIn
            } else if has_bet(bets, sender) {
                LobbyCall::AlreadyBet
            } else if toks.len() == 0 || int_token(toks[0]) is None {
                LobbyCall::JoinUsage
            } else {
                LobbyCall::Join(int_token(toks[0])->0 as i64)
            }
        },
        None => match strip_prefix(t, "赛马押"@) {
            Some(rest) => {
                let toks = tokens(rest, Sep::Whitespace);
                if runs(ents, sender) {
                    LobbyCall::BetIsRunner
                } else if has_bet(bets, sender) {
                    LobbyCall::BetTwice
                } else if toks.len() < 2 || int_token(toks[0]) is None || int_token(toks[1]) is None {
                    LobbyCall::BetUsage
                } else if !horse_runs(ents, int_token(toks[0])->0 as i64) {
                    LobbyCall::NoSuchHorse
                } else {
                    LobbyCall::Bet(int_token(toks[0])->0 as i64, clamp_stake(int_token(toks[1])->0))
                }
            },
            None => if t == "赛马开跑"@ && sender == l.host {
                if ents.len() >= 2 {
                    LobbyCall::Start
                } else {
                    LobbyCall::NeedTwo
                }
            } else if t == "赛马散场"@ && sender == l.host {
                LobbyCall::Cancel
            } else {
                LobbyCall::Ignore
            },
        },
    }
}

/// The race items a join message brings: those after the horse number.
pub open spec fn join_items(text: Seq<char>) -> Seq<Item> {
    match strip_prefix(trim(text), "赛马报名"@) {
        Some(rest) => stake_items_of(tokens(rest, Sep::Whitespace).drop_first()).1,
        None => seq![],
    }
}

impl Lobby {
    /// The room's invariant: one to [`PVP_ROOM_CAP`](consts::PVP_ROOM_CAP) runners with
    /// the host first and no one twice, a stake in range, side bets from distinct
    /// non-runners on running horses with amounts in range.
    pub open spec fn wf(self) -> bool {
        let ents = self.entrants@;
        let bets = self.bets@;
        &&& 1 <= ents.len() <= consts::PVP_ROOM_CAP
        &&& ents[0].0 == self.host
        &&& consts::PVP_STAKE_MIN <= self.stake <= consts::PVP_STAKE_MAX
        &&& forall|i: int, j: int| 0 <= i < j < ents.len() ==> #[trigger] ents[i].0 != #[trigger] ents[j].0
        &&& forall|i: int, j: int| 0 <= i < j < bets.len() ==> #[trigger] bets[i].0 != #[trigger] bets[j].0
        &&& forall|j: int| 0 <= j < bets.len() ==> !runs(ents, #[trigger] bets[j].0)
        &&& forall|j: int| 0 <= j < bets.len() ==> horse_runs(ents, #[trigger] bets[j].1)
        &&& forall|j: int| 0 <= j < bets.len() ==> consts::PVP_STAKE_MIN <= #[trigger] bets[j].2 <= consts::PVP_STAKE_MAX
    }

    /// Opens a room for `host` running horse `horse` at `stake` (clamped into range).
    pub fn open(host: i64, horse: i64, stake: i64) -> (r: Lobby)
        ensures
            r.wf(),
            r.host == host,
            r.stake == clamp_stake(stake as int),
            r.entrants@ == seq![(host, horse)],
            r.bets@.len() == 0,
    {
        let mut entrants: Vec<(i64, i64)> = Vec::new();
        entrants.push((host, horse));
        Lobby { host, stake: clamp_to_stake(stake), entrants, bets: Vec::new() }
    }

    fn runner(&self, uin: i64) -> (b: bool)
        ensures
            b == runs(self.entrants@, uin),
    {
        let mut i: usize = 0;
        while i < self.entrants.len()
            invariant
                i <= self.entrants.len(),
                forall|k: int| 0 <= k < i ==> #[trigger] self.entrants@[k].0 != uin,
            decreases self.entrants.len() - i,
        {
            if self.entrants[i].0 == uin {
                return true;
            }
            i = i + 1;
        }
        false
    }

    fn horse_in(&self, hid: i64) -> (b: bool)
        ensures
            b == horse_runs(self.entrants@, hid),
    {
        let mut i: usize = 0;
        while i < self.entrants.len()
            invariant
                i <= self.entrants.len(),
                forall|k: int| 0 <= k < i ==> #[trigger] self.entrants@[k].1 != hid,
            decreases self.entrants.len() - i,
        {
            if self.entrants[i].1 == hid {
                return true;
            }
            i = i + 1;
        }
        false
    }

    fn bettor(&self, uin: i64) -> (b: bool)
        ensures
            b == has_bet(self.bets@, uin),
    {
        let mut i: usize = 0;
        while i < self.bets.len()
            invariant
                i <= self.bets.len(),
                forall|k: int| 0 <= k < i ==> #[trigger] self.bets@[k].0 != uin,
            decreases self.bets.len() - i,
        {
            if self.bets[i].0 == uin {
                return true;
            }
            i = i + 1;
        }
        false
    }

    /// What a group message from `sender` means to the room (see [`lobby_call`]), with
    /// the race items a join brings (see [`join_items`]; empty for any other call).
    pub fn step(&self, sender: i64, text: &str) -> (r: (LobbyCall, Vec<Item>))
        ensures
            r.0 == lobby_call(*self, sender, text@),
            r.0 is Join ==> r.1@ == join_items(text@),
            !(r.0 is Join) ==> r.1@.len() == 0,
    {
        let v = chars_of(text);
        let t = trim_chars(&v);
        let no_items: Vec<Item> = Vec::new();
        match strip_prefix_lit(&t, "赛马报名") {
            Some(rest) => {
                let toks = split_tokens(&rest, Sep::Whitespace);
                if self.runner(sender) {
                    return (LobbyCall::AlreadyIn, no_items);
                }
                if self.bettor(sender) {
                    return (LobbyCall::AlreadyBet, no_items);
                }
                if toks.len() == 0 {
                    return (LobbyCall::JoinUsage, no_items);
                }
                assert(views(toks@)[0] == toks@[0]@);
                match parse_i64(&toks[0]) {
                    None => (LobbyCall::JoinUsage, no_items),
                    Some(hid) => {
                        let (_, items) = stake_items_from(&toks, 1);
                        assert(views(toks@).skip(1) =~= views(toks@).drop_first());
                        (LobbyCall::Join(hid), items)
                    },
                }
            },
            None => match strip_prefix_lit(&t, "赛马押") {
                Some(rest) => {
                    let toks = split_tokens(&rest, Sep::Whitespace);
                    if self.runner(sender) {
                        return (LobbyCall::BetIsRunner, no_items);
                    }
                    if self.bettor(sender) {
                        return (LobbyCall::BetTwice, no_items);
                    }
                    if toks.len() < 2 {
                        return (LobbyCall::BetUsage, no_items);
                    }
                    assert(views(toks@)[0] == toks@[0]@);
                    assert(views(toks@)[1] == toks@[1]@);
                    let tid = parse_i64(&toks[0]);
                    let amt = parse_i64(&toks[1]);
                    match (tid, amt) {
                        (Some(tid), Some(amt)) => {
                            if !self.horse_in(tid) {
                                (LobbyCall::NoSuchHorse, no_items)
                            } else {
                                (LobbyCall::Bet(tid, clamp_to_stake(amt)), no_items)
                            }
                        },
                        _ => (LobbyCall::BetUsage, no_items),
                    }
                },
                None => {
                    if eq_lit(&t, "赛马开跑") && sender == self.host {
                        if self.entrants.len() >= 2 {
                            (LobbyCall::Start, no_items)
                        } else {
                            (LobbyCall::NeedTwo, no_items)
                        }
                    } else if eq_lit(&t, "赛马散场") && sender == self.host {
                        (LobbyCall::Cancel, no_items)
                    } else {
                        (LobbyCall::Ignore, no_items)
                    }
                },
            },
        }
    }

    /// Seats `uin` with horse `hid` after a join was validated and paid; returns whether
    /// the room is now full (a full room starts at once).
    pub fn seat(&mut self, uin: i64, hid: i64) -> (full: bool)
        requires
            old(self).wf(),
            !runs(old(self).entrants@, uin),
            !has_bet(old(self).bets@, uin),
            old(self).entrants@.len() < consts::PVP_ROOM_CAP,
        ensures
            final(self).wf(),
            final(self).entrants@ == old(self).entrants@.push((uin, hid)),
            final(self).bets@ == old(self).bets@,
            final(self).host == old(self).host,
            final(self).stake == old(self).stake,
            full == (final(self).entrants@.len() >= consts::PVP_ROOM_CAP),
    {
        let ghost ents = self.entrants@;
        self.entrants.push((uin, hid));
        proof {
            let e2 = self.entrants@;
            assert forall|j: int| 0 <= j < self.bets@.len() implies !runs(e2, #[trigger] self.bets@[j].0) by {
                assert(!runs(ents, self.bets@[j].0));
                if runs(e2, self.bets@[j].0) {
                    let k = choose|k: int| 0 <= k < e2.len() && #[trigger] e2[k].0 == self.bets@[j].0;
                    if k < ents.len() {
                        assert(ents[k].0 == self.bets@[j].0);
                    }
                }
            }
            assert forall|j: int| 0 <= j < self.bets@.len() implies horse_runs(e2, #[trigger] self.bets@[j].1) by {
                assert(horse_runs(ents, self.bets@[j].1));
                let k = choose|k: int| 0 <= k < ents.len() && #[trigger] ents[k].1 == self.bets@[j].1;
                assert(e2[k].1 == self.bets@[j].1);
            }
            assert forall|i: int, j: int| 0 <= i < j < e2.len() implies #[trigger] e2[i].0 != #[trigger] e2[j].0 by {
                if j == ents.len() {
                    assert(ents[i].0 == e2[i].0);
                }
            }
        }
        self.entrants.len() >= consts::PVP_ROOM_CAP
    }

    /// Records the side bet of `uin` on horse `hid` after it was paid.
    pub fn place_bet(&mut self, uin: i64, hid: i64, amount: i64)
        requires
            old(self).wf(),
            !runs(old(self).entrants@, uin),
            !has_bet(old(self).bets@, uin),
            horse_runs(old(self).entrants@, hid),
            consts::PVP_STAKE_MIN <= amount <= consts::PVP_STAKE_MAX,
        ensures
            final(self).wf(),
            final(self).bets@ == old(self).bets@.push((uin, hid, amount)),
            final(self).entrants@ == old(self).entrants@,
            final(self).host == old(self).host,
            final(self).stake == old(self).stake,
    {
        let ghost bets = self.bets@;
        self.bets.push((uin, hid, amount));
        proof {
            let b2 = self.bets@;
            assert forall|i: int, j: int| 0 <= i < j < b2.len() implies #[trigger] b2[i].0 != #[trigger] b2[j].0 by {
                if j == bets.len() {
                    assert(bets[i].0 == b2[i].0);
                }
            }
            assert forall|j: int| 0 <= j < b2.len() implies !runs(self.entrants@, #[trigger] b2[j].0) by {
                if j < bets.len() {
                    assert(bets[j] == b2[j]);
                }
            }
            assert forall|j: int| 0 <= j < b2.len() implies horse_runs(self.entrants@, #[trigger] b2[j].1) by {
                if j < bets.len() {
                    assert(bets[j] == b2[j]);
                }
            }
            assert forall|j: int| 0 <= j < b2.len() implies consts::PVP_STAKE_MIN <= #[trigger] b2[j].2 <= consts::PVP_STAKE_MAX by {
                if j < bets.len() {
                    assert(bets[j] == b2[j]);
                }
            }
        }
    }

    /// The coins a room that does not run gives back (on the host's cancel, a timeout
    /// or a runner found unfit at the start), as `(uin, coins)`: each runner's stake, in
    /// seating order, then each side bet's amount, in the order they were placed.
    pub fn refunds(&self) -> (r: Vec<(i64, i64)>)
        requires
            self.wf(),
        ensures
            r@ == stake_refunds(self.entrants@, self.stake) + bet_refunds(self.bets@),
    {
        let mut out: Vec<(i64, i64)> = Vec::new();
        let mut i: usize = 0;
        while i < self.entrants.len()
            invariant
                i <= self.entrants@.len(),
                out@ == self.entrants@.take(i as int).map_values(|e: (i64, i64)| (e.0, self.stake)),
            decreases self.entrants@.len() - i,
        {
            out.push((self.entrants[i].0, self.stake));
            assert(self.entrants@.take(i + 1) =~= self.entrants@.take(i as int).push(self.entrants@[i as int]));
            assert(out@ =~= self.entrants@.take(i + 1).map_values(|e: (i64, i64)| (e.0, self.stake)));
            i = i + 1;
        }
        assert(self.entrants@.take(self.entrants@.len() as int) =~= self.entrants@);
        let ghost runners = out@;
        let mut j: usize = 0;
        while j < self.bets.len()
            invariant
                j <= self.bets@.len(),
                out@ == runners + self.bets@.take(j as int).map_values(|b: (i64, i64, i64)| (b.0, b.2)),
            decreases self.bets@.len() - j,
        {
            let b = self.bets[j];
            out.push((b.0, b.2));
            assert(self.bets@.take(j + 1) =~= self.bets@.take(j as int).push(self.bets@[j as int]));
            assert(out@ =~= runners + self.bets@.take(j + 1).map_values(|b: (i64, i64, i64)| (b.0, b.2)));
            j = j + 1;
        }
        assert(self.bets@.take(self.bets@.len() as int) =~= self.bets@);
        out
    }

    /// The race items a room that does not run gives back, as `(uin, item)`, one entry
    /// per item: `items[i]` are the items runner `i` brought, and go back to it, runner
    /// by runner.
    pub fn returned_items(&self, items: &Vec<Vec<Item>>) -> (r: Vec<(i64, Item)>)
        requires
            self.wf(),
            items@.len() == self.entrants@.len(),
        ensures
            r@ == item_returns(self.entrants@, items@.map_values(|v: Vec<Item>| v@), self.entrants@.len() as int),
    {
        let mut out: Vec<(i64, Item)> = Vec::new();
        let mut i: usize = 0;
        while i < items.len()
            invariant
                i <= items@.len(),
                items@.len() == self.entrants@.len(),
                out@ == item_returns(self.entrants@, items@.map_values(|v: Vec<Item>| v@), i as int),
            decreases items@.len() - i,
        {
            let uin = self.entrants[i].0;
            let its = &items[i];
            let ghost before = out@;
            let mut k: usize = 0;
            while k < its.len()
                invariant
                    k <= its@.len(),
                    out@ == before + its@.take(k as int).map_values(|it: Item| (uin, it)),
                decreases its@.len() - k,
            {
                out.push((uin, its[k]));
                assert(its@.take(k + 1) =~= its@.take(k as int).push(its@[k as int]));
                assert(out@ =~= before + its@.take(k + 1).map_values(|it: Item| (uin, it)));
                k = k + 1;
            }
            assert(its@.take(its@.len() as int) =~= its@);
            assert(items@.map_values(|v: Vec<Item>| v@)[i as int] == its@);
            i = i + 1;
        }
        out
    }

    /// The prize pool: every runner's stake.
    pub fn pool(&self) -> (r: i64)
        requires
            self.wf(),
        ensures
            r == self.stake * self.entrants@.len(),
    {
        let n = self.entrants.len() as i64;
        assert(self.stake * n <= consts::PVP_STAKE_MAX * 8) by (nonlinear_arith)
            requires
                0 <= self.stake <= consts::PVP_STAKE_MAX,
                0 <= n <= 8,
        ;
        self.stake * n
    }
}

/// Each runner's stake back, as `(uin, stake)`, in seating order.
pub open spec fn stake_refunds(ents: Seq<(i64, i64)>, stake: i64) -> Seq<(i64, i64)> {
    ents.map_values(|e: (i64, i64)| (e.0, stake))
}

/// Each side bet's amount back, as `(uin, amount)`, in the order they were placed.
pub open spec fn bet_refunds(bets: Seq<(i64, i64, i64)>) -> Seq<(i64, i64)> {
    bets.map_values(|b: (i64, i64, i64)| (b.0, b.2))
}

/// The coins of a list of `(uin, coins)` payments.
pub open spec fn coins_paid(s: Seq<(i64, i64)>) -> int
    decreases s.len(),
{
    if s.len() == 0 {
        0
    } else {
        coins_paid(s.drop_last()) + s.last().1
    }
}

proof fn lemma_coins_paid_concat(a: Seq<(i64, i64)>, b: Seq<(i64, i64)>)
    ensures
        coins_paid(a + b) == coins_paid(a) + coins_paid(b),
    decreases b.len(),
{
    if b.len() == 0 {
        assert(a + b =~= a);
    } else {
        lemma_coins_paid_concat(a, b.drop_last());
        assert((a + b).drop_last() =~= a + b.drop_last());
    }
}

proof fn lemma_stake_refunds_paid(ents: Seq<(i64, i64)>, stake: i64)
    ensures
        coins_paid(stake_refunds(ents, stake)) == stake * ents.len(),
    decreases ents.len(),
{
    let n = ents.len() as int;
    if n > 0 {
        lemma_stake_refunds_paid(ents.drop_last(), stake);
        let r = stake_refunds(ents, stake);
        assert(r.drop_last() =~= stake_refunds(ents.drop_last(), stake));
        assert(r.last().1 == stake);
        assert(coins_paid(r) == coins_paid(r.drop_last()) + r.last().1);
        assert(stake * (n - 1) + stake == stake * n) by (nonlinear_arith);
    } else {
        assert(stake * n == 0) by (nonlinear_arith)
            requires
                n == 0,
        ;
    }
}

proof fn lemma_bet_refunds_paid(bets: Seq<(i64, i64, i64)>)
    ensures
        coins_paid(bet_refunds(bets)) == staked(bets),
    decreases bets.len(),
{
    if bets.len() > 0 {
        lemma_bet_refunds_paid(bets.drop_last());
        assert(bet_refunds(bets).drop_last() =~= bet_refunds(bets.drop_last()));
    }
}

/// A room that does not run gives back exactly what was paid into it: the pool of
/// stakes and every side bet.
pub proof fn lemma_refunds_return_all_paid(l: Lobby)
    requires
        l.wf(),
    ensures
        coins_paid(stake_refunds(l.entrants@, l.stake) + bet_refunds(l.bets@)) == l.stake * l.entrants@.len()
            + staked(l.bets@),
{
    lemma_coins_paid_concat(stake_refunds(l.entrants@, l.stake), bet_refunds(l.bets@));
    lemma_stake_refunds_paid(l.entrants@, l.stake);
    lemma_bet_refunds_paid(l.bets@);
}

/// The items the first `n` runners of `ents` get back, runner by runner, as
/// `(uin, item)`; `items[i]` are what runner `i` brought.
pub open spec fn item_returns(ents: Seq<(i64, i64)>, items: Seq<Seq<Item>>, n: int) -> Seq<(i64, Item)>
    decreases n,
{
    if n <= 0 {
        Seq::empty()
    } else {
        item_returns(ents, items, n - 1) + items[n - 1].map_values(|it: Item| (ents[n - 1].0, it))
    }
}

/// A join or a side bet that the room accepts can be seated or recorded: the room's
/// own outcome meets what [`Lobby::seat`] and [`Lobby::place_bet`] ask, so the room stays
/// well formed whatever is said in the group.
pub proof fn lemma_accepted_calls_admissible(l: Lobby, sender: i64, text: Seq<char>)
    requires
        l.wf(),
    ensures
        lobby_call(l, sender, text) is Join ==> !runs(l.entrants@, sender) && !has_bet(l.bets@, sender),
        lobby_call(l, sender, text) matches LobbyCall::Bet(h, a) ==> !runs(l.entrants@, sender)
            && !has_bet(l.bets@, sender) && horse_runs(l.entrants@, h) && consts::PVP_STAKE_MIN <= a
            <= consts::PVP_STAKE_MAX,
        lobby_call(l, sender, text) is Start ==> l.entrants@.len() >= 2,
{
}

// ---------------------------------------------------------------------------
// Splitting the pools
// ---------------------------------------------------------------------------

/// Sum of a sequence of amounts.
pub open spec fn total(s: Seq<i64>) -> int
    decreases s.len(),
{
    if s.len() == 0 {
        0
    } else {
        total(s.drop_last()) + s.last()
    }
}

/// A sequence whose entries from `k` on are zero sums to its first `k` entries.
pub proof fn lemma_total_zero_tail(s: Seq<i64>, k: int)
    requires
        0 <= k <= s.len(),
        forall|i: int| k <= i < s.len() ==> s[i] == 0,
    ensures
        total(s) == total(s.take(k)),
    decreases s.len(),
{
    if s.len() > k {
        assert(s.drop_last().take(k) =~= s.take(k));
        lemma_total_zero_tail(s.drop_last(), k);
    } else {
        assert(s.take(k) =~= s);
    }
}

/// How many places are paid: the top three, or the whole field when smaller.
pub open spec fn paid_places(n: int) -> int {
    if n < 3 {
        n
    } else {
        3
    }
}

/// The prize of finishing place `i` (0-based) in a field of `n` when `payout` is
/// shared: each paid place gets its rounded share `rounded[i]`, the winner also gets what
/// rounding left over, everyone else nothing.
pub open spec fn place_share(payout: int, rounded: Seq<i64>, n: int, i: int) -> int {
    let p = paid_places(n);
    if payout <= 0 {
        0
    } else if i == 0 {
        rounded[0] + (payout - total(rounded.take(p)))
    } else if i < p {
        rounded[i] as int
    } else {
        0
    }
}

/// Every one of the first three finishers (as many as the field has) gets its rounded
/// share: places two and three exactly their share, the winner its share plus whatever
/// the shares of the paid places leave of the payout; every later place gets nothing.
pub proof fn lemma_top_three_paid(payout: int, rounded: Seq<i64>, n: int)
    requires
        rounded.len() == 3,
        1 <= n,
        payout > 0,
    ensures
        forall|i: int| 1 <= i < n && i < 3 ==> place_share(payout, rounded, n, i) == rounded[i],
        forall|i: int| 3 <= i < n ==> place_share(payout, rounded, n, i) == 0,
        n == 1 ==> place_share(payout, rounded, n, 0) == payout,
        n == 2 ==> place_share(payout, rounded, n, 0) == payout - rounded[1],
        n >= 3 ==> place_share(payout, rounded, n, 0) == payout - rounded[1] - rounded[2],
{
    let p = paid_places(n);
    assert(rounded.take(1).drop_last() =~= Seq::<i64>::empty());
    assert(rounded.take(2).drop_last() =~= rounded.take(1));
    assert(rounded.take(3).drop_last() =~= rounded.take(2));
    assert(total(Seq::<i64>::empty()) == 0);
    assert(total(rounded.take(1)) == rounded[0]);
    assert(total(rounded.take(2)) == rounded[0] + rounded[1]);
    assert(total(rounded.take(3)) == rounded[0] + rounded[1] + rounded[2]);
}

/// The prizes by place for a field of `n` sharing `payout`, where `rounded[r]` is the
/// rounded share of place `r` (60 %, 25 %, 15 % of `payout`). Nothing is paid when the
/// payout is not positive; otherwise the prizes add up to the payout exactly.
pub fn place_shares(payout: i64, rounded: &[i64], n: usize) -> (r: Vec<i64>)
    requires
        rounded@.len() == 3,
        1 <= n,
        payout <= i64::MAX / 4,
        forall|k: int| 0 <= k < 3 ==> 0 <= #[trigger] rounded@[k] <= payout,
    ensures
        r@.len() == n,
        forall|i: int| 0 <= i < n ==> r@[i] == place_share(payout as int, rounded@, n as int, i),
        payout > 0 ==> total(r@) == payout,
        payout <= 0 ==> total(r@) == 0,
        payout > 0 ==> forall|i: int| 1 <= i < n && i < 3 ==> #[trigger] r@[i] == rounded@[i],
        payout > 0 ==> forall|i: int| 3 <= i < n ==> #[trigger] r@[i] == 0,
        payout > 0 && n >= 3 ==> r@[0] == payout - rounded@[1] - rounded@[2],
{
    let mut shares: Vec<i64> = Vec::new();
    let mut i: usize = 0;
    while i < n
        invariant
            i <= n,
            shares@.len() == i,
            forall|k: int| 0 <= k < i ==> shares@[k] == 0,
        decreases n - i,
    {
        shares.push(0);
        i = i + 1;
    }
    if payout <= 0 {
        proof {
            lemma_total_zero_tail(shares@, 0);
        }
        return shares;
    }
    let places: usize = if n < 3 {
        n
    } else {
        3
    };
    let mut handed: i64 = 0;
    let mut k: usize = 0;
    while k < places
        invariant
            k <= places <= 3,
            0 < payout,
            places == paid_places(n as int),
            places <= n,
            shares@.len() == n,
            rounded@.len() == 3,
            payout <= i64::MAX / 4,
            forall|j: int| 0 <= j < 3 ==> 0 <= #[trigger] rounded@[j] <= payout,
            handed == total(rounded@.take(k as int)),
            0 <= handed <= k * payout,
            forall|j: int| 0 <= j < k ==> shares@[j] == rounded@[j],
            forall|j: int| k <= j < n ==> shares@[j] == 0,
        decreases places - k,
    {
        assert(rounded@.take(k + 1).drop_last() =~= rounded@.take(k as int));
        assert((k + 1) * payout == k * payout + payout) by (nonlinear_arith);
        assert(k * payout <= 3 * payout) by (nonlinear_arith)
            requires
                k <= 3,
                0 <= payout,
        ;
        shares.set(k, rounded[k]);
        handed = handed + rounded[k];
        k = k + 1;
    }
    let first = shares[0] + (payout - handed);
    shares.set(0, first);
    proof {
        let sh = shares@;
        lemma_total_zero_tail(sh, places as int);
        lemma_total_shifted_head(sh, rounded@, places as int, payout - handed);
        lemma_top_three_paid(payout as int, rounded@, n as int);
    }
    shares
}

/// Two sequences that agree on their first `p` entries but for `d` added to the first
/// one differ in their first-`p` totals by `d`.
pub proof fn lemma_total_shifted_head(s: Seq<i64>, t: Seq<i64>, p: int, d: int)
    requires
        1 <= p <= s.len(),
        p <= t.len(),
        s[0] == t[0] + d,
        forall|i: int| 1 <= i < p ==> s[i] == t[i],
    ensures
        total(s.take(p)) == total(t.take(p)) + d,
    decreases p,
{
    if p == 1 {
        assert(s.take(1).drop_last() =~= Seq::<i64>::empty());
        assert(t.take(1).drop_last() =~= Seq::<i64>::empty());
    } else {
        lemma_total_shifted_head(s, t, p - 1, d);
        assert(s.take(p).drop_last() =~= s.take(p - 1));
        assert(t.take(p).drop_last() =~= t.take(p - 1));
    }
}

/// The bets in `bets` on horse `w`, in order.
pub open spec fn bets_on(bets: Seq<(i64, i64, i64)>, w: i64) -> Seq<(i64, i64, i64)>
    decreases bets.len(),
{
    if bets.len() == 0 {
        seq![]
    } else if bets.last().1 == w {
        bets_on(bets.drop_last(), w).push(bets.last())
    } else {
        bets_on(bets.drop_last(), w)
    }
}

/// Sum of the amounts of `bets`.
pub open spec fn staked(bets: Seq<(i64, i64, i64)>) -> int
    decreases bets.len(),
{
    if bets.len() == 0 {
        0
    } else {
        staked(bets.drop_last()) + bets.last().2
    }
}

/// Sum of the proportional shares `floor(pot * amount / stake_sum)` of `wins`.
pub open spec fn floor_shares(wins: Seq<(i64, i64, i64)>, pot: int, stake_sum: int) -> int
    decreases wins.len(),
{
    if wins.len() == 0 {
        0
    } else {
        floor_shares(wins.drop_last(), pot, stake_sum) + pot * wins.last().2 / stake_sum
    }
}

/// The side-bet payout of the `k`-th winning bet: its proportional share rounded down,
/// the last winning bet taking what is left so that the payouts add up to `pot`.
pub open spec fn side_share(wins: Seq<(i64, i64, i64)>, pot: int, k: int) -> int {
    if k + 1 == wins.len() {
        pot - floor_shares(wins.drop_last(), pot, staked(wins))
    } else {
        pot * wins[k].2 / staked(wins)
    }
}

proof fn lemma_bets_on_facts(bets: Seq<(i64, i64, i64)>, w: i64)
    requires
        forall|j: int| 0 <= j < bets.len() ==> consts::PVP_STAKE_MIN <= #[trigger] bets[j].2 <= consts::PVP_STAKE_MAX,
    ensures
        bets_on(bets, w).len() <= bets.len(),
        forall|j: int| 0 <= j < bets_on(bets, w).len() ==> (#[trigger] bets_on(bets, w)[j]).1 == w
            && consts::PVP_STAKE_MIN <= bets_on(bets, w)[j].2 <= consts::PVP_STAKE_MAX,
        staked(bets_on(bets, w)) <= staked(bets),
        0 <= staked(bets_on(bets, w)),
        (staked(bets_on(bets, w)) == 0) == (bets_on(bets, w).len() == 0),
    decreases bets.len(),
{
    if bets.len() > 0 {
        lemma_bets_on_facts(bets.drop_last(), w);
        let p = bets_on(bets.drop_last(), w);
        assert(consts::PVP_STAKE_MIN <= bets[bets.len() - 1].2);
        if bets.last().1 == w {
            assert(p.push(bets.last()).drop_last() =~= p);
        }
    }
}

proof fn lemma_staked_bounds(bets: Seq<(i64, i64, i64)>)
    requires
        forall|j: int| 0 <= j < bets.len() ==> 0 < #[trigger] bets[j].2 <= consts::PVP_STAKE_MAX,
    ensures
        0 <= staked(bets) <= bets.len() * consts::PVP_STAKE_MAX,
    decreases bets.len(),
{
    if bets.len() > 0 {
        lemma_staked_bounds(bets.drop_last());
    }
}

/// The rounded-down shares never exceed the pot's proportional part: with a non-negative
/// pot, `floor_shares(wins) * stake_sum <= pot * staked(wins)`.
proof fn lemma_floor_shares_bound(wins: Seq<(i64, i64, i64)>, pot: int, stake_sum: int)
    requires
        0 <= pot,
        0 < stake_sum,
        forall|j: int| 0 <= j < wins.len() ==> 0 < #[trigger] wins[j].2,
    ensures
        floor_shares(wins, pot, stake_sum) * stake_sum <= pot * staked(wins),
        0 <= floor_shares(wins, pot, stake_sum),
    decreases wins.len(),
{
    if wins.len() > 0 {
        let p = wins.drop_last();
        lemma_floor_shares_bound(p, pot, stake_sum);
        assert(0 < wins[wins.len() - 1].2);
        let a = wins.last().2 as int;
        let x = pot * a;
        assert(0 <= x) by (nonlinear_arith)
            requires
                0 <= pot,
                0 < a,
                x == pot * a,
        ;
        assert(x / stake_sum * stake_sum <= x && 0 <= x / stake_sum) by (nonlinear_arith)
            requires
                0 <= x,
                0 < stake_sum,
        ;
        let fp = floor_shares(p, pot, stake_sum);
        assert((fp + x / stake_sum) * stake_sum == fp * stake_sum + x / stake_sum * stake_sum)
            by (nonlinear_arith);
        assert(pot * staked(wins) == pot * staked(p) + pot * a) by (nonlinear_arith)
            requires
                staked(wins) == staked(p) + a,
        ;
    }
}

/// The side-bet settlement once the winner is `winner`: `None` when nobody backed the
/// winner (every side bet is then refunded in full), otherwise for each winning bet in
/// order the bettor and the payout (see [`side_share`]). The payouts add up to `pot`
/// exactly and none is negative.
pub fn side_shares(bets: &Vec<(i64, i64, i64)>, winner: i64, pot: i64) -> (r: Option<Vec<(i64, i64)>>)
    requires
        bets@.len() <= i32::MAX,
        forall|j: int| 0 <= j < bets@.len() ==> consts::PVP_STAKE_MIN <= #[trigger] bets@[j].2
            <= consts::PVP_STAKE_MAX,
        0 <= pot <= staked(bets@),
    ensures
        (r is None) == (bets_on(bets@, winner).len() == 0),
        r matches Some(v) ==> {
            let wins = bets_on(bets@, winner);
            &&& v@.len() == wins.len()
            &&& forall|k: int| 0 <= k < v@.len() ==> (#[trigger] v@[k]).0 == wins[k].0
                && v@[k].1 == side_share(wins, pot as int, k) && v@[k].1 >= 0
            &&& total(v@.map_values(|e: (i64, i64)| e.1)) == pot
        },
{
    let ghost all = bets@;
    proof {
        lemma_bets_on_facts(all, winner);
        lemma_staked_bounds(all);
    }
    let mut wins: Vec<(i64, i64, i64)> = Vec::new();
    let mut win_stake: i64 = 0;
    let mut i: usize = 0;
    while i < bets.len()
        invariant
            i <= bets@.len(),
            all == bets@,
            bets@.len() <= i32::MAX,
            forall|j: int| 0 <= j < bets@.len() ==> consts::PVP_STAKE_MIN <= #[trigger] bets@[j].2
                <= consts::PVP_STAKE_MAX,
            wins@ == bets_on(all.take(i as int), winner),
            win_stake == staked(wins@),
            0 <= win_stake <= i * consts::PVP_STAKE_MAX,
        decreases bets@.len() - i,
    {
        assert(all.take(i + 1).drop_last() =~= all.take(i as int));
        let b = bets[i];
        if b.1 == winner {
            assert(wins@.push(b).drop_last() =~= wins@);
            wins.push(b);
            win_stake = win_stake + b.2;
        }
        i = i + 1;
    }
    assert(all.take(bets@.len() as int) =~= all);
    if win_stake == 0 {
        proof {
            lemma_bets_on_facts(all, winner);
        }
        return None;
    }
    let ghost ws = wins@;
    proof {
        lemma_bets_on_facts(all, winner);
        assert(ws == bets_on(all, winner));
        assert forall|j: int| 0 <= j < ws.len() implies consts::PVP_STAKE_MIN <= #[trigger] ws[j].2
            <= consts::PVP_STAKE_MAX by {
            assert(ws[j] == bets_on(all, winner)[j]);
        }
        assert forall|j: int| 0 <= j < ws.drop_last().len() implies 0 < #[trigger] ws.drop_last()[j].2 by {
            assert(ws.drop_last()[j] == ws[j]);
        }
        lemma_floor_shares_bound(ws.drop_last(), pot as int, win_stake as int);
    }
    let mut out: Vec<(i64, i64)> = Vec::new();
    let mut handed: i64 = 0;
    let mut k: usize = 0;
    while k < wins.len()
        invariant
            k <= wins@.len(),
            ws == wins@,
            ws.len() >= 1,
            win_stake == staked(ws),
            0 < win_stake <= i32::MAX * consts::PVP_STAKE_MAX,
            0 <= pot <= staked(all),
            staked(all) <= all.len() * consts::PVP_STAKE_MAX,
            all.len() <= i32::MAX,
            forall|j: int| 0 <= j < ws.len() ==> 0 < #[trigger] ws[j].2 <= consts::PVP_STAKE_MAX,
            floor_shares(ws.drop_last(), pot as int, win_stake as int) * win_stake <= pot * staked(ws.drop_last()),
            0 <= floor_shares(ws.drop_last(), pot as int, win_stake as int),
            out@.len() == k,
            k < ws.len() ==> handed == floor_shares(ws.take(k as int), pot as int, win_stake as int),
            handed == total(out@.map_values(|e: (i64, i64)| e.1)),
            forall|j: int| 0 <= j < k ==> (#[trigger] out@[j]).0 == ws[j].0 && out@[j].1 == side_share(ws, pot as int, j)
                && out@[j].1 >= 0,
            0 <= handed <= pot,
            k == ws.len() ==> handed == pot,
        decreases wins@.len() - k,
    {
        let b = wins[k];
        let share: i64;
        if k + 1 == wins.len() {
            assert(ws.take(k as int) =~= ws.drop_last());
            share = pot - handed;
        } else {
            assert(0 < b.2 <= consts::PVP_STAKE_MAX);
            assert(0 <= pot * b.2 <= (i32::MAX * consts::PVP_STAKE_MAX) * consts::PVP_STAKE_MAX) by (nonlinear_arith)
                requires
                    0 <= pot <= i32::MAX * consts::PVP_STAKE_MAX,
                    0 < b.2 <= consts::PVP_STAKE_MAX,
            ;
            let num: i128 = (pot as i128) * (b.2 as i128);
            assert(0 <= num <= (i32::MAX * consts::PVP_STAKE_MAX) * consts::PVP_STAKE_MAX) by (nonlinear_arith)
                requires
                    num == pot * b.2,
                    0 <= pot <= i32::MAX * consts::PVP_STAKE_MAX,
                    0 < b.2 <= consts::PVP_STAKE_MAX,
            ;
            let q = num / (win_stake as i128);
            assert(0 <= q <= num) by (nonlinear_arith)
                requires
                    q == num / (win_stake as i128),
                    0 <= num,
                    1 <= win_stake,
            ;
            share = q as i64;
            proof {
                assert(ws.take(k + 1).drop_last() =~= ws.take(k as int));
                assert(ws.take(k + 1).last() == b);
                // the partial floor sums never pass the bound of all but the last bet
                lemma_floor_prefix(ws.drop_last(), k + 1, pot as int, win_stake as int);
                assert(ws.drop_last().take(k + 1) =~= ws.take(k + 1));
                assert(floor_shares(ws.take(k + 1), pot as int, win_stake as int) <= pot) by (nonlinear_arith)
                    requires
                        floor_shares(ws.take(k + 1), pot as int, win_stake as int) <= floor_shares(ws.drop_last(), pot as int, win_stake as int),
                        floor_shares(ws.drop_last(), pot as int, win_stake as int) * win_stake <= pot * staked(ws.drop_last()),
                        staked(ws.drop_last()) <= win_stake,
                        0 <= pot,
                        0 < win_stake,
                ;
            }
        }
        proof {
            if k + 1 == ws.len() {
                lemma_staked_prefix(ws);
                assert(floor_shares(ws.drop_last(), pot as int, win_stake as int) <= pot) by (nonlinear_arith)
                    requires
                        floor_shares(ws.drop_last(), pot as int, win_stake as int) * win_stake <= pot * staked(ws.drop_last()),
                        staked(ws.drop_last()) <= win_stake,
                        0 <= pot,
                        0 < win_stake,
                ;
            }
        }
        let ghost before = out@;
        out.push((b.0, share));
        assert(out@.drop_last() =~= before);
        assert(out@.map_values(|e: (i64, i64)| e.1).drop_last() =~= before.map_values(|e: (i64, i64)| e.1));
        handed = handed + share;
        k = k + 1;
    }
    Some(out)
}

proof fn lemma_staked_prefix(ws: Seq<(i64, i64, i64)>)
    requires
        ws.len() >= 1,
        forall|j: int| 0 <= j < ws.len() ==> 0 < #[trigger] ws[j].2,
    ensures
        staked(ws.drop_last()) <= staked(ws),
{
}

/// Floor sums grow along the prefixes of the winning bets.
proof fn lemma_floor_prefix(ws: Seq<(i64, i64, i64)>, k: int, pot: int, stake_sum: int)
    requires
        0 <= k <= ws.len(),
        0 <= pot,
        0 < stake_sum,
        forall|j: int| 0 <= j < ws.len() ==> 0 < #[trigger] ws[j].2,
    ensures
        floor_shares(ws.take(k), pot, stake_sum) <= floor_shares(ws, pot, stake_sum),
    decreases ws.len() - k,
{
    if k < ws.len() {
        lemma_floor_prefix(ws, k + 1, pot, stake_sum);
        assert(ws.take(k + 1).drop_last() =~= ws.take(k));
        let x = pot * ws[k].2;
        assert(0 <= x / stake_sum) by (nonlinear_arith)
            requires
                0 <= pot,
                0 < ws[k].2,
                x == pot * ws[k].2,
                0 < stake_sum,
        ;
    } else {
        assert(ws.take(k) =~= ws);
    }
}

} // verus!
