//! Drift bottles: prices, the picture-collecting dialogue of a throw, the confirmation
//! answer, pickup counting, trimmed score averages, who may see or delete a bottle,
//! comment limits, the review decisions and the short texts shown for a bottle.
//! Storage, moderation calls and message sending happen around these functions.

use vstd::prelude::*;

use crate::text::{
    chars_of, decimal, decimal_string, eq_ignore_ascii_case, eq_lit, lowercase, push_decimal,
    push_str, slice_chars, string_from_chars, to_lowercase, trim, trim_chars, trimmed,
};

verus! {

/// Base price of throwing a bottle.
pub const THROW_BASE: i64 = 2;
/// Extra price when the bottle holds text.
pub const THROW_PER_TEXT: i64 = 1;
/// Extra price per picture.
pub const THROW_PER_IMAGE: i64 = 3;
/// Most pictures in one bottle.
pub const MAX_IMAGES: usize = 3;
/// Price of fishing a bottle.
pub const FISH_COST: i64 = 3;
/// Refund for taking a bottle back.
pub const DELETE_REFUND: i64 = 1;
/// Most comments one person leaves on one bottle.
pub const DISCUSS_LIMIT: u64 = 3;

// ---------------------------------------------------------------------------
// Throwing
// ---------------------------------------------------------------------------

/// A pickup limit is `-1` (unlimited) or between 1 and 1000.
pub fn remaining_valid(remaining: i64) -> (b: bool)
    ensures
        b == (remaining == -1 || (1 <= remaining && remaining <= 1000)),
{
    remaining == -1 || (1 <= remaining && remaining <= 1000)
}

/// The price of a bottle: the base, one more with text, three more per picture.
pub fn throw_cost(has_text: bool, images: usize) -> (r: i64)
    requires
        images <= 1_000_000,
    ensures
        r == THROW_BASE + (if has_text { THROW_PER_TEXT } else { 0 }) + THROW_PER_IMAGE * images,
{
    THROW_BASE + (if has_text {
        THROW_PER_TEXT
    } else {
        0
    }) + THROW_PER_IMAGE * images as i64
}

/// How throwing a bottle ends.
#[derive(Clone, Copy, Debug, PartialEq, Eq, Structural)]
pub enum ThrowEnd {
    /// The pickup limit is neither `-1` nor between 1 and 1000.
    BadRemaining,
    /// Neither text nor a picture.
    Empty,
    /// The balance is below the price (asked before the confirmation).
    TooPoor { cost: i64 },
    /// The thrower answered no.
    Declined,
    /// No answer came in time.
    NoAnswer,
    /// The balance no longer covered the price when it was charged.
    ChargeFailed,
    /// The bottle was made and `cost` coins were taken; `held` when moderation flagged it.
    Thrown { cost: i64, held: bool },
}

/// How throwing ends, by its checks in order: the pickup limit, the content, the
/// balance against the price, the thrower's answer, then the charge; a thrown bottle
/// is held for review when moderation flagged its text or a picture.
pub open spec fn throw_end_of(
    remaining: int,
    has_text: bool,
    images: int,
    coin: int,
    answer: Option<bool>,
    flagged: bool,
    charged: bool,
) -> ThrowEnd {
    let cost = THROW_BASE + (if has_text { THROW_PER_TEXT } else { 0 }) + THROW_PER_IMAGE * images;
    if !(remaining == -1 || 1 <= remaining <= 1000) {
        ThrowEnd::BadRemaining
    } else if !has_text && images == 0 {
        ThrowEnd::Empty
    } else if coin < cost {
        ThrowEnd::TooPoor { cost: cost as i64 }
    } else if answer == Some(false) {
        ThrowEnd::Declined
    } else if answer is None {
        ThrowEnd::NoAnswer
    } else if !charged {
        ThrowEnd::ChargeFailed
    } else {
        ThrowEnd::Thrown { cost: cost as i64, held: flagged }
    }
}

/// Decides how throwing a bottle ends (see [`throw_end_of`]), given the pickup limit,
/// the trimmed text's presence, the kept pictures, the balance when the price is
/// announced, the thrower's answer (`None` when none came), the moderation verdict and
/// whether the charge went through. A bottle is made exactly when every check passes,
/// and then its price is what is charged.
pub fn throw_end(
    remaining: i64,
    has_text: bool,
    images: usize,
    coin: i64,
    answer: Option<bool>,
    flagged: bool,
    charged: bool,
) -> (r: ThrowEnd)
    requires
        images <= 1_000_000,
    ensures
        r == throw_end_of(remaining as int, has_text, images as int, coin as int, answer, flagged, charged),
        r is Thrown <==> ((remaining == -1 || 1 <= remaining <= 1000) && (has_text || images > 0) && coin
            >= THROW_BASE + (if has_text { THROW_PER_TEXT } else { 0 }) + THROW_PER_IMAGE * images && answer
            == Some(true) && charged),
        r matches ThrowEnd::Thrown { cost, held } ==> (cost == THROW_BASE + (if has_text {
            THROW_PER_TEXT
        } else {
            0
        }) + THROW_PER_IMAGE * images && held == flagged),
{
    if !remaining_valid(remaining) {
        return ThrowEnd::BadRemaining;
    }
    if !has_text && images == 0 {
        return ThrowEnd::Empty;
    }
    let cost = throw_cost(has_text, images);
    if coin < cost {
        return ThrowEnd::TooPoor { cost };
    }
    match answer {
        Some(false) => ThrowEnd::Declined,
        None => ThrowEnd::NoAnswer,
        Some(true) => if !charged {
            ThrowEnd::ChargeFailed
        } else {
            ThrowEnd::Thrown { cost, held: flagged }
        },
    }
}

/// How many of `n` pictures are kept, and whether some were turned away.
pub fn keep_images(n: usize) -> (r: (usize, bool))
    ensures
        r.0 == if n > MAX_IMAGES { MAX_IMAGES } else { n },
        r.1 == (n > MAX_IMAGES),
{
    if n > MAX_IMAGES {
        (MAX_IMAGES, true)
    } else {
        (n, false)
    }
}

/// Whether a message ends the picture dialogue: `好了`, `完成`, `发完了` or `ok` in any case.
pub open spec fn is_done_word(t: Seq<char>) -> bool {
    t == "好了"@ || t == "完成"@ || t == "发完了"@ || eq_ignore_ascii_case(t, "ok"@)
}

/// What the bot does next in the picture dialogue.
#[derive(Clone, Copy, Debug, PartialEq, Eq, Structural)]
pub enum PicAction {
    /// Tell how many pictures have arrived so far.
    Ack(usize),
    /// Two minutes without anything: give up the throw.
    GiveUp,
    /// The thrower said `取消`.
    Cancel,
    /// The thrower is done: go on to the confirmation.
    Finish,
    /// The picture limit is reached (true: some were turned away): go on.
    Full(bool),
    /// The message has no picture but text, and the bottle had none: take it as the text.
    TakeText,
    /// Neither a picture nor usable text: ask again.
    AskAgain,
    /// Keep collecting quietly.
    Wait,
}

/// The picture dialogue of `丢漂流瓶 -p`: pictures collected, pictures already
/// acknowledged, and whether the bottle has text.
#[derive(Clone, Copy, Debug, PartialEq, Eq, Structural)]
pub struct PicFlow {
    pub images: usize,
    pub acked: usize,
    pub has_text: bool,
}

impl PicFlow {
    /// The dialogue's invariant: no more acknowledged than collected, no more than
    /// [`MAX_IMAGES`] collected.
    pub open spec fn wf(self) -> bool {
        self.acked <= self.images <= MAX_IMAGES
    }

    /// A new dialogue for a bottle with or without text so far.
    pub fn start(has_text: bool) -> (r: PicFlow)
        ensures
            r.wf(),
            r == (PicFlow { images: 0, acked: 0, has_text }),
    {
        PicFlow { images: 0, acked: 0, has_text }
    }

    /// Seconds to wait for the next message: a short pause while pictures wait to be
    /// acknowledged, two minutes otherwise.
    pub fn wait_secs(&self) -> (r: u64)
        ensures
            r == if self.images > self.acked { 4u64 } else { 120u64 },
    {
        if self.images > self.acked {
            4
        } else {
            120
        }
    }

    /// Nothing arrived in time: acknowledge what is pending, or give up.
    pub fn on_quiet(&mut self) -> (r: PicAction)
        requires
            old(self).wf(),
        ensures
            final(self).wf(),
            old(self).images > old(self).acked ==> r == PicAction::Ack(old(self).images)
                && *final(self) == (PicFlow { acked: old(self).images, ..*old(self) }),
            old(self).images <= old(self).acked ==> r == PicAction::GiveUp && *final(self) == *old(self),
    {
        if self.images > self.acked {
            self.acked = self.images;
            PicAction::Ack(self.images)
        } else {
            PicAction::GiveUp
        }
    }

    /// A message arrived with text `text` and `new_images` pictures in it.
    pub fn on_message(&mut self, text: &str, new_images: usize) -> (r: PicAction)
        requires
            old(self).wf(),
            new_images <= 1_000_000,
        ensures
            final(self).wf(),
            ({
                let t = trim(text@);
                let o = *old(self);
                if t == "取消"@ {
                    r == PicAction::Cancel && *final(self) == o
                } else if is_done_word(t) {
                    r == PicAction::Finish && *final(self) == o
                } else if new_images > 0 {
                    let n = o.images + new_images;
                    if n >= MAX_IMAGES {
                        r == PicAction::Full(n > MAX_IMAGES) && *final(self) == (PicFlow { images: MAX_IMAGES, ..o })
                    } else if o.acked == 0 {
                        r == PicAction::Ack(n as usize) && *final(self) == (PicFlow { images: n as usize, acked: n as usize, ..o })
                    } else {
                        r == PicAction::Wait && *final(self) == (PicFlow { images: n as usize, ..o })
                    }
                } else if t.len() > 0 && !o.has_text {
                    r == PicAction::TakeText && *final(self) == (PicFlow { has_text: true, ..o })
                } else {
                    r == PicAction::AskAgain && *final(self) == o
                }
            }),
    {
        let t = trimmed(text);
        if eq_lit(&t, "取消") {
            return PicAction::Cancel;
        }
        let ok = chars_of("ok");
        if eq_lit(&t, "好了") || eq_lit(&t, "完成") || eq_lit(&t, "发完了") || crate::text::eq_ignore_case_chars(&t, &ok) {
            return PicAction::Finish;
        }
        if new_images > 0 {
            let n = self.images + new_images;
            if n >= MAX_IMAGES {
                self.images = MAX_IMAGES;
                return PicAction::Full(n > MAX_IMAGES);
            }
            self.images = n;
            if self.acked == 0 {
                self.acked = n;
                return PicAction::Ack(n);
            }
            return PicAction::Wait;
        }
        if t.len() > 0 && !self.has_text {
            self.has_text = true;
            return PicAction::TakeText;
        }
        PicAction::AskAgain
    }
}

/// The meaning of an answer to the throw confirmation, lowercased after trimming:
/// `Some(true)` to throw, `Some(false)` to keep it, `None` to ask again.
pub open spec fn confirm_of(s: Seq<char>) -> Option<bool> {
    let t = lowercase(trim(s));
    if t == "y"@ || t == "yes"@ || t == "是"@ || t == "确认"@ || t == "嗯"@ || t == "丢"@ {
        Some(true)
    } else if t == "n"@ || t == "no"@ || t == "否"@ || t == "不"@ || t == "算了"@ {
        Some(false)
    } else {
        None
    }
}

/// Reads an answer to the throw confirmation (see [`confirm_of`]).
pub fn confirm_answer(s: &str) -> (r: Option<bool>)
    ensures
        r == confirm_of(s@),
{
    let t = trimmed(s);
    let ts = string_from_chars(&t);
    let low = to_lowercase(ts.as_str());
    let l = chars_of(low.as_str());
    if eq_lit(&l, "y") || eq_lit(&l, "yes") || eq_lit(&l, "是") || eq_lit(&l, "确认") || eq_lit(&l, "嗯")
        || eq_lit(&l, "丢") {
        Some(true)
    } else if eq_lit(&l, "n") || eq_lit(&l, "no") || eq_lit(&l, "否") || eq_lit(&l, "不") || eq_lit(&l, "算了") {
        Some(false)
    } else {
        None
    }
}

/// The review status a new bottle gets: held for a person when moderation flagged it,
/// passed otherwise.
pub fn moderation_status(flagged: bool) -> (r: &'static str)
    ensures
        r@ == if flagged { "pending"@ } else { "ai_approved"@ },
{
    if flagged {
        "pending"
    } else {
        "ai_approved"
    }
}

// ---------------------------------------------------------------------------
// Fishing and scores
// ---------------------------------------------------------------------------

/// Counters after one pickup: one more pickup; a limited remaining count drops by one
/// (unlimited, `-1`, and exhausted, `0`, stay).
pub fn after_pickup(total: i32, remaining: i32) -> (r: (i32, i32))
    requires
        total < i32::MAX,
    ensures
        r.0 == total + 1,
        r.1 == if remaining > 0 { remaining - 1 } else { remaining as int },
{
    (total + 1, if remaining > 0 {
        remaining - 1
    } else {
        remaining
    })
}

/// Sum of a sequence of scores.
pub open spec fn score_sum(s: Seq<i16>) -> int
    decreases s.len(),
{
    if s.len() == 0 {
        0
    } else {
        score_sum(s.drop_last()) + s.last()
    }
}

/// The middle of `n` sorted scores kept by the trimmed mean: from index `n / 20`
/// (the lowest 5 %) up to index `19n / 20` (the highest 5 % dropped).
pub open spec fn trim_window(n: int) -> (int, int) {
    (n / 20, 19 * n / 20)
}

/// The sum and the count of the scores a trimmed mean averages: nothing with fewer than
/// three scores; otherwise the middle window of the sorted scores (see [`trim_window`]).
/// The average itself, rounded to one decimal, is `sum / count`.
pub fn trimmed_sum(scores: &[i16]) -> (r: Option<(i64, usize)>)
    requires
        // so that the sum of the window fits in an `i64`
        scores@.len() <= 0x1_0000_0000_0000,
    ensures
        scores@.len() < 3 ==> r is None,
        scores@.len() >= 3 ==> ({
            let (lo, hi) = trim_window(scores@.len() as int);
            &&& lo < hi
            &&& r == Some((score_sum(scores@.subrange(lo, hi)) as i64, (hi - lo) as usize))
        }),
{
    let n = scores.len();
    if n < 3 {
        return None;
    }
    let lo = n / 20;
    let hi = 19 * lo + 19 * (n % 20) / 20;
    assert(hi == 19 * n / 20 && lo < hi && hi <= n) by (nonlinear_arith)
        requires
            lo == n / 20,
            hi == 19 * lo + 19 * (n % 20) / 20,
            n >= 3,
    ;
    let mut sum: i64 = 0;
    let mut i: usize = lo;
    while i < hi
        invariant
            lo <= i <= hi <= n,
            n == scores@.len(),
            n <= 0x1_0000_0000_0000,
            sum == score_sum(scores@.subrange(lo as int, i as int)),
            -32768 * (i - lo) <= sum <= 32767 * (i - lo),
        decreases hi - i,
    {
        assert(scores@.subrange(lo as int, i + 1).drop_last() =~= scores@.subrange(lo as int, i as int));
        sum = sum + scores[i] as i64;
        i = i + 1;
    }
    Some((sum, hi - lo))
}

// ---------------------------------------------------------------------------
// Comments, deletion, visibility
// ---------------------------------------------------------------------------

/// Result of adding a comment.
#[derive(Clone, Copy, Debug, PartialEq, Eq, Structural)]
pub enum DiscussOutcome {
    /// The comment was added.
    Added,
    /// This person already left [`DISCUSS_LIMIT`] comments on the bottle.
    LimitReached,
}

/// Whether a comment is accepted, given how many the person already left on the bottle.
pub fn discuss_outcome(count: u64) -> (r: DiscussOutcome)
    ensures
        r == if count >= DISCUSS_LIMIT { DiscussOutcome::LimitReached } else { DiscussOutcome::Added },
{
    if count >= DISCUSS_LIMIT {
        DiscussOutcome::LimitReached
    } else {
        DiscussOutcome::Added
    }
}

/// Result of taking a bottle back.
#[derive(Clone, Copy, Debug, PartialEq, Eq, Structural)]
pub enum DeleteOutcome {
    /// Marked deleted.
    Deleted,
    /// No such bottle (or already deleted).
    NotFound,
    /// Neither the thrower nor the master asked.
    NotOwner,
}

/// Whether `me` is the bot's master (`0` means no master is set).
pub open spec fn is_master_of(master: i64, me: i64) -> bool {
    master != 0 && me == master
}

/// Whether `me` is the bot's master.
pub fn is_master(master: i64, me: i64) -> (b: bool)
    ensures
        b == is_master_of(master, me),
{
    master != 0 && me == master
}

/// The deletion outcome: `owner` is the thrower of the live bottle, `None` when there
/// is no such live bottle; only the thrower or the master may delete.
pub fn delete_outcome(owner: Option<i64>, requester: i64, master: bool) -> (r: DeleteOutcome)
    ensures
        r == match owner {
            None => DeleteOutcome::NotFound,
            Some(o) => if o != requester && !master { DeleteOutcome::NotOwner } else { DeleteOutcome::Deleted },
        },
{
    match owner {
        None => DeleteOutcome::NotFound,
        Some(o) => if o != requester && !master {
            DeleteOutcome::NotOwner
        } else {
            DeleteOutcome::Deleted
        },
    }
}

/// Whether a review status is public (passed by a person or by moderation).
pub open spec fn is_public(status: Seq<char>) -> bool {
    status == "approved"@ || status == "ai_approved"@
}

/// Whether `me` may see a bottle: never once deleted; otherwise the thrower and the
/// master always, everyone else only when it passed review.
pub fn visible(owner: i64, status: &str, deleted: bool, me: i64, master: i64) -> (b: bool)
    ensures
        b == (!deleted && (owner == me || is_master_of(master, me) || is_public(status@))),
{
    if deleted {
        return false;
    }
    let s = chars_of(status);
    owner == me || is_master(master, me) || eq_lit(&s, "approved") || eq_lit(&s, "ai_approved")
}

/// What asking for one bottle by its number answers.
#[derive(Clone, Copy, Debug, PartialEq, Eq, Structural)]
pub enum CheckAnswer {
    /// `没有这个漂流瓶`.
    NoSuchBottle,
    /// The bottle itself.
    Show,
}

/// The answer for a number under which the store holds `found` (the thrower, the review
/// status and whether it was deleted), or nothing: the bottle where `me` may see it
/// (see [`visible`]), and otherwise the very answer a number nothing holds gets.
pub open spec fn check_answer_of(found: Option<(i64, Seq<char>, bool)>, me: i64, master: i64) -> CheckAnswer {
    match found {
        None => CheckAnswer::NoSuchBottle,
        Some((owner, status, deleted)) => if !deleted && (owner == me || is_master_of(master, me) || is_public(
            status,
        )) {
            CheckAnswer::Show
        } else {
            CheckAnswer::NoSuchBottle
        },
    }
}

/// A bottle that `me` may not see (deleted, or neither thrown by `me`, nor asked for by
/// the master, nor passed review) gets the very answer of a number that holds nothing,
/// so asking cannot tell a hidden bottle from a missing one.
pub proof fn lemma_hidden_reads_as_missing(owner: i64, status: Seq<char>, deleted: bool, me: i64, master: i64)
    requires
        !(!deleted && (owner == me || is_master_of(master, me) || is_public(status))),
    ensures
        check_answer_of(Some((owner, status, deleted)), me, master) == check_answer_of(None, me, master),
{
}

/// Decides the answer to `查漂流瓶 <number>` (see [`check_answer_of`]); a bottle hidden
/// from `me` is answered exactly as a missing one.
pub fn check_answer(found: Option<(i64, &str, bool)>, me: i64, master: i64) -> (r: CheckAnswer)
    ensures
        r == check_answer_of(
            match found {
                None => None,
                Some((owner, status, deleted)) => Some((owner, status@, deleted)),
            },
            me,
            master,
        ),
{
    match found {
        None => CheckAnswer::NoSuchBottle,
        Some((owner, status, deleted)) => if visible(owner, status, deleted, me, master) {
            CheckAnswer::Show
        } else {
            CheckAnswer::NoSuchBottle
        },
    }
}

/// A rating is between 1 and 5.
pub fn score_valid(score: i64) -> (b: bool)
    ensures
        b == (1 <= score <= 5),
{
    1 <= score && score <= 5
}

/// A comment, trimmed, holds 3 to 500 characters.
pub fn comment_valid(text: &str) -> (b: bool)
    ensures
        b == (3 <= trim(text@).len() <= 500),
{
    let t = trimmed(text);
    3 <= t.len() && t.len() <= 500
}

// ---------------------------------------------------------------------------
// Review
// ---------------------------------------------------------------------------

/// What a review action does to bottle `id`: the new status and the note sent to the
/// thrower, or the error for an unknown action.
pub fn review_decision(action: &str, id: i64) -> (r: Result<(&'static str, String), String>)
    ensures
        action@ == "approve"@ ==> (r matches Ok((s, note)) && s@ == "approved"@ && note@ == "你的漂流瓶 "@ + decimal(id as int) + " 已通过审核"@),
        action@ == "reject"@ ==> (r matches Ok((s, note)) && s@ == "rejected"@ && note@ == "你的漂流瓶 "@ + decimal(id as int) + " 未通过审核"@),
        action@ != "approve"@ && action@ != "reject"@ ==> (r matches Err(e) && e@ == "未知动作："@ + action@),
{
    let a = chars_of(action);
    proof {
        reveal_strlit("approve");
        reveal_strlit("reject");
    }
    if eq_lit(&a, "approve") || eq_lit(&a, "reject") {
        let approve = eq_lit(&a, "approve");
        assert("reject"@.len() == 6 && "approve"@.len() == 7);
        assert(action@ == "reject"@ ==> !approve);
        let mut b: Vec<char> = Vec::new();
        push_str(&mut b, "你的漂流瓶 ");
        push_decimal(&mut b, id);
        if approve {
            push_str(&mut b, " 已通过审核");
            Ok(("approved", string_from_chars(&b)))
        } else {
            push_str(&mut b, " 未通过审核");
            Ok(("rejected", string_from_chars(&b)))
        }
    } else {
        let mut b: Vec<char> = Vec::new();
        push_str(&mut b, "未知动作：");
        push_str(&mut b, action);
        Err(string_from_chars(&b))
    }
}

// ---------------------------------------------------------------------------
// Short texts
// ---------------------------------------------------------------------------

/// How a review status is shown.
pub open spec fn status_label(status: Seq<char>) -> Seq<char> {
    if status == "pending"@ {
        "待审核"@
    } else if is_public(status) {
        "已通过"@
    } else if status == "rejected"@ {
        "未通过"@
    } else {
        "未知"@
    }
}

/// Shows a review status.
pub fn status_text(status: &str) -> (r: &'static str)
    ensures
        r@ == status_label(status@),
{
    let s = chars_of(status);
    if eq_lit(&s, "pending") {
        "待审核"
    } else if eq_lit(&s, "approved") || eq_lit(&s, "ai_approved") {
        "已通过"
    } else if eq_lit(&s, "rejected") {
        "未通过"
    } else {
        "未知"
    }
}

/// Shows the remaining pickups: `不限` for unlimited (negative), the number otherwise.
pub fn remaining_text(remaining: i32) -> (r: String)
    ensures
        r@ == if remaining < 0 { "不限"@ } else { decimal(remaining as int) },
{
    if remaining < 0 {
        let v = chars_of("不限");
        string_from_chars(&v)
    } else {
        decimal_string(remaining as i64)
    }
}

/// The review list's summary of a bottle's text: its first 30 characters followed by
/// `…` when longer, the whole text otherwise, `（无文本）` without text.
pub open spec fn brief_of(text: Option<Seq<char>>) -> Seq<char> {
    match text {
        Some(t) => if t.len() == 0 {
            "（无文本）"@
        } else if t.len() > 30 {
            t.take(30) + "…"@
        } else {
            t
        },
        None => "（无文本）"@,
    }
}

/// Summarises a bottle's text for the review list (see [`brief_of`]).
pub fn text_brief(text: &Option<String>) -> (r: String)
    ensures
        r@ == brief_of(match text {
            Some(t) => Some(t@),
            None => None,
        }),
{
    match text {
        Some(t) => {
            let v = chars_of(t.as_str());
            if v.len() == 0 {
                let e = chars_of("（无文本）");
                string_from_chars(&e)
            } else if v.len() > 30 {
                let mut h = slice_chars(&v, 0, 30);
                assert(h@ =~= v@.take(30));
                push_str(&mut h, "…");
                string_from_chars(&h)
            } else {
                string_from_chars(&v)
            }
        },
        None => {
            let e = chars_of("（无文本）");
            string_from_chars(&e)
        },
    }
}

/// The name shown for a person: the nickname when it is not blank, otherwise the
/// account number.
pub open spec fn shown_name(nickname: Option<Seq<char>>, uin: i64) -> Seq<char> {
    match nickname {
        Some(n) => if trim(n).len() > 0 { n } else { decimal(uin as int) },
        None => decimal(uin as int),
    }
}

/// The name shown for a commenter or a non-anonymous thrower (see [`shown_name`]).
pub fn display_name(nickname: &Option<String>, uin: i64) -> (r: String)
    ensures
        r@ == shown_name(match nickname {
            Some(n) => Some(n@),
            None => None,
        }, uin),
{
    match nickname {
        Some(n) => {
            let t = trimmed(n.as_str());
            if t.len() > 0 {
                let v = chars_of(n.as_str());
                string_from_chars(&v)
            } else {
                decimal_string(uin)
            }
        },
        None => decimal_string(uin),
    }
}

/// A sender's display name for a new bottle: trimmed, `None` when blank.
pub fn nickname_of(name: &str) -> (r: Option<String>)
    ensures
        trim(name@).len() == 0 ==> r is None,
        trim(name@).len() > 0 ==> (r matches Some(n) && n@ == trim(name@)),
{
    let t = trimmed(name);
    if t.len() == 0 {
        None
    } else {
        Some(string_from_chars(&t))
    }
}

/// The conversation a sent message lives in.
#[derive(Clone, Copy, Debug, PartialEq, Eq, Structural)]
pub enum Scene {
    Friend,
    Group,
    Temp,
}

/// The letter a conversation kind is keyed by.
pub open spec fn scene_letter(s: Scene) -> Seq<char> {
    match s {
        Scene::Friend => "f"@,
        Scene::Group => "g"@,
        Scene::Temp => "t"@,
    }
}

/// The stable lookup key of a sent message: by its OneBot id when it has one
/// (`ob:<scene>:<peer>:<id>`), else by its sequence number when non-zero
/// (`mk:<scene>:<peer>:<seq>`), else none.
pub open spec fn msg_key_of(scene: Scene, peer: i64, onebot: Option<i64>, seq: i64) -> Option<Seq<char>> {
    match onebot {
        Some(ob) => Some("ob:"@ + scene_letter(scene) + ":"@ + decimal(peer as int) + ":"@ + decimal(ob as int)),
        None => if seq != 0 {
            Some("mk:"@ + scene_letter(scene) + ":"@ + decimal(peer as int) + ":"@ + decimal(seq as int))
        } else {
            None
        },
    }
}

/// Builds the lookup key of a sent message (see [`msg_key_of`]).
pub fn msg_key(scene: Scene, peer: i64, onebot: Option<i64>, seq: i64) -> (r: Option<String>)
    ensures
        match r {
            Some(k) => msg_key_of(scene, peer, onebot, seq) == Some(k@),
            None => msg_key_of(scene, peer, onebot, seq) is None,
        },
{
    let letter = match scene {
        Scene::Friend => "f",
        Scene::Group => "g",
        Scene::Temp => "t",
    };
    let (prefix, last) = match onebot {
        Some(ob) => ("ob:", ob),
        None => {
            if seq == 0 {
                return None;
            }
            ("mk:", seq)
        },
    };
    let mut b: Vec<char> = Vec::new();
    push_str(&mut b, prefix);
    push_str(&mut b, letter);
    push_str(&mut b, ":");
    push_decimal(&mut b, peer);
    push_str(&mut b, ":");
    push_decimal(&mut b, last);
    let r = string_from_chars(&b);
    assert(r@ == msg_key_of(scene, peer, onebot, seq)->0);
    Some(r)
}

} // verus!
