//! The personal-data summary: what the card shows and its text form.

use vstd::prelude::*;

use crate::text::{decimal, push_decimal, push_str, push_chars, chars_of, string_from_chars};

verus! {

/// What the bot calls its coins.
pub const COIN_NAME: &'static str = "游戏币";

/// A level and the progress through it.
#[derive(Clone, Copy, Debug, PartialEq, Eq, Structural)]
pub struct LevelInfo {
    pub level: i64,
    /// Experience gained within the level.
    pub into_level: i64,
    /// Experience the level spans.
    pub level_span: i64,
}

/// Everything the personal-data card shows.
#[derive(Clone, Debug)]
pub struct MyDataCard {
    /// Display name.
    pub name: String,
    /// Site user id.
    pub uid: i64,
    pub uin: i64,
    /// Avatar picture, when it could be fetched.
    pub avatar: Option<Vec<u8>>,
    pub coin: i64,
    pub exp: i64,
    pub level: LevelInfo,
    /// Statistics lines contributed by the features.
    pub stats: Vec<String>,
    /// Game record lines, shown in a section of their own when present.
    pub games: Vec<String>,
}

/// The lines joined by newlines.
pub open spec fn lines_joined(ls: Seq<Seq<char>>) -> Seq<char>
    decreases ls.len(),
{
    if ls.len() == 0 {
        seq![]
    } else if ls.len() == 1 {
        ls[0]
    } else {
        lines_joined(ls.drop_last()) + "\n"@ + ls.last()
    }
}

/// The lines of the text summary: name, coins, level with progress and experience, the
/// statistics lines, then `战绩` and the game lines when there are any.
pub open spec fn summary_lines(c: MyDataCard) -> Seq<Seq<char>> {
    let head = seq![
        c.name@ + " 的数据"@,
        COIN_NAME@ + "："@ + decimal(c.coin as int),
        "等级：Lv."@ + decimal(c.level.level as int) + "（"@ + decimal(c.level.into_level as int) + "/"@
            + decimal(c.level.level_span as int) + "），经验 "@ + decimal(c.exp as int),
    ];
    let stats = c.stats@.map_values(|s: String| s@);
    let games = c.games@.map_values(|s: String| s@);
    if games.len() == 0 {
        head + stats
    } else {
        head + stats + seq!["战绩"@] + games
    }
}

fn push_lines(b: &mut Vec<char>, ls: &Vec<String>, ghost_prefix: Ghost<Seq<Seq<char>>>)
    requires
        ghost_prefix@.len() > 0,
        old(b)@ == lines_joined(ghost_prefix@),
    ensures
        final(b)@ == lines_joined(ghost_prefix@ + ls@.map_values(|s: String| s@)),
{
    let ghost pre = ghost_prefix@;
    let mut i: usize = 0;
    while i < ls.len()
        invariant
            i <= ls.len(),
            pre.len() > 0,
            b@ == lines_joined(pre + ls@.map_values(|s: String| s@).take(i as int)),
        decreases ls.len() - i,
    {
        let ghost all = pre + ls@.map_values(|s: String| s@).take(i + 1);
        assert(all.drop_last() =~= pre + ls@.map_values(|s: String| s@).take(i as int));
        assert(all.last() == ls@[i as int]@);
        push_str(b, "\n");
        push_str(b, ls[i].as_str());
        proof {
            reveal_strlit("\n");
        }
        i = i + 1;
    }
    assert(ls@.map_values(|s: String| s@).take(ls.len() as int) =~= ls@.map_values(|s: String| s@));
}

/// The text form of the card (used when the picture cannot be drawn): the
/// [`summary_lines`] joined by newlines.
pub fn text_summary(c: &MyDataCard) -> (r: String)
    ensures
        r@ == lines_joined(summary_lines(*c)),
{
    let mut b: Vec<char> = Vec::new();
    push_str(&mut b, c.name.as_str());
    push_str(&mut b, " 的数据");
    let ghost l0 = c.name@ + " 的数据"@;
    assert(b@ == lines_joined(seq![l0]));
    push_str(&mut b, "\n");
    push_str(&mut b, COIN_NAME);
    push_str(&mut b, "：");
    push_decimal(&mut b, c.coin);
    let ghost l1 = COIN_NAME@ + "："@ + decimal(c.coin as int);
    assert(seq![l0, l1].drop_last() =~= seq![l0]);
    assert(b@ =~= lines_joined(seq![l0, l1]));
    push_str(&mut b, "\n");
    push_str(&mut b, "等级：Lv.");
    push_decimal(&mut b, c.level.level);
    push_str(&mut b, "（");
    push_decimal(&mut b, c.level.into_level);
    push_str(&mut b, "/");
    push_decimal(&mut b, c.level.level_span);
    push_str(&mut b, "），经验 ");
    push_decimal(&mut b, c.exp);
    let ghost l2 = "等级：Lv."@ + decimal(c.level.level as int) + "（"@ + decimal(c.level.into_level as int) + "/"@
        + decimal(c.level.level_span as int) + "），经验 "@ + decimal(c.exp as int);
    let ghost head = seq![l0, l1, l2];
    assert(head.drop_last() =~= seq![l0, l1]);
    assert(b@ =~= lines_joined(head));
    push_lines(&mut b, &c.stats, Ghost(head));
    let ghost stats = c.stats@.map_values(|s: String| s@);
    if c.games.len() > 0 {
        push_str(&mut b, "\n");
        push_str(&mut b, "战绩");
        let ghost with_title = head + stats + seq!["战绩"@];
        assert(with_title.drop_last() =~= head + stats);
        assert(b@ =~= lines_joined(with_title));
        push_lines(&mut b, &c.games, Ghost(with_title));
    }
    string_from_chars(&b)
}

/// The start-up notice sent to the owner: account, feature and command counts, and the
/// time (formatted outside).
pub fn online_notice(self_id: i64, plugins: usize, commands: usize, now: &str) -> (r: String)
    requires
        plugins <= i64::MAX,
        commands <= i64::MAX,
    ensures
        r@ == "abot 已上线\n账号 "@ + decimal(self_id as int) + "\n插件 "@ + decimal(plugins as int) + "，命令 "@
            + decimal(commands as int) + "\n"@ + now@,
{
    let mut b: Vec<char> = Vec::new();
    push_str(&mut b, "abot 已上线\n账号 ");
    push_decimal(&mut b, self_id);
    push_str(&mut b, "\n插件 ");
    push_decimal(&mut b, plugins as i64);
    push_str(&mut b, "，命令 ");
    push_decimal(&mut b, commands as i64);
    push_str(&mut b, "\n");
    push_str(&mut b, now);
    string_from_chars(&b)
}

} // verus!
