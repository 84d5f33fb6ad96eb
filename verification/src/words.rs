//! The shared yes/no vocabulary of the interactive prompts (confirmations, picture
//! collection, follow-up questions).

use vstd::prelude::*;

use crate::text::{eq_lit, lowercase, lower_chars, trim, trim_chars, chars_of};

verus! {

/// Whether an answer, trimmed and lowercased, is one of the cancel words.
pub open spec fn cancel_word(s: Seq<char>) -> bool {
    let t = lowercase(trim(s));
    t == "n"@ || t == "no"@ || t == "否"@ || t == "不"@ || t == "不要"@ || t == "取消"@ || t == "算了"@
        || t == "退出"@ || t == "cancel"@ || t == "quit"@
}

/// Whether an answer, trimmed and lowercased, is one of the agreeing words.
pub open spec fn yes_word(s: Seq<char>) -> bool {
    let t = lowercase(trim(s));
    t == "y"@ || t == "yes"@ || t == "是"@ || t == "确认"@ || t == "嗯"@ || t == "好"@ || t == "好的"@
        || t == "行"@ || t == "可以"@ || t == "ok"@
}

/// Whether an answer cancels (see [`cancel_word`]).
pub fn is_cancel(s: &str) -> (b: bool)
    ensures
        b == cancel_word(s@),
{
    let v = chars_of(s);
    let t = trim_chars(&v);
    let l = lower_chars(&t);
    eq_lit(&l, "n") || eq_lit(&l, "no") || eq_lit(&l, "否") || eq_lit(&l, "不") || eq_lit(&l, "不要")
        || eq_lit(&l, "取消") || eq_lit(&l, "算了") || eq_lit(&l, "退出") || eq_lit(&l, "cancel") || eq_lit(
        &l,
        "quit",
    )
}

/// Whether an answer agrees (see [`yes_word`]).
pub fn is_yes(s: &str) -> (b: bool)
    ensures
        b == yes_word(s@),
{
    let v = chars_of(s);
    let t = trim_chars(&v);
    let l = lower_chars(&t);
    eq_lit(&l, "y") || eq_lit(&l, "yes") || eq_lit(&l, "是") || eq_lit(&l, "确认") || eq_lit(&l, "嗯")
        || eq_lit(&l, "好") || eq_lit(&l, "好的") || eq_lit(&l, "行") || eq_lit(&l, "可以") || eq_lit(&l, "ok")
}

/// No answer both agrees and cancels: the two word lists are disjoint, so a yes/no
/// prompt reads every answer as at most one of them.
pub proof fn lemma_yes_and_cancel_exclusive(s: Seq<char>)
    ensures
        !(yes_word(s) && cancel_word(s)),
{
    reveal_strlit("n");
    reveal_strlit("no");
    reveal_strlit("否");
    reveal_strlit("不");
    reveal_strlit("不要");
    reveal_strlit("取消");
    reveal_strlit("算了");
    reveal_strlit("退出");
    reveal_strlit("cancel");
    reveal_strlit("quit");
    reveal_strlit("y");
    reveal_strlit("yes");
    reveal_strlit("是");
    reveal_strlit("确认");
    reveal_strlit("嗯");
    reveal_strlit("好");
    reveal_strlit("好的");
    reveal_strlit("行");
    reveal_strlit("可以");
    reveal_strlit("ok");
    let t = lowercase(trim(s));
    if cancel_word(s) {
        assert(t[0] == 'n' || t[0] == '否' || t[0] == '不' || t[0] == '取' || t[0] == '算' || t[0] == '退'
            || t[0] == 'c' || t[0] == 'q');
    }
    if yes_word(s) {
        assert(t[0] == 'y' || t[0] == '是' || t[0] == '确' || t[0] == '嗯' || t[0] == '好' || t[0] == '行'
            || t[0] == '可' || t[0] == 'o');
    }
}

} // verus!
