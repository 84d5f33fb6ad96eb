//! The administrator's coin command: reading the action, checking the target and the
//! amount, and the audit reason written with every adjustment. The account changes
//! themselves happen in the shared account store.

use vstd::prelude::*;

use crate::text::{chars_of, decimal, eq_lit, lower_chars, lowercase, push_decimal, push_str, string_from_chars, trim, trimmed};

verus! {

/// The coin command's action.
#[derive(Clone, Copy, Debug, PartialEq, Eq, Structural)]
pub enum CoinOp {
    /// Add coins.
    Add,
    /// Take coins, down to zero at most.
    Sub,
    /// Set the balance.
    Assign,
}

/// The action a word names: `add` / `加`, `sub` / `扣` / `减`, `set` / `设` / `设为` / `设定`,
/// in any case.
pub open spec fn op_named(s: Seq<char>) -> Option<CoinOp> {
    let t = lowercase(trim(s));
    if t == "add"@ || t == "加"@ {
        Some(CoinOp::Add)
    } else if t == "sub"@ || t == "扣"@ || t == "减"@ {
        Some(CoinOp::Sub)
    } else if t == "set"@ || t == "设"@ || t == "设为"@ || t == "设定"@ {
        Some(CoinOp::Assign)
    } else {
        None
    }
}

impl CoinOp {
    /// Reads the action word (see [`op_named`]).
    pub fn parse(s: &str) -> (r: Option<CoinOp>)
        ensures
            r == op_named(s@),
    {
        let t = trimmed(s);
        let l = lower_chars(&t);
        if eq_lit(&l, "add") || eq_lit(&l, "加") {
            Some(CoinOp::Add)
        } else if eq_lit(&l, "sub") || eq_lit(&l, "扣") || eq_lit(&l, "减") {
            Some(CoinOp::Sub)
        } else if eq_lit(&l, "set") || eq_lit(&l, "设") || eq_lit(&l, "设为") || eq_lit(&l, "设定") {
            Some(CoinOp::Assign)
        } else {
            None
        }
    }
}

/// Smallest account number of a person.
pub const MIN_UIN: i64 = 10000;

/// Why a coin command is turned down, or that it may go ahead.
#[derive(Clone, Copy, Debug, PartialEq, Eq, Structural)]
pub enum CoinCheck {
    /// No one named.
    NoTarget,
    /// The number named is no person's.
    BadTarget,
    /// No amount given.
    NoAmount,
    /// Adding or taking needs a positive amount.
    NotPositive,
    /// A balance cannot be set below zero.
    Negative,
    /// Go ahead.
    Go,
}

/// Checks a coin command in order: a target, a person's number, an amount, then the
/// amount's sign for the action.
pub fn coin_check(op: CoinOp, target: Option<i64>, amount: Option<i64>) -> (r: CoinCheck)
    ensures
        r == match target {
            None => CoinCheck::NoTarget,
            Some(t) => if t < MIN_UIN {
                CoinCheck::BadTarget
            } else {
                match amount {
                    None => CoinCheck::NoAmount,
                    Some(a) => match op {
                        CoinOp::Add | CoinOp::Sub => if a <= 0 { CoinCheck::NotPositive } else { CoinCheck::Go },
                        CoinOp::Assign => if a < 0 { CoinCheck::Negative } else { CoinCheck::Go },
                    },
                }
            },
        },
{
    let t = match target {
        None => {
            return CoinCheck::NoTarget;
        },
        Some(t) => t,
    };
    if t < MIN_UIN {
        return CoinCheck::BadTarget;
    }
    let a = match amount {
        None => {
            return CoinCheck::NoAmount;
        },
        Some(a) => a,
    };
    match op {
        CoinOp::Add | CoinOp::Sub => if a <= 0 {
            CoinCheck::NotPositive
        } else {
            CoinCheck::Go
        },
        CoinOp::Assign => if a < 0 {
            CoinCheck::Negative
        } else {
            CoinCheck::Go
        },
    }
}

/// How a deduction went: nothing to take, all of a smaller balance taken, or the full
/// amount taken.
#[derive(Clone, Copy, Debug, PartialEq, Eq, Structural)]
pub enum SubOutcome {
    Nothing,
    Emptied,
    Full,
}

/// Classifies a deduction of `amount` that took `took`.
pub fn sub_outcome(took: i64, amount: i64) -> (r: SubOutcome)
    ensures
        r == if took == 0 {
            SubOutcome::Nothing
        } else if took < amount {
            SubOutcome::Emptied
        } else {
            SubOutcome::Full
        },
{
    if took == 0 {
        SubOutcome::Nothing
    } else if took < amount {
        SubOutcome::Emptied
    } else {
        SubOutcome::Full
    }
}

/// The audit reason of an adjustment: what was done and by which operator.
pub fn coin_reason(op: CoinOp, operator: i64) -> (r: String)
    ensures
        r@ == match op {
            CoinOp::Add => "管理员加币·操作者 "@,
            CoinOp::Sub => "管理员扣币·操作者 "@,
            CoinOp::Assign => "管理员设额·操作者 "@,
        } + decimal(operator as int),
{
    let mut b: Vec<char> = Vec::new();
    match op {
        CoinOp::Add => push_str(&mut b, "管理员加币·操作者 "),
        CoinOp::Sub => push_str(&mut b, "管理员扣币·操作者 "),
        CoinOp::Assign => push_str(&mut b, "管理员设额·操作者 "),
    }
    push_decimal(&mut b, operator);
    string_from_chars(&b)
}

} // verus!
