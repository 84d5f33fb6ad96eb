//! Self-chosen nicknames and their colours: the eight preset colours, parsing a colour
//! request, and the decisions of the rename and colour commands (whose payment and
//! storage happen around them).

use vstd::prelude::*;

use crate::text::{
    chars_of, eq_chars, eq_ignore_ascii_case, eq_ignore_case_chars, eq_lit, push_str,
    string_from_chars, strip_suffix, strip_suffix_lit, trim, trim_chars,
};

verus! {

/// Longest nickname in characters.
pub const ALIAS_MAX_CHARS: usize = 16;
/// Price of setting a nickname.
pub const RENAME_COST: i64 = 50;
/// Price of colouring the nickname.
pub const COLOR_COST: i64 = 200;

/// The preset colours: (name, `#rrggbb`).
pub const NAMED_COLORS: [(&'static str, &'static str); 8] = [
    ("红", "#e23b3b"),
    ("橙", "#e07a1f"),
    ("黄", "#d8a200"),
    ("绿", "#36a94a"),
    ("青", "#15b3a4"),
    ("蓝", "#3b7be0"),
    ("紫", "#8a5cc4"),
    ("粉", "#e06699"),
];

/// Name of preset colour `i` (`0 <= i < 8`).
pub open spec fn preset_name(i: int) -> Seq<char> {
    if i == 0 {
        "红"@
    } else if i == 1 {
        "橙"@
    } else if i == 2 {
        "黄"@
    } else if i == 3 {
        "绿"@
    } else if i == 4 {
        "青"@
    } else if i == 5 {
        "蓝"@
    } else if i == 6 {
        "紫"@
    } else {
        "粉"@
    }
}

/// Hex code of preset colour `i` (`0 <= i < 8`).
pub open spec fn preset_hex(i: int) -> Seq<char> {
    if i == 0 {
        "#e23b3b"@
    } else if i == 1 {
        "#e07a1f"@
    } else if i == 2 {
        "#d8a200"@
    } else if i == 3 {
        "#36a94a"@
    } else if i == 4 {
        "#15b3a4"@
    } else if i == 5 {
        "#3b7be0"@
    } else if i == 6 {
        "#8a5cc4"@
    } else {
        "#e06699"@
    }
}

fn preset(i: usize) -> (r: (&'static str, &'static str))
    requires
        i < 8,
    ensures
        r.0@ == preset_name(i as int),
        r.1@ == preset_hex(i as int),
{
    if i == 0 {
        ("红", "#e23b3b")
    } else if i == 1 {
        ("橙", "#e07a1f")
    } else if i == 2 {
        ("黄", "#d8a200")
    } else if i == 3 {
        ("绿", "#36a94a")
    } else if i == 4 {
        ("青", "#15b3a4")
    } else if i == 5 {
        ("蓝", "#3b7be0")
    } else if i == 6 {
        ("紫", "#8a5cc4")
    } else {
        ("粉", "#e06699")
    }
}

/// The first `k` preset names joined by ` / `.
pub open spec fn names_joined(k: int) -> Seq<char>
    decreases k,
{
    if k <= 0 {
        seq![]
    } else if k == 1 {
        preset_name(0)
    } else {
        names_joined(k - 1) + " / "@ + preset_name(k - 1)
    }
}

/// The preset colour names for prompts: `红 / 橙 / … / 粉`.
pub fn color_names() -> (r: String)
    ensures
        r@ == names_joined(8),
{
    let mut b: Vec<char> = Vec::new();
    let mut i: usize = 0;
    while i < 8
        invariant
            i <= 8,
            b@ == names_joined(i as int),
        decreases 8 - i,
    {
        let (n, _) = preset(i);
        if i > 0 {
            push_str(&mut b, " / ");
        }
        push_str(&mut b, n);
        assert(b@ =~= names_joined(i + 1));
        i = i + 1;
    }
    string_from_chars(&b)
}

/// Index of the first preset whose hex code equals `hex` ignoring ASCII case, or −1.
pub open spec fn preset_by_hex(hex: Seq<char>, from: int) -> int
    decreases 8 - from,
{
    if from >= 8 {
        -1
    } else if eq_ignore_ascii_case(preset_hex(from), hex) {
        from
    } else {
        preset_by_hex(hex, from + 1)
    }
}

/// How a colour is shown: the preset's name when `hex` is a preset (ignoring ASCII
/// case), otherwise `hex` itself.
pub open spec fn label_of(hex: Seq<char>) -> Seq<char> {
    let i = preset_by_hex(hex, 0);
    if i >= 0 {
        preset_name(i)
    } else {
        hex
    }
}

/// The preset colour name of `hex`, or `hex` itself when it is no preset.
pub fn color_label(hex: &str) -> (r: String)
    ensures
        r@ == label_of(hex@),
{
    let h = chars_of(hex);
    let mut i: usize = 0;
    while i < 8
        invariant
            i <= 8,
            h@ == hex@,
            preset_by_hex(hex@, 0) == preset_by_hex(hex@, i as int),
        decreases 8 - i,
    {
        let (n, x) = preset(i);
        let xv = chars_of(x);
        if eq_ignore_case_chars(&xv, &h) {
            let nv = chars_of(n);
            return string_from_chars(&nv);
        }
        i = i + 1;
    }
    string_from_chars(&h)
}

/// A colour request.
#[derive(Debug)]
pub enum ColorInput {
    /// Set the colour to this preset hex code.
    Pick(String),
    /// Remove the colour.
    Clear,
    /// Not a preset colour.
    Unknown,
}

/// Index of the preset named exactly `name`, or −1.
pub open spec fn preset_by_name(name: Seq<char>, from: int) -> int
    decreases 8 - from,
{
    if from >= 8 {
        -1
    } else if preset_name(from) == name {
        from
    } else {
        preset_by_name(name, from + 1)
    }
}

/// What a colour request means, as the preset index to set (−1 clear, −2 unknown):
/// the trimmed text is a clearing word, or a preset name with an optional trailing 色.
pub open spec fn color_choice(s: Seq<char>) -> int {
    let t = trim(s);
    if t == "清除"@ || t == "取消"@ || t == "默认"@ || t == "去色"@ || t == "无"@ {
        -1
    } else {
        let name = match strip_suffix(t, "色"@) {
            Some(n) => n,
            None => t,
        };
        let i = preset_by_name(name, 0);
        if i >= 0 {
            i
        } else {
            -2
        }
    }
}

/// Parses a colour request (see [`color_choice`]).
pub fn parse_color(s: &str) -> (r: ColorInput)
    ensures
        color_choice(s@) == -1 ==> r is Clear,
        color_choice(s@) == -2 ==> r is Unknown,
        color_choice(s@) >= 0 ==> (r matches ColorInput::Pick(h) && h@ == preset_hex(color_choice(s@))),
{
    let v = chars_of(s);
    let t = trim_chars(&v);
    if eq_lit(&t, "清除") || eq_lit(&t, "取消") || eq_lit(&t, "默认") || eq_lit(&t, "去色") || eq_lit(&t, "无") {
        return ColorInput::Clear;
    }
    let name = match strip_suffix_lit(&t, "色") {
        Some(n) => n,
        None => t,
    };
    let mut i: usize = 0;
    while i < 8
        invariant
            i <= 8,
            ({
                let tt = trim(s@);
                let nn = match strip_suffix(tt, "色"@) {
                    Some(n) => n,
                    None => tt,
                };
                nn == name@ && preset_by_name(nn, 0) == preset_by_name(nn, i as int)
            }),
            !(trim(s@) == "清除"@ || trim(s@) == "取消"@ || trim(s@) == "默认"@ || trim(s@) == "去色"@
                || trim(s@) == "无"@),
        decreases 8 - i,
    {
        let (n, x) = preset(i);
        if eq_lit(&name, n) {
            let xv = chars_of(x);
            return ColorInput::Pick(string_from_chars(&xv));
        }
        i = i + 1;
    }
    ColorInput::Unknown
}

/// What the rename command does with its (trimmed) argument `raw` for a player whose
/// nickname is `alias`.
#[derive(Clone, Copy, Debug, PartialEq, Eq, Structural)]
pub enum RenameStep {
    /// No argument: show the current nickname.
    Show,
    /// Asked to clear but there is no nickname.
    AlreadyNone,
    /// Clear the nickname (free).
    Clear,
    /// Longer than [`ALIAS_MAX_CHARS`].
    TooLong,
    /// Same as the current nickname (nothing charged).
    Same,
    /// Charge [`RENAME_COST`] and set the nickname to `raw`.
    Charge,
}

/// The rename decision (see [`RenameStep`]), checked in this order.
pub open spec fn rename_step_of(raw: Seq<char>, alias: Seq<char>) -> RenameStep {
    if raw.len() == 0 {
        RenameStep::Show
    } else if raw == "清除"@ || raw == "取消"@ {
        if alias.len() == 0 {
            RenameStep::AlreadyNone
        } else {
            RenameStep::Clear
        }
    } else if raw.len() > ALIAS_MAX_CHARS {
        RenameStep::TooLong
    } else if alias == raw {
        RenameStep::Same
    } else {
        RenameStep::Charge
    }
}

/// Decides the rename command for the trimmed argument `raw` and the current `alias`.
pub fn rename_step(raw: &Vec<char>, alias: &str) -> (r: RenameStep)
    ensures
        r == rename_step_of(raw@, alias@),
{
    let a = chars_of(alias);
    if raw.len() == 0 {
        RenameStep::Show
    } else if eq_lit(raw, "清除") || eq_lit(raw, "取消") {
        if a.len() == 0 {
            RenameStep::AlreadyNone
        } else {
            RenameStep::Clear
        }
    } else if raw.len() > ALIAS_MAX_CHARS {
        RenameStep::TooLong
    } else if eq_chars(&a, raw) {
        RenameStep::Same
    } else {
        RenameStep::Charge
    }
}

/// What the colour command does.
#[derive(Debug)]
pub enum ColorStep {
    /// No argument: show the palette preview.
    Palette,
    /// Asked to clear but the nickname has no colour.
    NothingToClear,
    /// Remove the colour (free).
    Clear,
    /// Not a preset colour.
    Unknown,
    /// A colour needs a nickname first.
    NeedAlias,
    /// Already this colour (nothing charged).
    Same,
    /// Charge [`COLOR_COST`] and set this hex code.
    Charge(String),
}

/// Decides the colour command for the trimmed argument `raw`, the current nickname
/// `alias` and its colour `current`.
pub fn color_step(raw: &str, alias: &str, current: &str) -> (r: ColorStep)
    ensures
        raw@.len() == 0 ==> r is Palette,
        raw@.len() > 0 && color_choice(raw@) == -1 ==> (if current@.len() == 0 { r is NothingToClear } else { r is Clear }),
        raw@.len() > 0 && color_choice(raw@) == -2 ==> r is Unknown,
        raw@.len() > 0 && color_choice(raw@) >= 0 ==> {
            let hex = preset_hex(color_choice(raw@));
            if alias@.len() == 0 {
                r is NeedAlias
            } else if eq_ignore_ascii_case(current@, hex) {
                r is Same
            } else {
                r matches ColorStep::Charge(h) && h@ == hex
            }
        },
{
    let rv = chars_of(raw);
    if rv.len() == 0 {
        return ColorStep::Palette;
    }
    match parse_color(raw) {
        ColorInput::Clear => {
            let c = chars_of(current);
            if c.len() == 0 {
                ColorStep::NothingToClear
            } else {
                ColorStep::Clear
            }
        },
        ColorInput::Unknown => ColorStep::Unknown,
        ColorInput::Pick(hex) => {
            let a = chars_of(alias);
            let c = chars_of(current);
            let h = chars_of(hex.as_str());
            if a.len() == 0 {
                ColorStep::NeedAlias
            } else if eq_ignore_case_chars(&c, &h) {
                ColorStep::Same
            } else {
                ColorStep::Charge(hex)
            }
        },
    }
}

} // verus!
