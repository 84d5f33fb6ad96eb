//! The help menu, generated from the registered features and commands: the menu's
//! order and numbering, resolving what `help <target>` asks for, the per-command usage
//! lines, and the text forms of the menu and of a feature's detail card. The registry
//! itself and the on/off switches are read outside and handed in as plain values.

use vstd::prelude::*;

use crate::text::{
    chars_of, decimal, eq_chars, in_range, parse_usize, push_chars, push_decimal, push_str,
    string_from_chars, unsigned_literal, digits_of, lemma_digits_literal,
};

verus! {

/// A feature category, in the menu's order.
#[derive(Clone, Copy, Debug, PartialEq, Eq, Structural)]
pub enum Category {
    Fun,
    Tool,
    User,
    Admin,
    Push,
    Core,
}

/// The categories in menu order.
pub open spec fn category_at(i: int) -> Category {
    if i == 0 {
        Category::Fun
    } else if i == 1 {
        Category::Tool
    } else if i == 2 {
        Category::User
    } else if i == 3 {
        Category::Admin
    } else if i == 4 {
        Category::Push
    } else {
        Category::Core
    }
}

/// The heading of a category.
pub open spec fn category_label(c: Category) -> Seq<char> {
    match c {
        Category::Fun => "娱乐"@,
        Category::Tool => "工具"@,
        Category::User => "用户"@,
        Category::Admin => "管理"@,
        Category::Push => "推送"@,
        Category::Core => "核心"@,
    }
}

fn category_entry(i: usize) -> (r: (Category, &'static str))
    requires
        i < 6,
    ensures
        r.0 == category_at(i as int),
        r.1@ == category_label(r.0),
{
    if i == 0 {
        (Category::Fun, "娱乐")
    } else if i == 1 {
        (Category::Tool, "工具")
    } else if i == 2 {
        (Category::User, "用户")
    } else if i == 3 {
        (Category::Admin, "管理")
    } else if i == 4 {
        (Category::Push, "推送")
    } else {
        (Category::Core, "核心")
    }
}

/// A registered feature.
#[derive(Clone, Debug)]
pub struct PluginInfo {
    /// Explicit key; empty when the feature is keyed by its module path.
    pub key: String,
    pub mod_path: String,
    pub name: String,
    pub description: String,
    pub category: Category,
    /// Background features stay out of the menu.
    pub hidden: bool,
    pub can_disable: bool,
    pub default_enable: bool,
}

/// How an argument is written.
#[derive(Clone, Copy, Debug, PartialEq, Eq, Structural)]
pub enum ArgKind {
    /// A switch: `-a`.
    Flag,
    /// An option with a value: `-r 次数`.
    Opt,
    /// The rest of the text.
    Rest,
    /// A positional argument (a word, a mention or an id).
    Positional,
}

/// A command argument.
#[derive(Clone, Debug)]
pub struct ArgInfo {
    pub kind: ArgKind,
    pub name: String,
    pub short: String,
    pub long: String,
    pub required: bool,
    pub desc: String,
}

/// A registered trigger (commands and event handlers).
#[derive(Clone, Debug)]
pub struct TriggerInfo {
    pub is_command: bool,
    pub hidden: bool,
    /// The key of the feature it belongs to.
    pub plugin_key: String,
    pub key: String,
    /// The command words, the main one first.
    pub words: Vec<String>,
    pub name: String,
    pub id: String,
    pub description: String,
    pub usage: String,
    /// An explicit usage template; empty when it is generated from the arguments.
    pub synopsis: String,
    /// Position among the feature's commands.
    pub order: i32,
    pub args: Vec<ArgInfo>,
}

/// One feature row of the menu.
#[derive(Clone, Debug)]
pub struct MenuRow {
    /// Number over the whole menu (what `help <number>` reads).
    pub idx: usize,
    pub name: String,
    pub desc: String,
    /// Switched off where the menu is asked.
    pub off: bool,
}

/// One command of a feature's detail card.
#[derive(Clone, Debug)]
pub struct CmdInfo {
    /// Number within the feature (by command order).
    pub idx: usize,
    pub primary: String,
    pub aliases: Vec<String>,
    pub off: bool,
    pub desc: String,
    pub synopsis: String,
    /// Per argument: its heading and its description.
    pub params: Vec<(String, String)>,
    pub note: String,
}

/// A feature's detail card.
#[derive(Clone, Debug)]
pub struct DetailCard {
    pub name: String,
    pub desc: String,
    pub off: bool,
    pub cmds: Vec<CmdInfo>,
}

/// The theme colours the help cards use.
#[derive(Clone, Debug)]
pub struct Palette {
    pub primary: String,
    pub muted: String,
    pub soft: String,
}

/// The word for a switch state.
pub fn status_word(off: bool) -> (r: &'static str)
    ensures
        r@ == if off { "停用"@ } else { "启用"@ },
{
    if off {
        "停用"
    } else {
        "启用"
    }
}

/// The colour of a switch state: the muted colour when off, the primary when on.
pub fn status_color(pal: &Palette, off: bool) -> (r: &str)
    ensures
        r@ == if off { pal.muted@ } else { pal.primary@ },
{
    if off {
        pal.muted.as_str()
    } else {
        pal.primary.as_str()
    }
}

// ---------------------------------------------------------------------------
// Keys and descriptions
// ---------------------------------------------------------------------------

/// The part of a path after its last `::` (the whole path without one).
pub open spec fn last_seg(s: Seq<char>) -> Seq<char>
    decreases s.len(),
{
    if s.len() == 0 {
        s
    } else if s.len() >= 2 && s[s.len() - 2] == ':' && s.last() == ':' {
        seq![]
    } else {
        last_seg(s.drop_last()).push(s.last())
    }
}

/// A feature's effective key: its explicit key, else the last segment of its module path.
pub open spec fn eff_key(p: PluginInfo) -> Seq<char> {
    if p.key@.len() > 0 {
        p.key@
    } else {
        last_seg(p.mod_path@)
    }
}

fn last_segment(s: &Vec<char>) -> (r: Vec<char>)
    ensures
        r@ == last_seg(s@),
{
    let mut start: usize = s.len();
    assert(s@.take(start as int) =~= s@);
    assert(s@.skip(start as int) =~= Seq::<char>::empty());
    assert(last_seg(s@) + Seq::<char>::empty() =~= last_seg(s@));
    while start > 0 && !(start >= 2 && s[start - 2] == ':' && s[start - 1] == ':')
        invariant
            start <= s.len(),
            last_seg(s@) == last_seg(s@.take(start as int)) + s@.skip(start as int),
        decreases start,
    {
        let ghost t = s@.take(start as int);
        assert(t.drop_last() =~= s@.take(start - 1));
        assert(t.last() == s@[start - 1]);
        assert(s@.skip(start - 1) =~= seq![s@[start - 1]] + s@.skip(start as int));
        assert(last_seg(t) == last_seg(t.drop_last()).push(t.last()));
        assert(last_seg(t.drop_last()).push(t.last()) + s@.skip(start as int) =~= last_seg(s@.take(start - 1)) + s@.skip(start - 1));
        start = start - 1;
    }
    let r = crate::text::slice_chars(s, start, s.len());
    proof {
        let t = s@.take(start as int);
        if start == 0 {
            assert(t =~= Seq::<char>::empty());
        } else {
            assert(t[t.len() - 2] == ':' && t.last() == ':');
        }
        assert(last_seg(t) =~= Seq::<char>::empty());
        assert(r@ =~= s@.skip(start as int));
    }
    r
}

/// A feature's effective key (see [`eff_key`]).
pub fn effective_key(p: &PluginInfo) -> (r: String)
    ensures
        r@ == eff_key(*p),
{
    let k = chars_of(p.key.as_str());
    if k.len() > 0 {
        string_from_chars(&k)
    } else {
        let m = chars_of(p.mod_path.as_str());
        let seg = last_segment(&m);
        string_from_chars(&seg)
    }
}

/// Whether a trigger is a visible command of the feature keyed `key`.
pub open spec fn shown_cmd_of(t: TriggerInfo, key: Seq<char>) -> bool {
    t.is_command && !t.hidden && t.plugin_key@ == key
}

/// The visible commands of the feature keyed `key`, by position in `ts`.
pub open spec fn cmds_of(ts: Seq<TriggerInfo>, key: Seq<char>) -> Seq<usize>
    decreases ts.len(),
{
    if ts.len() == 0 {
        seq![]
    } else if shown_cmd_of(ts.last(), key) {
        cmds_of(ts.drop_last(), key).push((ts.len() - 1) as usize)
    } else {
        cmds_of(ts.drop_last(), key)
    }
}

fn commands_of(ts: &Vec<TriggerInfo>, key: &Vec<char>) -> (r: Vec<usize>)
    ensures
        r@ == cmds_of(ts@, key@),
        forall|k: int| 0 <= k < r@.len() ==> (#[trigger] r@[k]) < ts@.len(),
{
    let mut out: Vec<usize> = Vec::new();
    let mut i: usize = 0;
    while i < ts.len()
        invariant
            i <= ts.len(),
            out@ == cmds_of(ts@.take(i as int), key@),
            forall|k: int| 0 <= k < out@.len() ==> (#[trigger] out@[k]) < i,
        decreases ts.len() - i,
    {
        assert(ts@.take(i + 1).drop_last() =~= ts@.take(i as int));
        assert(ts@.take(i + 1).last() == ts@[i as int]);
        let pk = chars_of(ts[i].plugin_key.as_str());
        if ts[i].is_command && !ts[i].hidden && eq_chars(&pk, key) {
            out.push(i);
        }
        i = i + 1;
    }
    assert(ts@.take(ts.len() as int) =~= ts@);
    out
}

/// A feature's menu description: its own, else the description of its only visible
/// command, else nothing.
pub open spec fn desc_of(p: PluginInfo, ts: Seq<TriggerInfo>) -> Seq<char> {
    let cs = cmds_of(ts, eff_key(p));
    if p.description@.len() > 0 {
        p.description@
    } else if cs.len() == 1 {
        ts[cs[0] as int].description@
    } else {
        seq![]
    }
}

/// A feature's menu description (see [`desc_of`]).
pub fn plugin_desc(p: &PluginInfo, ts: &Vec<TriggerInfo>) -> (r: String)
    ensures
        r@ == desc_of(*p, ts@),
{
    let d = chars_of(p.description.as_str());
    if d.len() > 0 {
        return string_from_chars(&d);
    }
    let key = effective_key(p);
    let kv = chars_of(key.as_str());
    let cs = commands_of(ts, &kv);
    if cs.len() == 1 {
        let v = chars_of(ts[cs[0]].description.as_str());
        string_from_chars(&v)
    } else {
        String::new()
    }
}

/// Whether a feature is switched off where the menu is asked: it can be switched off
/// and its switch there (`enabled`, read outside) is off.
pub fn plugin_off(p: &PluginInfo, enabled: bool) -> (r: bool)
    ensures
        r == (p.can_disable && !enabled),
{
    p.can_disable && !enabled
}

/// A name, followed by `（已停用）` when switched off.
pub fn name_with_off(name: &str, off: bool) -> (r: String)
    ensures
        r@ == if off { name@ + "（已停用）"@ } else { name@ },
{
    let mut b = chars_of(name);
    if off {
        push_str(&mut b, "（已停用）");
    }
    string_from_chars(&b)
}

// ---------------------------------------------------------------------------
// Menu order
// ---------------------------------------------------------------------------

/// Strict order of texts: lexicographic by character code (the order of `str`).
pub open spec fn text_lt(a: Seq<char>, b: Seq<char>) -> bool
    decreases a.len(),
{
    if a.len() == 0 {
        b.len() > 0
    } else if b.len() == 0 {
        false
    } else if a[0] != b[0] {
        (a[0] as u32) < (b[0] as u32)
    } else {
        text_lt(a.drop_first(), b.drop_first())
    }
}

/// Compares two texts (see [`text_lt`]).
pub fn text_less(a: &Vec<char>, b: &Vec<char>) -> (r: bool)
    ensures
        r == text_lt(a@, b@),
{
    let mut i: usize = 0;
    assert(a@.skip(0) =~= a@);
    assert(b@.skip(0) =~= b@);
    while i < a.len() && i < b.len() && a[i] == b[i]
        invariant
            i <= a.len(),
            i <= b.len(),
            text_lt(a@, b@) == text_lt(a@.skip(i as int), b@.skip(i as int)),
        decreases a.len() - i,
    {
        assert(a@.skip(i as int).drop_first() =~= a@.skip(i + 1));
        assert(b@.skip(i as int).drop_first() =~= b@.skip(i + 1));
        i = i + 1;
    }
    assert(i < a.len() ==> a@.skip(i as int)[0] == a@[i as int]);
    assert(i < b.len() ==> b@.skip(i as int)[0] == b@[i as int]);
    if i == a.len() {
        i < b.len()
    } else if i == b.len() {
        false
    } else {
        (a[i] as u32) < (b[i] as u32)
    }
}

/// The names of the features, in registry order.
pub open spec fn names(ps: Seq<PluginInfo>) -> Seq<Seq<char>> {
    ps.map_values(|p: PluginInfo| p.name@)
}

/// `l` with `i` inserted before its first entry whose name sorts after `i`'s (after
/// entries of equal name: the insertion is stable).
pub open spec fn insert_by_name(l: Seq<usize>, nm: Seq<Seq<char>>, i: usize) -> Seq<usize>
    decreases l.len(),
{
    if l.len() == 0 {
        seq![i]
    } else if text_lt(nm[i as int], nm[l[0] as int]) {
        seq![i] + l
    } else {
        seq![l[0]] + insert_by_name(l.drop_first(), nm, i)
    }
}

/// Whether a feature is listed under category `c`.
pub open spec fn in_menu(p: PluginInfo, c: Category) -> bool {
    !p.hidden && p.category == c
}

/// The features (among the first `n`) listed under `c`, ordered by name, equal names
/// keeping registry order.
pub open spec fn cat_sorted(ps: Seq<PluginInfo>, c: Category, n: int) -> Seq<usize>
    decreases n,
{
    if n <= 0 {
        seq![]
    } else if in_menu(ps[n - 1], c) {
        insert_by_name(cat_sorted(ps, c, n - 1), names(ps), (n - 1) as usize)
    } else {
        cat_sorted(ps, c, n - 1)
    }
}

proof fn lemma_insert_at(l: Seq<usize>, nm: Seq<Seq<char>>, i: usize, p: int)
    requires
        0 <= p <= l.len(),
        forall|k: int| 0 <= k < p ==> !text_lt(nm[i as int], #[trigger] nm[l[k] as int]),
        p < l.len() ==> text_lt(nm[i as int], nm[l[p] as int]),
    ensures
        insert_by_name(l, nm, i) == l.take(p) + seq![i] + l.skip(p),
    decreases l.len(),
{
    if l.len() == 0 {
        assert(l.take(p) + seq![i] + l.skip(p) =~= seq![i]);
    } else if p == 0 {
        assert(l.take(0) + seq![i] + l.skip(0) =~= seq![i] + l);
    } else {
        let t = l.drop_first();
        assert forall|k: int| 0 <= k < p - 1 implies !text_lt(nm[i as int], #[trigger] nm[t[k] as int]) by {
            assert(t[k] == l[k + 1]);
        }
        if p - 1 < t.len() {
            assert(t[p - 1] == l[p]);
        }
        assert(!text_lt(nm[i as int], nm[l[0] as int]));
        lemma_insert_at(t, nm, i, p - 1);
        assert(seq![l[0]] + (t.take(p - 1) + seq![i] + t.skip(p - 1)) =~= l.take(p) + seq![i] + l.skip(p));
    }
}

proof fn lemma_insert_bounds(l: Seq<usize>, nm: Seq<Seq<char>>, i: usize, n: int)
    requires
        i < n,
        forall|k: int| 0 <= k < l.len() ==> #[trigger] l[k] < n,
    ensures
        forall|k: int| 0 <= k < insert_by_name(l, nm, i).len() ==> #[trigger] insert_by_name(l, nm, i)[k] < n,
        insert_by_name(l, nm, i).len() == l.len() + 1,
    decreases l.len(),
{
    if l.len() > 0 && !text_lt(nm[i as int], nm[l[0] as int]) {
        let t = l.drop_first();
        assert forall|k: int| 0 <= k < t.len() implies #[trigger] t[k] < n by {
            assert(t[k] == l[k + 1]);
        }
        lemma_insert_bounds(t, nm, i, n);
    }
}

/// The features listed under `c`, ordered by name (see [`cat_sorted`]), by position.
pub fn category_plugins(ps: &Vec<PluginInfo>, c: Category) -> (r: Vec<usize>)
    ensures
        r@ == cat_sorted(ps@, c, ps@.len() as int),
        forall|k: int| 0 <= k < r@.len() ==> (#[trigger] r@[k]) < ps@.len(),
{
    let ghost nm = names(ps@);
    let mut out: Vec<usize> = Vec::new();
    let mut i: usize = 0;
    while i < ps.len()
        invariant
            i <= ps.len(),
            nm == names(ps@),
            nm.len() == ps@.len(),
            out@ == cat_sorted(ps@, c, i as int),
            forall|k: int| 0 <= k < out@.len() ==> (#[trigger] out@[k]) < i,
        decreases ps.len() - i,
    {
        if !ps[i].hidden && ps[i].category == c {
            let name_i = chars_of(ps[i].name.as_str());
            assert(nm[i as int] == name_i@);
            let mut p: usize = 0;
            while p < out.len()
                invariant
                    p <= out@.len(),
                    i < ps@.len(),
                    nm == names(ps@),
                    nm.len() == ps@.len(),
                    name_i@ == nm[i as int],
                    forall|k: int| 0 <= k < out@.len() ==> (#[trigger] out@[k]) < i,
                    forall|k: int| 0 <= k < p ==> !text_lt(nm[i as int], #[trigger] nm[out@[k] as int]),
                ensures
                    p <= out@.len(),
                    forall|k: int| 0 <= k < p ==> !text_lt(nm[i as int], #[trigger] nm[out@[k] as int]),
                    p < out@.len() ==> text_lt(nm[i as int], nm[out@[p as int] as int]),
                decreases out@.len() - p,
            {
                let j = out[p];
                let name_j = chars_of(ps[j].name.as_str());
                assert(nm[j as int] == name_j@);
                if text_less(&name_i, &name_j) {
                    break;
                }
                p = p + 1;
            }
            proof {
                lemma_insert_at(out@, nm, i, p as int);
                lemma_insert_bounds(out@, nm, i, i + 1);
            }
            let ghost before = out@;
            out.insert(p, i);
            assert(out@ =~= before.take(p as int) + seq![i] + before.skip(p as int));
        }
        i = i + 1;
    }
    out
}

/// The whole menu in order: the categories in menu order from `c` on, each with its
/// features by name.
pub open spec fn menu_from(ps: Seq<PluginInfo>, c: int) -> Seq<usize>
    decreases 6 - c,
{
    if c >= 6 || c < 0 {
        seq![]
    } else {
        cat_sorted(ps, category_at(c), ps.len() as int) + menu_from(ps, c + 1)
    }
}

/// The whole menu in order (see [`menu_from`]); entry `i` is menu number `i + 1`.
pub fn ordered_plugins(ps: &Vec<PluginInfo>) -> (r: Vec<usize>)
    ensures
        r@ == menu_from(ps@, 0),
        forall|k: int| 0 <= k < r@.len() ==> (#[trigger] r@[k]) < ps@.len(),
{
    let mut out: Vec<usize> = Vec::new();
    let mut c: usize = 0;
    while c < 6
        invariant
            c <= 6,
            menu_from(ps@, 0) == out@ + menu_from(ps@, c as int),
            forall|k: int| 0 <= k < out@.len() ==> (#[trigger] out@[k]) < ps@.len(),
        decreases 6 - c,
    {
        let (cat, _) = category_entry(c);
        let part = category_plugins(ps, cat);
        let ghost before = out@;
        let mut k: usize = 0;
        while k < part.len()
            invariant
                k <= part@.len(),
                out@ == before + part@.take(k as int),
                forall|j: int| 0 <= j < part@.len() ==> (#[trigger] part@[j]) < ps@.len(),
                forall|j: int| 0 <= j < before.len() ==> (#[trigger] before[j]) < ps@.len(),
            decreases part@.len() - k,
        {
            out.push(part[k]);
            assert(part@.take(k + 1) =~= part@.take(k as int).push(part@[k as int]));
            k = k + 1;
        }
        assert(part@.take(part@.len() as int) =~= part@);
        assert(menu_from(ps@, c as int) == part@ + menu_from(ps@, c + 1));
        assert(before + (part@ + menu_from(ps@, c + 1)) =~= out@ + menu_from(ps@, c + 1));
        c = c + 1;
    }
    assert(out@ + menu_from(ps@, 6) =~= out@);
    out
}

// ---------------------------------------------------------------------------
// The overview
// ---------------------------------------------------------------------------

/// The categories from `c` on that list at least one feature, in menu order.
pub open spec fn nonempty_cats(ps: Seq<PluginInfo>, c: int) -> Seq<Category>
    decreases 6 - c,
{
    if c >= 6 || c < 0 {
        seq![]
    } else if cat_sorted(ps, category_at(c), ps.len() as int).len() > 0 {
        seq![category_at(c)] + nonempty_cats(ps, c + 1)
    } else {
        nonempty_cats(ps, c + 1)
    }
}

/// Whether `row` is menu entry number `num` for feature `p`: its name, description and
/// switch state (`en[p]` is the feature's switch where the menu is asked).
pub open spec fn row_shows(row: MenuRow, num: int, ps: Seq<PluginInfo>, ts: Seq<TriggerInfo>, en: Seq<bool>, p: int) -> bool {
    &&& row.idx == num
    &&& row.name@ == ps[p].name@
    &&& row.desc@ == desc_of(ps[p], ts)
    &&& row.off == (ps[p].can_disable && !en[p])
}

/// The rows of the groups, one group after another.
pub open spec fn flat_rows(gs: Seq<(&'static str, Vec<MenuRow>)>) -> Seq<MenuRow>
    decreases gs.len(),
{
    if gs.len() == 0 {
        seq![]
    } else {
        flat_rows(gs.drop_last()) + gs.last().1@
    }
}

/// The menu's groups: for each category with features (in menu order) its heading and
/// rows; the rows, read group after group, are the whole menu in order, numbered from 1.
pub fn overview_groups(ps: &Vec<PluginInfo>, ts: &Vec<TriggerInfo>, enabled: &Vec<bool>) -> (r: Vec<(&'static str, Vec<MenuRow>)>)
    requires
        enabled@.len() == ps@.len(),
        ps@.len() <= usize::MAX / 8,
    ensures
        r@.len() == nonempty_cats(ps@, 0).len(),
        forall|g: int| 0 <= g < r@.len() ==> (#[trigger] r@[g]).0@ == category_label(nonempty_cats(ps@, 0)[g]),
        flat_rows(r@).len() == menu_from(ps@, 0).len(),
        forall|k: int| 0 <= k < flat_rows(r@).len() ==> row_shows(#[trigger] flat_rows(r@)[k], k + 1, ps@, ts@, enabled@, menu_from(ps@, 0)[k] as int),
{
    let mut groups: Vec<(&'static str, Vec<MenuRow>)> = Vec::new();
    let mut count: usize = 0;
    proof {
        lemma_menu_len(ps@, 0);
        assert(menu_from(ps@, 0).take(0) + menu_from(ps@, 0) =~= menu_from(ps@, 0));
    }
    let mut c: usize = 0;
    while c < 6
        invariant
            c <= 6,
            enabled@.len() == ps@.len(),
            groups@.len() + nonempty_cats(ps@, c as int).len() == nonempty_cats(ps@, 0).len(),
            forall|g: int| 0 <= g < groups@.len() ==> (#[trigger] groups@[g]).0@ == category_label(nonempty_cats(ps@, 0)[g]),
            forall|g: int| 0 <= g < nonempty_cats(ps@, c as int).len() ==> nonempty_cats(ps@, 0)[groups@.len() + g] == #[trigger] nonempty_cats(ps@, c as int)[g],
            flat_rows(groups@).len() == count,
            count + menu_from(ps@, c as int).len() == menu_from(ps@, 0).len(),
            menu_from(ps@, 0) == menu_from(ps@, 0).take(count as int) + menu_from(ps@, c as int),
            forall|k: int| 0 <= k < count ==> row_shows(#[trigger] flat_rows(groups@)[k], k + 1, ps@, ts@, enabled@, menu_from(ps@, 0)[k] as int),
            menu_from(ps@, 0).len() <= 6 * ps@.len(),
            ps@.len() <= usize::MAX / 8,
        decreases 6 - c,
    {
        let (cat, label) = category_entry(c);
        let part = category_plugins(ps, cat);
        proof {
            lemma_cat_sorted_len(ps@, cat, ps@.len() as int);
            assert(menu_from(ps@, c as int) == part@ + menu_from(ps@, c + 1));
        }
        if part.len() > 0 {
            let ghost before = groups@;
            let mut rows: Vec<MenuRow> = Vec::new();
            let mut j: usize = 0;
            while j < part.len()
                invariant
                    j <= part@.len(),
                    part@.len() <= ps@.len(),
                    enabled@.len() == ps@.len(),
                    count + part@.len() <= 6 * ps@.len(),
                    ps@.len() <= usize::MAX / 8,
                    forall|k: int| 0 <= k < part@.len() ==> (#[trigger] part@[k]) < ps@.len(),
                    rows@.len() == j,
                    forall|k: int| 0 <= k < j ==> row_shows(#[trigger] rows@[k], count + k + 1, ps@, ts@, enabled@, part@[k] as int),
                decreases part@.len() - j,
            {
                let pi = part[j];
                let p = &ps[pi];
                rows.push(MenuRow {
                    idx: count + j + 1,
                    name: p.name.clone(),
                    desc: plugin_desc(p, ts),
                    off: plugin_off(p, enabled[pi]),
                });
                j = j + 1;
            }
            let ghost rows_v = rows@;
            groups.push((label, rows));
            proof {
                let g2 = groups@;
                assert(g2.drop_last() =~= before);
                assert(g2.last().1@ == rows_v);
                assert(flat_rows(g2) == flat_rows(before) + rows_v);
                assert(nonempty_cats(ps@, c as int) == seq![cat] + nonempty_cats(ps@, c + 1));
                let m0 = menu_from(ps@, 0);
                assert(m0 =~= m0.take(count as int) + part@ + menu_from(ps@, c + 1));
                assert(m0.take(count + part@.len()) =~= m0.take(count as int) + part@);
                assert(m0 =~= m0.take(count + part@.len()) + menu_from(ps@, c + 1));
                assert forall|k: int| 0 <= k < count + part@.len() implies row_shows(#[trigger] flat_rows(g2)[k], k + 1, ps@, ts@, enabled@, m0[k] as int) by {
                    if k < count {
                        assert(flat_rows(g2)[k] == flat_rows(before)[k]);
                    } else {
                        assert(flat_rows(g2)[k] == rows_v[k - count]);
                        assert(m0[k] == part@[k - count]);
                    }
                }
                assert forall|g: int| 0 <= g < g2.len() implies (#[trigger] g2[g]).0@ == category_label(nonempty_cats(ps@, 0)[g]) by {
                    if g < before.len() {
                        assert(g2[g] == before[g]);
                    } else {
                        assert(nonempty_cats(ps@, 0)[before.len() as int] == nonempty_cats(ps@, c as int)[0]);
                    }
                }
                assert forall|g: int| 0 <= g < nonempty_cats(ps@, c + 1).len() implies nonempty_cats(ps@, 0)[g2.len() + g] == #[trigger] nonempty_cats(ps@, c + 1)[g] by {
                    assert(nonempty_cats(ps@, c as int)[g + 1] == nonempty_cats(ps@, c + 1)[g]);
                    assert(nonempty_cats(ps@, 0)[before.len() + (g + 1) as int] == nonempty_cats(ps@, c as int)[g + 1]);
                }
            }
            count = count + part.len();
        } else {
            assert(nonempty_cats(ps@, c as int) == nonempty_cats(ps@, c + 1));
            assert(part@ + menu_from(ps@, c + 1) =~= menu_from(ps@, c + 1));
        }
        c = c + 1;
    }
    assert(menu_from(ps@, 6).len() == 0);
    groups
}

proof fn lemma_menu_len(ps: Seq<PluginInfo>, c: int)
    requires
        0 <= c <= 6,
    ensures
        menu_from(ps, c).len() <= (6 - c) * ps.len(),
    decreases 6 - c,
{
    if c < 6 {
        lemma_menu_len(ps, c + 1);
        lemma_cat_sorted_len(ps, category_at(c), ps.len() as int);
        assert((6 - c) * ps.len() == ps.len() + (6 - (c + 1)) * ps.len()) by (nonlinear_arith);
    }
}

proof fn lemma_cat_sorted_len(ps: Seq<PluginInfo>, c: Category, n: int)
    requires
        0 <= n <= ps.len(),
    ensures
        cat_sorted(ps, c, n).len() <= n,
        forall|k: int| 0 <= k < cat_sorted(ps, c, n).len() ==> #[trigger] cat_sorted(ps, c, n)[k] < n,
    decreases n,
{
    if n > 0 {
        lemma_cat_sorted_len(ps, c, n - 1);
        if in_menu(ps[n - 1], c) {
            lemma_insert_bounds(cat_sorted(ps, c, n - 1), names(ps), (n - 1) as usize, n);
        }
    }
}

/// A name followed by `（已停用）` when switched off.
pub open spec fn name_off(n: Seq<char>, off: bool) -> Seq<char> {
    if off {
        n + "（已停用）"@
    } else {
        n
    }
}

/// A menu line: `<number>. <name>`, then ` —— <description>` when there is one.
pub open spec fn menu_line(r: MenuRow) -> Seq<char> {
    decimal(r.idx as int) + ". "@ + name_off(r.name@, r.off) + if r.desc@.len() == 0 {
        seq![]
    } else {
        " —— "@ + r.desc@
    }
}

/// The lines of rows, each after a newline.
pub open spec fn rows_text(rows: Seq<MenuRow>) -> Seq<char>
    decreases rows.len(),
{
    if rows.len() == 0 {
        seq![]
    } else {
        rows_text(rows.drop_last()) + "\n"@ + menu_line(rows.last())
    }
}

/// A category section: `【<heading>】` and its lines.
pub open spec fn section(g: (&'static str, Vec<MenuRow>)) -> Seq<char> {
    "【"@ + g.0@ + "】"@ + rows_text(g.1@)
}

/// Sections joined by blank lines.
pub open spec fn sections(gs: Seq<(&'static str, Vec<MenuRow>)>) -> Seq<char>
    decreases gs.len(),
{
    if gs.len() == 0 {
        seq![]
    } else if gs.len() == 1 {
        section(gs[0])
    } else {
        sections(gs.drop_last()) + "\n\n"@ + section(gs.last())
    }
}

/// The menu's text form: its sections (or `暂无可用命令`), then the hint on asking for details.
pub open spec fn overview_text(gs: Seq<(&'static str, Vec<MenuRow>)>) -> Seq<char> {
    (if gs.len() == 0 { "暂无可用命令"@ } else { sections(gs) }) + "\n\n发送「help 序号或功能名」看某个功能的详细命令，例如「help 1」「help 漂流瓶」。"@
}

fn push_menu_line(b: &mut Vec<char>, r: &MenuRow)
    requires
        r.idx <= i64::MAX,
    ensures
        final(b)@ == old(b)@ + menu_line(*r),
{
    push_decimal(b, r.idx as i64);
    push_str(b, ". ");
    push_str(b, r.name.as_str());
    if r.off {
        push_str(b, "（已停用）");
    }
    let d = chars_of(r.desc.as_str());
    if d.len() > 0 {
        push_str(b, " —— ");
        push_chars(b, &d);
    }
    assert(final(b)@ =~= old(b)@ + menu_line(*r));
}

/// The menu's text form, used when the menu picture cannot be drawn (see [`overview_text`]).
pub fn render_overview(groups: &Vec<(&'static str, Vec<MenuRow>)>) -> (r: String)
    requires
        forall|g: int, k: int| 0 <= g < groups@.len() && 0 <= k < groups@[g].1@.len() ==> #[trigger] groups@[g].1@[k].idx <= i64::MAX,
    ensures
        r@ == overview_text(groups@),
{
    let mut b: Vec<char> = Vec::new();
    let mut g: usize = 0;
    while g < groups.len()
        invariant
            g <= groups@.len(),
            forall|gg: int, k: int| 0 <= gg < groups@.len() && 0 <= k < groups@[gg].1@.len() ==> #[trigger] groups@[gg].1@[k].idx <= i64::MAX,
            b@ == sections(groups@.take(g as int)),
        decreases groups@.len() - g,
    {
        let ghost before = b@;
        assert(groups@.take(g + 1).drop_last() =~= groups@.take(g as int));
        assert(groups@.take(g + 1).last() == groups@[g as int]);
        if g > 0 {
            push_str(&mut b, "\n\n");
        }
        let ghost mid = b@;
        push_str(&mut b, "【");
        push_str(&mut b, groups[g].0);
        push_str(&mut b, "】");
        let rows = &groups[g].1;
        let mut k: usize = 0;
        while k < rows.len()
            invariant
                k <= rows@.len(),
                forall|j: int| 0 <= j < rows@.len() ==> #[trigger] rows@[j].idx <= i64::MAX,
                b@ == mid + "【"@ + groups@[g as int].0@ + "】"@ + rows_text(rows@.take(k as int)),
            decreases rows@.len() - k,
        {
            assert(rows@.take(k + 1).drop_last() =~= rows@.take(k as int));
            assert(rows@.take(k + 1).last() == rows@[k as int]);
            push_str(&mut b, "\n");
            push_menu_line(&mut b, &rows[k]);
            proof {
                reveal_strlit("\n");
            }
            assert(b@ =~= mid + "【"@ + groups@[g as int].0@ + "】"@ + rows_text(rows@.take(k + 1)));
            k = k + 1;
        }
        assert(rows@.take(rows@.len() as int) =~= rows@);
        assert(b@ =~= mid + section(groups@[g as int]));
        proof {
            if g == 0 {
                assert(groups@.take(1) =~= seq![groups@[0]]);
                assert(before =~= Seq::<char>::empty());
            }
        }
        g = g + 1;
    }
    assert(groups@.take(groups@.len() as int) =~= groups@);
    if groups.len() == 0 {
        push_str(&mut b, "暂无可用命令");
    }
    push_str(&mut b, "\n\n发送「help 序号或功能名」看某个功能的详细命令，例如「help 1」「help 漂流瓶」。");
    string_from_chars(&b)
}

// ---------------------------------------------------------------------------
// Resolving `help <target>`
// ---------------------------------------------------------------------------

/// Whether trigger `t` is a visible command answering to `target` by one of its words,
/// its name or its id.
pub open spec fn cmd_answers(t: TriggerInfo, target: Seq<char>) -> bool {
    &&& t.is_command
    &&& !t.hidden
    &&& ((exists|w: int| 0 <= w < t.words@.len() && #[trigger] t.words@[w]@ == target) || t.name@ == target || t.id@ == target)
}

/// The first trigger from `from` on that answers to `target`.
pub open spec fn first_cmd(ts: Seq<TriggerInfo>, target: Seq<char>, from: int) -> Option<int>
    decreases ts.len() - from,
{
    if from >= ts.len() || from < 0 {
        None
    } else if cmd_answers(ts[from], target) {
        Some(from)
    } else {
        first_cmd(ts, target, from + 1)
    }
}

/// The first listed feature from `from` on whose effective key is `key`.
pub open spec fn first_keyed(ps: Seq<PluginInfo>, key: Seq<char>, from: int) -> Option<int>
    decreases ps.len() - from,
{
    if from >= ps.len() || from < 0 {
        None
    } else if !ps[from].hidden && eff_key(ps[from]) == key {
        Some(from)
    } else {
        first_keyed(ps, key, from + 1)
    }
}

/// The first listed feature from `from` on named `target` or keyed `target`.
pub open spec fn first_named(ps: Seq<PluginInfo>, target: Seq<char>, from: int) -> Option<int>
    decreases ps.len() - from,
{
    if from >= ps.len() || from < 0 {
        None
    } else if !ps[from].hidden && (ps[from].name@ == target || eff_key(ps[from]) == target) {
        Some(from)
    } else {
        first_named(ps, target, from + 1)
    }
}

/// What `help <target>` expands: a number is a menu number (out of range: nothing);
/// else the feature of the first command answering to it (by key; nothing when no
/// listed feature has that key); else the first listed feature so named or keyed.
pub open spec fn resolve_of(ps: Seq<PluginInfo>, ts: Seq<TriggerInfo>, target: Seq<char>) -> Option<int> {
    match in_range(unsigned_literal(target), 0, usize::MAX as int) {
        Some(n) => if 1 <= n <= menu_from(ps, 0).len() { Some(menu_from(ps, 0)[n - 1] as int) } else { None },
        None => match first_cmd(ts, target, 0) {
            Some(t) => first_keyed(ps, ts[t].plugin_key@, 0),
            None => first_named(ps, target, 0),
        },
    }
}

/// The menu and `help <number>` agree: the feature listed as number `n` (menu entry
/// `n - 1`, the row numbered `n` by [`overview_groups`]) is the one `help n` opens, and a
/// number outside the menu opens nothing.
pub proof fn lemma_menu_number_opens_entry(ps: Seq<PluginInfo>, ts: Seq<TriggerInfo>, n: nat)
    requires
        n <= usize::MAX,
    ensures
        1 <= n <= menu_from(ps, 0).len() ==> resolve_of(ps, ts, digits_of(n)) == Some(menu_from(ps, 0)[n - 1] as int),
        (n == 0 || n > menu_from(ps, 0).len()) ==> resolve_of(ps, ts, digits_of(n)) is None,
{
    lemma_digits_literal(n);
}

/// Every row of the overview, read group after group, opens with `help <its number>`
/// the very feature the row shows.
pub proof fn lemma_menu_rows_open_their_feature(
    ps: Seq<PluginInfo>,
    ts: Seq<TriggerInfo>,
    en: Seq<bool>,
    gs: Seq<(&'static str, Vec<MenuRow>)>,
)
    requires
        flat_rows(gs).len() == menu_from(ps, 0).len(),
        forall|k: int| 0 <= k < flat_rows(gs).len() ==> row_shows(#[trigger] flat_rows(gs)[k], k + 1, ps, ts, en, menu_from(ps, 0)[k] as int),
    ensures
        forall|k: int| 0 <= k < flat_rows(gs).len() ==> {
            let row = #[trigger] flat_rows(gs)[k];
            &&& resolve_of(ps, ts, digits_of(row.idx as nat)) == Some(menu_from(ps, 0)[k] as int)
            &&& row.name@ == ps[menu_from(ps, 0)[k] as int].name@
        },
{
    assert forall|k: int| 0 <= k < flat_rows(gs).len() implies {
        let row = #[trigger] flat_rows(gs)[k];
        &&& resolve_of(ps, ts, digits_of(row.idx as nat)) == Some(menu_from(ps, 0)[k] as int)
        &&& row.name@ == ps[menu_from(ps, 0)[k] as int].name@
    } by {
        let row = flat_rows(gs)[k];
        assert(row_shows(row, k + 1, ps, ts, en, menu_from(ps, 0)[k] as int));
        lemma_menu_number_opens_entry(ps, ts, row.idx as nat);
    }
}

fn answers(t: &TriggerInfo, target: &Vec<char>) -> (b: bool)
    ensures
        b == cmd_answers(*t, target@),
{
    if !t.is_command || t.hidden {
        return false;
    }
    let mut w: usize = 0;
    while w < t.words.len()
        invariant
            w <= t.words@.len(),
            t.is_command,
            !t.hidden,
            forall|k: int| 0 <= k < w ==> #[trigger] t.words@[k]@ != target@,
        decreases t.words@.len() - w,
    {
        let wv = chars_of(t.words[w].as_str());
        if eq_chars(&wv, target) {
            assert(t.words@[w as int]@ == target@);
            return true;
        }
        w = w + 1;
    }
    let nv = chars_of(t.name.as_str());
    let iv = chars_of(t.id.as_str());
    eq_chars(&nv, target) || eq_chars(&iv, target)
}

/// Finds the feature `help <target>` expands (see [`resolve_of`]), by position; the
/// target is already trimmed.
pub fn resolve_plugin(target: &str, ps: &Vec<PluginInfo>, ts: &Vec<TriggerInfo>) -> (r: Option<usize>)
    ensures
        match r {
            Some(i) => resolve_of(ps@, ts@, target@) == Some(i as int),
            None => resolve_of(ps@, ts@, target@) is None,
        },
{
    let tv = chars_of(target);
    if let Some(n) = parse_usize(&tv) {
        let menu = ordered_plugins(ps);
        if 1 <= n && n <= menu.len() {
            return Some(menu[n - 1]);
        }
        return None;
    }
    let mut t: usize = 0;
    while t < ts.len()
        invariant
            t <= ts@.len(),
            tv@ == target@,
            in_range(unsigned_literal(target@), 0, usize::MAX as int) is None,
            first_cmd(ts@, target@, 0) == first_cmd(ts@, target@, t as int),
        decreases ts@.len() - t,
    {
        if answers(&ts[t], &tv) {
            let key = chars_of(ts[t].plugin_key.as_str());
            assert(first_cmd(ts@, target@, 0) == Some(t as int));
            let mut p: usize = 0;
            while p < ps.len()
                invariant
                    p <= ps@.len(),
                    in_range(unsigned_literal(target@), 0, usize::MAX as int) is None,
                    first_cmd(ts@, target@, 0) == Some(t as int),
                    t < ts@.len(),
                    key@ == ts@[t as int].plugin_key@,
                    first_keyed(ps@, key@, 0) == first_keyed(ps@, key@, p as int),
                decreases ps@.len() - p,
            {
                let k = effective_key(&ps[p]);
                let kv = chars_of(k.as_str());
                if !ps[p].hidden && eq_chars(&kv, &key) {
                    return Some(p);
                }
                p = p + 1;
            }
            return None;
        }
        t = t + 1;
    }
    let mut p: usize = 0;
    while p < ps.len()
        invariant
            p <= ps@.len(),
            tv@ == target@,
            in_range(unsigned_literal(target@), 0, usize::MAX as int) is None,
            first_cmd(ts@, target@, 0) is None,
            first_named(ps@, target@, 0) == first_named(ps@, target@, p as int),
        decreases ps@.len() - p,
    {
        let k = effective_key(&ps[p]);
        let kv = chars_of(k.as_str());
        let nv = chars_of(ps[p].name.as_str());
        if !ps[p].hidden && (eq_chars(&nv, &tv) || eq_chars(&kv, &tv)) {
            return Some(p);
        }
        p = p + 1;
    }
    None
}

// ---------------------------------------------------------------------------
// Usage lines
// ---------------------------------------------------------------------------

/// How a switch is written in a usage line: `-<short>`, else `--<long>`, else its name.
pub open spec fn flag_of(a: ArgInfo) -> Seq<char> {
    if a.short@.len() > 0 {
        "-"@ + a.short@
    } else if a.long@.len() > 0 {
        "--"@ + a.long@
    } else {
        a.name@
    }
}

/// How a switch is written in a usage line (see [`flag_of`]).
pub fn flag_short_or_long(a: &ArgInfo) -> (r: String)
    ensures
        r@ == flag_of(*a),
{
    let sh = chars_of(a.short.as_str());
    let lo = chars_of(a.long.as_str());
    let mut b: Vec<char> = Vec::new();
    if sh.len() > 0 {
        push_str(&mut b, "-");
        push_chars(&mut b, &sh);
    } else if lo.len() > 0 {
        push_str(&mut b, "--");
        push_chars(&mut b, &lo);
    } else {
        push_str(&mut b, a.name.as_str());
    }
    string_from_chars(&b)
}

/// The token of one argument in a usage line: `[-a]` for a switch, `-r <name>` for an
/// option (bracketed unless required), `[<name>]` for the rest of the text, `<name>` or
/// `[name]` for a required or optional positional argument.
pub open spec fn token_of(a: ArgInfo) -> Seq<char> {
    match a.kind {
        ArgKind::Flag => "["@ + flag_of(a) + "]"@,
        ArgKind::Opt => if a.required {
            flag_of(a) + " "@ + a.name@
        } else {
            "["@ + flag_of(a) + " "@ + a.name@ + "]"@
        },
        ArgKind::Rest => "["@ + a.name@ + "]"@,
        ArgKind::Positional => if a.required { "<"@ + a.name@ + ">"@ } else { "["@ + a.name@ + "]"@ },
    }
}

/// The token of one argument in a usage line (see [`token_of`]).
pub fn syn_token(a: &ArgInfo) -> (r: String)
    ensures
        r@ == token_of(*a),
{
    let mut b: Vec<char> = Vec::new();
    match a.kind {
        ArgKind::Flag => {
            push_str(&mut b, "[");
            let f = flag_short_or_long(a);
            push_str(&mut b, f.as_str());
            push_str(&mut b, "]");
        },
        ArgKind::Opt => {
            if !a.required {
                push_str(&mut b, "[");
            }
            let f = flag_short_or_long(a);
            push_str(&mut b, f.as_str());
            push_str(&mut b, " ");
            push_str(&mut b, a.name.as_str());
            if !a.required {
                push_str(&mut b, "]");
            }
        },
        ArgKind::Rest => {
            push_str(&mut b, "[");
            push_str(&mut b, a.name.as_str());
            push_str(&mut b, "]");
        },
        ArgKind::Positional => {
            push_str(&mut b, if a.required {
                "<"
            } else {
                "["
            });
            push_str(&mut b, a.name.as_str());
            push_str(&mut b, if a.required {
                ">"
            } else {
                "]"
            });
        },
    }
    assert(b@ =~= token_of(*a));
    string_from_chars(&b)
}

/// A usage line: the command word, then each argument's token after a space.
pub open spec fn synopsis_of(primary: Seq<char>, args: Seq<ArgInfo>) -> Seq<char>
    decreases args.len(),
{
    if args.len() == 0 {
        primary
    } else {
        synopsis_of(primary, args.drop_last()) + " "@ + token_of(args.last())
    }
}

/// Builds a usage line (see [`synopsis_of`]).
pub fn synopsis(primary: &str, args: &Vec<ArgInfo>) -> (r: String)
    ensures
        r@ == synopsis_of(primary@, args@),
{
    let mut b = chars_of(primary);
    let mut i: usize = 0;
    while i < args.len()
        invariant
            i <= args@.len(),
            b@ == synopsis_of(primary@, args@.take(i as int)),
        decreases args@.len() - i,
    {
        assert(args@.take(i + 1).drop_last() =~= args@.take(i as int));
        assert(args@.take(i + 1).last() == args@[i as int]);
        push_str(&mut b, " ");
        let t = syn_token(&args[i]);
        push_str(&mut b, t.as_str());
        i = i + 1;
    }
    assert(args@.take(args@.len() as int) =~= args@);
    string_from_chars(&b)
}

/// The heading of an argument's description line: its switches (`-a, --anonymous`,
/// either alone) for a switch, the switches and its name for an option, its name
/// otherwise (and whenever it has no switches).
pub open spec fn head_of(a: ArgInfo) -> Seq<char> {
    let flags = if a.short@.len() > 0 && a.long@.len() > 0 {
        "-"@ + a.short@ + ", --"@ + a.long@
    } else if a.short@.len() > 0 {
        "-"@ + a.short@
    } else if a.long@.len() > 0 {
        "--"@ + a.long@
    } else {
        seq![]
    };
    match a.kind {
        ArgKind::Flag => if flags.len() == 0 { a.name@ } else { flags },
        ArgKind::Opt => if flags.len() == 0 { a.name@ } else { flags + " "@ + a.name@ },
        _ => a.name@,
    }
}

/// The heading of an argument's description line (see [`head_of`]).
pub fn param_head(a: &ArgInfo) -> (r: String)
    ensures
        r@ == head_of(*a),
{
    let sh = chars_of(a.short.as_str());
    let lo = chars_of(a.long.as_str());
    let mut flags: Vec<char> = Vec::new();
    if sh.len() > 0 && lo.len() > 0 {
        push_str(&mut flags, "-");
        push_chars(&mut flags, &sh);
        push_str(&mut flags, ", --");
        push_chars(&mut flags, &lo);
    } else if sh.len() > 0 {
        push_str(&mut flags, "-");
        push_chars(&mut flags, &sh);
    } else if lo.len() > 0 {
        push_str(&mut flags, "--");
        push_chars(&mut flags, &lo);
    }
    proof {
        reveal_strlit("-");
        reveal_strlit("--");
    }
    let nm = chars_of(a.name.as_str());
    let out = match a.kind {
        ArgKind::Flag => if flags.len() == 0 {
            nm
        } else {
            flags
        },
        ArgKind::Opt => if flags.len() == 0 {
            nm
        } else {
            let mut f = flags;
            push_str(&mut f, " ");
            push_chars(&mut f, &nm);
            f
        },
        _ => nm,
    };
    string_from_chars(&out)
}

// ---------------------------------------------------------------------------
// Detail card
// ---------------------------------------------------------------------------

/// `l` with `c` inserted before its first entry of greater command order (after equal
/// orders: stable).
pub open spec fn insert_by_order(l: Seq<usize>, ts: Seq<TriggerInfo>, c: usize) -> Seq<usize>
    decreases l.len(),
{
    if l.len() == 0 {
        seq![c]
    } else if ts[c as int].order < ts[l[0] as int].order {
        seq![c] + l
    } else {
        seq![l[0]] + insert_by_order(l.drop_first(), ts, c)
    }
}

/// The commands `cs` stably sorted by their order.
pub open spec fn by_order(ts: Seq<TriggerInfo>, cs: Seq<usize>) -> Seq<usize>
    decreases cs.len(),
{
    if cs.len() == 0 {
        seq![]
    } else {
        insert_by_order(by_order(ts, cs.drop_last()), ts, cs.last())
    }
}

proof fn lemma_insert_order_at(l: Seq<usize>, ts: Seq<TriggerInfo>, c: usize, p: int)
    requires
        0 <= p <= l.len(),
        forall|k: int| 0 <= k < p ==> !(ts[c as int].order < #[trigger] ts[l[k] as int].order),
        p < l.len() ==> ts[c as int].order < ts[l[p] as int].order,
    ensures
        insert_by_order(l, ts, c) == l.take(p) + seq![c] + l.skip(p),
    decreases l.len(),
{
    if l.len() == 0 {
        assert(l.take(p) + seq![c] + l.skip(p) =~= seq![c]);
    } else if p == 0 {
        assert(l.take(0) + seq![c] + l.skip(0) =~= seq![c] + l);
    } else {
        let t = l.drop_first();
        assert forall|k: int| 0 <= k < p - 1 implies !(ts[c as int].order < #[trigger] ts[t[k] as int].order) by {
            assert(t[k] == l[k + 1]);
        }
        if p - 1 < t.len() {
            assert(t[p - 1] == l[p]);
        }
        assert(!(ts[c as int].order < ts[l[0] as int].order));
        lemma_insert_order_at(t, ts, c, p - 1);
        assert(seq![l[0]] + (t.take(p - 1) + seq![c] + t.skip(p - 1)) =~= l.take(p) + seq![c] + l.skip(p));
    }
}

proof fn lemma_insert_order_bounds(l: Seq<usize>, ts: Seq<TriggerInfo>, c: usize)
    requires
        c < ts.len(),
        forall|k: int| 0 <= k < l.len() ==> #[trigger] l[k] < ts.len(),
    ensures
        forall|k: int| 0 <= k < insert_by_order(l, ts, c).len() ==> #[trigger] insert_by_order(l, ts, c)[k] < ts.len(),
        insert_by_order(l, ts, c).len() == l.len() + 1,
    decreases l.len(),
{
    if l.len() > 0 && !(ts[c as int].order < ts[l[0] as int].order) {
        let t = l.drop_first();
        assert forall|k: int| 0 <= k < t.len() implies #[trigger] t[k] < ts.len() by {
            assert(t[k] == l[k + 1]);
        }
        lemma_insert_order_bounds(t, ts, c);
    }
}

fn sort_by_order(ts: &Vec<TriggerInfo>, cs: &Vec<usize>) -> (r: Vec<usize>)
    requires
        forall|k: int| 0 <= k < cs@.len() ==> #[trigger] cs@[k] < ts@.len(),
    ensures
        r@ == by_order(ts@, cs@),
        forall|k: int| 0 <= k < r@.len() ==> #[trigger] r@[k] < ts@.len(),
{
    let mut out: Vec<usize> = Vec::new();
    let mut i: usize = 0;
    while i < cs.len()
        invariant
            i <= cs@.len(),
            forall|k: int| 0 <= k < cs@.len() ==> #[trigger] cs@[k] < ts@.len(),
            out@ == by_order(ts@, cs@.take(i as int)),
            forall|k: int| 0 <= k < out@.len() ==> #[trigger] out@[k] < ts@.len(),
        decreases cs@.len() - i,
    {
        let c = cs[i];
        assert(cs@.take(i + 1).drop_last() =~= cs@.take(i as int));
        assert(cs@.take(i + 1).last() == c);
        let mut p: usize = 0;
        while p < out.len()
            invariant
                p <= out@.len(),
                c < ts@.len(),
                forall|k: int| 0 <= k < out@.len() ==> #[trigger] out@[k] < ts@.len(),
                forall|k: int| 0 <= k < p ==> !(ts@[c as int].order < #[trigger] ts@[out@[k] as int].order),
            ensures
                p <= out@.len(),
                forall|k: int| 0 <= k < p ==> !(ts@[c as int].order < #[trigger] ts@[out@[k] as int].order),
                p < out@.len() ==> ts@[c as int].order < ts@[out@[p as int] as int].order,
            decreases out@.len() - p,
        {
            if ts[c].order < ts[out[p]].order {
                break;
            }
            p = p + 1;
        }
        proof {
            lemma_insert_order_at(out@, ts@, c, p as int);
            lemma_insert_order_bounds(out@, ts@, c);
        }
        let ghost before = out@;
        out.insert(p, c);
        assert(out@ =~= before.take(p as int) + seq![c] + before.skip(p as int));
        i = i + 1;
    }
    assert(cs@.take(cs@.len() as int) =~= cs@);
    out
}

/// A command's main word: its first word, else its name.
pub open spec fn primary_of(t: TriggerInfo) -> Seq<char> {
    if t.words@.len() > 0 {
        t.words@[0]@
    } else {
        t.name@
    }
}

/// Whether `ci` is the card entry numbered `idx` of command `t` (on or off as `on`):
/// an explicit usage template replaces the generated usage line and hides the other
/// words (they are argument values, not aliases).
pub open spec fn cmd_shows(ci: CmdInfo, t: TriggerInfo, idx: int, on: bool) -> bool {
    let has_syn = t.synopsis@.len() > 0;
    &&& ci.idx == idx
    &&& ci.primary@ == primary_of(t)
    &&& ci.aliases@.len() == (if has_syn || t.words@.len() == 0 { 0 } else { t.words@.len() - 1 })
    &&& forall|k: int| 0 <= k < ci.aliases@.len() ==> (#[trigger] ci.aliases@[k])@ == t.words@[k + 1]@
    &&& ci.off == !on
    &&& ci.desc@ == t.description@
    &&& ci.synopsis@ == (if has_syn { t.synopsis@ } else { synopsis_of(primary_of(t), t.args@) })
    &&& ci.params@.len() == t.args@.len()
    &&& forall|k: int| 0 <= k < ci.params@.len() ==> (#[trigger] ci.params@[k]).0@ == head_of(t.args@[k]) && ci.params@[k].1@ == t.args@[k].desc@
    &&& ci.note@ == t.usage@
}

fn cmd_info(t: &TriggerInfo, idx: usize, on: bool) -> (r: CmdInfo)
    ensures
        cmd_shows(r, *t, idx as int, on),
{
    let primary = if t.words.len() > 0 {
        t.words[0].clone()
    } else {
        t.name.clone()
    };
    let sy = chars_of(t.synopsis.as_str());
    let has_syn = sy.len() > 0;
    let mut aliases: Vec<String> = Vec::new();
    if !has_syn && t.words.len() > 0 {
        let mut k: usize = 1;
        while k < t.words.len()
            invariant
                1 <= k <= t.words@.len(),
                aliases@.len() == k - 1,
                forall|j: int| 0 <= j < aliases@.len() ==> (#[trigger] aliases@[j])@ == t.words@[j + 1]@,
            decreases t.words@.len() - k,
        {
            aliases.push(t.words[k].clone());
            k = k + 1;
        }
    }
    let syn = if has_syn {
        t.synopsis.clone()
    } else {
        synopsis(primary.as_str(), &t.args)
    };
    let mut params: Vec<(String, String)> = Vec::new();
    let mut k: usize = 0;
    while k < t.args.len()
        invariant
            k <= t.args@.len(),
            params@.len() == k,
            forall|j: int| 0 <= j < params@.len() ==> (#[trigger] params@[j]).0@ == head_of(t.args@[j]) && params@[j].1@ == t.args@[j].desc@,
        decreases t.args@.len() - k,
    {
        params.push((param_head(&t.args[k]), t.args[k].desc.clone()));
        k = k + 1;
    }
    CmdInfo {
        idx,
        primary,
        aliases,
        off: !on,
        desc: t.description.clone(),
        synopsis: syn,
        params,
        note: t.usage.clone(),
    }
}

/// The detail card of feature `pi`: its name, description and switch state, and its
/// visible commands stably sorted by order, numbered from 1 (`on` is the feature's
/// switch and `cmd_on[t]` each command's, read outside).
pub fn detail_card(pi: usize, ps: &Vec<PluginInfo>, ts: &Vec<TriggerInfo>, on: bool, cmd_on: &Vec<bool>) -> (r: DetailCard)
    requires
        pi < ps@.len(),
        cmd_on@.len() == ts@.len(),
    ensures
        r.name@ == ps@[pi as int].name@,
        r.desc@ == desc_of(ps@[pi as int], ts@),
        r.off == (ps@[pi as int].can_disable && !on),
        ({
            let order = by_order(ts@, cmds_of(ts@, eff_key(ps@[pi as int])));
            &&& r.cmds@.len() == order.len()
            &&& forall|k: int| 0 <= k < r.cmds@.len() ==> cmd_shows(#[trigger] r.cmds@[k], ts@[order[k] as int], k + 1, cmd_on@[order[k] as int])
        }),
{
    let p = &ps[pi];
    let key = effective_key(p);
    let kv = chars_of(key.as_str());
    let cs = commands_of(ts, &kv);
    let order = sort_by_order(ts, &cs);
    let mut cmds: Vec<CmdInfo> = Vec::new();
    let mut k: usize = 0;
    while k < order.len()
        invariant
            k <= order@.len(),
            cmd_on@.len() == ts@.len(),
            forall|j: int| 0 <= j < order@.len() ==> #[trigger] order@[j] < ts@.len(),
            cmds@.len() == k,
            forall|j: int| 0 <= j < k ==> cmd_shows(#[trigger] cmds@[j], ts@[order@[j] as int], j + 1, cmd_on@[order@[j] as int]),
        decreases order@.len() - k,
    {
        let t = order[k];
        cmds.push(cmd_info(&ts[t], k + 1, cmd_on[t]));
        k = k + 1;
    }
    DetailCard { name: p.name.clone(), desc: plugin_desc(p, ts), off: plugin_off(p, on), cmds }
}

/// Texts joined by a separator.
pub open spec fn joined_by(ws: Seq<Seq<char>>, sep: Seq<char>) -> Seq<char>
    decreases ws.len(),
{
    if ws.len() == 0 {
        seq![]
    } else if ws.len() == 1 {
        ws[0]
    } else {
        joined_by(ws.drop_last(), sep) + sep + ws.last()
    }
}

/// The head block of a detail card: `【<name>】` then the description.
pub open spec fn head_block(c: DetailCard) -> Seq<char> {
    "【"@ + name_off(c.name@, c.off) + "】"@ + c.desc@
}

/// The header line of a command: `▸ <n>. <word>`, its aliases and its switch state.
pub open spec fn cmd_header(c: CmdInfo) -> Seq<char> {
    let aliases = c.aliases@.map_values(|a: String| a@);
    "▸ "@ + decimal(c.idx as int) + ". "@ + c.primary@ + (if aliases.len() > 0 {
        "（别名："@ + joined_by(aliases, "、"@) + "）"@
    } else {
        seq![]
    }) + if c.off { " 〔已停用〕"@ } else { seq![] }
}

/// The argument lines of a command, each after a newline.
pub open spec fn params_text(ps: Seq<(String, String)>) -> Seq<char>
    decreases ps.len(),
{
    if ps.len() == 0 {
        seq![]
    } else {
        params_text(ps.drop_last()) + "\n  · "@ + ps.last().0@ + if ps.last().1@.len() == 0 {
            seq![]
        } else {
            "："@ + ps.last().1@
        }
    }
}

/// A command's block: header, description, usage line, argument lines and note.
pub open spec fn cmd_block(c: CmdInfo) -> Seq<char> {
    cmd_header(c) + (if c.desc@.len() > 0 { "\n  "@ + c.desc@ } else { seq![] }) + "\n  用法："@ + c.synopsis@
        + params_text(c.params@) + if c.note@.len() > 0 { "\n  备注："@ + c.note@ } else { seq![] }
}

fn push_joined(b: &mut Vec<char>, ws: &Vec<String>, sep: &str)
    ensures
        final(b)@ == old(b)@ + joined_by(ws@.map_values(|a: String| a@), sep@),
{
    let ghost start = b@;
    let ghost all = ws@.map_values(|a: String| a@);
    let mut i: usize = 0;
    while i < ws.len()
        invariant
            i <= ws@.len(),
            all == ws@.map_values(|a: String| a@),
            b@ == start + joined_by(all.take(i as int), sep@),
        decreases ws@.len() - i,
    {
        assert(all.take(i + 1).drop_last() =~= all.take(i as int));
        assert(all.take(i + 1).last() == ws@[i as int]@);
        if i > 0 {
            push_str(b, sep);
        }
        push_str(b, ws[i].as_str());
        proof {
            if i == 0 {
                assert(all.take(1) =~= seq![ws@[0]@]);
            }
        }
        assert(b@ =~= start + joined_by(all.take(i + 1), sep@));
        i = i + 1;
    }
    assert(all.take(ws@.len() as int) =~= all);
}

fn cmd_text(c: &CmdInfo) -> (r: String)
    requires
        c.idx <= i64::MAX,
    ensures
        r@ == cmd_block(*c),
{
    let mut b: Vec<char> = Vec::new();
    push_str(&mut b, "▸ ");
    push_decimal(&mut b, c.idx as i64);
    push_str(&mut b, ". ");
    push_str(&mut b, c.primary.as_str());
    if c.aliases.len() > 0 {
        push_str(&mut b, "（别名：");
        push_joined(&mut b, &c.aliases, "、");
        push_str(&mut b, "）");
    }
    if c.off {
        push_str(&mut b, " 〔已停用〕");
    }
    assert(b@ =~= cmd_header(*c));
    let ghost h = b@;
    let d = chars_of(c.desc.as_str());
    if d.len() > 0 {
        push_str(&mut b, "\n  ");
        push_chars(&mut b, &d);
    }
    push_str(&mut b, "\n  用法：");
    push_str(&mut b, c.synopsis.as_str());
    let ghost mid = b@;
    let mut k: usize = 0;
    while k < c.params.len()
        invariant
            k <= c.params@.len(),
            b@ == mid + params_text(c.params@.take(k as int)),
        decreases c.params@.len() - k,
    {
        assert(c.params@.take(k + 1).drop_last() =~= c.params@.take(k as int));
        assert(c.params@.take(k + 1).last() == c.params@[k as int]);
        push_str(&mut b, "\n  · ");
        push_str(&mut b, c.params[k].0.as_str());
        let pd = chars_of(c.params[k].1.as_str());
        if pd.len() > 0 {
            push_str(&mut b, "：");
            push_chars(&mut b, &pd);
        }
        assert(b@ =~= mid + params_text(c.params@.take(k + 1)));
        k = k + 1;
    }
    assert(c.params@.take(c.params@.len() as int) =~= c.params@);
    let n = chars_of(c.note.as_str());
    if n.len() > 0 {
        push_str(&mut b, "\n  备注：");
        push_chars(&mut b, &n);
    }
    assert(b@ =~= cmd_block(*c));
    string_from_chars(&b)
}

/// The detail card's text blocks, used when the picture cannot be drawn: the head
/// block, then one block per command (a block is never split when sent).
pub fn detail_text_blocks(card: &DetailCard) -> (r: Vec<String>)
    requires
        forall|k: int| 0 <= k < card.cmds@.len() ==> #[trigger] card.cmds@[k].idx <= i64::MAX,
    ensures
        r@.len() == card.cmds@.len() + 1,
        r@[0]@ == head_block(*card),
        forall|k: int| 0 <= k < card.cmds@.len() ==> (#[trigger] r@[k + 1])@ == cmd_block(card.cmds@[k]),
{
    let mut head = chars_of(card.name.as_str());
    if card.off {
        push_str(&mut head, "（已停用）");
    }
    let mut hb: Vec<char> = Vec::new();
    push_str(&mut hb, "【");
    push_chars(&mut hb, &head);
    push_str(&mut hb, "】");
    push_str(&mut hb, card.desc.as_str());
    assert(hb@ =~= head_block(*card));
    let mut out: Vec<String> = Vec::new();
    out.push(string_from_chars(&hb));
    let mut k: usize = 0;
    while k < card.cmds.len()
        invariant
            k <= card.cmds@.len(),
            forall|j: int| 0 <= j < card.cmds@.len() ==> #[trigger] card.cmds@[j].idx <= i64::MAX,
            out@.len() == k + 1,
            out@[0]@ == head_block(*card),
            forall|j: int| 0 <= j < k ==> (#[trigger] out@[j + 1])@ == cmd_block(card.cmds@[j]),
        decreases card.cmds@.len() - k,
    {
        out.push(cmd_text(&card.cmds[k]));
        k = k + 1;
    }
    out
}

} // verus!
