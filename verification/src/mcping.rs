//! Minecraft server queries: which edition to ask, and the decisions of the per-group
//! server list (adding with its duplicate check and cap, and finding the entry to
//! delete by position, name or address). The network queries and images are outside.

use vstd::prelude::*;

use crate::horse::play::first_ws;
use crate::text::{
    chars_of, eq_ignore_ascii_case, eq_ignore_case_chars, in_range, parse_usize, slice_chars,
    string_from_chars, trim, trim_chars, unsigned_literal,
};

verus! {

/// Most servers in one group's list.
pub const MAX_SERVERS: usize = 30;
/// Name given to a server added without one.
pub const DEFAULT_NAME: &'static str = "Minecraft Server";

/// Which edition a query asks.
#[derive(Clone, Copy, Debug, PartialEq, Eq, Structural)]
pub enum Edition {
    /// Java first, then Bedrock when Java does not answer.
    Auto,
    Java,
    Bedrock,
    /// Both `--je` and `--be` were given.
    Conflict,
}

/// The edition asked by the `--je` and `--be` flags.
pub fn edition_of(je: bool, be: bool) -> (r: Edition)
    ensures
        r == if je && be {
            Edition::Conflict
        } else if je {
            Edition::Java
        } else if be {
            Edition::Bedrock
        } else {
            Edition::Auto
        },
{
    if je && be {
        Edition::Conflict
    } else if je {
        Edition::Java
    } else if be {
        Edition::Bedrock
    } else {
        Edition::Auto
    }
}

/// A saved server: display name and address.
#[derive(Clone, Debug)]
pub struct ServerEntry {
    pub name: String,
    pub address: String,
}

/// The address and name of `mcadd <address> [name]`: the trimmed text is split at its
/// first whitespace character; the name is the trimmed rest, or `None` when blank.
pub open spec fn add_args_of(s: Seq<char>) -> (Seq<char>, Option<Seq<char>>) {
    let t = trim(s);
    match first_ws(t, 0) {
        None => (t, None),
        Some(p) => (
            trim(t.take(p)),
            if trim(t.skip(p + 1)).len() > 0 { Some(trim(t.skip(p + 1))) } else { None },
        ),
    }
}

/// Reads `mcadd <address> [name]`: `None` without an address; the name defaults to
/// [`DEFAULT_NAME`].
pub fn parse_add(s: &str) -> (r: Option<(String, String)>)
    ensures
        add_args_of(s@).0.len() == 0 ==> r is None,
        add_args_of(s@).0.len() > 0 ==> (r matches Some((a, n)) && a@ == add_args_of(s@).0 && n@ == match add_args_of(s@).1 {
            Some(x) => x,
            None => DEFAULT_NAME@,
        }),
{
    let v = chars_of(s);
    let t = trim_chars(&v);
    let mut p: usize = 0;
    while p < t.len()
        invariant
            p <= t.len(),
            first_ws(t@, 0) == first_ws(t@, p as int),
        ensures
            p <= t.len(),
            first_ws(t@, 0) == first_ws(t@, p as int),
            p < t.len() ==> crate::text::is_ws(t@[p as int]),
        decreases t.len() - p,
    {
        if crate::text::char_is_ws(t[p]) {
            break;
        }
        p = p + 1;
    }
    let (addr, name) = if p == t.len() {
        (t.clone(), None)
    } else {
        let head = slice_chars(&t, 0, p);
        let tail = slice_chars(&t, p + 1, t.len());
        assert(head@ =~= t@.take(p as int));
        assert(tail@ =~= t@.skip(p + 1));
        let a = trim_chars(&head);
        let n = trim_chars(&tail);
        (a, if n.len() > 0 {
            Some(n)
        } else {
            None
        })
    };
    if addr.len() == 0 {
        return None;
    }
    let name_s = match name {
        Some(n) => string_from_chars(&n),
        None => {
            let d = chars_of(DEFAULT_NAME);
            string_from_chars(&d)
        },
    };
    Some((string_from_chars(&addr), name_s))
}

/// Whether `address` is already listed (ignoring ASCII case).
pub open spec fn listed(list: Seq<ServerEntry>, address: Seq<char>) -> bool {
    exists|i: int| 0 <= i < list.len() && eq_ignore_ascii_case(#[trigger] list[i].address@, address)
}

/// Whether a server may be added.
#[derive(Clone, Copy, Debug, PartialEq, Eq, Structural)]
pub enum AddCheck {
    /// Already listed.
    Duplicate,
    /// The list holds [`MAX_SERVERS`].
    Full,
    /// Add it as entry number (1-based).
    Go(usize),
}

/// The add outcome: a duplicate address first, then a full list; otherwise the new
/// entry's number.
pub fn add_check(list: &Vec<ServerEntry>, address: &str) -> (r: AddCheck)
    ensures
        r == if listed(list@, address@) {
            AddCheck::Duplicate
        } else if list@.len() >= MAX_SERVERS {
            AddCheck::Full
        } else {
            AddCheck::Go((list@.len() + 1) as usize)
        },
{
    let a = chars_of(address);
    let mut i: usize = 0;
    while i < list.len()
        invariant
            i <= list.len(),
            a@ == address@,
            forall|k: int| 0 <= k < i ==> !eq_ignore_ascii_case(#[trigger] list@[k].address@, address@),
        decreases list.len() - i,
    {
        let x = chars_of(list[i].address.as_str());
        if eq_ignore_case_chars(&x, &a) {
            return AddCheck::Duplicate;
        }
        i = i + 1;
    }
    if list.len() >= MAX_SERVERS {
        AddCheck::Full
    } else {
        AddCheck::Go(list.len() + 1)
    }
}

/// The first entry whose name or address equals `key` ignoring ASCII case, from `from` on.
pub open spec fn first_match(list: Seq<ServerEntry>, key: Seq<char>, from: int) -> Option<int>
    decreases list.len() - from,
{
    if from >= list.len() || from < 0 {
        None
    } else if eq_ignore_ascii_case(list[from].name@, key) || eq_ignore_ascii_case(list[from].address@, key) {
        Some(from)
    } else {
        first_match(list, key, from + 1)
    }
}

/// The entry `mcdel <key>` removes: a number picks that position (1-based; out of range
/// picks nothing), anything else the first entry whose name or address matches.
pub open spec fn del_target_of(list: Seq<ServerEntry>, key: Seq<char>) -> Option<int> {
    match in_range(unsigned_literal(key), 0, usize::MAX as int) {
        Some(n) => if 1 <= n <= list.len() { Some(n - 1) } else { None },
        None => first_match(list, key, 0),
    }
}

/// Finds the entry to delete for the (trimmed) key (see [`del_target_of`]).
pub fn del_target(list: &Vec<ServerEntry>, key: &str) -> (r: Option<usize>)
    ensures
        match r {
            Some(i) => del_target_of(list@, key@) == Some(i as int),
            None => del_target_of(list@, key@) is None,
        },
{
    let k = chars_of(key);
    match parse_usize(&k) {
        Some(n) => {
            if 1 <= n && n <= list.len() {
                Some(n - 1)
            } else {
                None
            }
        },
        None => {
            let mut i: usize = 0;
            while i < list.len()
                invariant
                    i <= list.len(),
                    k@ == key@,
                    in_range(unsigned_literal(key@), 0, usize::MAX as int) is None,
                    first_match(list@, key@, 0) == first_match(list@, key@, i as int),
                decreases list.len() - i,
            {
                let nm = chars_of(list[i].name.as_str());
                let ad = chars_of(list[i].address.as_str());
                if eq_ignore_case_chars(&nm, &k) || eq_ignore_case_chars(&ad, &k) {
                    return Some(i);
                }
                i = i + 1;
            }
            None
        },
    }
}

} // verus!
