//! Character-level text helpers shared by the command parsers: Unicode whitespace
//! trimming, comparison against literals, tokenising and decimal integer parsing with
//! the same acceptance rules as the standard `str::parse` for integers.

use vstd::prelude::*;
use vstd::string::*;

verus! {

/// Unicode `White_Space` characters (the set `char::is_whitespace` and `str::trim` use).
pub open spec fn is_ws(c: char) -> bool {
    let u = c as u32;
    ||| 0x09 <= u <= 0x0D
    ||| u == 0x20
    ||| u == 0x85
    ||| u == 0xA0
    ||| u == 0x1680
    ||| 0x2000 <= u <= 0x200A
    ||| u == 0x2028
    ||| u == 0x2029
    ||| u == 0x202F
    ||| u == 0x205F
    ||| u == 0x3000
}

/// `s` without its leading whitespace.
pub open spec fn trim_start(s: Seq<char>) -> Seq<char>
    decreases s.len(),
{
    if s.len() > 0 && is_ws(s[0]) {
        trim_start(s.drop_first())
    } else {
        s
    }
}

/// `s` without its trailing whitespace.
pub open spec fn trim_end(s: Seq<char>) -> Seq<char>
    decreases s.len(),
{
    if s.len() > 0 && is_ws(s.last()) {
        trim_end(s.drop_last())
    } else {
        s
    }
}

/// `s` without leading and trailing whitespace.
pub open spec fn trim(s: Seq<char>) -> Seq<char> {
    trim_end(trim_start(s))
}

/// Whether every character of `s` is whitespace.
pub open spec fn all_ws(s: Seq<char>) -> bool {
    forall|i: int| 0 <= i < s.len() ==> is_ws(#[trigger] s[i])
}

/// Whether `t` is non-empty and neither starts nor ends with whitespace.
pub open spec fn is_trimmed_word(t: Seq<char>) -> bool {
    t.len() > 0 && !is_ws(t[0]) && !is_ws(t.last())
}

proof fn lemma_trim_start_padded(pre: Seq<char>, rest: Seq<char>)
    requires
        all_ws(pre),
        rest.len() > 0,
        !is_ws(rest[0]),
    ensures
        trim_start(pre + rest) == rest,
    decreases pre.len(),
{
    if pre.len() == 0 {
        assert(pre + rest =~= rest);
    } else {
        assert((pre + rest).drop_first() =~= pre.drop_first() + rest);
        assert(is_ws(pre[0]));
        lemma_trim_start_padded(pre.drop_first(), rest);
    }
}

proof fn lemma_trim_end_padded(t: Seq<char>, post: Seq<char>)
    requires
        all_ws(post),
        t.len() > 0,
        !is_ws(t.last()),
    ensures
        trim_end(t + post) == t,
    decreases post.len(),
{
    if post.len() == 0 {
        assert(t + post =~= t);
    } else {
        assert((t + post).drop_last() =~= t + post.drop_last());
        assert(is_ws(post.last()));
        lemma_trim_end_padded(t, post.drop_last());
    }
}

/// Trimming a word padded with whitespace on both sides gives back the word.
pub proof fn lemma_trim_padded(pre: Seq<char>, t: Seq<char>, post: Seq<char>)
    requires
        all_ws(pre),
        all_ws(post),
        is_trimmed_word(t),
    ensures
        trim(pre + t + post) == t,
{
    assert(pre + t + post =~= pre + (t + post));
    assert((t + post)[0] == t[0]);
    lemma_trim_start_padded(pre, t + post);
    lemma_trim_end_padded(t, post);
}

/// Whether `c` is an ASCII decimal digit.
pub open spec fn is_digit(c: char) -> bool {
    '0' <= c && c <= '9'
}

/// Whether every character of `s` is an ASCII decimal digit.
pub open spec fn all_digits(s: Seq<char>) -> bool {
    forall|i: int| 0 <= i < s.len() ==> is_digit(#[trigger] s[i])
}

/// The value of a run of decimal digits (most significant first).
pub open spec fn digits_value(s: Seq<char>) -> nat
    decreases s.len(),
{
    if s.len() == 0 {
        0
    } else {
        digits_value(s.drop_last()) * 10 + ((s.last() as int) - ('0' as int)) as nat
    }
}

/// The integer a decimal literal denotes: an optional `+` or `-` followed by one or more
/// digits, nothing else (no surrounding whitespace). `None` when the text is no such literal.
pub open spec fn signed_literal(s: Seq<char>) -> Option<int> {
    if s.len() > 0 && (s[0] == '+' || s[0] == '-') {
        let body = s.drop_first();
        if body.len() > 0 && all_digits(body) {
            if s[0] == '-' {
                Some(-(digits_value(body) as int))
            } else {
                Some(digits_value(body) as int)
            }
        } else {
            None
        }
    } else if s.len() > 0 && all_digits(s) {
        Some(digits_value(s) as int)
    } else {
        None
    }
}

/// The value an unsigned decimal literal denotes: an optional `+` and one or more digits.
pub open spec fn unsigned_literal(s: Seq<char>) -> Option<int> {
    if s.len() > 0 && s[0] == '-' {
        None
    } else {
        signed_literal(s)
    }
}

/// What `str::parse::<T>()` gives for a literal value `v`, where `T` spans `lo..=hi`.
pub open spec fn in_range(v: Option<int>, lo: int, hi: int) -> Option<int> {
    match v {
        Some(x) => if lo <= x <= hi {
            Some(x)
        } else {
            None
        },
        None => None,
    }
}

/// The characters of a string slice, in order.
pub fn chars_of(s: &str) -> (r: Vec<char>)
    ensures
        r@ == s@,
{
    let n = s.unicode_len();
    let mut r: Vec<char> = Vec::new();
    let mut i: usize = 0;
    while i < n
        invariant
            n == s@.len(),
            i <= n,
            r@ == s@.subrange(0, i as int),
        decreases n - i,
    {
        let c = s.get_char(i);
        r.push(c);
        i = i + 1;
        assert(r@ =~= s@.subrange(0, i as int));
    }
    assert(r@ =~= s@);
    r
}

/// Whether `c` is Unicode whitespace.
pub fn char_is_ws(c: char) -> (b: bool)
    ensures
        b == is_ws(c),
{
    let u = c as u32;
    (0x09 <= u && u <= 0x0D) || u == 0x20 || u == 0x85 || u == 0xA0 || u == 0x1680 || (0x2000
        <= u && u <= 0x200A) || u == 0x2028 || u == 0x2029 || u == 0x202F || u == 0x205F || u
        == 0x3000
}

/// Copies `v[from..to]`.
pub fn slice_chars(v: &Vec<char>, from: usize, to: usize) -> (r: Vec<char>)
    requires
        from <= to <= v.len(),
    ensures
        r@ == v@.subrange(from as int, to as int),
{
    let mut r: Vec<char> = Vec::new();
    let mut i = from;
    while i < to
        invariant
            from <= i <= to,
            to <= v.len(),
            r@ == v@.subrange(from as int, i as int),
        decreases to - i,
    {
        r.push(v[i]);
        i = i + 1;
        assert(r@ =~= v@.subrange(from as int, i as int));
    }
    r
}

/// `v` with leading and trailing whitespace removed.
pub fn trim_chars(v: &Vec<char>) -> (r: Vec<char>)
    ensures
        r@ == trim(v@),
{
    let n = v.len();
    let mut i: usize = 0;
    assert(v@.subrange(0, n as int) =~= v@);
    while i < n && char_is_ws(v[i])
        invariant
            n == v.len(),
            i <= n,
            trim_start(v@) == trim_start(v@.subrange(i as int, n as int)),
        decreases n - i,
    {
        assert(v@.subrange(i as int, n as int).drop_first() =~= v@.subrange(
            i + 1,
            n as int,
        ));
        i = i + 1;
    }
    assert(trim_start(v@.subrange(i as int, n as int)) == v@.subrange(i as int, n as int));
    let mut j: usize = n;
    while j > i && char_is_ws(v[j - 1])
        invariant
            n == v.len(),
            i <= j <= n,
            trim(v@) == trim_end(v@.subrange(i as int, j as int)),
        decreases j - i,
    {
        assert(v@.subrange(i as int, j as int).drop_last() =~= v@.subrange(
            i as int,
            j - 1,
        ));
        j = j - 1;
    }
    slice_chars(v, i, j)
}

/// The characters of `s` with leading and trailing whitespace removed.
pub fn trimmed(s: &str) -> (r: Vec<char>)
    ensures
        r@ == trim(s@),
{
    let v = chars_of(s);
    trim_chars(&v)
}

/// Whether `v` spells exactly `lit`.
pub fn eq_lit(v: &Vec<char>, lit: &str) -> (b: bool)
    ensures
        b == (v@ == lit@),
{
    let n = lit.unicode_len();
    if n != v.len() {
        return false;
    }
    let mut i: usize = 0;
    while i < n
        invariant
            n == lit@.len(),
            n == v.len(),
            i <= n,
            forall|k: int| 0 <= k < i ==> v@[k] == lit@[k],
        decreases n - i,
    {
        if v[i] != lit.get_char(i) {
            return false;
        }
        i = i + 1;
    }
    assert(v@ =~= lit@);
    true
}

/// Whether two character runs are equal.
pub fn eq_chars(a: &Vec<char>, b: &Vec<char>) -> (r: bool)
    ensures
        r == (a@ == b@),
{
    if a.len() != b.len() {
        return false;
    }
    let mut i: usize = 0;
    while i < a.len()
        invariant
            a.len() == b.len(),
            i <= a.len(),
            forall|k: int| 0 <= k < i ==> a@[k] == b@[k],
        decreases a.len() - i,
    {
        if a[i] != b[i] {
            return false;
        }
        i = i + 1;
    }
    assert(a@ =~= b@);
    true
}

/// The digit characters of `v[from..]` as a value, saturated at `cap` so that long
/// inputs cannot overflow.
fn digits_capped(v: &Vec<char>, from: usize, cap: u128) -> (r: (bool, u128))
    requires
        from <= v.len(),
        cap <= 100_000_000_000_000_000_000,
    ensures
        r.0 == all_digits(v@.subrange(from as int, v@.len() as int)),
        r.0 ==> r.1 == if digits_value(v@.subrange(from as int, v@.len() as int)) < cap {
            digits_value(v@.subrange(from as int, v@.len() as int)) as int
        } else {
            cap as int
        },
{
    let n = v.len();
    let mut acc: u128 = 0;
    let mut i = from;
    while i < n
        invariant
            n == v.len(),
            from <= i <= n,
            cap <= 100_000_000_000_000_000_000,
            all_digits(v@.subrange(from as int, i as int)),
            acc == if digits_value(v@.subrange(from as int, i as int)) < cap {
                digits_value(v@.subrange(from as int, i as int)) as int
            } else {
                cap as int
            },
        decreases n - i,
    {
        let c = v[i];
        if !('0' <= c && c <= '9') {
            assert(!all_digits(v@.subrange(from as int, n as int))) by {
                assert(v@.subrange(from as int, n as int)[i - from] == c);
            }
            return (false, 0);
        }
        let d = (c as u32 - '0' as u32) as u128;
        let ghost prev = v@.subrange(from as int, i as int);
        let ghost next = v@.subrange(from as int, i + 1);
        assert(next.drop_last() =~= prev);
        assert(next.last() == c);
        assert(digits_value(next) == digits_value(prev) * 10 + d);
        if acc < cap {
            let t = acc * 10 + d;
            acc = if t < cap {
                t
            } else {
                cap
            };
        }
        i = i + 1;
        assert(all_digits(next)) by {
            assert forall|k: int| 0 <= k < next.len() implies is_digit(#[trigger] next[k]) by {
                if k < prev.len() {
                    assert(next[k] == prev[k]);
                }
            }
        }
    }
    (true, acc)
}

/// Parses a decimal literal with an optional sign, as `str::parse::<i64>()` does.
pub fn parse_i64(v: &Vec<char>) -> (r: Option<i64>)
    ensures
        r matches Some(x) ==> in_range(signed_literal(v@), i64::MIN as int, i64::MAX as int)
            == Some(x as int),
        r is None ==> in_range(signed_literal(v@), i64::MIN as int, i64::MAX as int) is None,
{
    let n = v.len();
    if n == 0 {
        return None;
    }
    let neg = v[0] == '-';
    let start: usize = if v[0] == '+' || v[0] == '-' {
        1
    } else {
        0
    };
    if start == n {
        return None;
    }
    let cap: u128 = 10_000_000_000_000_000_000;
    let (ok, val) = digits_capped(v, start, cap);
    assert(v@.subrange(start as int, n as int) =~= if start == 1 {
        v@.drop_first()
    } else {
        v@
    });
    if !ok {
        return None;
    }
    if neg {
        if val > 9_223_372_036_854_775_808 {
            None
        } else if val == 9_223_372_036_854_775_808 {
            Some(i64::MIN)
        } else {
            Some(-(val as i64))
        }
    } else {
        if val > 9_223_372_036_854_775_807 {
            None
        } else {
            Some(val as i64)
        }
    }
}

/// Parses a decimal literal with an optional `+`, as `str::parse::<usize>()` does.
pub fn parse_usize(v: &Vec<char>) -> (r: Option<usize>)
    ensures
        r matches Some(x) ==> in_range(unsigned_literal(v@), 0, usize::MAX as int) == Some(
            x as int,
        ),
        r is None ==> in_range(unsigned_literal(v@), 0, usize::MAX as int) is None,
{
    let n = v.len();
    if n == 0 || v[0] == '-' {
        return None;
    }
    let start: usize = if v[0] == '+' {
        1
    } else {
        0
    };
    if start == n {
        return None;
    }
    let cap: u128 = 100_000_000_000_000_000_000;
    let (ok, val) = digits_capped(v, start, cap);
    assert(v@.subrange(start as int, n as int) =~= if start == 1 {
        v@.drop_first()
    } else {
        v@
    });
    if !ok {
        return None;
    }
    if val > usize::MAX as u128 {
        None
    } else {
        Some(val as usize)
    }
}

/// Parses a decimal literal with an optional sign, as `str::parse::<i32>()` does.
pub fn parse_i32(v: &Vec<char>) -> (r: Option<i32>)
    ensures
        r matches Some(x) ==> in_range(signed_literal(v@), i32::MIN as int, i32::MAX as int)
            == Some(x as int),
        r is None ==> in_range(signed_literal(v@), i32::MIN as int, i32::MAX as int) is None,
{
    match parse_i64(v) {
        Some(x) => if i32::MIN as i64 <= x && x <= i32::MAX as i64 {
            Some(x as i32)
        } else {
            None
        },
        None => None,
    }
}

/// The separator classes the command parsers split on.
#[derive(Clone, Copy, Debug, PartialEq, Eq)]
pub enum Sep {
    /// Unicode whitespace (`split_whitespace`).
    Whitespace,
    /// The coordinate separators: ASCII and full-width comma, semicolon and colon,
    /// space, tab and `|`.
    Coordinate,
}

/// Whether `c` separates tokens under `k`.
pub open spec fn is_sep(k: Sep, c: char) -> bool {
    match k {
        Sep::Whitespace => is_ws(c),
        Sep::Coordinate => c == ',' || c == '，' || c == ' ' || c == '\t' || c == ';' || c
            == '；' || c == '|' || c == ':' || c == '：',
    }
}

/// Tokenising `s` after `done` tokens were found and `cur` is the token being read.
pub open spec fn tokens_from(s: Seq<char>, k: Sep, cur: Seq<char>, done: Seq<Seq<char>>) -> Seq<
    Seq<char>,
>
    decreases s.len(),
{
    if s.len() == 0 {
        if cur.len() > 0 {
            done.push(cur)
        } else {
            done
        }
    } else if is_sep(k, s[0]) {
        tokens_from(
            s.drop_first(),
            k,
            seq![],
            if cur.len() > 0 {
                done.push(cur)
            } else {
                done
            },
        )
    } else {
        tokens_from(s.drop_first(), k, cur.push(s[0]), done)
    }
}

/// The maximal non-empty runs of non-separator characters of `s`, in order: what
/// splitting on the separators and dropping empty pieces yields.
pub open spec fn tokens(s: Seq<char>, k: Sep) -> Seq<Seq<char>> {
    tokens_from(s, k, seq![], seq![])
}

/// Whether `c` separates tokens under `k`.
pub fn char_is_sep(k: Sep, c: char) -> (b: bool)
    ensures
        b == is_sep(k, c),
{
    match k {
        Sep::Whitespace => char_is_ws(c),
        Sep::Coordinate => c == ',' || c == '，' || c == ' ' || c == '\t' || c == ';' || c
            == '；' || c == '|' || c == ':' || c == '：',
    }
}

/// The character contents of a sequence of character vectors.
pub open spec fn views(r: Seq<Vec<char>>) -> Seq<Seq<char>> {
    r.map_values(|t: Vec<char>| t@)
}

/// Splits `v` into its tokens under `k`.
pub fn split_tokens(v: &Vec<char>, k: Sep) -> (r: Vec<Vec<char>>)
    ensures
        views(r@) == tokens(v@, k),
{
    let n = v.len();
    let mut done: Vec<Vec<char>> = Vec::new();
    let mut cur: Vec<char> = Vec::new();
    let mut i: usize = 0;
    assert(v@.subrange(0, n as int) =~= v@);
    assert(views(done@) =~= Seq::<Seq<char>>::empty());
    while i < n
        invariant
            n == v.len(),
            i <= n,
            tokens(v@, k) == tokens_from(v@.subrange(i as int, n as int), k, cur@, views(done@)),
        decreases n - i,
    {
        let ghost rest = v@.subrange(i as int, n as int);
        assert(rest.drop_first() =~= v@.subrange(i + 1, n as int));
        assert(rest[0] == v@[i as int]);
        let c = v[i];
        if char_is_sep(k, c) {
            if cur.len() > 0 {
                let ghost old_done = views(done@);
                let ghost old_cur = cur@;
                let t = cur;
                done.push(t);
                assert(views(done@) =~= old_done.push(old_cur));
                cur = Vec::new();
            }
            assert(cur@ =~= Seq::<char>::empty());
        } else {
            cur.push(c);
        }
        i = i + 1;
    }
    assert(v@.subrange(n as int, n as int) =~= Seq::<char>::empty());
    if cur.len() > 0 {
        let ghost old_done = views(done@);
        let ghost old_cur = cur@;
        done.push(cur);
        assert(views(done@) =~= old_done.push(old_cur));
    }
    done
}

/// `t` with the prefix `p` removed, when `t` starts with `p`.
pub open spec fn strip_prefix(t: Seq<char>, p: Seq<char>) -> Option<Seq<char>> {
    if p.len() <= t.len() && t.subrange(0, p.len() as int) == p {
        Some(t.subrange(p.len() as int, t.len() as int))
    } else {
        None
    }
}

/// `t` with the suffix `p` removed, when `t` ends with `p`.
pub open spec fn strip_suffix(t: Seq<char>, p: Seq<char>) -> Option<Seq<char>> {
    if p.len() <= t.len() && t.subrange(t.len() - p.len(), t.len() as int) == p {
        Some(t.subrange(0, t.len() - p.len()))
    } else {
        None
    }
}

/// `t` with the non-empty suffix `p` removed as many times as it repeats at the end.
pub open spec fn strip_suffix_all(t: Seq<char>, p: Seq<char>) -> Seq<char>
    decreases t.len(),
{
    if p.len() > 0 && p.len() <= t.len() && t.subrange(t.len() - p.len(), t.len() as int) == p {
        strip_suffix_all(t.subrange(0, t.len() - p.len()), p)
    } else {
        t
    }
}

/// Whether `v[at..at + p.len()]` spells `p`.
fn matches_at(v: &Vec<char>, at: usize, p: &Vec<char>) -> (b: bool)
    requires
        at + p.len() <= v.len(),
    ensures
        b == (v@.subrange(at as int, at + p.len()) == p@),
{
    let mut i: usize = 0;
    while i < p.len()
        invariant
            at + p.len() <= v.len(),
            i <= p.len(),
            forall|k: int| 0 <= k < i ==> v@[at + k] == p@[k],
        decreases p.len() - i,
    {
        if v[at + i] != p[i] {
            assert(v@.subrange(at as int, at + p.len())[i as int] != p@[i as int]);
            return false;
        }
        i = i + 1;
    }
    assert(v@.subrange(at as int, at + p.len()) =~= p@);
    true
}

/// Whether `p` occurs in `s`.
pub open spec fn has_sub(s: Seq<char>, p: Seq<char>) -> bool {
    exists|i: int| 0 <= i && i + p.len() <= s.len() && #[trigger] s.subrange(i, i + p.len()) == p
}

/// Whether the text `v` contains the literal `p` (as `str::contains`).
pub fn contains_lit(v: &Vec<char>, p: &str) -> (b: bool)
    ensures
        b == has_sub(v@, p@),
{
    let pv = chars_of(p);
    if pv.len() > v.len() {
        return false;
    }
    let lim = v.len() - pv.len();
    let mut i: usize = 0;
    loop
        invariant
            pv@ == p@,
            lim == v.len() - pv.len(),
            i <= lim,
            forall|k: int| 0 <= k < i ==> #[trigger] v@.subrange(k, k + pv.len()) != p@,
        decreases lim - i,
    {
        if matches_at(v, i, &pv) {
            return true;
        }
        if i == lim {
            return false;
        }
        i = i + 1;
    }
}

/// `v` without the prefix `p`, when it starts with `p`.
pub fn strip_prefix_lit(v: &Vec<char>, p: &str) -> (r: Option<Vec<char>>)
    ensures
        r matches Some(t) ==> strip_prefix(v@, p@) == Some(t@),
        r is None ==> strip_prefix(v@, p@) is None,
{
    let pv = chars_of(p);
    if pv.len() > v.len() {
        return None;
    }
    if matches_at(v, 0, &pv) {
        Some(slice_chars(v, pv.len(), v.len()))
    } else {
        None
    }
}

/// `v` without the suffix `p`, when it ends with `p`.
pub fn strip_suffix_lit(v: &Vec<char>, p: &str) -> (r: Option<Vec<char>>)
    ensures
        r matches Some(t) ==> strip_suffix(v@, p@) == Some(t@),
        r is None ==> strip_suffix(v@, p@) is None,
{
    let pv = chars_of(p);
    if pv.len() > v.len() {
        return None;
    }
    if matches_at(v, v.len() - pv.len(), &pv) {
        Some(slice_chars(v, 0, v.len() - pv.len()))
    } else {
        None
    }
}

/// `v` with the literal suffix `p` (non-empty) removed as often as it repeats at the end.
pub fn strip_suffix_all_lit(v: &Vec<char>, p: &str) -> (r: Vec<char>)
    ensures
        r@ == strip_suffix_all(v@, p@),
{
    let pv = chars_of(p);
    let mut end: usize = v.len();
    if pv.len() == 0 {
        return slice_chars(v, 0, end);
    }
    assert(v@.subrange(0, end as int) =~= v@);
    while pv.len() <= end && matches_at(v, end - pv.len(), &pv)
        invariant
            end <= v.len(),
            pv@ == p@,
            pv.len() > 0,
            strip_suffix_all(v@, p@) == strip_suffix_all(v@.subrange(0, end as int), p@),
        decreases end,
    {
        let ghost t = v@.subrange(0, end as int);
        assert(t.subrange(t.len() - pv.len(), t.len() as int) =~= v@.subrange(end - pv.len(), end as int));
        assert(t.subrange(0, t.len() - pv.len()) =~= v@.subrange(0, end - pv.len()));
        end = end - pv.len();
    }
    let ghost t = v@.subrange(0, end as int);
    assert(pv.len() <= end ==> t.subrange(t.len() - pv.len(), t.len() as int) =~= v@.subrange(end - pv.len(), end as int));
    slice_chars(v, 0, end)
}

/// Whether `c` is an ASCII upper-case letter.
pub open spec fn is_ascii_upper(c: char) -> bool {
    'A' <= c && c <= 'Z'
}

/// ASCII lower-casing of one character (other characters unchanged).
pub open spec fn ascii_lower(c: char) -> char {
    if is_ascii_upper(c) {
        ((c as u32) + 32) as char
    } else {
        c
    }
}

/// Equality ignoring ASCII case (what `str::eq_ignore_ascii_case` compares).
pub open spec fn eq_ignore_ascii_case(a: Seq<char>, b: Seq<char>) -> bool {
    a.len() == b.len() && forall|i: int| 0 <= i < a.len() ==> ascii_lower(#[trigger] a[i]) == ascii_lower(b[i])
}

/// ASCII lower-casing of one character.
pub fn char_ascii_lower(c: char) -> (r: char)
    ensures
        r == ascii_lower(c),
{
    if 'A' <= c && c <= 'Z' {
        let u = c as u32 + 32;
        assert(0x61 <= u <= 0x7A);
        (u as u8) as char
    } else {
        c
    }
}

/// Whether two character runs are equal ignoring ASCII case.
pub fn eq_ignore_case_chars(a: &Vec<char>, b: &Vec<char>) -> (r: bool)
    ensures
        r == eq_ignore_ascii_case(a@, b@),
{
    if a.len() != b.len() {
        return false;
    }
    let mut i: usize = 0;
    while i < a.len()
        invariant
            a.len() == b.len(),
            i <= a.len(),
            forall|k: int| 0 <= k < i ==> ascii_lower(#[trigger] a@[k]) == ascii_lower(b@[k]),
        decreases a.len() - i,
    {
        if char_ascii_lower(a[i]) != char_ascii_lower(b[i]) {
            return false;
        }
        i = i + 1;
    }
    true
}

/// The characters `v` as a `String`, by `String::from_iter` over the characters.
#[verifier::external_body]
pub(crate) fn string_from_chars(v: &Vec<char>) -> (r: String)
    ensures
        r@ == v@,
{
    String::from_iter(v.iter())
}

/// What `str::to_lowercase` gives for a text: each character replaced by its Unicode
/// lowercase mapping (a function of the text alone).
pub uninterp spec fn lowercase(s: Seq<char>) -> Seq<char>;

/// Whether every character of `s` is ASCII or a CJK unified ideograph
/// (`U+4E00`–`U+9FFF`).
pub open spec fn ascii_or_han(s: Seq<char>) -> bool {
    forall|i: int| 0 <= i < s.len() ==> (#[trigger] s[i] as u32) < 128 || 0x4E00 <= (s[i] as u32) <= 0x9FFF
}

/// `str::to_lowercase`: the Unicode lowercase of `s`, named [`lowercase`]. For text of
/// ASCII characters and CJK ideographs that is Unicode's mapping of `A`–`Z` to `a`–`z`,
/// every other character having no lowercase mapping and staying as it is.
#[verifier::external_body]
pub(crate) fn to_lowercase(s: &str) -> (r: String)
    ensures
        r@ == lowercase(s@),
        ascii_or_han(s@) ==> r@ == s@.map_values(|c: char| ascii_lower(c)),
{
    s.to_lowercase()
}

/// The characters of the Unicode lowercase of `v`.
pub fn lower_chars(v: &Vec<char>) -> (r: Vec<char>)
    ensures
        r@ == lowercase(v@),
        ascii_or_han(v@) ==> r@ == v@.map_values(|c: char| ascii_lower(c)),
{
    let s = string_from_chars(v);
    let l = to_lowercase(s.as_str());
    chars_of(l.as_str())
}

/// Appends the characters of `s` to `buf`.
pub fn push_str(buf: &mut Vec<char>, s: &str)
    ensures
        final(buf)@ == old(buf)@ + s@,
{
    let v = chars_of(s);
    push_chars(buf, &v);
}

/// Appends `v` to `buf`.
pub fn push_chars(buf: &mut Vec<char>, v: &Vec<char>)
    ensures
        final(buf)@ == old(buf)@ + v@,
{
    let ghost start = buf@;
    let mut i: usize = 0;
    while i < v.len()
        invariant
            i <= v.len(),
            buf@ == start + v@.subrange(0, i as int),
        decreases v.len() - i,
    {
        buf.push(v[i]);
        i = i + 1;
        assert(buf@ =~= start + v@.subrange(0, i as int));
    }
    assert(v@.subrange(0, v.len() as int) =~= v@);
}

/// The decimal digits of a natural number (no leading zeros; `0` for zero).
pub open spec fn digits_of(n: nat) -> Seq<char>
    decreases n,
{
    if n < 10 {
        seq![(('0' as u32) + n) as char]
    } else {
        digits_of(n / 10).push((('0' as u32) + (n % 10)) as char)
    }
}

/// The decimal digits of `n` read back as an unsigned literal give `n`.
pub proof fn lemma_digits_literal(n: nat)
    ensures
        digits_of(n).len() > 0,
        all_digits(digits_of(n)),
        digits_value(digits_of(n)) == n,
        unsigned_literal(digits_of(n)) == Some(n as int),
    decreases n,
{
    let d = digits_of(n);
    let c = (('0' as u32) + n % 10) as char;
    assert(c as int == '0' as int + n % 10);
    assert(d.last() == c);
    if n < 10 {
        assert(d.drop_last() =~= Seq::<char>::empty());
        assert(digits_value(d) == digits_value(d.drop_last()) * 10 + n % 10);
    } else {
        lemma_digits_literal(n / 10);
        assert(d.drop_last() =~= digits_of(n / 10));
        assert(digits_value(d) == digits_value(digits_of(n / 10)) * 10 + n % 10);
        assert((n / 10) * 10 + n % 10 == n) by (nonlinear_arith);
        assert forall|i: int| 0 <= i < d.len() implies is_digit(#[trigger] d[i]) by {
            if i < d.len() - 1 {
                assert(d[i] == digits_of(n / 10)[i]);
            }
        }
    }
    assert(is_digit(d[0]));
}

/// The decimal text of an integer, as `{}` formatting writes it.
pub open spec fn decimal(v: int) -> Seq<char> {
    if v < 0 {
        seq!['-'] + digits_of((-v) as nat)
    } else {
        digits_of(v as nat)
    }
}

fn push_digits(buf: &mut Vec<char>, n: u64)
    ensures
        final(buf)@ == old(buf)@ + digits_of(n as nat),
    decreases n,
{
    if n >= 10 {
        push_digits(buf, n / 10);
    }
    let d = (n % 10) as u32 + '0' as u32;
    assert(0x30 <= d <= 0x39);
    buf.push((d as u8) as char);
    proof {
        if n >= 10 {
            assert(old(buf)@ + digits_of(n as nat) =~= old(buf)@ + digits_of((n / 10) as nat) + seq![((('0' as u32) + (n % 10) as u32) as char)]);
        } else {
            assert(digits_of(n as nat) =~= seq![((('0' as u32) + n as u32) as char)]);
        }
    }
}

/// Appends the decimal text of `v`.
pub fn push_decimal(buf: &mut Vec<char>, v: i64)
    ensures
        final(buf)@ == old(buf)@ + decimal(v as int),
{
    if v < 0 {
        buf.push('-');
        let m: u64 = if v == i64::MIN {
            9_223_372_036_854_775_808
        } else {
            (-v) as u64
        };
        let ghost mid = buf@;
        push_digits(buf, m);
        assert(buf@ =~= old(buf)@ + decimal(v as int));
    } else {
        push_digits(buf, v as u64);
    }
}

/// The decimal text of `v` as a `String`.
pub fn decimal_string(v: i64) -> (r: String)
    ensures
        r@ == decimal(v as int),
{
    let mut b: Vec<char> = Vec::new();
    push_decimal(&mut b, v);
    assert(b@ =~= decimal(v as int));
    string_from_chars(&b)
}

} // verus!
