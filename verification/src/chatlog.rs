//! Message-log helpers: the file names archived pictures are stored under, the jobs a
//! message's pictures become, and the texts of the chat-count board and profile line.
//! Downloading, storing and querying happen outside.

use vstd::prelude::*;

use crate::text::{
    chars_of, contains_lit, decimal, decimal_string, has_sub, lowercase, lower_chars, push_chars,
    push_decimal, push_str, slice_chars, strip_prefix, strip_prefix_lit, string_from_chars,
};

verus! {

/// The MD5 digest of a byte string, as `md5::compute` gives it (a function of the bytes
/// alone; sixteen bytes).
pub uninterp spec fn md5_digest(data: Seq<u8>) -> Seq<u8>;

/// `md5::compute`: the digest bytes of `data`, named [`md5_digest`].
#[verifier::external_body]
fn md5_bytes(data: &[u8]) -> (r: [u8; 16])
    ensures
        r@ == md5_digest(data@),
{
    md5::compute(data).0
}

/// A lowercase hexadecimal digit.
pub open spec fn hex_digit(n: int) -> char {
    if n < 10 {
        (('0' as u32) + n) as char
    } else {
        (('a' as u32) + n - 10) as char
    }
}

/// Bytes as lowercase hexadecimal, two digits each (as `{:x}` shows a digest).
pub open spec fn hex_of(bytes: Seq<u8>) -> Seq<char>
    decreases bytes.len(),
{
    if bytes.len() == 0 {
        seq![]
    } else {
        hex_of(bytes.drop_last()) + seq![hex_digit(bytes.last() as int / 16), hex_digit(bytes.last() as int % 16)]
    }
}

fn hex_char(n: u8) -> (c: char)
    requires
        n < 16,
    ensures
        c == hex_digit(n as int),
{
    if n < 10 {
        ((n + 48) as u8) as char
    } else {
        ((n + 87) as u8) as char
    }
}

/// The MD5 digest of `data` in lowercase hexadecimal.
pub fn md5_hex(data: &[u8]) -> (r: String)
    ensures
        r@ == hex_of(md5_digest(data@)),
{
    let d = md5_bytes(data);
    let ds = d.as_slice();
    let mut out: Vec<char> = Vec::new();
    let mut i: usize = 0;
    while i < 16
        invariant
            i <= 16,
            ds@ == md5_digest(data@),
            ds@.len() == 16,
            out@ == hex_of(ds@.take(i as int)),
        decreases 16 - i,
    {
        let b = ds[i];
        out.push(hex_char(b / 16));
        out.push(hex_char(b % 16));
        assert(ds@.take(i + 1).drop_last() =~= ds@.take(i as int));
        assert(ds@.take(i + 1).last() == b);
        i = i + 1;
    }
    assert(ds@.take(16) =~= ds@);
    string_from_chars(&out)
}

/// The file extension guessed from a content type.
pub open spec fn ext_of(ct: Option<Seq<char>>) -> Seq<char> {
    let s = match ct {
        Some(c) => c,
        None => seq![],
    };
    if has_sub(s, "png"@) {
        "png"@
    } else if has_sub(s, "gif"@) {
        "gif"@
    } else if has_sub(s, "webp"@) {
        "webp"@
    } else if has_sub(s, "jpeg"@) || has_sub(s, "jpg"@) {
        "jpg"@
    } else {
        "bin"@
    }
}

/// Guesses a picture's extension from its content type (see [`ext_of`]).
pub fn ext_from_ct(ct: Option<&str>) -> (r: &'static str)
    ensures
        r@ == ext_of(match ct {
            Some(c) => Some(c@),
            None => None,
        }),
{
    let s = match ct {
        Some(c) => chars_of(c),
        None => Vec::new(),
    };
    if contains_lit(&s, "png") {
        "png"
    } else if contains_lit(&s, "gif") {
        "gif"
    } else if contains_lit(&s, "webp") {
        "webp"
    } else if contains_lit(&s, "jpeg") || contains_lit(&s, "jpg") {
        "jpg"
    } else {
        "bin"
    }
}

/// The archive name of a downloaded picture without a known file name: its MD5 in
/// lowercase hexadecimal, a dot, and the extension guessed from the content type.
pub fn archive_name(bytes: &[u8], ct: Option<&str>) -> (r: String)
    ensures
        r@ == hex_of(md5_digest(bytes@)) + "."@ + ext_of(match ct {
            Some(c) => Some(c@),
            None => None,
        }),
{
    let h = md5_hex(bytes);
    let mut b = chars_of(h.as_str());
    push_str(&mut b, ".");
    push_str(&mut b, ext_from_ct(ct));
    string_from_chars(&b)
}

/// The last position of `c` in `s`, if any.
pub open spec fn last_pos(s: Seq<char>, c: char) -> Option<int>
    decreases s.len(),
{
    if s.len() == 0 {
        None
    } else if s.last() == c {
        Some(s.len() - 1)
    } else {
        last_pos(s.drop_last(), c)
    }
}

/// `s` without the characters `{`, `}` and `-`.
pub open spec fn strip_braces(s: Seq<char>) -> Seq<char>
    decreases s.len(),
{
    if s.len() == 0 {
        seq![]
    } else if s.last() == '{' || s.last() == '}' || s.last() == '-' {
        strip_braces(s.drop_last())
    } else {
        strip_braces(s.drop_last()).push(s.last())
    }
}

/// A picture's clean archive name: the part before the last dot without `{`, `}` and
/// `-`, lowercased, then the lowercased extension after a dot when there is one.
pub open spec fn normalized(f: Seq<char>) -> Seq<char> {
    let (stem, ext) = match last_pos(f, '.') {
        Some(p) => (f.take(p), f.skip(p + 1)),
        None => (f, seq![]),
    };
    if ext.len() == 0 {
        lowercase(strip_braces(stem))
    } else {
        lowercase(strip_braces(stem)) + "."@ + lowercase(ext)
    }
}

/// Cleans a picture's file name as sent (see [`normalized`]), so that the old
/// `{XXXXXXXX-XXXX-...}.gif` form and the new `md5.ext` form of one picture agree.
pub fn normalize_name(filename: &str) -> (r: String)
    ensures
        r@ == normalized(filename@),
{
    let f = chars_of(filename);
    let mut p: usize = f.len();
    assert(f@.take(p as int) =~= f@);
    while p > 0 && f[p - 1] != '.'
        invariant
            p <= f.len(),
            last_pos(f@, '.') == last_pos(f@.take(p as int), '.'),
        decreases p,
    {
        assert(f@.take(p as int).drop_last() =~= f@.take(p - 1));
        p = p - 1;
    }
    let (stem, ext) = if p == 0 {
        assert(f@.take(0) =~= Seq::<char>::empty());
        assert(f@.take(f.len() as int) =~= f@);
        (slice_chars(&f, 0, f.len()), Vec::new())
    } else {
        assert(f@.take(p as int).last() == '.');
        assert(last_pos(f@.take(p as int), '.') == Some(p - 1));
        (slice_chars(&f, 0, p - 1), slice_chars(&f, p, f.len()))
    };
    assert(p == 0 ==> last_pos(f@, '.') is None) by {
        if p == 0 {
            assert(f@.take(0) =~= Seq::<char>::empty());
        }
    }
    assert(p > 0 ==> stem@ =~= f@.take(p - 1) && ext@ =~= f@.skip(p as int));
    assert(p == 0 ==> stem@ =~= f@);
    let mut kept: Vec<char> = Vec::new();
    let mut i: usize = 0;
    while i < stem.len()
        invariant
            i <= stem.len(),
            kept@ == strip_braces(stem@.take(i as int)),
        decreases stem.len() - i,
    {
        assert(stem@.take(i + 1).drop_last() =~= stem@.take(i as int));
        let c = stem[i];
        if c != '{' && c != '}' && c != '-' {
            kept.push(c);
        }
        i = i + 1;
    }
    assert(stem@.take(stem.len() as int) =~= stem@);
    let mut out = lower_chars(&kept);
    if ext.len() > 0 {
        out.push('.');
        let le = lower_chars(&ext);
        push_chars(&mut out, &le);
    }
    proof {
        reveal_strlit(".");
    }
    string_from_chars(&out)
}

/// A picture to download: its address and its known archive name, if the message gave
/// one.
pub struct ImageJob {
    pub url: String,
    pub name: Option<String>,
}

/// The download job of one received picture: its URL (else its resource id) when that
/// is a web address (`http…`), named by the message's cleaned file name when given.
pub fn image_job(url: Option<&str>, id: Option<&str>, filename: Option<&str>) -> (r: Option<ImageJob>)
    ensures
        ({
            let src = match url {
                Some(u) => Some(u@),
                None => match id {
                    Some(i) => Some(i@),
                    None => None,
                },
            };
            match src {
                None => r is None,
                Some(s) => if strip_prefix(s, "http"@) is None {
                    r is None
                } else {
                    r matches Some(j) && j.url@ == s && match filename {
                        Some(f) => j.name matches Some(n) && n@ == normalized(f@),
                        None => j.name is None,
                    }
                },
            }
        }),
{
    let src = match url {
        Some(u) => u,
        None => match id {
            Some(i) => i,
            None => {
                return None;
            },
        },
    };
    let sv = chars_of(src);
    match strip_prefix_lit(&sv, "http") {
        None => None,
        Some(_) => {
            let name = match filename {
                Some(f) => Some(normalize_name(f)),
                None => None,
            };
            Some(ImageJob { url: string_from_chars(&sv), name })
        },
    }
}

/// How the chat board shows a count: `<n> 条`.
pub fn format_value(value: i64) -> (r: String)
    ensures
        r@ == decimal(value as int) + " 条"@,
{
    let mut b: Vec<char> = Vec::new();
    push_decimal(&mut b, value);
    push_str(&mut b, " 条");
    string_from_chars(&b)
}

/// The profile line of the message count: `发言 <n> 条`, nothing before the first message.
pub fn profile_line(count: i64) -> (r: Option<String>)
    ensures
        count == 0 ==> r is None,
        count != 0 ==> (r matches Some(s) && s@ == "发言 "@ + decimal(count as int) + " 条"@),
{
    if count == 0 {
        return None;
    }
    let mut b: Vec<char> = Vec::new();
    push_str(&mut b, "发言 ");
    push_decimal(&mut b, count);
    push_str(&mut b, " 条");
    Some(string_from_chars(&b))
}

/// A person's place on the chat board: `None` outside the asked members or with no
/// message; otherwise one more than the number of people ahead, with the count.
pub fn board_place(in_members: bool, mine: i64, ahead: u64) -> (r: Option<(u32, i64)>)
    requires
        ahead < u32::MAX,
    ensures
        r == if !in_members || mine == 0 { None } else { Some(((ahead + 1) as u32, mine)) },
{
    if !in_members || mine == 0 {
        None
    } else {
        Some(((ahead + 1) as u32, mine))
    }
}

} // verus!
