//! Hex colour strings such as `#1E1E1E`: parsing them into 8-bit channels and
//! telling dark colours from light ones.
use vstd::prelude::*;
use crate::text::chars_of;

verus! {

/// An 8-bit-per-channel colour.
#[derive(Clone, Copy, Debug, PartialEq, Eq, Structural)]
pub struct Rgb8 {
    pub r: u8,
    pub g: u8,
    pub b: u8,
}

/// Number of bytes of `c` in UTF-8.
pub open spec fn utf8_len(c: char) -> nat {
    let u = c as u32;
    if u < 0x80 {
        1
    } else if u < 0x800 {
        2
    } else if u < 0x10000 {
        3
    } else {
        4
    }
}

/// Number of bytes of `s` in UTF-8 (what `str::len` gives).
pub open spec fn byte_len(s: Seq<char>) -> nat
    decreases s.len(),
{
    if s.len() == 0 {
        0
    } else {
        utf8_len(s[0]) + byte_len(s.drop_first())
    }
}

/// `s` without its leading `#` characters (`str::trim_start_matches('#')`).
pub open spec fn strip_hashes(s: Seq<char>) -> Seq<char>
    decreases s.len(),
{
    if s.len() > 0 && s[0] == '#' {
        strip_hashes(s.drop_first())
    } else {
        s
    }
}

/// Splits `s` after exactly `n` bytes: the characters before and after, or `None`
/// when byte `n` falls inside a character or past the end.
pub open spec fn split_bytes(s: Seq<char>, n: nat) -> Option<(Seq<char>, Seq<char>)>
    decreases s.len(),
{
    if n == 0 {
        Some((Seq::empty(), s))
    } else if s.len() == 0 || utf8_len(s[0]) > n {
        None
    } else {
        match split_bytes(s.drop_first(), (n - utf8_len(s[0])) as nat) {
            Some(p) => Some((seq![s[0]] + p.0, p.1)),
            None => None,
        }
    }
}

/// The three two-byte pieces `[0..2]`, `[2..4]`, `[4..6]` of a six-byte text, or
/// `None` when one of the cuts falls inside a character (slicing would panic there).
pub open spec fn byte_pairs(t: Seq<char>) -> Option<(Seq<char>, Seq<char>, Seq<char>)> {
    match split_bytes(t, 2) {
        Some(p1) => match split_bytes(p1.1, 2) {
            Some(p2) => match split_bytes(p2.1, 2) {
                Some(p3) => Some((p1.0, p2.0, p3.0)),
                None => None,
            },
            None => None,
        },
        None => None,
    }
}

/// Slicing the six-byte text into byte pairs does not panic.
pub open spec fn hex_slices_ok(hex: Seq<char>) -> bool {
    let t = strip_hashes(hex);
    byte_len(t) == 6 ==> byte_pairs(t) is Some
}

/// Value of an ASCII hexadecimal digit, if `c` is one.
pub open spec fn hex_digit(c: char) -> Option<nat> {
    if '0' <= c && c <= '9' {
        Some((c as u32 - '0' as u32) as nat)
    } else if 'a' <= c && c <= 'f' {
        Some((c as u32 - 'a' as u32 + 10) as nat)
    } else if 'A' <= c && c <= 'F' {
        Some((c as u32 - 'A' as u32 + 10) as nat)
    } else {
        None
    }
}

/// What `u8::from_str_radix(piece, 16)` gives for a piece of at most two bytes:
/// two hex digits, or `+` and one hex digit.
pub open spec fn hex_byte(p: Seq<char>) -> Option<nat> {
    if p.len() == 2 && p[0] == '+' {
        hex_digit(p[1])
    } else if p.len() == 2 && hex_digit(p[0]) is Some && hex_digit(p[1]) is Some {
        Some(16 * hex_digit(p[0])->0 + hex_digit(p[1])->0)
    } else {
        None
    }
}

/// The colour a `#RRGGBB` text denotes: leading `#`s are ignored, the rest must be
/// six bytes whose pairs are hexadecimal bytes.
pub open spec fn spec_parse_hex(hex: Seq<char>) -> Option<(nat, nat, nat)> {
    let t = strip_hashes(hex);
    if byte_len(t) != 6 {
        None
    } else {
        match byte_pairs(t) {
            Some(ps) => match (hex_byte(ps.0), hex_byte(ps.1), hex_byte(ps.2)) {
                (Some(r), Some(g), Some(b)) => Some((r, g, b)),
                _ => None,
            },
            None => None,
        }
    }
}

/// Channel values read with a fallback of 0 for each unreadable pair, as `is_dark_hex` does.
pub open spec fn spec_channels_or_zero(hex: Seq<char>) -> Option<(nat, nat, nat)> {
    let t = strip_hashes(hex);
    if byte_len(t) != 6 {
        None
    } else {
        match byte_pairs(t) {
            Some(ps) => Some(
                (
                    match hex_byte(ps.0) {
                        Some(v) => v,
                        None => 0,
                    },
                    match hex_byte(ps.1) {
                        Some(v) => v,
                        None => 0,
                    },
                    match hex_byte(ps.2) {
                        Some(v) => v,
                        None => 0,
                    },
                ),
            ),
            None => None,
        }
    }
}

/// Whether a colour counts as dark: its perceived brightness
/// `0.299 r + 0.587 g + 0.114 b` (channels scaled to `[0, 1]`) is below one half.
/// Over integers that is `299 r + 587 g + 114 b < 127500`; single-precision rounding,
/// which the brightness is computed in, moves exactly one colour on the threshold,
/// `(233, 49, 255)`, to the dark side (checked over all 2^24 colours).
pub open spec fn dark_channels(r: nat, g: nat, b: nat) -> bool {
    299 * r + 587 * g + 114 * b < 127500 || (r == 233 && g == 49 && b == 255)
}

/// A colour read from `#RRGGBB` text is dark exactly when its weighted brightness
/// `299 r + 587 g + 114 b` (red weighted 0.299, green 0.587, blue 0.114) is below half
/// the maximum, 127500, with the one single-precision rounding exception `(233, 49, 255)`.
/// So pure red and pure blue are dark, pure green and orange `(255, 128, 0)` are light.
pub proof fn law_dark_is_low_luminance(hex: Seq<char>, r: nat, g: nat, b: nat)
    requires
        spec_parse_hex(hex) == Some((r, g, b)),
    ensures
        spec_is_dark_hex(hex) <==> (299 * r + 587 * g + 114 * b < 127500 || (r == 233 && g == 49 && b == 255)),
        dark_channels(255, 0, 0),
        dark_channels(0, 0, 255),
        !dark_channels(0, 255, 0),
        !dark_channels(255, 128, 0),
        dark_channels(0, 128, 255),
{
}

/// Whether a hex colour is dark; text that is not six bytes after the `#`s counts as dark.
pub open spec fn spec_is_dark_hex(hex: Seq<char>) -> bool {
    match spec_channels_or_zero(hex) {
        Some(c) => dark_channels(c.0, c.1, c.2),
        None => true,
    }
}

fn hex_digit_exec(c: char) -> (r: Option<u8>)
    ensures
        r matches Some(v) ==> hex_digit(c) == Some(v as nat),
        r is None ==> hex_digit(c) is None,
        r matches Some(v) ==> v < 16,
{
    if '0' <= c && c <= '9' {
        Some((c as u32 - '0' as u32) as u8)
    } else if 'a' <= c && c <= 'f' {
        Some((c as u32 - 'a' as u32 + 10) as u8)
    } else if 'A' <= c && c <= 'F' {
        Some((c as u32 - 'A' as u32 + 10) as u8)
    } else {
        None
    }
}

fn hex_byte_exec(v: &Vec<char>, lo: usize, hi: usize) -> (r: Option<u8>)
    requires
        lo <= hi <= v.len(),
    ensures
        r matches Some(x) ==> hex_byte(v@.subrange(lo as int, hi as int)) == Some(x as nat),
        r is None ==> hex_byte(v@.subrange(lo as int, hi as int)) is None,
{
    let ghost p = v@.subrange(lo as int, hi as int);
    if hi - lo != 2 {
        return None;
    }
    assert(p[0] == v@[lo as int] && p[1] == v@[lo + 1]);
    if v[lo] == '+' {
        return hex_digit_exec(v[lo + 1]);
    }
    match (hex_digit_exec(v[lo]), hex_digit_exec(v[lo + 1])) {
        (Some(a), Some(b)) => Some(16 * a + b),
        _ => None,
    }
}

fn utf8_len_exec(c: char) -> (n: usize)
    ensures
        n == utf8_len(c),
{
    let u = c as u32;
    if u < 0x80 {
        1
    } else if u < 0x800 {
        2
    } else if u < 0x10000 {
        3
    } else {
        4
    }
}

proof fn lemma_byte_len_split(s: Seq<char>, k: int)
    requires
        0 <= k <= s.len(),
    ensures
        byte_len(s) == byte_len(s.take(k)) + byte_len(s.skip(k)),
    decreases k,
{
    if k > 0 {
        lemma_byte_len_split(s.drop_first(), k - 1);
        assert(s.take(k).drop_first() =~= s.drop_first().take(k - 1));
        assert(s.skip(k) =~= s.drop_first().skip(k - 1));
    } else {
        assert(s.skip(0) =~= s);
    }
}

proof fn lemma_byte_len_last(s: Seq<char>)
    requires
        s.len() > 0,
    ensures
        byte_len(s) == byte_len(s.drop_last()) + utf8_len(s.last()),
{
    lemma_byte_len_split(s, s.len() - 1);
    assert(s.take(s.len() - 1) =~= s.drop_last());
    let t = s.skip(s.len() - 1);
    assert(t.len() == 1);
    assert(t[0] == s.last());
    assert(t.drop_first().len() == 0);
    assert(byte_len(t) == utf8_len(t[0]) + byte_len(t.drop_first()));
}

proof fn lemma_split_bytes_len(s: Seq<char>, n: nat)
    requires
        split_bytes(s, n) is Some,
    ensures
        byte_len(s) == n + byte_len(split_bytes(s, n).unwrap().1),
    decreases s.len(),
{
    if n > 0 {
        lemma_split_bytes_len(s.drop_first(), (n - utf8_len(s[0])) as nat);
    }
}

proof fn lemma_byte_len_pos(s: Seq<char>)
    requires
        s.len() > 0,
    ensures
        byte_len(s) > 0,
{
}

/// Walks `v[lo..]` over exactly `n` bytes: the index reached, or `None`.
fn split_bytes_exec(v: &Vec<char>, lo: usize, n: usize) -> (r: Option<usize>)
    requires
        lo <= v.len(),
        n <= 6,
    ensures
        r matches Some(k) ==> lo <= k <= v.len() && split_bytes(v@.skip(lo as int), n as nat)
            == Some((v@.subrange(lo as int, k as int), v@.skip(k as int))),
        r is None ==> split_bytes(v@.skip(lo as int), n as nat) is None,
    decreases n,
{
    if n == 0 {
        assert(v@.subrange(lo as int, lo as int) =~= Seq::<char>::empty());
        return Some(lo);
    }
    if lo == v.len() {
        assert(v@.skip(lo as int).len() == 0);
        return None;
    }
    let w = utf8_len_exec(v[lo]);
    let ghost s = v@.skip(lo as int);
    assert(s[0] == v@[lo as int]);
    if w > n {
        return None;
    }
    assert(s.drop_first() =~= v@.skip(lo + 1));
    match split_bytes_exec(v, lo + 1, n - w) {
        Some(k) => {
            assert(seq![s[0]] + v@.subrange(lo + 1, k as int) =~= v@.subrange(lo as int, k as int));
            Some(k)
        },
        None => None,
    }
}

/// Reads `#RRGGBB` (any number of leading `#`) into 8-bit channels.
pub fn parse_hex_color(hex: &str) -> (r: Option<Rgb8>)
    requires
        hex_slices_ok(hex@),
    ensures
        r matches Some(c) ==> spec_parse_hex(hex@) == Some((c.r as nat, c.g as nat, c.b as nat)),
        r is None ==> spec_parse_hex(hex@) is None,
{
    let v = chars_of(hex);
    let (lo, ok) = pairs_of(&v);
    if !ok {
        return None;
    }
    let (a, b, c) = lo;
    let ghost t = strip_hashes(hex@);
    let rr = hex_byte_exec(&v, a, b);
    let gg = hex_byte_exec(&v, b, c);
    let bb = hex_byte_exec(&v, c, v.len());
    match (rr, gg, bb) {
        (Some(x), Some(y), Some(z)) => Some(Rgb8 { r: x, g: y, b: z }),
        _ => None,
    }
}

/// Whether `(r, g, b)` counts as a dark colour.
pub fn channels_are_dark(r: u8, g: u8, b: u8) -> (d: bool)
    ensures
        d == dark_channels(r as nat, g as nat, b as nat),
{
    let lum = 299 * (r as u32) + 587 * (g as u32) + 114 * (b as u32);
    lum < 127500 || (r == 233 && g == 49 && b == 255)
}

/// Heuristic telling whether a hex colour is dark (a text that is not six bytes
/// after its leading `#`s counts as dark; an unreadable pair counts as 0).
pub fn is_dark_hex(hex: &str) -> (d: bool)
    requires
        hex_slices_ok(hex@),
    ensures
        d == spec_is_dark_hex(hex@),
{
    let v = chars_of(hex);
    let (lo, ok) = pairs_of(&v);
    if !ok {
        return true;
    }
    let (a, b, c) = lo;
    let r = match hex_byte_exec(&v, a, b) {
        Some(x) => x,
        None => 0,
    };
    let g = match hex_byte_exec(&v, b, c) {
        Some(x) => x,
        None => 0,
    };
    let bl = match hex_byte_exec(&v, c, v.len()) {
        Some(x) => x,
        None => 0,
    };
    channels_are_dark(r, g, bl)
}

/// Finds where the text after the leading `#`s starts and where its byte pairs begin.
/// Returns `(start, second, third)` and whether the text is six bytes long.
fn pairs_of(v: &Vec<char>) -> (res: ((usize, usize, usize), bool))
    requires
        hex_slices_ok(v@),
    ensures
        ({
            let t = strip_hashes(v@);
            let (a, b, c) = res.0;
            &&& res.1 == (byte_len(t) == 6)
            &&& res.1 ==> a <= b <= c <= v.len() && t == v@.skip(a as int) && byte_pairs(t)
                == Some(
                (
                    v@.subrange(a as int, b as int),
                    v@.subrange(b as int, c as int),
                    v@.subrange(c as int, v.len() as int),
                ),
            )
        }),
{
    let mut a: usize = 0;
    assert(v@.skip(0) =~= v@);
    while a < v.len() && v[a] == '#'
        invariant
            a <= v.len(),
            strip_hashes(v@.skip(a as int)) == strip_hashes(v@),
        decreases v.len() - a,
    {
        assert(v@.skip(a as int).drop_first() =~= v@.skip(a + 1));
        a = a + 1;
    }
    let ghost t = v@.skip(a as int);
    assert(strip_hashes(t) == t);
    let mut total: usize = 0;
    let mut i = a;
    while i < v.len()
        invariant
            a <= i <= v.len(),
            t == v@.skip(a as int),
            strip_hashes(v@) == t,
            total == byte_len(v@.subrange(a as int, i as int)),
            total <= 7,
        decreases v.len() - i,
    {
        let ghost pre = v@.subrange(a as int, i as int + 1);
        assert(pre.drop_last() =~= v@.subrange(a as int, i as int));
        assert(pre.last() == v@[i as int]);
        proof {
            lemma_byte_len_last(pre);
        }
        let w = utf8_len_exec(v[i]);
        if total + w > 6 {
            proof {
                lemma_byte_len_split(t, (i + 1 - a) as int);
                assert(t.take((i + 1 - a) as int) =~= pre);
            }
            return ((a, a, a), false);
        }
        total = total + w;
        i = i + 1;
    }
    assert(v@.subrange(a as int, v.len() as int) =~= t);
    if total != 6 {
        return ((a, a, a), false);
    }
    let b = match split_bytes_exec(v, a, 2) {
        Some(k) => k,
        None => {
            return ((a, a, a), false);
        },
    };
    let c = match split_bytes_exec(v, b, 2) {
        Some(k) => k,
        None => {
            return ((a, a, a), false);
        },
    };
    let d = match split_bytes_exec(v, c, 2) {
        Some(k) => k,
        None => {
            return ((a, a, a), false);
        },
    };
    proof {
        lemma_split_bytes_len(t, 2);
        lemma_split_bytes_len(v@.skip(b as int), 2);
        lemma_split_bytes_len(v@.skip(c as int), 2);
    }
    if d != v.len() {
        proof {
            assert(v@.skip(d as int).len() > 0);
            lemma_byte_len_pos(v@.skip(d as int));
        }
        return ((a, a, a), false);
    }
    ((a, b, c), true)
}

fn slices_ok_chars(v: &Vec<char>) -> (ok: bool)
    ensures
        ok == hex_slices_ok(v@),
{
    let mut a: usize = 0;
    assert(v@.skip(0) =~= v@);
    while a < v.len() && v[a] == '#'
        invariant
            a <= v.len(),
            strip_hashes(v@.skip(a as int)) == strip_hashes(v@),
        decreases v.len() - a,
    {
        assert(v@.skip(a as int).drop_first() =~= v@.skip(a + 1));
        a = a + 1;
    }
    let ghost t = v@.skip(a as int);
    assert(strip_hashes(t) == t);
    let mut total: usize = 0;
    let mut i = a;
    while i < v.len()
        invariant
            a <= i <= v.len(),
            t == v@.skip(a as int),
            strip_hashes(v@) == t,
            total == byte_len(v@.subrange(a as int, i as int)),
            total <= 7,
        decreases v.len() - i,
    {
        let ghost pre = v@.subrange(a as int, i as int + 1);
        assert(pre.drop_last() =~= v@.subrange(a as int, i as int));
        assert(pre.last() == v@[i as int]);
        proof {
            lemma_byte_len_last(pre);
        }
        let w = utf8_len_exec(v[i]);
        if total + w > 6 {
            proof {
                lemma_byte_len_split(t, (i + 1 - a) as int);
                assert(t.take((i + 1 - a) as int) =~= pre);
            }
            return true;
        }
        total = total + w;
        i = i + 1;
    }
    assert(v@.subrange(a as int, v.len() as int) =~= t);
    if total != 6 {
        return true;
    }
    let b = match split_bytes_exec(v, a, 2) {
        Some(k) => k,
        None => {
            return false;
        },
    };
    let c = match split_bytes_exec(v, b, 2) {
        Some(k) => k,
        None => {
            return false;
        },
    };
    let d = match split_bytes_exec(v, c, 2) {
        Some(k) => k,
        None => {
            return false;
        },
    };
    proof {
        lemma_split_bytes_len(t, 2);
        lemma_split_bytes_len(v@.skip(b as int), 2);
        lemma_split_bytes_len(v@.skip(c as int), 2);
    }
    if d != v.len() {
        proof {
            assert(v@.skip(d as int).len() > 0);
            lemma_byte_len_pos(v@.skip(d as int));
        }
        return true;
    }
    true
}

/// The channels of a `#RRGGBB` text with 0 for each unreadable pair (`None` when it is
/// not six bytes after its leading `#`s).
pub fn channels_or_zero(hex: &str) -> (r: Option<Rgb8>)
    requires
        hex_slices_ok(hex@),
    ensures
        r matches Some(c) ==> spec_channels_or_zero(hex@) == Some((c.r as nat, c.g as nat, c.b as nat)),
        r is None ==> spec_channels_or_zero(hex@) is None,
{
    let v = chars_of(hex);
    let (lo, ok) = pairs_of(&v);
    if !ok {
        return None;
    }
    let (a, b, c) = lo;
    let r = match hex_byte_exec(&v, a, b) {
        Some(x) => x,
        None => 0,
    };
    let g = match hex_byte_exec(&v, b, c) {
        Some(x) => x,
        None => 0,
    };
    let bl = match hex_byte_exec(&v, c, v.len()) {
        Some(x) => x,
        None => 0,
    };
    Some(Rgb8 { r, g, b: bl })
}

/// The lowercase hexadecimal digit of `d < 16`.
pub open spec fn lower_hex_digit(d: nat) -> char {
    if d < 10 {
        (('0' as u32) + d) as char
    } else {
        (('a' as u32) + (d - 10)) as char
    }
}

/// A byte as two lowercase hexadecimal digits (`{:02x}`).
pub open spec fn hex2(n: u8) -> Seq<char> {
    seq![lower_hex_digit((n / 16) as nat), lower_hex_digit((n % 16) as nat)]
}

/// A colour as `#rrggbb` text.
pub open spec fn rgb_hex_text(c: Rgb8) -> Seq<char> {
    seq!['#'] + hex2(c.r) + hex2(c.g) + hex2(c.b)
}

fn lower_hex_char(d: u8) -> (c: char)
    requires
        d < 16,
    ensures
        c == lower_hex_digit(d as nat),
{
    if d < 10 {
        let c = (48u8 + d) as char;
        assert(c == lower_hex_digit(d as nat));
        c
    } else {
        let c = (87u8 + d) as char;
        assert(c == lower_hex_digit(d as nat));
        c
    }
}

/// A colour as `#rrggbb` text (`format!("#{:02x}{:02x}{:02x}", r, g, b)`).
pub fn rgb_to_hex(c: Rgb8) -> (r: String)
    ensures
        r@ == rgb_hex_text(c),
{
    let mut out = String::new();
    crate::text::push_char(&mut out, '#');
    crate::text::push_char(&mut out, lower_hex_char(c.r / 16));
    crate::text::push_char(&mut out, lower_hex_char(c.r % 16));
    crate::text::push_char(&mut out, lower_hex_char(c.g / 16));
    crate::text::push_char(&mut out, lower_hex_char(c.g % 16));
    crate::text::push_char(&mut out, lower_hex_char(c.b / 16));
    crate::text::push_char(&mut out, lower_hex_char(c.b % 16));
    assert(out@ =~= rgb_hex_text(c));
    out
}

/// Whether `s` is longer than `limit` bytes in UTF-8 (`s.len() > limit`).
pub fn byte_len_exceeds(s: &str, limit: usize) -> (r: bool)
    requires
        limit < 0x1000_0000,
    ensures
        r == (byte_len(s@) > limit),
{
    let v = chars_of(s);
    let mut total: usize = 0;
    let mut i: usize = 0;
    while i < v.len()
        invariant
            i <= v@.len(),
            v@ == s@,
            total == byte_len(v@.take(i as int)),
            total <= limit,
            limit < 0x1000_0000,
        decreases v.len() - i,
    {
        let ghost pre = v@.take(i as int + 1);
        assert(pre.drop_last() =~= v@.take(i as int));
        assert(pre.last() == v@[i as int]);
        proof {
            lemma_byte_len_last(pre);
        }
        let w = utf8_len_exec(v[i]);
        if total + w > limit {
            proof {
                lemma_byte_len_split(v@, i as int + 1);
                assert(v@.take(i as int + 1) =~= pre);
            }
            return true;
        }
        total = total + w;
        i = i + 1;
    }
    assert(v@.take(v@.len() as int) =~= v@);
    false
}

/// Whether slicing `hex` into its byte pairs is safe, so that `parse_hex_color` and
/// `is_dark_hex` may be called on it.
pub fn hex_slices_safe(hex: &str) -> (ok: bool)
    ensures
        ok == hex_slices_ok(hex@),
{
    let v = chars_of(hex);
    slices_ok_chars(&v)
}

} // verus!
