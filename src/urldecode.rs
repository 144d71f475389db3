//! Percent-decoding of paths carried in working-directory notices.
use vstd::prelude::*;
use crate::text::{chars_of, push_char};

verus! {

/// Whether `c` is a hexadecimal digit of either case.
pub open spec fn is_hex_digit(c: char) -> bool {
    ('0' <= c && c <= '9') || ('a' <= c && c <= 'f') || ('A' <= c && c <= 'F')
}

/// The value of a hexadecimal digit.
pub open spec fn hex_value(c: char) -> nat {
    if '0' <= c && c <= '9' {
        (c as u32 - '0' as u32) as nat
    } else if 'a' <= c && c <= 'f' {
        (c as u32 - 'a' as u32 + 10) as nat
    } else {
        (c as u32 - 'A' as u32 + 10) as nat
    }
}

/// The character with code point `b`, for a byte value `b`.
pub open spec fn byte_char(b: nat) -> char {
    (b as u8) as char
}

/// Percent-decoding: `%HH` with two hex digits becomes the character with that
/// code; any other `%` is kept as it is and decoding goes on right after it.
pub open spec fn url_decode(s: Seq<char>) -> Seq<char>
    decreases s.len(),
{
    if s.len() == 0 {
        s
    } else if s[0] == '%' && s.len() >= 3 && is_hex_digit(s[1]) && is_hex_digit(s[2]) {
        seq![byte_char(hex_value(s[1]) * 16 + hex_value(s[2]))] + url_decode(s.skip(3))
    } else {
        seq![s[0]] + url_decode(s.skip(1))
    }
}

/// The hexadecimal digit of `d < 16`, upper- or lower-case.
pub open spec fn hex_digit_char(d: nat, upper: bool) -> char {
    if d < 10 {
        ((d + 48) as u8) as char
    } else if upper {
        ((d + 55) as u8) as char
    } else {
        ((d + 87) as u8) as char
    }
}

/// Percent-encoding of the characters of `s` that `encode` selects: a selected
/// character becomes `%` and the two hex digits of its code, upper-case where
/// `upper` says so; the others stay as they are.
pub open spec fn url_encode_some(s: Seq<char>, encode: Seq<bool>, upper: Seq<bool>) -> Seq<char>
    decreases s.len(),
{
    if s.len() == 0 || encode.len() == 0 || upper.len() == 0 {
        s
    } else if encode[0] {
        seq![
            '%',
            hex_digit_char((s[0] as u32 / 16) as nat, upper[0]),
            hex_digit_char((s[0] as u32 % 16) as nat, upper[0]),
        ] + url_encode_some(s.skip(1), encode.skip(1), upper.skip(1))
    } else {
        seq![s[0]] + url_encode_some(s.skip(1), encode.skip(1), upper.skip(1))
    }
}

/// Whether every character of `s` is ASCII.
pub open spec fn all_ascii(s: Seq<char>) -> bool {
    forall|i: int| 0 <= i < s.len() ==> (s[i] as u32) < 128
}

proof fn lemma_hex_digit_round_trip(d: nat, upper: bool)
    requires
        d < 16,
    ensures
        is_hex_digit(hex_digit_char(d, upper)),
        hex_value(hex_digit_char(d, upper)) == d,
{
}

proof fn lemma_ascii_byte_char(c: char)
    requires
        (c as u32) < 128,
    ensures
        byte_char(((c as u32) / 16) as nat * 16 + ((c as u32) % 16) as nat) == c,
{
    let v = c as u32;
    assert(((v / 16) as nat * 16 + (v % 16) as nat) == v as nat);
    vstd::utf8::char_u32_cast(c, v);
    assert(((v as u8) as char) == c) by {
        assert((v as u8) as u32 == v);
    }
}

/// Decoding an ASCII path in which any choice of characters, every `%` among
/// them, was percent-encoded with hex digits of either case gives the path back.
pub proof fn lemma_url_decode_encode(s: Seq<char>, encode: Seq<bool>, upper: Seq<bool>)
    requires
        all_ascii(s),
        encode.len() == s.len(),
        upper.len() == s.len(),
        forall|i: int| 0 <= i < s.len() && s[i] == '%' ==> encode[i],
    ensures
        url_decode(url_encode_some(s, encode, upper)) == s,
    decreases s.len(),
{
    if s.len() > 0 {
        let rest = s.skip(1);
        assert(all_ascii(rest)) by {
            assert forall|i: int| 0 <= i < rest.len() implies (rest[i] as u32) < 128 by {
                assert(rest[i] == s[i + 1]);
            }
        }
        assert forall|i: int| 0 <= i < rest.len() && rest[i] == '%' implies encode.skip(1)[i] by {
            assert(rest[i] == s[i + 1]);
        }
        lemma_url_decode_encode(rest, encode.skip(1), upper.skip(1));
        let tail = url_encode_some(rest, encode.skip(1), upper.skip(1));
        let c = s[0];
        assert((c as u32) < 128);
        if encode[0] {
            let hi = ((c as u32) / 16) as nat;
            let lo = ((c as u32) % 16) as nat;
            lemma_hex_digit_round_trip(hi, upper[0]);
            lemma_hex_digit_round_trip(lo, upper[0]);
            lemma_ascii_byte_char(c);
            let e = seq!['%', hex_digit_char(hi, upper[0]), hex_digit_char(lo, upper[0])] + tail;
            assert(e.skip(3) =~= tail);
            assert(e[1] == hex_digit_char(hi, upper[0]) && e[2] == hex_digit_char(lo, upper[0]));
        } else {
            let e = seq![c] + tail;
            assert(e.skip(1) =~= tail);
            assert(c != '%');
        }
        assert(seq![c] + rest =~= s);
    }
}

/// Whether a character is a hexadecimal digit.
fn hex_digit(c: char) -> (r: bool)
    ensures
        r == is_hex_digit(c),
{
    ('0' <= c && c <= '9') || ('a' <= c && c <= 'f') || ('A' <= c && c <= 'F')
}

/// The value of a hexadecimal digit.
fn hex_digit_value(c: char) -> (r: u32)
    requires
        is_hex_digit(c),
    ensures
        r == hex_value(c),
        r < 16,
{
    if '0' <= c && c <= '9' {
        c as u32 - '0' as u32
    } else if 'a' <= c && c <= 'f' {
        c as u32 - 'a' as u32 + 10
    } else {
        c as u32 - 'A' as u32 + 10
    }
}

/// Percent-decodes `v[lo..hi]`.
pub fn url_decode_range(v: &Vec<char>, lo: usize, hi: usize) -> (r: String)
    requires
        lo <= hi <= v@.len(),
    ensures
        r@ == url_decode(v@.subrange(lo as int, hi as int)),
{
    let mut out = String::new();
    let mut i: usize = lo;
    while i < hi
        invariant
            lo <= i <= hi <= v@.len(),
            url_decode(v@.subrange(lo as int, hi as int)) == out@ + url_decode(
                v@.subrange(i as int, hi as int),
            ),
        decreases hi - i,
    {
        let ghost rest = v@.subrange(i as int, hi as int);
        let c = v[i];
        if c == '%' && hi - i >= 3 && hex_digit(v[i + 1]) && hex_digit(v[i + 2]) {
            let code = hex_digit_value(v[i + 1]) * 16 + hex_digit_value(v[i + 2]);
            proof {
                assert(rest.skip(3) =~= v@.subrange(i + 3, hi as int));
                assert(rest[1] == v@[i + 1] && rest[2] == v@[i + 2]);
            }
            push_char(&mut out, (code as u8) as char);
            proof {
                assert(url_decode(v@.subrange(lo as int, hi as int)) =~= out@ + url_decode(
                    v@.subrange(i + 3, hi as int),
                ));
            }
            i = i + 3;
        } else {
            proof {
                assert(rest.skip(1) =~= v@.subrange(i + 1, hi as int));
                if c == '%' && hi - i >= 3 {
                    assert(rest[1] == v@[i + 1] && rest[2] == v@[i + 2]);
                }
            }
            push_char(&mut out, c);
            proof {
                assert(url_decode(v@.subrange(lo as int, hi as int)) =~= out@ + url_decode(
                    v@.subrange(i + 1, hi as int),
                ));
            }
            i = i + 1;
        }
    }
    proof {
        assert(v@.subrange(i as int, hi as int) =~= Seq::<char>::empty());
        assert(out@ + Seq::<char>::empty() =~= out@);
    }
    out
}

/// Percent-decodes a path: `%HH` with two hex digits becomes that character,
/// and everything else, a lone `%` included, is kept as it is.
pub fn urlencoding_decode(s: &str) -> (r: String)
    ensures
        r@ == url_decode(s@),
{
    let v = chars_of(s);
    proof {
        assert(v@.subrange(0, v@.len() as int) =~= v@);
    }
    url_decode_range(&v, 0, v.len())
}

} // verus!
