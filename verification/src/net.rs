//! Query-string encoding for the lyric and search endpoints.

use vstd::prelude::*;
use crate::text::string_of;
use vstd::utf8::encode_utf8;

verus! {

/// Bytes that `encodeURIComponent` leaves as they are: ASCII letters and digits and
/// `- _ . ! ~ * ' ( )`.
pub open spec fn unreserved(b: u8) -> bool {
    ||| (65 <= b && b <= 90)
    ||| (97 <= b && b <= 122)
    ||| (48 <= b && b <= 57)
    ||| b == 45 || b == 95 || b == 46 || b == 33 || b == 126 || b == 42 || b == 39 || b == 40
        || b == 41
}

/// Upper-case hexadecimal digit for `n < 16`.
pub open spec fn hex_upper(n: u8) -> char {
    if n < 10 {
        (48 + n) as char
    } else {
        (55 + n) as char
    }
}

/// The encoding of one byte: itself when unreserved, else `%` and two upper-case hex
/// digits.
pub open spec fn encode_byte(b: u8) -> Seq<char> {
    if unreserved(b) {
        seq![b as char]
    } else {
        seq!['%', hex_upper(b / 16), hex_upper(b % 16)]
    }
}

/// The percent-encoding of a byte string.
pub open spec fn percent_encode(bytes: Seq<u8>) -> Seq<char>
    decreases bytes.len(),
{
    if bytes.len() == 0 {
        Seq::<char>::empty()
    } else {
        percent_encode(bytes.drop_last()) + encode_byte(bytes.last())
    }
}

fn is_unreserved(b: u8) -> (r: bool)
    ensures
        r == unreserved(b),
{
    (65 <= b && b <= 90) || (97 <= b && b <= 122) || (48 <= b && b <= 57) || b == 45 || b == 95
        || b == 46 || b == 33 || b == 126 || b == 42 || b == 39 || b == 40 || b == 41
}

fn hex_char(n: u8) -> (r: char)
    requires
        n < 16,
    ensures
        r == hex_upper(n),
{
    if n < 10 {
        (48 + n) as char
    } else {
        (55 + n) as char
    }
}

/// Equivalent of `encodeURIComponent`: the UTF-8 bytes of `s`, unreserved ones kept,
/// every other byte written as `%XX`.
pub fn url_encode(s: &str) -> (r: String)
    ensures
        r@ == percent_encode(encode_utf8(s@)),
{
    let bytes = s.as_bytes();
    let mut out: Vec<char> = Vec::new();
    let mut i: usize = 0;
    proof {
        assert(bytes@.take(0) =~= Seq::<u8>::empty());
    }
    while i < bytes.len()
        invariant
            i <= bytes.len(),
            out@ == percent_encode(bytes@.take(i as int)),
        decreases bytes.len() - i,
    {
        let b = bytes[i];
        let ghost before = out@;
        if is_unreserved(b) {
            out.push(b as char);
        } else {
            out.push('%');
            out.push(hex_char(b / 16));
            out.push(hex_char(b % 16));
        }
        i += 1;
        proof {
            assert(bytes@.take(i as int).drop_last() =~= bytes@.take(i - 1));
            assert(bytes@.take(i as int).last() == b);
            assert(out@ =~= before + encode_byte(b));
        }
    }
    proof {
        assert(bytes@.take(i as int) =~= bytes@);
    }
    string_of(&out)
}


/// A character that may stand in `url_encode`'s output: an unreserved ASCII character
/// or `%`.
pub open spec fn url_char(c: char) -> bool {
    c == '%' || ((c as u32) < 128 && unreserved(c as u8))
}

/// A hexadecimal digit, either case.
pub open spec fn is_hex(c: char) -> bool {
    ('0' <= c && c <= '9') || ('A' <= c && c <= 'F') || ('a' <= c && c <= 'f')
}

/// The value of a hexadecimal digit.
pub open spec fn hex_value(c: char) -> int {
    if '0' <= c && c <= '9' {
        (c as int) - 48
    } else if 'A' <= c && c <= 'F' {
        (c as int) - 55
    } else {
        (c as int) - 87
    }
}

/// Percent-decoding of ASCII text, read from the left: `%` and two hexadecimal digits
/// stand for that byte; any other character for its own byte.
pub open spec fn percent_decode(s: Seq<char>) -> Seq<u8>
    decreases s.len(),
{
    if s.len() == 0 {
        Seq::<u8>::empty()
    } else if s.len() >= 3 && s[0] == '%' && is_hex(s[1]) && is_hex(s[2]) {
        seq![(hex_value(s[1]) * 16 + hex_value(s[2])) as u8] + percent_decode(s.skip(3))
    } else {
        seq![s[0] as u8] + percent_decode(s.drop_first())
    }
}

proof fn lemma_percent_encode_append(a: Seq<u8>, b: Seq<u8>)
    ensures
        percent_encode(a + b) == percent_encode(a) + percent_encode(b),
    decreases b.len(),
{
    if b.len() == 0 {
        assert(a + b =~= a);
        assert(percent_encode(a) + percent_encode(b) =~= percent_encode(a));
    } else {
        lemma_percent_encode_append(a, b.drop_last());
        assert((a + b).drop_last() =~= a + b.drop_last());
        assert((a + b).last() == b.last());
        assert(percent_encode(a) + percent_encode(b.drop_last()) + encode_byte(b.last()) =~= percent_encode(a)
            + (percent_encode(b.drop_last()) + encode_byte(b.last())));
    }
}

proof fn lemma_hex_digit(n: u8)
    requires
        n < 16,
    ensures
        is_hex(hex_upper(n)),
        hex_value(hex_upper(n)) == n,
        url_char(hex_upper(n)),
{
}

proof fn lemma_decode_byte(b: u8, rest: Seq<char>)
    ensures
        percent_decode(encode_byte(b) + rest) == seq![b] + percent_decode(rest),
        forall|k: int| 0 <= k < encode_byte(b).len() ==> url_char(#[trigger] encode_byte(b)[k]),
{
    let e = encode_byte(b);
    let s = e + rest;
    if unreserved(b) {
        assert(s[0] == b as char);
        assert(s.drop_first() =~= rest);
        assert((b as char) as u8 == b);
    } else {
        lemma_hex_digit(b / 16);
        lemma_hex_digit(b % 16);
        assert(s[0] == '%' && s[1] == hex_upper(b / 16) && s[2] == hex_upper(b % 16));
        assert(s.skip(3) =~= rest);
        assert(hex_value(s[1]) * 16 + hex_value(s[2]) == b);
    }
}

proof fn lemma_decode_encode(bytes: Seq<u8>)
    ensures
        percent_decode(percent_encode(bytes)) == bytes,
        forall|k: int| 0 <= k < percent_encode(bytes).len() ==> url_char(#[trigger] percent_encode(bytes)[k]),
    decreases bytes.len(),
{
    if bytes.len() == 0 {
        assert(percent_encode(bytes) =~= Seq::<char>::empty());
    } else {
        let b = bytes[0];
        let tail = bytes.drop_first();
        assert(bytes =~= seq![b] + tail);
        lemma_percent_encode_append(seq![b], tail);
        assert(seq![b].drop_last() =~= Seq::<u8>::empty());
        assert(seq![b].last() == b);
        assert(percent_encode(Seq::<u8>::empty()) =~= Seq::<char>::empty());
        assert(percent_encode(seq![b]) == percent_encode(seq![b].drop_last()) + encode_byte(b));
        assert(percent_encode(seq![b]) =~= encode_byte(b));
        lemma_decode_encode(tail);
        lemma_decode_byte(b, percent_encode(tail));
        assert(seq![b] + tail =~= bytes);
        let e = encode_byte(b);
        let r = percent_encode(tail);
        assert forall|k: int| 0 <= k < (e + r).len() implies url_char(#[trigger] (e + r)[k]) by {
            if k < e.len() {
                assert((e + r)[k] == e[k]);
            } else {
                assert((e + r)[k] == r[k - e.len()]);
            }
        }
    }
}

/// What `url_encode` writes for any text: only unreserved ASCII characters and `%`,
/// and percent-decoding it gives back exactly the text's UTF-8 bytes.
pub proof fn law_url_encode_decodes(s: Seq<char>)
    ensures
        forall|k: int| 0 <= k < percent_encode(encode_utf8(s)).len() ==> url_char(
            #[trigger] percent_encode(encode_utf8(s))[k],
        ),
        percent_decode(percent_encode(encode_utf8(s))) == encode_utf8(s),
{
    lemma_decode_encode(encode_utf8(s));
}

} // verus!
