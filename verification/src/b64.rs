//! Base64 with the standard alphabet: padded encoding, lenient decoding.

use vstd::prelude::*;
use crate::text::{chars_of, string_of};

verus! {

/// The digit of the standard alphabet for a six-bit value.
pub open spec fn digit_char(v: int) -> char {
    if v < 26 {
        (65 + v) as char
    } else if v < 52 {
        (97 + v - 26) as char
    } else if v < 62 {
        (48 + v - 52) as char
    } else if v == 62 {
        '+'
    } else {
        '/'
    }
}

/// The six-bit value of an alphabet character; `None` for anything else (padding,
/// white space, ...).
pub open spec fn digit_value(c: char) -> Option<int> {
    if 'A' <= c && c <= 'Z' {
        Some(c as int - 65)
    } else if 'a' <= c && c <= 'z' {
        Some(c as int - 97 + 26)
    } else if '0' <= c && c <= '9' {
        Some(c as int - 48 + 52)
    } else if c == '+' {
        Some(62)
    } else if c == '/' {
        Some(63)
    } else {
        None
    }
}

/// The six-bit values of the alphabet characters of `s`, in order; other characters
/// are skipped.
pub open spec fn sextets(s: Seq<char>) -> Seq<int>
    decreases s.len(),
{
    if s.len() == 0 {
        Seq::<int>::empty()
    } else {
        match digit_value(s.last()) {
            Some(v) => sextets(s.drop_last()).push(v),
            None => sextets(s.drop_last()),
        }
    }
}

/// Bytes from six-bit values: every four give three bytes; a final three give two,
/// a final two give one, a final single one gives none.
pub open spec fn join_sextets(v: Seq<int>) -> Seq<u8>
    decreases v.len(),
{
    if v.len() >= 4 {
        seq![
            (v[0] * 4 + v[1] / 16) as u8,
            ((v[1] % 16) * 16 + v[2] / 4) as u8,
            ((v[2] % 4) * 64 + v[3]) as u8,
        ] + join_sextets(v.skip(4))
    } else if v.len() == 3 {
        seq![(v[0] * 4 + v[1] / 16) as u8, ((v[1] % 16) * 16 + v[2] / 4) as u8]
    } else if v.len() == 2 {
        seq![(v[0] * 4 + v[1] / 16) as u8]
    } else {
        Seq::<u8>::empty()
    }
}

/// What decoding `s` gives.
pub open spec fn decoded(s: Seq<char>) -> Seq<u8> {
    join_sextets(sextets(s))
}

/// The padded encoding of `b`.
pub open spec fn encoded(b: Seq<u8>) -> Seq<char>
    decreases b.len(),
{
    if b.len() >= 3 {
        seq![
            digit_char(b[0] as int / 4),
            digit_char((b[0] as int % 4) * 16 + b[1] as int / 16),
            digit_char((b[1] as int % 16) * 4 + b[2] as int / 64),
            digit_char(b[2] as int % 64),
        ] + encoded(b.skip(3))
    } else if b.len() == 2 {
        seq![
            digit_char(b[0] as int / 4),
            digit_char((b[0] as int % 4) * 16 + b[1] as int / 16),
            digit_char((b[1] as int % 16) * 4),
            '=',
        ]
    } else if b.len() == 1 {
        seq![digit_char(b[0] as int / 4), digit_char((b[0] as int % 4) * 16), '=', '=']
    } else {
        Seq::<char>::empty()
    }
}

fn digit_char_exec(v: u8) -> (r: char)
    requires
        v < 64,
    ensures
        r == digit_char(v as int),
{
    if v < 26 {
        (65 + v) as char
    } else if v < 52 {
        (97 + v - 26) as char
    } else if v < 62 {
        (48 + v - 52) as char
    } else if v == 62 {
        '+'
    } else {
        '/'
    }
}

fn digit_value_exec(c: char) -> (r: Option<u8>)
    ensures
        r matches Some(v) ==> digit_value(c) == Some(v as int) && v < 64,
        r is None ==> digit_value(c) is None,
{
    if 'A' <= c && c <= 'Z' {
        Some((c as u32 - 65) as u8)
    } else if 'a' <= c && c <= 'z' {
        Some((c as u32 - 97 + 26) as u8)
    } else if '0' <= c && c <= '9' {
        Some((c as u32 - 48 + 52) as u8)
    } else if c == '+' {
        Some(62)
    } else if c == '/' {
        Some(63)
    } else {
        None
    }
}

/// Encodes `data` with the standard alphabet and `=` padding.
pub fn encode(data: &[u8]) -> (r: String)
    ensures
        r@ == encoded(data@),
{
    let mut out: Vec<char> = Vec::new();
    let mut i: usize = 0;
    proof {
        assert(data@.skip(0) =~= data@);
    }
    while 3 <= data.len() - i
        invariant
            i <= data.len(),
            out@ + encoded(data@.skip(i as int)) == encoded(data@),
        decreases data.len() - i,
    {
        let b0 = data[i];
        let b1 = data[i + 1];
        let b2 = data[i + 2];
        let ghost before = out@;
        let ghost rest = data@.skip(i as int);
        out.push(digit_char_exec(b0 / 4));
        out.push(digit_char_exec((b0 % 4) * 16 + b1 / 16));
        out.push(digit_char_exec((b1 % 16) * 4 + b2 / 64));
        out.push(digit_char_exec(b2 % 64));
        proof {
            assert(rest[0] == b0 && rest[1] == b1 && rest[2] == b2);
            assert(rest.skip(3) =~= data@.skip(i + 3));
            assert(out@ + encoded(data@.skip(i + 3)) =~= before + encoded(rest));
        }
        i += 3;
    }
    let ghost before = out@;
    let ghost rest = data@.skip(i as int);
    let left = data.len() - i;
    if left == 2 {
        let b0 = data[i];
        let b1 = data[i + 1];
        out.push(digit_char_exec(b0 / 4));
        out.push(digit_char_exec((b0 % 4) * 16 + b1 / 16));
        out.push(digit_char_exec((b1 % 16) * 4));
        out.push('=');
        proof {
            assert(rest[0] == b0 && rest[1] == b1);
            assert(out@ =~= before + encoded(rest));
        }
    } else if left == 1 {
        let b0 = data[i];
        out.push(digit_char_exec(b0 / 4));
        out.push(digit_char_exec((b0 % 4) * 16));
        out.push('=');
        out.push('=');
        proof {
            assert(rest[0] == b0);
            assert(out@ =~= before + encoded(rest));
        }
    } else {
        proof {
            assert(out@ =~= before + encoded(rest));
        }
    }
    string_of(&out)
}

/// Decodes base64 text leniently: characters outside the alphabet (padding, white
/// space) are skipped; a trailing partial group yields the whole bytes it holds.
pub fn decode(text: &str) -> (r: Vec<u8>)
    ensures
        r@ == decoded(text@),
{
    let chars = chars_of(text);
    let mut vals: Vec<u8> = Vec::new();
    let mut i: usize = 0;
    proof {
        assert(chars@.take(0) =~= Seq::<char>::empty());
    }
    while i < chars.len()
        invariant
            i <= chars.len(),
            vals@.map_values(|v: u8| v as int) == sextets(chars@.take(i as int)),
            forall|k: int| 0 <= k < vals.len() ==> vals@[k] < 64,
        decreases chars.len() - i,
    {
        let ghost before = vals@;
        proof {
            assert(chars@.take(i + 1).drop_last() =~= chars@.take(i as int));
            assert(chars@.take(i + 1).last() == chars@[i as int]);
        }
        match digit_value_exec(chars[i]) {
            Some(v) => {
                vals.push(v);
                proof {
                    assert(vals@.map_values(|v: u8| v as int) =~= before.map_values(|v: u8| v as int).push(v as int));
                }
            },
            None => {},
        }
        i += 1;
    }
    proof {
        assert(chars@.take(i as int) =~= chars@);
    }
    let ghost sv = vals@.map_values(|v: u8| v as int);
    let mut out: Vec<u8> = Vec::new();
    let mut j: usize = 0;
    proof {
        assert(sv.skip(0) =~= sv);
    }
    while 4 <= vals.len() - j
        invariant
            j <= vals.len(),
            sv == vals@.map_values(|v: u8| v as int),
            forall|k: int| 0 <= k < vals.len() ==> vals@[k] < 64,
            out@ + join_sextets(sv.skip(j as int)) == join_sextets(sv),
        decreases vals.len() - j,
    {
        let v0 = vals[j];
        let v1 = vals[j + 1];
        let v2 = vals[j + 2];
        let v3 = vals[j + 3];
        let ghost before = out@;
        let ghost rest = sv.skip(j as int);
        out.push(v0 * 4 + v1 / 16);
        out.push((v1 % 16) * 16 + v2 / 4);
        out.push((v2 % 4) * 64 + v3);
        proof {
            assert(rest[0] == v0 && rest[1] == v1 && rest[2] == v2 && rest[3] == v3);
            assert(rest.skip(4) =~= sv.skip(j + 4));
            assert(out@ + join_sextets(sv.skip(j + 4)) =~= before + join_sextets(rest));
        }
        j += 4;
    }
    let ghost before = out@;
    let ghost rest = sv.skip(j as int);
    let left = vals.len() - j;
    if left == 3 {
        let v0 = vals[j];
        let v1 = vals[j + 1];
        let v2 = vals[j + 2];
        out.push(v0 * 4 + v1 / 16);
        out.push((v1 % 16) * 16 + v2 / 4);
        proof {
            assert(rest[0] == v0 && rest[1] == v1 && rest[2] == v2);
            assert(out@ =~= before + join_sextets(rest));
        }
    } else if left == 2 {
        let v0 = vals[j];
        let v1 = vals[j + 1];
        out.push(v0 * 4 + v1 / 16);
        proof {
            assert(rest[0] == v0 && rest[1] == v1);
            assert(out@ =~= before + join_sextets(rest));
        }
    } else {
        proof {
            assert(out@ =~= before + join_sextets(rest));
        }
    }
    out
}

} // verus!

verus! {

proof fn lemma_sextets_concat(a: Seq<char>, b: Seq<char>)
    ensures
        sextets(a + b) == sextets(a) + sextets(b),
    decreases b.len(),
{
    if b.len() == 0 {
        assert(a + b =~= a);
        assert(sextets(a) + sextets(b) =~= sextets(a));
    } else {
        assert((a + b).drop_last() =~= a + b.drop_last());
        assert((a + b).last() == b.last());
        lemma_sextets_concat(a, b.drop_last());
        match digit_value(b.last()) {
            Some(v) => {
                assert(sextets(a) + sextets(b) =~= (sextets(a) + sextets(b.drop_last())).push(v));
            },
            None => {},
        }
    }
}

proof fn lemma_no_digits(s: Seq<char>)
    requires
        forall|k: int| 0 <= k < s.len() ==> digit_value(#[trigger] s[k]) is None,
    ensures
        sextets(s) == Seq::<int>::empty(),
    decreases s.len(),
{
    if s.len() > 0 {
        lemma_no_digits(s.drop_last());
        assert(digit_value(s[s.len() - 1]) is None);
    }
}

proof fn lemma_digit_roundtrip(v: int)
    requires
        0 <= v < 64,
    ensures
        digit_value(digit_char(v)) == Some(v),
{
}

proof fn lemma_sextets_of_digits(c: Seq<char>, vals: Seq<int>)
    requires
        c.len() == vals.len(),
        forall|k: int| 0 <= k < c.len() ==> 0 <= #[trigger] vals[k] < 64 && c[k] == digit_char(vals[k]),
    ensures
        sextets(c) == vals,
    decreases c.len(),
{
    if c.len() > 0 {
        lemma_sextets_of_digits(c.drop_last(), vals.drop_last());
        lemma_digit_roundtrip(vals.last());
        assert(sextets(c) =~= vals);
    } else {
        assert(sextets(c) =~= vals);
    }
}

/// Decoding undoes encoding: `decode(encode(b)) == b` for every byte string.
pub proof fn law_decode_encode(b: Seq<u8>)
    ensures
        decoded(encoded(b)) == b,
    decreases b.len(),
{
    if b.len() >= 3 {
        let b0 = b[0] as int;
        let b1 = b[1] as int;
        let b2 = b[2] as int;
        let vals = seq![b0 / 4, (b0 % 4) * 16 + b1 / 16, (b1 % 16) * 4 + b2 / 64, b2 % 64];
        let chunk = seq![digit_char(vals[0]), digit_char(vals[1]), digit_char(vals[2]), digit_char(vals[3])];
        lemma_sextets_of_digits(chunk, vals);
        lemma_sextets_concat(chunk, encoded(b.skip(3)));
        law_decode_encode(b.skip(3));
        let all = vals + sextets(encoded(b.skip(3)));
        assert(all.skip(4) =~= sextets(encoded(b.skip(3))));
        assert(join_sextets(all) == seq![
            (all[0] * 4 + all[1] / 16) as u8,
            ((all[1] % 16) * 16 + all[2] / 4) as u8,
            ((all[2] % 4) * 64 + all[3]) as u8,
        ] + join_sextets(all.skip(4)));
        assert(decoded(encoded(b)) =~= b);
    } else if b.len() == 2 {
        let b0 = b[0] as int;
        let b1 = b[1] as int;
        let vals = seq![b0 / 4, (b0 % 4) * 16 + b1 / 16, (b1 % 16) * 4];
        let chunk = seq![digit_char(vals[0]), digit_char(vals[1]), digit_char(vals[2])];
        lemma_sextets_of_digits(chunk, vals);
        lemma_sextets_concat(chunk, seq!['=']);
        assert(encoded(b) =~= chunk + seq!['=']);
        lemma_no_digits(seq!['=']);
        assert(sextets(encoded(b)) =~= vals);
        assert(decoded(encoded(b)) =~= b);
    } else if b.len() == 1 {
        let b0 = b[0] as int;
        let vals = seq![b0 / 4, (b0 % 4) * 16];
        let chunk = seq![digit_char(vals[0]), digit_char(vals[1])];
        lemma_sextets_of_digits(chunk, vals);
        lemma_sextets_concat(chunk, seq!['=', '=']);
        assert(encoded(b) =~= chunk + seq!['=', '=']);
        lemma_no_digits(seq!['=', '=']);
        assert(sextets(encoded(b)) =~= vals);
        assert(decoded(encoded(b)) =~= b);
    } else {
        assert(decoded(encoded(b)) =~= b);
    }
}

} // verus!
