//! Percent encoding of query-string values, byte by byte over a
//! string's UTF-8 form: ASCII alphanumerics and `*`, `-`, `.`, `_`
//! pass unchanged, a space becomes `+`, and every other byte becomes
//! `%` followed by two uppercase hexadecimal digits.

use vstd::prelude::*;
use vstd::string::StringSliceAdditionalSpecFns;

use crate::text::{digit_char, push_char};

verus! {

/// True for the bytes the encoding leaves unchanged.
pub open spec fn is_unreserved(b: u8) -> bool {
    (48 <= b && b <= 57) || (65 <= b && b <= 90) || (97 <= b && b <= 122) || b == 42 || b == 45
        || b == 46 || b == 95
}

/// The character for one hexadecimal digit, uppercase.
pub open spec fn hex_char(d: int) -> char {
    if d < 10 {
        digit_char(d)
    } else if d == 10 {
        'A'
    } else if d == 11 {
        'B'
    } else if d == 12 {
        'C'
    } else if d == 13 {
        'D'
    } else if d == 14 {
        'E'
    } else {
        'F'
    }
}

/// The encoding of one byte.
pub open spec fn enc_byte(b: u8) -> Seq<char> {
    if is_unreserved(b) {
        seq![b as char]
    } else if b == 32 {
        seq!['+']
    } else {
        seq!['%', hex_char(b as int / 16), hex_char(b as int % 16)]
    }
}

/// The encoding of a byte sequence.
pub open spec fn enc_bytes(bs: Seq<u8>) -> Seq<char>
    decreases bs.len(),
{
    if bs.len() == 0 {
        Seq::<char>::empty()
    } else {
        enc_byte(bs[0]) + enc_bytes(bs.drop_first())
    }
}

/// The encoding of a string: its UTF-8 bytes, encoded.
pub open spec fn enc_str(s: Seq<char>) -> Seq<char> {
    enc_bytes(vstd::utf8::encode_utf8(s))
}

/// Appending one byte appends exactly that byte's encoding.
pub proof fn lemma_enc_bytes_push(bs: Seq<u8>, b: u8)
    ensures
        enc_bytes(bs.push(b)) == enc_bytes(bs) + enc_byte(b),
    decreases bs.len(),
{
    if bs.len() == 0 {
        assert(bs.push(b).drop_first() =~= Seq::<u8>::empty());
        assert(bs.push(b)[0] == b);
        assert(enc_bytes(bs.push(b).drop_first()) == Seq::<char>::empty());
        assert(enc_bytes(bs.push(b)) == enc_byte(b) + Seq::<char>::empty());
        assert(enc_byte(b) + Seq::<char>::empty() =~= enc_byte(b));
        assert(enc_bytes(bs) + enc_byte(b) =~= enc_byte(b));
    } else {
        assert(bs.push(b).drop_first() =~= bs.drop_first().push(b));
        lemma_enc_bytes_push(bs.drop_first(), b);
        assert(enc_bytes(bs.push(b)) =~= enc_bytes(bs) + enc_byte(b));
    }
}

fn hex_char_x(d: u8) -> (r: char)
    requires
        d < 16,
    ensures
        r == hex_char(d as int),
{
    if d == 0 {
        '0'
    } else if d == 1 {
        '1'
    } else if d == 2 {
        '2'
    } else if d == 3 {
        '3'
    } else if d == 4 {
        '4'
    } else if d == 5 {
        '5'
    } else if d == 6 {
        '6'
    } else if d == 7 {
        '7'
    } else if d == 8 {
        '8'
    } else if d == 9 {
        '9'
    } else if d == 10 {
        'A'
    } else if d == 11 {
        'B'
    } else if d == 12 {
        'C'
    } else if d == 13 {
        'D'
    } else if d == 14 {
        'E'
    } else {
        'F'
    }
}

/// Percent-encodes a string for use as a query-string value.
pub fn enc_string(s: &str) -> (r: String)
    ensures
        r@ == enc_str(s@),
{
    let bytes = s.as_bytes();
    let mut out = String::new();
    proof {
        assert(bytes@.take(0) =~= Seq::<u8>::empty());
        assert(out@ =~= enc_bytes(bytes@.take(0)));
    }
    let mut i: usize = 0;
    while i < bytes.len()
        invariant
            i <= bytes@.len(),
            bytes@ == s.spec_bytes(),
            out@ == enc_bytes(bytes@.take(i as int)),
        decreases bytes@.len() - i,
    {
        let b = bytes[i];
        if (48 <= b && b <= 57) || (65 <= b && b <= 90) || (97 <= b && b <= 122) || b == 42
            || b == 45 || b == 46 || b == 95 {
            push_char(&mut out, b as char);
        } else if b == 32 {
            push_char(&mut out, '+');
        } else {
            push_char(&mut out, '%');
            push_char(&mut out, hex_char_x(b / 16));
            push_char(&mut out, hex_char_x(b % 16));
        }
        proof {
            lemma_enc_bytes_push(bytes@.take(i as int), bytes@[i as int]);
            assert(bytes@.take(i as int).push(bytes@[i as int]) =~= bytes@.take(i as int + 1));
            assert(out@ =~= enc_bytes(bytes@.take(i as int + 1)));
        }
        i += 1;
    }
    proof {
        assert(bytes@.take(bytes@.len() as int) =~= bytes@);
    }
    out
}

} // verus!
