//! Byte-level text building: ASCII strings, lower-case hex, decimal digits,
//! and the hyphenated form of a sixteen-byte unique identifier.

use vstd::prelude::*;

verus! {

/// The character sequence of a sequence of ASCII bytes, one character per
/// byte.
pub open spec fn ascii_chars(s: Seq<u8>) -> Seq<char> {
    Seq::new(s.len(), |i: int| s[i] as char)
}

/// Relies on `String::from_utf8`: bytes below 0x80 are valid UTF-8 and decode
/// to one character each.
#[verifier::external_body]
pub(crate) fn ascii_to_string(v: &Vec<u8>) -> (r: String)
    requires
        forall|i: int| 0 <= i < v@.len() ==> v@[i] < 0x80,
    ensures
        r@ == ascii_chars(v@),
{
    String::from_utf8(v.clone()).unwrap()
}

/// The ASCII byte of one lower-case hex digit.
pub open spec fn hex_lower(d: u8) -> u8 {
    if d < 10 {
        (0x30 + d) as u8
    } else {
        (0x57 + d) as u8
    }
}

/// The two lower-case hex digits of a byte.
pub open spec fn hex_byte(b: u8) -> Seq<u8> {
    seq![hex_lower(b / 16), hex_lower((b % 16) as u8)]
}

/// Append the two lower-case hex digits of a byte.
fn push_hex(v: &mut Vec<u8>, b: u8)
    ensures
        final(v)@ == old(v)@ + hex_byte(b),
{
    let hi: u8 = b / 16;
    let lo: u8 = b % 16;
    v.push(if hi < 10 {
        0x30 + hi
    } else {
        0x57 + hi
    });
    v.push(if lo < 10 {
        0x30 + lo
    } else {
        0x57 + lo
    });
    assert(v@ =~= old(v)@ + hex_byte(b));
}

/// The ASCII decimal digits of a number, most significant first, with no
/// leading zeros (a single zero for zero).
pub open spec fn dec_digits(n: nat) -> Seq<u8>
    decreases n,
{
    if n < 10 {
        seq![(0x30 + n) as u8]
    } else {
        dec_digits(n / 10) + seq![(0x30 + n % 10) as u8]
    }
}

/// Append the decimal digits of a number.
pub fn push_decimal(v: &mut Vec<u8>, x: u64)
    ensures
        final(v)@ == old(v)@ + dec_digits(x as nat),
    decreases x,
{
    if x < 10 {
        v.push(0x30 + x as u8);
        assert(v@ =~= old(v)@ + dec_digits(x as nat));
    } else {
        push_decimal(v, x / 10);
        v.push(0x30 + (x % 10) as u8);
        assert(v@ =~= old(v)@ + dec_digits(x as nat));
    }
}

/// The 36 ASCII bytes of the canonical lower-case hyphenated text form of a
/// sixteen-byte unique identifier: grouped 4-2-2-2-6 bytes, groups separated
/// by hyphens.
pub open spec fn uuid_text(b: Seq<u8>) -> Seq<u8> {
    hex_byte(b[0]) + hex_byte(b[1]) + hex_byte(b[2]) + hex_byte(b[3]) + seq![0x2du8]
        + hex_byte(b[4]) + hex_byte(b[5]) + seq![0x2du8] + hex_byte(b[6]) + hex_byte(b[7])
        + seq![0x2du8] + hex_byte(b[8]) + hex_byte(b[9]) + seq![0x2du8] + hex_byte(b[10])
        + hex_byte(b[11]) + hex_byte(b[12]) + hex_byte(b[13]) + hex_byte(b[14]) + hex_byte(b[15])
}

/// Every byte of the hyphenated text form is ASCII, and it is 36 bytes long.
pub proof fn lemma_uuid_text_ascii(b: Seq<u8>)
    requires
        b.len() == 16,
    ensures
        uuid_text(b).len() == 36,
        forall|i: int| 0 <= i < uuid_text(b).len() ==> uuid_text(b)[i] < 0x80,
{
    assert forall|i: int| 0 <= i < uuid_text(b).len() implies uuid_text(b)[i] < 0x80 by {
        assert(uuid_text(b).len() == 36);
    }
}

/// Render a sixteen-byte unique identifier in its canonical lower-case
/// hyphenated text form.
pub fn uuid_hyphenated(u: &[u8; 16]) -> (r: String)
    ensures
        r@ == ascii_chars(uuid_text(u@)),
        r@.len() == 36,
{
    let mut v: Vec<u8> = Vec::new();
    push_hex(&mut v, u[0]);
    push_hex(&mut v, u[1]);
    push_hex(&mut v, u[2]);
    push_hex(&mut v, u[3]);
    v.push(0x2d);
    push_hex(&mut v, u[4]);
    push_hex(&mut v, u[5]);
    v.push(0x2d);
    push_hex(&mut v, u[6]);
    push_hex(&mut v, u[7]);
    v.push(0x2d);
    push_hex(&mut v, u[8]);
    push_hex(&mut v, u[9]);
    v.push(0x2d);
    push_hex(&mut v, u[10]);
    push_hex(&mut v, u[11]);
    push_hex(&mut v, u[12]);
    push_hex(&mut v, u[13]);
    push_hex(&mut v, u[14]);
    push_hex(&mut v, u[15]);
    assert(v@ =~= uuid_text(u@));
    proof {
        lemma_uuid_text_ascii(u@);
    }
    ascii_to_string(&v)
}

} // verus!
