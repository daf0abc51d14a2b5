//! Upper-case hexadecimal encoding of key material.
//!
//! The encoding itself is done by the `hex` crate; its behaviour is simple
//! enough to state exactly, so the wrapper's contract pins the result to
//! [`hex_upper_of`] and everything downstream is proved against that
//! definition.  Decoding is implemented and verified here, which also
//! yields injectivity of the encoding.

use vstd::prelude::*;

verus! {

/// The upper-case hexadecimal digit of a nibble.
pub open spec fn hex_digit(n: u8) -> char {
    if n == 0 {
        '0'
    } else if n == 1 {
        '1'
    } else if n == 2 {
        '2'
    } else if n == 3 {
        '3'
    } else if n == 4 {
        '4'
    } else if n == 5 {
        '5'
    } else if n == 6 {
        '6'
    } else if n == 7 {
        '7'
    } else if n == 8 {
        '8'
    } else if n == 9 {
        '9'
    } else if n == 10 {
        'A'
    } else if n == 11 {
        'B'
    } else if n == 12 {
        'C'
    } else if n == 13 {
        'D'
    } else if n == 14 {
        'E'
    } else {
        'F'
    }
}

/// The two digits of one byte, high nibble first.
pub open spec fn hex_pair(b: u8) -> Seq<char> {
    seq![hex_digit(b / 16), hex_digit(b % 16)]
}

/// The upper-case hexadecimal rendering of a byte sequence:
/// two digits per byte, in byte order.
pub open spec fn hex_upper_of(bytes: Seq<u8>) -> Seq<char>
    decreases bytes.len(),
{
    if bytes.len() == 0 {
        Seq::empty()
    } else {
        hex_pair(bytes[0]) + hex_upper_of(bytes.drop_first())
    }
}

/// Relies on `hex::encode_upper`: every input byte becomes exactly two
/// upper-case hexadecimal digits, high nibble first, in byte order.
#[verifier::external_body]
pub(crate) fn hex_encode_upper(bytes: &Vec<u8>) -> (r: String)
    ensures
        r@ == hex_upper_of(bytes@),
{
    hex::encode_upper(bytes.as_slice())
}

/// The nibble value of an upper-case hexadecimal digit, if it is one.
pub open spec fn hex_val_of(c: char) -> Option<u8> {
    if c == '0' {
        Some(0u8)
    } else if c == '1' {
        Some(1u8)
    } else if c == '2' {
        Some(2u8)
    } else if c == '3' {
        Some(3u8)
    } else if c == '4' {
        Some(4u8)
    } else if c == '5' {
        Some(5u8)
    } else if c == '6' {
        Some(6u8)
    } else if c == '7' {
        Some(7u8)
    } else if c == '8' {
        Some(8u8)
    } else if c == '9' {
        Some(9u8)
    } else if c == 'A' {
        Some(10u8)
    } else if c == 'B' {
        Some(11u8)
    } else if c == 'C' {
        Some(12u8)
    } else if c == 'D' {
        Some(13u8)
    } else if c == 'E' {
        Some(14u8)
    } else if c == 'F' {
        Some(15u8)
    } else {
        None
    }
}

/// Digits are decoded back to the nibble they encode.
pub proof fn lemma_hex_digit_val(n: u8)
    requires
        n < 16,
    ensures
        hex_val_of(hex_digit(n)) == Some(n),
{
}

/// The encoding of a byte sequence is decoded two digits at a time.
pub proof fn lemma_hex_upper_len(bytes: Seq<u8>)
    ensures
        hex_upper_of(bytes).len() == 2 * bytes.len(),
    decreases bytes.len(),
{
    if bytes.len() > 0 {
        lemma_hex_upper_len(bytes.drop_first());
    }
}

/// The encoding is injective: equal renderings come from equal bytes.
pub proof fn lemma_hex_upper_injective(b1: Seq<u8>, b2: Seq<u8>)
    requires
        hex_upper_of(b1) == hex_upper_of(b2),
    ensures
        b1 == b2,
    decreases b1.len(),
{
    lemma_hex_upper_len(b1);
    lemma_hex_upper_len(b2);
    if b1.len() == 0 {
        assert(b1 =~= b2);
    } else {
        let s1 = hex_upper_of(b1);
        let s2 = hex_upper_of(b2);
        assert(s1[0] == hex_digit(b1[0] / 16) && s1[1] == hex_digit(b1[0] % 16));
        assert(s2[0] == hex_digit(b2[0] / 16) && s2[1] == hex_digit(b2[0] % 16));
        lemma_hex_digit_val(b1[0] / 16);
        lemma_hex_digit_val(b1[0] % 16);
        lemma_hex_digit_val(b2[0] / 16);
        lemma_hex_digit_val(b2[0] % 16);
        assert(b1[0] / 16 == b2[0] / 16 && b1[0] % 16 == b2[0] % 16);
        assert(b1[0] == b2[0]);
        assert(hex_upper_of(b1.drop_first()) =~= s1.skip(2));
        assert(hex_upper_of(b2.drop_first()) =~= s2.skip(2));
        lemma_hex_upper_injective(b1.drop_first(), b2.drop_first());
        assert forall|i: int| 0 <= i < b1.len() implies b1[i] == b2[i] by {
            if i > 0 {
                assert(b1[i] == b1.drop_first()[i - 1]);
                assert(b2[i] == b2.drop_first()[i - 1]);
            }
        }
        assert(b1 =~= b2);
    }
}

/// Decodes one upper-case hexadecimal digit.
fn hex_val(c: char) -> (r: Option<u8>)
    ensures
        r == hex_val_of(c),
{
    match c {
        '0' => Some(0u8),
        '1' => Some(1u8),
        '2' => Some(2u8),
        '3' => Some(3u8),
        '4' => Some(4u8),
        '5' => Some(5u8),
        '6' => Some(6u8),
        '7' => Some(7u8),
        '8' => Some(8u8),
        '9' => Some(9u8),
        'A' => Some(10u8),
        'B' => Some(11u8),
        'C' => Some(12u8),
        'D' => Some(13u8),
        'E' => Some(14u8),
        'F' => Some(15u8),
        _ => None,
    }
}

/// Decodes an upper-case hexadecimal string back to its bytes.
///
/// Any returned byte sequence renders back to exactly the input, so
/// together with [`lemma_hex_upper_injective`] the decoder inverts the
/// encoder.
pub fn hex_decode_upper(s: &str) -> (r: Option<Vec<u8>>)
    ensures
        r matches Some(v) ==> hex_upper_of(v@) == s@,
{
    let len = s.unicode_len();
    if len % 2 != 0 {
        return None;
    }
    let mut out: Vec<u8> = Vec::new();
    let mut i: usize = 0;
    while i < len
        invariant
            i % 2 == 0,
            i <= len,
            len % 2 == 0,
            len == s@.len(),
            out@.len() * 2 == i,
            hex_upper_of(out@) =~= s@.take(i as int),
        decreases len - i,
    {
        let hi = match hex_val(s.get_char(i)) {
            Some(v) => v,
            None => {
                return None;
            },
        };
        let lo = match hex_val(s.get_char(i + 1)) {
            Some(v) => v,
            None => {
                return None;
            },
        };
        let b: u8 = hi * 16 + lo;
        let ghost old_out = out@;
        out.push(b);
        proof {
            lemma_hex_digit_val(hi);
            lemma_hex_digit_val(lo);
            assert(b / 16 == hi && b % 16 == lo) by (nonlinear_arith)
                requires
                    hi < 16 && lo < 16 && b == hi * 16 + lo,
            ;
            lemma_hex_upper_push(old_out, b);
            assert(hex_upper_of(out@) =~= s@.take(i as int + 2));
        }
        i = i + 2;
    }
    proof {
        assert(s@.take(len as int) =~= s@);
    }
    Some(out)
}

/// Appending a byte appends its two digits.
pub proof fn lemma_hex_upper_push(bytes: Seq<u8>, b: u8)
    ensures
        hex_upper_of(bytes.push(b)) == hex_upper_of(bytes) + hex_pair(b),
    decreases bytes.len(),
{
    if bytes.len() == 0 {
        assert(bytes.push(b).drop_first() =~= bytes);
        assert(hex_upper_of(bytes.push(b)) =~= hex_upper_of(bytes) + hex_pair(b));
    } else {
        assert(bytes.push(b).drop_first() =~= bytes.drop_first().push(b));
        lemma_hex_upper_push(bytes.drop_first(), b);
        assert(hex_upper_of(bytes.push(b)) =~= hex_upper_of(bytes) + hex_pair(b));
    }
}

} // verus!
