//! Deterministic image filenames.
//!
//! The writable layer is always written as `run.rwimage`; read-only layer
//! `i` is written as the decimal index `i`, zero-padded to at least four
//! digits, followed by `.roimage`.  Distinct indices give distinct names,
//! so the layers of one container never collide on disk.

use vstd::prelude::*;
use crate::hexcodec::hex_digit;

verus! {

/// The decimal rendering of `n`, most significant digit first,
/// without leading zeros (except for `0` itself).
pub open spec fn dec_str(n: nat) -> Seq<char>
    decreases n,
{
    if n < 10 {
        seq![hex_digit(n as u8)]
    } else {
        dec_str(n / 10) + seq![hex_digit((n % 10) as u8)]
    }
}

/// `s` left-padded with `'0'` to at least four characters.
pub open spec fn pad4(s: Seq<char>) -> Seq<char> {
    if s.len() >= 4 {
        s
    } else {
        Seq::new((4 - s.len()) as nat, |i: int| '0') + s
    }
}

/// The filename of read-only layer `i`.
pub open spec fn ro_image_name_spec(i: nat) -> Seq<char> {
    pad4(dec_str(i)) + ".roimage"@
}

/// The fixed filename of the writable layer's image.
pub open spec fn rw_image_name_spec() -> Seq<char> {
    "run.rwimage"@
}

/// A decimal rendering is never empty and carries only digits.
pub proof fn lemma_dec_str_len(n: nat)
    ensures
        dec_str(n).len() >= 1,
        n < 10 ==> dec_str(n).len() == 1,
        10 <= n < 100 ==> dec_str(n).len() == 2,
        100 <= n < 1000 ==> dec_str(n).len() == 3,
        1000 <= n ==> dec_str(n).len() >= 4,
    decreases n,
{
    if n >= 10 {
        lemma_dec_str_len(n / 10);
    }
}

/// The first digit is `'0'` only for the rendering of zero.
pub proof fn lemma_dec_str_leading(n: nat)
    ensures
        dec_str(n)[0] == '0' ==> n == 0,
    decreases n,
{
    if n >= 10 {
        lemma_dec_str_leading(n / 10);
        assert(dec_str(n)[0] == dec_str(n / 10)[0]);
    }
}

/// Decimal renderings are injective.
pub proof fn lemma_dec_str_injective(a: nat, b: nat)
    requires
        dec_str(a) == dec_str(b),
    ensures
        a == b,
    decreases a,
{
    lemma_dec_str_len(a);
    lemma_dec_str_len(b);
    if a < 10 && b < 10 {
        assert(dec_str(a)[0] == hex_digit(a as u8));
        assert(dec_str(b)[0] == hex_digit(b as u8));
    } else if a >= 10 && b >= 10 {
        let sa = dec_str(a);
        let sb = dec_str(b);
        lemma_dec_str_len(a / 10);
        lemma_dec_str_len(b / 10);
        assert(sa.last() == hex_digit((a % 10) as u8));
        assert(sb.last() == hex_digit((b % 10) as u8));
        assert(a % 10 == b % 10);
        assert(dec_str(a / 10) =~= sa.take(sa.len() - 1));
        assert(dec_str(b / 10) =~= sb.take(sb.len() - 1));
        lemma_dec_str_injective(a / 10, b / 10);
    } else {
        // one side has one digit, the other at least two
        assert(false);
    }
}

/// Zero-padded renderings of distinct indices differ, hence so do the
/// read-only image names.
pub proof fn lemma_ro_image_name_injective(i: nat, j: nat)
    requires
        ro_image_name_spec(i) == ro_image_name_spec(j),
    ensures
        i == j,
{
    lemma_dec_str_len(i);
    lemma_dec_str_len(j);
    let si = dec_str(i);
    let sj = dec_str(j);
    let pi = pad4(si);
    let pj = pad4(sj);
    assert(pi.len() >= 4 && pj.len() >= 4);
    assert(pi + ".roimage"@ == pj + ".roimage"@);
    assert(pi.len() + ".roimage"@.len() == pj.len() + ".roimage"@.len());
    assert(pi =~= (pi + ".roimage"@).take(pi.len() as int));
    assert(pj =~= (pj + ".roimage"@).take(pj.len() as int));
    assert(pi == pj);
    if si.len() >= 4 && sj.len() >= 4 {
        lemma_dec_str_injective(i, j);
    } else if si.len() < 4 && sj.len() < 4 {
        if si.len() == sj.len() {
            assert(si =~= pi.skip(4 - si.len()));
            assert(sj =~= pj.skip(4 - sj.len()));
            lemma_dec_str_injective(i, j);
        } else if si.len() < sj.len() {
            // the first digit of the longer rendering sits under a pad zero
            assert(pj[4 - sj.len()] == sj[0]);
            assert(pi[4 - sj.len()] == '0');
            lemma_dec_str_leading(j);
            lemma_dec_str_len(j);
            assert(false);
        } else {
            assert(pi[4 - si.len()] == si[0]);
            assert(pj[4 - si.len()] == '0');
            lemma_dec_str_leading(i);
            lemma_dec_str_len(i);
            assert(false);
        }
    } else if si.len() < 4 {
        // pi has length 4 and pj is longer, yet they are equal
        assert(pi.len() == 4);
        assert(pj.len() == sj.len());
        assert(sj.len() >= 4);
        if sj.len() == 4 {
            assert(si =~= pi.skip(4 - si.len()));
            assert(pj == sj);
            assert(pi[0] == '0');
            lemma_dec_str_leading(j);
            assert(false);
        } else {
            assert(false);
        }
    } else {
        assert(pj.len() == 4);
        assert(pi.len() == si.len());
        if si.len() == 4 {
            assert(pj[0] == '0' || sj.len() == 4);
            if sj.len() == 4 {
                lemma_dec_str_injective(i, j);
            } else {
                assert(pj[0] == '0');
                assert(pi == si);
                lemma_dec_str_leading(i);
                assert(false);
            }
        } else {
            assert(false);
        }
    }
}

/// One digit as a string slice.
fn digit_str(d: u8) -> (r: &'static str)
    requires
        d < 10,
    ensures
        r@ == seq![hex_digit(d)],
{
    let r: &'static str = match d {
        0u8 => "0",
        1u8 => "1",
        2u8 => "2",
        3u8 => "3",
        4u8 => "4",
        5u8 => "5",
        6u8 => "6",
        7u8 => "7",
        8u8 => "8",
        _ => "9",
    };
    proof {
        reveal_strlit("0");
        reveal_strlit("1");
        reveal_strlit("2");
        reveal_strlit("3");
        reveal_strlit("4");
        reveal_strlit("5");
        reveal_strlit("6");
        reveal_strlit("7");
        reveal_strlit("8");
        reveal_strlit("9");
        assert(r@ =~= seq![hex_digit(d)]);
    }
    r
}

/// Renders `n` in decimal.
fn dec_string(n: usize) -> (r: String)
    ensures
        r@ == dec_str(n as nat),
    decreases n,
{
    if n < 10 {
        let mut s = String::new();
        s.append(digit_str(n as u8));
        proof {
            assert(s@ =~= dec_str(n as nat));
        }
        s
    } else {
        let mut s = dec_string(n / 10);
        s.append(digit_str((n % 10) as u8));
        proof {
            assert(s@ =~= dec_str(n as nat));
        }
        s
    }
}

/// Builds the read-only image filename for layer index `i`:
/// the index zero-padded to at least four decimal digits, then `.roimage`.
pub fn ro_image_name(i: usize) -> (r: String)
    ensures
        r@ == ro_image_name_spec(i as nat),
{
    let mut s = String::new();
    if i < 10 {
        s.append("000");
    } else if i < 100 {
        s.append("00");
    } else if i < 1000 {
        s.append("0");
    }
    proof {
        reveal_strlit("000");
        reveal_strlit("00");
        reveal_strlit("0");
        lemma_dec_str_len(i as nat);
    }
    let d = dec_string(i);
    let s2 = s.concat(d.as_str());
    let r = s2.concat(".roimage");
    proof {
        assert(r@ =~= ro_image_name_spec(i as nat));
    }
    r
}

/// The writable image's filename, `run.rwimage`.
pub fn rw_image_name() -> (r: String)
    ensures
        r@ == rw_image_name_spec(),
{
    let mut s = String::new();
    s.append("run.rwimage");
    proof {
        assert(s@ =~= rw_image_name_spec());
    }
    s
}

} // verus!
