//! Byte-level text helpers: decimal and hexadecimal digits, parsing with
//! saturation, and decimal formatting. These are the building blocks for the
//! color text forms and for the response sequences written back to the child.

use vstd::prelude::*;

verus! {

pub open spec fn is_dec_digit(b: u8) -> bool {
    48 <= b && b <= 57
}

pub open spec fn dec_val(b: u8) -> int {
    b - 48
}

/// Value of one hexadecimal digit, upper or lower case.
pub open spec fn hex_val(b: u8) -> Option<u8> {
    if 48 <= b && b <= 57 {
        Some((b - 48) as u8)
    } else if 97 <= b && b <= 102 {
        Some((b - 97 + 10) as u8)
    } else if 65 <= b && b <= 70 {
        Some((b - 65 + 10) as u8)
    } else {
        None
    }
}

/// Value of a two-digit hexadecimal number.
pub open spec fn hex2_val(hi: u8, lo: u8) -> Option<u8> {
    match (hex_val(hi), hex_val(lo)) {
        (Some(h), Some(l)) => Some((h * 16 + l) as u8),
        _ => None,
    }
}

/// Lower-case hexadecimal digit for a value below 16.
pub open spec fn hex_digit(v: u8) -> u8
    recommends
        v < 16,
{
    if v < 10 {
        (48 + v) as u8
    } else {
        (97 + v - 10) as u8
    }
}

/// The two lower-case hexadecimal digits of a byte.
pub open spec fn hex2_of(v: u8) -> Seq<u8> {
    seq![hex_digit(v / 16), hex_digit((v % 16) as u8)]
}

/// Reading a decimal number from `s`, left to right, starting from
/// accumulator `acc`: the digits extend `acc`; a non-digit makes the
/// whole read fail.
pub open spec fn dec_read(s: Seq<u8>, acc: int) -> Option<int>
    decreases s.len(),
{
    if s.len() == 0 {
        Some(acc)
    } else if is_dec_digit(s[0]) {
        dec_read(s.skip(1), acc * 10 + dec_val(s[0]))
    } else {
        None
    }
}

/// The decimal value of `s`, if `s` is one or more decimal digits whose
/// value is at most `bound`.
pub open spec fn dec_bounded(s: Seq<u8>, bound: int) -> Option<int> {
    if s.len() == 0 {
        None
    } else {
        match dec_read(s, 0) {
            Some(v) => if v <= bound {
                Some(v)
            } else {
                None
            },
            None => None,
        }
    }
}

/// Parse `s` as a decimal number of value at most `bound`.
/// Returns exactly `dec_bounded(s@, bound)`.
pub fn parse_dec_bounded(s: &[u8], bound: u64) -> (r: Option<u64>)
    requires
        bound <= 0x7fff_ffff_ffff_fff0,
    ensures
        match r {
            Some(v) => dec_bounded(s@, bound as int) == Some(v as int),
            None => dec_bounded(s@, bound as int) is None,
        },
{
    if s.len() == 0 {
        return None;
    }
    let mut i: usize = 0;
    proof {
        assert(s@.skip(0) =~= s@);
    }
    // Saturate at bound + 1: every value beyond the bound is rejected alike.
    let mut acc: u64 = 0;
    let ghost mut g: int = 0;
    while i < s.len()
        invariant
            0 <= i <= s@.len(),
            bound <= 0x7fff_ffff_ffff_fff0,
            g >= 0,
            acc == if g <= bound { g } else { bound + 1 },
            dec_read(s@, 0) == dec_read(s@.skip(i as int), g),
        decreases s@.len() - i,
    {
        let b = s[i];
        if b < 48 || b > 57 {
            proof {
                assert(dec_read(s@.skip(i as int), g) is None);
            }
            return None;
        }
        let d = (b - 48) as u64;
        proof {
            assert(s@.skip(i as int)[0] == s@[i as int]);
            assert(dec_read(s@.skip(i as int), g) == dec_read(
                s@.skip(i as int).skip(1),
                g * 10 + dec_val(s@[i as int]),
            ));
            assert(s@.skip(i as int).skip(1) =~= s@.skip(i + 1));
            g = g * 10 + dec_val(s@[i as int]);
        }
        if acc > bound {
            // already beyond the bound; stay saturated
            acc = bound + 1;
        } else {
            // acc <= bound < 2^64 - 1, so acc * 10 + d could overflow u64 only
            // if acc is huge; cap first
            if acc > (bound / 10) {
                acc = bound + 1;
            } else {
                acc = acc * 10 + d;
                if acc > bound {
                    acc = bound + 1;
                }
            }
        }
        proof {
            if g <= bound {
                assert(acc == g);
            } else {
                assert(acc == bound + 1);
            }
        }
        i += 1;
    }
    proof {
        assert(s@.skip(i as int) =~= Seq::<u8>::empty());
        assert(dec_read(s@, 0) == Some(g));
    }
    if acc > bound {
        None
    } else {
        Some(acc)
    }
}

/// The decimal digits of `n`, most significant first.
pub open spec fn dec_of(n: int) -> Seq<u8>
    recommends
        n >= 0,
    decreases n,
{
    if n < 10 {
        seq![(48 + if n >= 0 { n } else { 0 }) as u8]
    } else {
        dec_of(n / 10) + seq![(48 + n % 10) as u8]
    }
}

/// Append the decimal digits of `n` to `out`.
pub fn push_dec(out: &mut Vec<u8>, n: usize)
    ensures
        final(out)@ == old(out)@ + dec_of(n as int),
{
    if n == 0 {
        let ghost pre = out@;
        out.push(48);
        proof {
            assert(dec_of(0) =~= seq![48u8]);
            assert(out@ =~= pre + dec_of(0));
        }
        return;
    }
    let mut rev: Vec<u8> = Vec::new();
    let mut m: usize = n;
    proof {
        assert(dec_of(n as int) =~= dec_of(n as int) + rev@.reverse());
    }
    while m > 0
        invariant
            dec_of(n as int) == if m > 0 {
                dec_of(m as int) + rev@.reverse()
            } else {
                rev@.reverse()
            },
        decreases m,
    {
        let d = (m % 10) as u8;
        let ghost old_rev = rev@;
        let ghost old_m = m as int;
        rev.push(48 + d);
        proof {
            assert(rev@.reverse() =~= seq![(48 + d) as u8] + old_rev.reverse());
        }
        m = m / 10;
        proof {
            if m == 0 {
                assert(old_m < 10);
                assert(dec_of(old_m) =~= seq![(48 + d) as u8]);
                assert(dec_of(n as int) =~= rev@.reverse());
            } else {
                assert(dec_of(old_m) =~= dec_of(old_m / 10) + seq![(48 + d) as u8]);
                assert(dec_of(old_m / 10) + rev@.reverse() =~= (dec_of(old_m / 10) + seq![
                    (48 + d) as u8,
                ]) + old_rev.reverse());
                assert(dec_of(n as int) =~= dec_of(m as int) + rev@.reverse());
            }
        }
    }
    let ghost pre = out@;
    let mut j: usize = rev.len();
    while j > 0
        invariant
            j <= rev@.len(),
            out@ == pre + rev@.reverse().take(rev@.len() - j),
        decreases j,
    {
        j -= 1;
        let ghost before = out@;
        out.push(rev[j]);
        proof {
            assert(rev@.reverse()[rev@.len() - j - 1] == rev@[j as int]);
            assert(out@ =~= pre + rev@.reverse().take(rev@.len() - j));
        }
    }
    proof {
        assert(rev@.reverse().take(rev@.len() as int) =~= rev@.reverse());
        assert(out@ =~= pre + dec_of(n as int));
    }
}

/// An owned copy of a byte vector.
pub fn copy_bytes(v: &Vec<u8>) -> (r: Vec<u8>)
    ensures
        r@ == v@,
{
    let mut out: Vec<u8> = Vec::new();
    let mut i: usize = 0;
    while i < v.len()
        invariant
            i <= v@.len(),
            out@ =~= v@.take(i as int),
        decreases v@.len() - i,
    {
        out.push(v[i]);
        proof {
            assert(out@ =~= v@.take(i + 1));
        }
        i += 1;
    }
    proof {
        assert(out@ =~= v@);
    }
    out
}

} // verus!
