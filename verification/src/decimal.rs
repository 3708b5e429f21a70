//! Decimal notation for integers and for fixed-point degrees, as ASCII bytes.
use crate::text::is_ascii_bytes;
use vstd::prelude::*;

verus! {

/// The ASCII digit for `d`, which is under 10.
pub open spec fn digit(d: nat) -> u8 {
    (48 + d) as u8
}

/// The decimal digits of `n`, without leading zeros.
pub open spec fn digits(n: nat) -> Seq<u8>
    decreases n,
{
    if n < 10 {
        seq![digit(n)]
    } else {
        digits(n / 10).push(digit(n % 10))
    }
}

/// The sign that precedes a negative number.
pub open spec fn sign(v: int) -> Seq<u8> {
    if v < 0 {
        seq![45u8]
    } else {
        Seq::<u8>::empty()
    }
}

/// The absolute value.
pub open spec fn magnitude(v: int) -> nat {
    if v < 0 {
        (-v) as nat
    } else {
        v as nat
    }
}

/// The decimal notation of an integer.
pub open spec fn integer(v: int) -> Seq<u8> {
    sign(v) + digits(magnitude(v))
}

/// The digits after the point of `f / 10^4`, where `0 < f < 10^4`, without
/// trailing zeros.
pub open spec fn fraction(f: nat) -> Seq<u8> {
    if f % 1000 == 0 {
        seq![digit(f / 1000)]
    } else if f % 100 == 0 {
        seq![digit(f / 1000), digit(f / 100 % 10)]
    } else if f % 10 == 0 {
        seq![digit(f / 1000), digit(f / 100 % 10), digit(f / 10 % 10)]
    } else {
        seq![digit(f / 1000), digit(f / 100 % 10), digit(f / 10 % 10), digit(f % 10)]
    }
}

/// The decimal notation of `v / 10^4`: the integer part, and the fraction
/// behind a point where there is one.
pub open spec fn ten_thousandths(v: int) -> Seq<u8> {
    let m = magnitude(v);
    if m % 10000 == 0 {
        sign(v) + digits(m / 10000)
    } else {
        sign(v) + digits(m / 10000) + seq![46u8] + fraction(m % 10000)
    }
}

/// Appends the decimal digits of `n`.
pub fn push_digits(out: &mut Vec<u8>, n: u64)
    requires
        is_ascii_bytes(old(out)@),
    ensures
        final(out)@ == old(out)@ + digits(n as nat),
        is_ascii_bytes(final(out)@),
    decreases n,
{
    if n >= 10 {
        push_digits(out, n / 10);
    }
    let d: u8 = (n % 10) as u8;
    out.push(48 + d);
    proof {
        if n >= 10 {
            assert(final(out)@ =~= old(out)@ + digits(n as nat));
        } else {
            assert(final(out)@ =~= old(out)@ + digits(n as nat));
        }
    }
}

/// The decimal notation of an integer.
pub fn format_integer(v: i32) -> (out: Vec<u8>)
    ensures
        out@ == integer(v as int),
        is_ascii_bytes(out@),
{
    let mut out: Vec<u8> = Vec::new();
    let wide: i64 = v as i64;
    let m: u64 = if wide < 0 {
        out.push(45);
        (-wide) as u64
    } else {
        wide as u64
    };
    assert(out@ =~= sign(v as int));
    push_digits(&mut out, m);
    out
}

/// The decimal notation of `v / 10^4`, without trailing zeros and without a
/// point where the value is whole.
pub fn format_ten_thousandths(v: i32) -> (out: Vec<u8>)
    ensures
        out@ == ten_thousandths(v as int),
        is_ascii_bytes(out@),
{
    let mut out: Vec<u8> = Vec::new();
    let wide: i64 = v as i64;
    let m: u64 = if wide < 0 {
        out.push(45);
        (-wide) as u64
    } else {
        wide as u64
    };
    assert(out@ =~= sign(v as int));
    push_digits(&mut out, m / 10000);
    let f: u64 = m % 10000;
    if f != 0 {
        out.push(46);
        out.push(48 + (f / 1000) as u8);
        if f % 1000 != 0 {
            out.push(48 + (f / 100 % 10) as u8);
            if f % 100 != 0 {
                out.push(48 + (f / 10 % 10) as u8);
                if f % 10 != 0 {
                    out.push(48 + (f % 10) as u8);
                }
            }
        }
    }
    assert(out@ =~= ten_thousandths(v as int));
    out
}

} // verus!
