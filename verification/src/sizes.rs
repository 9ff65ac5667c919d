//! Human-readable byte counts. A count is shown in the largest binary unit
//! (GB, MB, KB) it reaches, with one decimal. The count becomes a double
//! (rounded to 53 significant bits, to nearest with ties to even), which is
//! divided by the unit, a power of two, without further rounding; the
//! decimal is that exact quotient rounded to nearest, ties to even, which is
//! what formatting it with one decimal gives.
use vstd::prelude::*;
use crate::text::{dec_nat, dec_u64, digit, digit_char, extend_chars};

verus! {

pub const KB: u64 = 1024;
pub const MB: u64 = 1048576;
pub const GB: u64 = 1073741824;

/// Below this a count converts to a double without rounding.
pub const EXACT_LIMIT: u64 = 9007199254740992;

/// The spacing of doubles around `n`: 1 below `EXACT_LIMIT`, doubling with
/// each further bit.
pub open spec fn double_unit(n: nat) -> nat
    decreases n,
{
    if n < EXACT_LIMIT {
        1
    } else {
        2 * double_unit(n / 2)
    }
}

/// The value of `n` as a double: `n` rounded to a multiple of its spacing,
/// to nearest with ties to an even multiple.
pub open spec fn as_double(n: nat) -> nat {
    let u = double_unit(n);
    let q = n / u;
    let r = n % u;
    if 2 * r > u || (2 * r == u && q % 2 == 1) {
        (q + 1) * u
    } else {
        q * u
    }
}

/// Counts below `EXACT_LIMIT` are doubles as they are.
pub proof fn lemma_small_counts_are_exact(n: nat)
    requires
        n < EXACT_LIMIT,
    ensures
        as_double(n) == n,
{
    assert(double_unit(n) == 1);
    assert(n / 1 == n && n % 1 == 0) by (nonlinear_arith);
    assert(as_double(n) == n * 1) by (nonlinear_arith)
        requires
            double_unit(n) == 1,
            n / 1 == n,
            n % 1 == 0,
    ;
}

/// The value of a count as a double.
pub fn double_of(n: u64) -> (r: u128)
    ensures
        r == as_double(n as nat),
        r <= 0x2_0000_0000_0000_0000,
{
    let mut unit: u128 = 1;
    let mut m: u64 = n;
    while m >= EXACT_LIMIT
        invariant
            1 <= unit <= 4096,
            unit * m <= n,
            double_unit(n as nat) == unit * double_unit(m as nat),
        decreases m,
    {
        assert(unit * 9007199254740992 <= n) by (nonlinear_arith)
            requires
                unit * m <= n,
                m >= 9007199254740992,
                unit >= 1,
        ;
        assert(unit * 2 <= 4096) by (nonlinear_arith)
            requires
                unit * 9007199254740992 <= n,
                n <= 0xffff_ffff_ffff_ffff,
        ;
        assert((unit * 2) * (m / 2) <= unit * m) by (nonlinear_arith)
            requires
                unit >= 1,
        ;
        let ghost d = double_unit((m / 2) as nat);
        assert(double_unit(m as nat) == 2 * d);
        assert(unit * (2 * d) == (unit * 2) * d) by (nonlinear_arith);
        m = m / 2;
        unit = unit * 2;
    }
    assert(double_unit(m as nat) == 1);
    assert(unit * 1 == unit);
    assert(double_unit(n as nat) == unit);
    let nn: u128 = n as u128;
    let q: u128 = nn / unit;
    let rem: u128 = nn % unit;
    assert(q * unit <= nn) by (nonlinear_arith)
        requires
            q == nn / unit,
            unit >= 1,
    ;
    assert((q + 1) * unit == q * unit + unit) by (nonlinear_arith);
    if 2 * rem > unit || (2 * rem == unit && q % 2 == 1) {
        (q + 1) * unit
    } else {
        q * unit
    }
}

/// Tenths of `n / unit`, rounded to nearest with ties to even.
pub open spec fn rounded_tenths(n: nat, unit: nat) -> nat
    recommends
        unit > 0,
{
    let q = (n * 10) / unit;
    let r = (n * 10) % unit;
    if 2 * r > unit {
        q + 1
    } else if 2 * r == unit && q % 2 == 1 {
        q + 1
    } else {
        q
    }
}

/// `n / unit` written with one decimal.
pub open spec fn one_decimal(n: nat, unit: nat) -> Seq<char> {
    let t = rounded_tenths(n, unit);
    dec_nat(t / 10) + seq!['.'] + seq![digit_char((t % 10) as int)]
}

/// `n / unit` with one decimal, as characters.
pub fn one_decimal_chars(n: u128, unit: u64) -> (r: Vec<char>)
    requires
        unit >= KB,
        n <= 0x2_0000_0000_0000_0000,
    ensures
        r@ == one_decimal(n as nat, unit as nat),
{
    let m: u128 = n * 10;
    let u: u128 = unit as u128;
    let q: u128 = m / u;
    let rem: u128 = m % u;
    let t: u128 = if 2 * rem > u {
        q + 1
    } else if 2 * rem == u && q % 2 == 1 {
        q + 1
    } else {
        q
    };
    assert(q * 1024 <= m) by (nonlinear_arith)
        requires
            q == m / u,
            u >= 1024,
    ;
    let whole = dec_u64((t / 10) as u64);
    let mut out: Vec<char> = Vec::new();
    extend_chars(&mut out, &whole);
    out.push('.');
    out.push(digit((t % 10) as u64));
    proof {
        assert(out@ =~= one_decimal(n as nat, unit as nat));
    }
    out
}

} // verus!
