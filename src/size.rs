use vstd::prelude::*;
use vstd::string::*;
use crate::text::{decimal, digit_char, u128_to_decimal};

verus! {

/// Bytes in the next larger unit.
pub const BYTE_SIZE: u128 = 1024;

pub open spec fn pow1024(i: nat) -> nat
    decreases i,
{
    if i == 0 {
        1
    } else {
        1024 * pow1024((i - 1) as nat)
    }
}

/// The largest unit, from `i` up to petabytes, that is not more than `size`.
pub open spec fn unit_from(size: u128, i: nat) -> nat
    decreases 5 - i,
{
    if i < 5 && pow1024(i + 1) <= size {
        unit_from(size, i + 1)
    } else {
        i
    }
}

pub open spec fn unit_name(i: nat) -> Seq<char> {
    if i == 0 {
        "B"@
    } else if i == 1 {
        "KB"@
    } else if i == 2 {
        "MB"@
    } else if i == 3 {
        "GB"@
    } else if i == 4 {
        "TB"@
    } else {
        "PB"@
    }
}

/// `size / pow` in hundredths, rounded to the nearest, ties to even.
pub open spec fn rounded_hundredths(size: nat, pow: nat) -> nat {
    let q = (size * 100) / pow;
    let r = (size * 100) % pow;
    if 2 * r > pow || (2 * r == pow && q % 2 == 1) {
        q + 1
    } else {
        q
    }
}

/// A size in bytes as text: the largest unit from bytes to petabytes that it
/// reaches, with two decimals, e.g. `1.50MB`.
pub open spec fn spec_readable_size(size: u128) -> Seq<char> {
    let i = unit_from(size, 0);
    let h = rounded_hundredths(size as nat, pow1024(i));
    decimal(h / 100) + "."@ + seq![digit_char((h % 100) / 10), digit_char(h % 10)] + unit_name(
        i,
    )
}

fn unit_str(i: usize) -> (r: &'static str)
    requires
        i <= 5,
    ensures
        r@ == unit_name(i as nat),
{
    if i == 0 {
        "B"
    } else if i == 1 {
        "KB"
    } else if i == 2 {
        "MB"
    } else if i == 3 {
        "GB"
    } else if i == 4 {
        "TB"
    } else {
        "PB"
    }
}

proof fn lemma_pow_bound(i: nat)
    requires
        i <= 5,
    ensures
        1 <= pow1024(i) <= pow1024(5),
        pow1024(5) == 1125899906842624,
    decreases 5 - i,
{
    reveal_with_fuel(pow1024, 6);
    if i < 5 {
        lemma_pow_bound(i + 1);
    }
}

/// `size / pow` rounded to hundredths, as whole units and hundredths.
fn split_hundredths(size: u128, pow: u128) -> (r: (u128, u128))
    requires
        1 <= pow <= 1125899906842624,
    ensures
        r.0 * 100 + r.1 == rounded_hundredths(size as nat, pow as nat),
        r.1 < 100,
{
    let whole = size / pow;
    let rem = size % pow;
    let frac = (rem * 100) / pow;
    let frac_rem = (rem * 100) % pow;
    let ghost s = size as int;
    let ghost p = pow as int;
    proof {
        vstd::arithmetic::div_mod::lemma_fundamental_div_mod(s, p);
        vstd::arithmetic::div_mod::lemma_fundamental_div_mod(rem as int * 100, p);
        assert(s * 100 == (whole as int * 100 + frac as int) * p + frac_rem as int)
            by (nonlinear_arith)
            requires
                s == p * whole as int + rem as int,
                rem as int * 100 == p * frac as int + frac_rem as int,
        ;
        vstd::arithmetic::div_mod::lemma_fundamental_div_mod_converse(
            s * 100,
            p,
            whole as int * 100 + frac as int,
            frac_rem as int,
        );
        assert(frac < 100) by (nonlinear_arith)
            requires
                rem < p,
                rem as int * 100 == p * frac as int + frac_rem as int,
                frac_rem >= 0,
                p > 0,
        ;
        assert((whole as int * 100 + frac as int) % 2 == (frac as int) % 2) by (nonlinear_arith);
    }
    let round_up = 2 * frac_rem > pow || (2 * frac_rem == pow && frac % 2 == 1);
    if round_up {
        if frac == 99 {
            (whole + 1, 0)
        } else {
            (whole, frac + 1)
        }
    } else {
        (whole, frac)
    }
}

/// Converts a size in bytes to text for people: two decimals and a unit from
/// `B` to `PB`.
pub fn readable_size(size: u128) -> (r: String)
    ensures
        r@ == spec_readable_size(size),
{
    let mut i: usize = 0;
    let mut pow: u128 = 1;
    while i < 5 && pow * BYTE_SIZE <= size
        invariant
            i <= 5,
            pow == pow1024(i as nat),
            pow <= 1125899906842624,
            unit_from(size, i as nat) == unit_from(size, 0),
        decreases 5 - i,
    {
        proof {
            lemma_pow_bound((i + 1) as nat);
        }
        pow = pow * BYTE_SIZE;
        i = i + 1;
    }
    proof {
        lemma_pow_bound(i as nat);
    }
    let (whole, frac) = split_hundredths(size, pow);
    let ghost h = rounded_hundredths(size as nat, pow as nat);
    assert(h / 100 == whole && h % 100 == frac) by (nonlinear_arith)
        requires
            h == whole * 100 + frac,
            frac < 100,
    ;
    let tens = u128_to_decimal(frac / 10);
    let ones = u128_to_decimal(frac % 10);
    proof {
        reveal_with_fuel(decimal, 1);
    }
    let out = u128_to_decimal(whole).concat(".").concat(tens.as_str()).concat(ones.as_str()).concat(
        unit_str(i),
    );
    assert(out@ =~= spec_readable_size(size));
    out
}

} // verus!
