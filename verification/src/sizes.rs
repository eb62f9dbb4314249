//! Byte counts written for people: "512 B", "1.5 KB", "2.00 GB".
//!
//! The dialogs show a count divided by a power of two, rounded to one or two
//! decimal places. The count is first taken as a double, so above 2^53 it is
//! rounded to 53 significant bits (to nearest, ties to even), and the quotient
//! is then written with its exact decimal value rounded half to even. All of
//! that is computed here on integers.
use vstd::prelude::*;
use vstd::arithmetic::div_mod::{lemma_fundamental_div_mod, lemma_div_denominator};
use crate::text::{decimal_digit, decimal_text, push_decimal};

verus! {

broadcast use vstd::string::group_string_axioms;

pub const KIB: u64 = 1024;
pub const MIB: u64 = 1048576;
pub const GIB: u64 = 1073741824;

/// `a / d` rounded to the nearest integer, ties to the even one.
pub open spec fn round_half_even(a: nat, d: nat) -> nat {
    let q = a / d;
    let r = a % d;
    if 2 * r > d || (2 * r == d && q % 2 == 1) {
        q + 1
    } else {
        q
    }
}

/// The spacing of doubles around `n`: 1 below 2^53, doubling with each bit above.
pub open spec fn double_spacing(n: nat) -> nat
    decreases n,
{
    if n < 0x20_0000_0000_0000 {
        1
    } else {
        2 * double_spacing(n / 2)
    }
}

/// The value of `n` once converted to a double.
pub open spec fn double_value(n: nat) -> nat {
    let s = double_spacing(n);
    round_half_even(n, s) * s
}

/// `q` hundredths (`places == 2`) or tenths (otherwise) in fixed-point notation.
pub open spec fn fixed_text(q: nat, places: nat) -> Seq<char> {
    if places == 2 {
        decimal_text(q / 100) + seq!['.', decimal_digit((q / 10) % 10), decimal_digit(q % 10)]
    } else {
        decimal_text(q / 10) + seq!['.', decimal_digit(q % 10)]
    }
}

/// The double value of `n` divided by `unit`, written with `places` decimals.
pub open spec fn scaled_text(n: nat, unit: nat, places: nat) -> Seq<char> {
    let ten_pow: nat = if places == 2 { 100 } else { 10 };
    fixed_text(round_half_even(double_value(n) * ten_pow, unit), places)
}

/// The size shown in property sheets and the entry list: bytes below 1 KB,
/// then KB and MB with one decimal, GB with two.
pub open spec fn human_size_text(n: nat) -> Seq<char> {
    if n < KIB {
        decimal_text(n) + " B"@
    } else if n < MIB {
        scaled_text(n, KIB as nat, 1) + " KB"@
    } else if n < GIB {
        scaled_text(n, MIB as nat, 1) + " MB"@
    } else {
        scaled_text(n, GIB as nat, 2) + " GB"@
    }
}

/// The size shown in the progress dialog: bytes below 1 KB, then KB, MB and
/// GB with two decimals.
pub open spec fn transfer_size_text(n: nat) -> Seq<char> {
    if n >= GIB {
        scaled_text(n, GIB as nat, 2) + " GB"@
    } else if n >= MIB {
        scaled_text(n, MIB as nat, 2) + " MB"@
    } else if n >= KIB {
        scaled_text(n, KIB as nat, 2) + " KB"@
    } else {
        decimal_text(n) + " B"@
    }
}

fn round_half_even_u128(a: u128, d: u128) -> (r: u128)
    requires
        0 < d <= 0x1_0000_0000_0000,
        a < 0x1_0000_0000_0000_0000_0000_0000,
    ensures
        r == round_half_even(a as nat, d as nat),
{
    let q = a / d;
    let rem = a % d;
    proof {
        assert(q <= a) by (nonlinear_arith)
            requires
                q == a / d,
                d >= 1,
        ;
    }
    if 2 * rem > d || (2 * rem == d && q % 2 == 1) {
        q + 1
    } else {
        q
    }
}

/// `n` converted to a double, as an integer.
fn double_of(n: u64) -> (r: u128)
    ensures
        r == double_value(n as nat),
        r <= n + 4096,
{
    let mut t: u64 = n;
    let mut s: u128 = 1;
    while t >= 0x20_0000_0000_0000
        invariant
            t as nat == (n as nat) / (s as nat),
            1 <= s <= 4096,
            double_spacing(n as nat) == s * double_spacing(t as nat),
        decreases t,
    {
        proof {
            lemma_div_denominator(n as int, s as int, 2);
            assert(s * (t as nat) <= n) by (nonlinear_arith)
                requires
                    t as nat == (n as nat) / (s as nat),
                    s >= 1,
            {
                lemma_fundamental_div_mod(n as int, s as int);
            }
            assert(s * 2 <= 4096) by (nonlinear_arith)
                requires
                    s * (t as nat) <= n,
                    t >= 0x20_0000_0000_0000,
                    n <= 0xffff_ffff_ffff_ffff,
                    s >= 1,
            ;
        }
        let ghost prev_s = s;
        let ghost prev_t = t;
        t = t / 2;
        s = s * 2;
        proof {
            let x = double_spacing(t as nat);
            assert(double_spacing(prev_t as nat) == 2 * x);
            assert(prev_s * (2 * x) == (prev_s * 2) * x) by (nonlinear_arith);
        }
    }
    proof {
        assert(double_spacing(t as nat) == 1);
        assert(s * 1 == s);
        assert(double_spacing(n as nat) == s as nat);
    }
    let nn = n as u128;
    let m = round_half_even_u128(nn, s);
    proof {
        lemma_fundamental_div_mod(n as int, s as int);
        assert(m * s <= n + 4096) by (nonlinear_arith)
            requires
                m <= (n as nat) / (s as nat) + 1,
                s >= 1,
                s <= 4096,
                (s as nat) * ((n as nat) / (s as nat)) + (n as nat) % (s as nat) == n,
                (n as nat) % (s as nat) >= 0,
        ;
    }
    proof {
        assert(double_value(n as nat) == m * s);
    }
    m * s
}

/// Appends `q` tenths or hundredths in fixed-point notation.
fn push_fixed(out: &mut String, q: u64, places: u64)
    ensures
        final(out)@ == old(out)@ + fixed_text(q as nat, places as nat),
{
    if places == 2 {
        push_decimal(out, q / 100);
        out.append(".");
        push_decimal(out, (q / 10) % 10);
        push_decimal(out, q % 10);
        proof {
            reveal_strlit(".");
            assert(decimal_text(((q / 10) % 10) as nat) =~= seq![decimal_digit(((q / 10) % 10) as nat)]);
            assert(decimal_text((q % 10) as nat) =~= seq![decimal_digit((q % 10) as nat)]);
            assert(out@ =~= old(out)@ + fixed_text(q as nat, places as nat));
        }
    } else {
        push_decimal(out, q / 10);
        out.append(".");
        push_decimal(out, q % 10);
        proof {
            reveal_strlit(".");
            assert(decimal_text((q % 10) as nat) =~= seq![decimal_digit((q % 10) as nat)]);
            assert(out@ =~= old(out)@ + fixed_text(q as nat, places as nat));
        }
    }
}

/// Appends the double value of `n` divided by `unit` with `places` decimals.
fn push_scaled(out: &mut String, n: u64, unit: u64, places: u64)
    requires
        unit == KIB || unit == MIB || unit == GIB,
    ensures
        final(out)@ == old(out)@ + scaled_text(n as nat, unit as nat, places as nat),
{
    let f = double_of(n);
    let ten_pow: u128 = if places == 2 { 100 } else { 10 };
    let a = f * ten_pow;
    let q = round_half_even_u128(a, unit as u128);
    proof {
        assert(q <= (a as nat) / (unit as nat) + 1);
        assert((a as nat) / (unit as nat) <= (a as nat) / 1024) by (nonlinear_arith)
            requires
                unit >= 1024,
        {
            vstd::arithmetic::div_mod::lemma_div_is_ordered_by_denominator(a as int, 1024, unit as int);
        }
    }
    push_fixed(out, q as u64, places);
}

/// `n` bytes as the property sheets and the entry list show it.
pub fn human_size(n: u64) -> (r: String)
    ensures
        r@ == human_size_text(n as nat),
{
    let mut out = String::new();
    if n < KIB {
        push_decimal(&mut out, n);
        out.append(" B");
    } else if n < MIB {
        push_scaled(&mut out, n, KIB, 1);
        out.append(" KB");
    } else if n < GIB {
        push_scaled(&mut out, n, MIB, 1);
        out.append(" MB");
    } else {
        push_scaled(&mut out, n, GIB, 2);
        out.append(" GB");
    }
    proof {
        assert(out@ =~= human_size_text(n as nat));
    }
    out
}

/// `n` bytes as the progress dialog shows it.
pub fn transfer_size(n: u64) -> (r: String)
    ensures
        r@ == transfer_size_text(n as nat),
{
    let mut out = String::new();
    if n >= GIB {
        push_scaled(&mut out, n, GIB, 2);
        out.append(" GB");
    } else if n >= MIB {
        push_scaled(&mut out, n, MIB, 2);
        out.append(" MB");
    } else if n >= KIB {
        push_scaled(&mut out, n, KIB, 2);
        out.append(" KB");
    } else {
        push_decimal(&mut out, n);
        out.append(" B");
    }
    proof {
        assert(out@ =~= transfer_size_text(n as nat));
    }
    out
}

} // verus!
