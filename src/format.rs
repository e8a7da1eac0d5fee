//! Human-readable byte counts in binary units.

use vstd::prelude::*;

verus! {

/// `1024^k`.
pub open spec fn pow1024(k: nat) -> nat
    decreases k,
{
    if k == 0 {
        1
    } else {
        1024 * pow1024((k - 1) as nat)
    }
}

/// Index of the unit that `b` bytes are shown in: 0 for B up to 4 for TB.
/// It is the largest unit in which the scaled value stays below 1024,
/// capped at TB.
pub open spec fn unit_index(b: nat) -> nat {
    if b < pow1024(1) {
        0
    } else if b < pow1024(2) {
        1
    } else if b < pow1024(3) {
        2
    } else if b < pow1024(4) {
        3
    } else {
        4
    }
}

pub open spec fn unit_name(k: nat) -> Seq<char> {
    if k == 0 {
        seq!['B']
    } else if k == 1 {
        seq!['K', 'B']
    } else if k == 2 {
        seq!['M', 'B']
    } else if k == 3 {
        seq!['G', 'B']
    } else {
        seq!['T', 'B']
    }
}

/// `n / d` rounded to the nearest integer, ties to the even neighbour.
pub open spec fn round_half_even(n: nat, d: nat) -> nat
    recommends
        d > 0,
{
    let q = n / d;
    let r = n % d;
    if 2 * r > d || (2 * r == d && q % 2 == 1) {
        q + 1
    } else {
        q
    }
}

/// The scaled value of `b` bytes in its unit, in hundredths.
pub open spec fn hundredths(b: nat) -> nat {
    round_half_even(b * 100, pow1024(unit_index(b)))
}

pub open spec fn digit_char(d: nat) -> char {
    if d == 0 {
        '0'
    } else if d == 1 {
        '1'
    } else if d == 2 {
        '2'
    } else if d == 3 {
        '3'
    } else if d == 4 {
        '4'
    } else if d == 5 {
        '5'
    } else if d == 6 {
        '6'
    } else if d == 7 {
        '7'
    } else if d == 8 {
        '8'
    } else {
        '9'
    }
}

/// Decimal digits of `n`, without leading zeros.
pub open spec fn decimal(n: nat) -> Seq<char>
    decreases n,
{
    if n < 10 {
        seq![digit_char(n)]
    } else {
        decimal(n / 10).push(digit_char(n % 10))
    }
}

/// The text of `b` bytes: `"<n> B"` below 1024, else the scaled value with
/// exactly two decimals and the unit, as in `"1.50 KB"`.
pub open spec fn format_bytes_spec(b: nat) -> Seq<char> {
    let k = unit_index(b);
    if k == 0 {
        decimal(b) + seq![' '] + unit_name(0)
    } else {
        let h = hundredths(b);
        decimal(h / 100) + seq!['.', digit_char((h % 100) / 10), digit_char(h % 10), ' ']
            + unit_name(k)
    }
}

/// The unit never shrinks as the byte count grows.
pub proof fn lemma_unit_monotone(a: nat, b: nat)
    requires
        a <= b,
    ensures
        unit_index(a) <= unit_index(b),
{
}

/// No unit beyond TB is ever chosen.
pub proof fn lemma_unit_at_most_tb(b: nat)
    ensures
        unit_index(b) <= 4,
        unit_name(unit_index(b)).len() >= 1,
{
}

proof fn lemma_pow1024_values()
    ensures
        pow1024(0) == 1,
        pow1024(1) == 1024,
        pow1024(2) == 1024 * 1024,
        pow1024(3) == 1024 * 1024 * 1024,
        pow1024(4) == 1024 * 1024 * 1024 * 1024,
        pow1024(5) == 1024 * 1024 * 1024 * 1024 * 1024,
{
    reveal_with_fuel(pow1024, 6);
}

fn digit_str(d: u64) -> (r: &'static str)
    requires
        d < 10,
    ensures
        r@ == seq![digit_char(d as nat)],
{
    proof {
        reveal_strlit("0");
        reveal_strlit("1");
        reveal_strlit("2");
        reveal_strlit("3");
        reveal_strlit("4");
        reveal_strlit("5");
        reveal_strlit("6");
        reveal_strlit("7");
        reveal_strlit("8");
        reveal_strlit("9");
    }
    if d == 0 {
        "0"
    } else if d == 1 {
        "1"
    } else if d == 2 {
        "2"
    } else if d == 3 {
        "3"
    } else if d == 4 {
        "4"
    } else if d == 5 {
        "5"
    } else if d == 6 {
        "6"
    } else if d == 7 {
        "7"
    } else if d == 8 {
        "8"
    } else {
        "9"
    }
}

/// Appends the decimal digits of `n` to `s`.
pub fn push_decimal(s: &mut String, n: u64)
    ensures
        final(s)@ == old(s)@ + decimal(n as nat),
    decreases n,
{
    if n >= 10 {
        push_decimal(s, n / 10);
        s.append(digit_str(n % 10));
        proof {
            assert(final(s)@ =~= old(s)@ + decimal(n as nat));
        }
    } else {
        s.append(digit_str(n));
        proof {
            assert(final(s)@ =~= old(s)@ + decimal(n as nat));
        }
    }
}

fn unit_str(k: u64) -> (r: &'static str)
    requires
        k <= 4,
    ensures
        r@ == unit_name(k as nat),
{
    proof {
        reveal_strlit("B");
        reveal_strlit("KB");
        reveal_strlit("MB");
        reveal_strlit("GB");
        reveal_strlit("TB");
    }
    if k == 0 {
        "B"
    } else if k == 1 {
        "KB"
    } else if k == 2 {
        "MB"
    } else if k == 3 {
        "GB"
    } else {
        "TB"
    }
}

/// Renders a byte count with binary scaling, as `"1023 B"` or `"1.50 MB"`.
pub fn format_bytes(bytes: u64) -> (r: String)
    ensures
        r@ == format_bytes_spec(bytes as nat),
{
    proof {
        lemma_pow1024_values();
    }
    let (k, div): (u64, u64) = if bytes < 1024 {
        (0, 1)
    } else if bytes < 1048576 {
        (1, 1024)
    } else if bytes < 1073741824 {
        (2, 1048576)
    } else if bytes < 1099511627776 {
        (3, 1073741824)
    } else {
        (4, 1099511627776)
    };
    assert(k == unit_index(bytes as nat) && div == pow1024(k as nat));
    let mut s = String::new();
    if k == 0 {
        push_decimal(&mut s, bytes);
        s.append(" ");
        s.append(unit_str(0));
        proof {
            reveal_strlit(" ");
            assert(s@ =~= format_bytes_spec(bytes as nat));
        }
    } else {
        let scaled: u128 = bytes as u128 * 100;
        let d: u128 = div as u128;
        let q: u128 = scaled / d;
        let rem: u128 = scaled % d;
        assert(q <= scaled / 1024) by (nonlinear_arith)
            requires
                d >= 1024,
                q == scaled / d,
        ;
        let h: u128 = if 2 * rem > d || (2 * rem == d && q % 2 == 1) {
            q + 1
        } else {
            q
        };
        assert(h as nat == hundredths(bytes as nat));
        push_decimal(&mut s, (h / 100) as u64);
        s.append(".");
        s.append(digit_str(((h % 100) / 10) as u64));
        s.append(digit_str((h % 10) as u64));
        s.append(" ");
        s.append(unit_str(k));
        proof {
            reveal_strlit(" ");
            reveal_strlit(".");
            assert(s@ =~= format_bytes_spec(bytes as nat));
        }
    }
    s
}

} // verus!
