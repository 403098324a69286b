//! Decimal arithmetic helpers: powers of ten, digit counts, and rendering
//! integers as decimal strings.

use vstd::prelude::*;

verus! {

/// The mathematical value of ten to the `k`-th power.
pub open spec fn pow10(k: nat) -> int
    decreases k,
{
    if k == 0 {
        1
    } else {
        10 * pow10((k - 1) as nat)
    }
}

/// The number of trailing decimal places shared by no two distinct digits:
/// the floor of the base-ten logarithm. Zero for inputs below ten.
pub open spec fn spec_log10_floor(n: int) -> nat
    decreases n,
{
    if n < 10 {
        0
    } else {
        1 + spec_log10_floor(n / 10)
    }
}

/// Reducing a nonnegative number modulo a positive one never enlarges it.
pub proof fn lemma_mod_le(x: int, m: int)
    requires
        0 <= x,
        0 < m,
    ensures
        0 <= x % m <= x,
{
    if x < m {
        vstd::arithmetic::div_mod::lemma_small_mod(x as nat, m as nat);
    }
}

pub proof fn lemma_pow10_pos(k: nat)
    ensures
        pow10(k) >= 1,
    decreases k,
{
    if k > 0 {
        lemma_pow10_pos((k - 1) as nat);
    }
}

pub proof fn lemma_pow10_mono(j: nat, k: nat)
    requires
        j <= k,
    ensures
        pow10(j) <= pow10(k),
    decreases k,
{
    if j < k {
        lemma_pow10_mono(j, (k - 1) as nat);
        lemma_pow10_pos((k - 1) as nat);
    }
}

/// The floor of the logarithm stays below `k` for inputs below the `k`-th
/// power of ten.
pub proof fn lemma_log10_floor_lt(n: int, k: nat)
    requires
        0 <= n < pow10(k),
        1 <= k,
    ensures
        spec_log10_floor(n) <= k - 1,
    decreases k,
{
    if n >= 10 {
        assert(pow10(k) == 10 * pow10((k - 1) as nat));
        lemma_log10_floor_lt(n / 10, (k - 1) as nat);
    }
}

pub proof fn lemma_pow10_20_large()
    ensures
        pow10(20) > 0xffff_ffff_ffff_ffff,
{
    assert(pow10(20) == 100_000_000_000_000_000_000) by {
        reveal_with_fuel(pow10, 21);
    }
}

/// Ten to the `k`-th power, computed exactly.
pub fn pow10_exec(k: u32) -> (r: u64)
    requires
        k <= 18,
    ensures
        r == pow10(k as nat),
    decreases k,
{
    if k == 0 {
        1
    } else {
        let p = pow10_exec(k - 1);
        proof {
            lemma_pow10_pos((k - 1) as nat);
            lemma_pow10_mono(k as nat, 18);
            assert(pow10(18) == 1_000_000_000_000_000_000) by {
                reveal_with_fuel(pow10, 19);
            }
        }
        10 * p
    }
}

/// The floor of the base-ten logarithm of a number.
pub fn log10_floor(n: u64) -> (r: u32)
    ensures
        r == spec_log10_floor(n as int),
    decreases n,
{
    if n < 10 {
        0
    } else {
        let rec = log10_floor(n / 10);
        proof {
            lemma_pow10_20_large();
            lemma_log10_floor_lt(n as int / 10, 20);
        }
        1 + rec
    }
}

/// The decimal digit characters of a nonnegative number, most significant
/// first.
pub open spec fn spec_dec_digits(n: int) -> Seq<char>
    decreases n,
{
    if n < 0 {
        Seq::empty()
    } else if n < 10 {
        seq![spec_digit_char(n)]
    } else {
        spec_dec_digits(n / 10).push(spec_digit_char(n % 10))
    }
}

/// The character for a single decimal digit.
pub open spec fn spec_digit_char(d: int) -> char {
    if d == 0 {
        '0'
    } else if d == 1 {
        '1'
    } else if d == 2 {
        '2'
    } else if d == 3 {
        '3'
    } else if d == 4 {
        '4'
    } else if d == 5 {
        '5'
    } else if d == 6 {
        '6'
    } else if d == 7 {
        '7'
    } else if d == 8 {
        '8'
    } else {
        '9'
    }
}

/// The decimal rendering of a signed number: a minus sign for negative
/// values, then the digits of the absolute value.
pub open spec fn spec_dec_int(n: int) -> Seq<char> {
    if n < 0 {
        seq!['-'] + spec_dec_digits(-n)
    } else {
        spec_dec_digits(n)
    }
}

fn digit_str(d: u64) -> (r: &'static str)
    requires
        d < 10,
    ensures
        r@ == seq![spec_digit_char(d as int)],
{
    proof {
        reveal_strlit("0");
        reveal_strlit("1");
        reveal_strlit("2");
        reveal_strlit("3");
        reveal_strlit("4");
        reveal_strlit("5");
        reveal_strlit("6");
        reveal_strlit("7");
        reveal_strlit("8");
        reveal_strlit("9");
    }
    let r = if d == 0 {
        "0"
    } else if d == 1 {
        "1"
    } else if d == 2 {
        "2"
    } else if d == 3 {
        "3"
    } else if d == 4 {
        "4"
    } else if d == 5 {
        "5"
    } else if d == 6 {
        "6"
    } else if d == 7 {
        "7"
    } else if d == 8 {
        "8"
    } else {
        "9"
    };
    proof {
        assert(r@ =~= seq![spec_digit_char(d as int)]);
    }
    r
}

fn push_dec_digits(buf: &mut String, n: u64)
    ensures
        final(buf)@ == old(buf)@ + spec_dec_digits(n as int),
    decreases n,
{
    if n < 10 {
        buf.append(digit_str(n));
        proof {
            assert(final(buf)@ =~= old(buf)@ + spec_dec_digits(n as int));
        }
    } else {
        push_dec_digits(buf, n / 10);
        buf.append(digit_str(n % 10));
        proof {
            assert(final(buf)@ =~= old(buf)@ + spec_dec_digits(n as int));
        }
    }
}

/// Append the decimal rendering of `n` to `buf`.
pub fn push_dec_i64(buf: &mut String, n: i64)
    ensures
        final(buf)@ == old(buf)@ + spec_dec_int(n as int),
{
    if n < 0 {
        proof {
            reveal_strlit("-");
        }
        buf.append("-");
        let magnitude: u64 = ((-(n + 1)) as u64) + 1;
        push_dec_digits(buf, magnitude);
        proof {
            assert(final(buf)@ =~= old(buf)@ + spec_dec_int(n as int));
        }
    } else {
        push_dec_digits(buf, n as u64);
    }
}

/// The decimal rendering of `n` as a fresh string.
pub fn dec_string_i64(n: i64) -> (r: String)
    ensures
        r@ == spec_dec_int(n as int),
{
    let mut buf = String::new();
    push_dec_i64(&mut buf, n);
    proof {
        assert(buf@ =~= spec_dec_int(n as int));
    }
    buf
}

} // verus!
