//! Page-range abbreviation.
//!
//! A page range is rendered as the start page, a separator, and the end page.
//! Depending on the chosen house style, the end page is abbreviated by
//! dropping the leading digits it shares with the start page. An end value
//! smaller than the start is taken to be already abbreviated and is first
//! expanded to its implied full value.

use vstd::prelude::*;

use crate::num::lemma_log10_floor_lt;
use crate::num::lemma_mod_le;
use crate::num::lemma_pow10_pos;
use crate::num::log10_floor;
use crate::num::pow10;
use crate::num::pow10_exec;
use crate::num::push_dec_i64;
use crate::num::spec_dec_int;
use crate::num::spec_log10_floor;

verus! {

/// How to reformat page ranges.
#[derive(Debug, Copy, Clone, Default, Eq, PartialEq, Hash)]
pub enum PageRangeFormat {
    /// “321–28”
    Chicago15,
    /// “321–28”
    Chicago16,
    /// “321–328”
    #[default]
    Expanded,
    /// “321–8”
    Minimal,
    /// “321–28”
    MinimalTwo,
}

/// The largest power of ten not exceeding the argument (one for arguments
/// below ten).
pub open spec fn spec_closest_smaller_power_of_10(n: int) -> int
    decreases n,
{
    if n < 10 {
        1
    } else {
        10 * spec_closest_smaller_power_of_10(n / 10)
    }
}

/// The closest smaller power of ten lies in `(n/10, n]` for positive `n`.
pub proof fn lemma_csp10_bounds(n: int)
    requires
        0 <= n,
    ensures
        1 <= spec_closest_smaller_power_of_10(n),
        n >= 1 ==> spec_closest_smaller_power_of_10(n) <= n,
        10 * spec_closest_smaller_power_of_10(n) > n,
    decreases n,
{
    if n >= 10 {
        lemma_csp10_bounds(n / 10);
    }
}

/// The full value implied by an already-abbreviated end page `b` after a
/// start page `a`: the digits of `a` above the decimal width of `b`,
/// followed by `b` itself.
pub open spec fn spec_expand(a: int, b: int) -> int {
    let mask = 10 * spec_closest_smaller_power_of_10(b);
    (a - a % mask) + b % mask
}

/// The trailing part of `b` from the highest decimal place at which `a` and
/// `b` differ (stopping no lower than place `min`) downwards.
pub open spec fn spec_changed_part(a: int, b: int, min: nat) -> int {
    let top = spec_log10_floor(if a >= b {
        a
    } else {
        b
    });
    b % pow10(spec_changed_base(a, b, top, min) + 1)
}

/// The highest decimal place at or below `base` (but not below `min`) at
/// which `a` and `b` have differing leading digits.
pub open spec fn spec_changed_base(a: int, b: int, base: nat, min: nat) -> nat
    decreases base,
{
    if base > min && a / pow10(base) == b / pow10(base) {
        spec_changed_base(a, b, (base - 1) as nat, min)
    } else {
        base
    }
}

/// The largest power of ten not exceeding `num`, or one for `num` below ten.
pub fn closest_smaller_power_of_10(num: i32) -> (r: i32)
    requires
        0 <= num,
    ensures
        r == spec_closest_smaller_power_of_10(num as int),
{
    proof {
        lemma_csp10_bounds(num as int);
    }
    csp10_u64(num as u64) as i32
}

fn csp10_u64(n: u64) -> (r: u64)
    ensures
        r == spec_closest_smaller_power_of_10(n as int),
    decreases n,
{
    proof {
        lemma_csp10_bounds(n as int);
    }
    if n < 10 {
        1
    } else {
        10 * csp10_u64(n / 10)
    }
}

/// Expand an abbreviated end page `b` to the full value it stands for after
/// the start page `a`.
pub fn expand(a: i32, b: i32) -> (r: i32)
    requires
        0 <= a,
        0 <= b,
        spec_expand(a as int, b as int) <= i32::MAX,
    ensures
        r == spec_expand(a as int, b as int),
{
    expand_u64(a as u64, b as u64) as i32
}

fn expand_u64(a: u64, b: u64) -> (r: u64)
    requires
        a <= 0x7fff_ffff,
        b <= 0x7fff_ffff,
    ensures
        r == spec_expand(a as int, b as int),
        b <= r < 100_000_000_000,
{
    proof {
        lemma_csp10_bounds(b as int);
    }
    let mask = 10 * csp10_u64(b);
    proof {
        lemma_mod_le(a as int, mask as int);
        vstd::arithmetic::div_mod::lemma_small_mod(b as nat, mask as nat);
    }
    (a - a % mask) + b % mask
}

/// The trailing digits of `b` from the highest place at which `a` and `b`
/// differ (stopping no lower than place `min`) downwards.
pub fn changed_part(a: i32, b: i32, min: u32) -> (r: i32)
    requires
        0 <= a,
        0 <= b,
    ensures
        r == spec_changed_part(a as int, b as int, min as nat),
{
    changed_part_u64(a as u64, b as u64, min) as i32
}

fn changed_part_u64(a: u64, b: u64, min: u32) -> (r: u64)
    requires
        a < 100_000_000_000,
        b < 100_000_000_000,
    ensures
        r == spec_changed_part(a as int, b as int, min as nat),
        r <= b,
    decreases 0int,
{
    let max = if a >= b {
        a
    } else {
        b
    };
    let top = log10_floor(max);
    proof {
        assert(pow10(11) == 100_000_000_000) by {
            reveal_with_fuel(pow10, 12);
        }
        lemma_log10_floor_lt(max as int, 11);
    }
    let base = changed_base(a, b, top, min);
    let p = pow10_exec(base + 1);
    proof {
        lemma_pow10_pos((base + 1) as nat);
        lemma_mod_le(b as int, p as int);
    }
    b % p
}

fn changed_base(a: u64, b: u64, base: u32, min: u32) -> (r: u32)
    requires
        base <= 17,
    ensures
        r == spec_changed_base(a as int, b as int, base as nat, min as nat),
        r <= base,
    decreases base,
{
    if base > min {
        let p = pow10_exec(base);
        proof {
            lemma_pow10_pos(base as nat);
        }
        if a / p == b / p {
            return changed_base(a, b, base - 1, min);
        }
    }
    base
}

/// The separator rendered between the two pages: the given one, or an en
/// dash.
pub open spec fn spec_separator(sep: Option<&str>) -> Seq<char> {
    match sep {
        Some(s) => s@,
        None => "–"@,
    }
}

/// The value rendered for the end page, given the format, the original
/// bounds, and the expanded end value `e`.
pub open spec fn spec_end_value(f: PageRangeFormat, start: int, end: int, e: int) -> int {
    if start < 0 || end < 0 {
        e
    } else if f is Expanded {
        e
    } else if (f is Chicago15 || f is Chicago16) && (start < 100 || start % 100 == 0) {
        e
    } else if f is Minimal {
        spec_changed_part(start, e, 0)
    } else if f is MinimalTwo && e < 10 {
        spec_changed_part(start, e, 1)
    } else if f is Chicago15 && start > 100 && 1 <= start % 100 < 10 {
        spec_changed_part(start, e, 0)
    } else if f is Chicago15 && spec_closest_smaller_power_of_10(start) == 1000 {
        let changed = spec_changed_part(start, e, 1);
        if spec_closest_smaller_power_of_10(changed) == 100 {
            e
        } else {
            changed
        }
    } else {
        spec_changed_part(start, e, 1)
    }
}

/// The expanded end value: the end itself where it is at least the start or
/// where a bound is negative, else the full value its digits imply.
pub open spec fn spec_expanded_end(start: int, end: int) -> int {
    if end >= start {
        end
    } else if start >= 0 && end >= 0 {
        spec_expand(start, end)
    } else {
        end
    }
}

/// The full rendering of a page range: start, separator, end value.
pub open spec fn spec_format(f: PageRangeFormat, start: int, end: int, sep: Seq<char>) -> Seq<
    char,
> {
    spec_dec_int(start) + sep + spec_dec_int(
        spec_end_value(f, start, end, spec_expanded_end(start, end)),
    )
}

impl PageRangeFormat {
    /// Use a page range format to format a range of pages, with the given
    /// separator or an en dash.
    pub fn format(self, start: i32, end: i32, separator: Option<&str>) -> (r: String)
        ensures
            r@ == spec_format(self, start as int, end as int, spec_separator(separator)),
    {
        let mut buf = String::new();
        push_dec_i64(&mut buf, start as i64);
        match separator {
            Some(s) => buf.append(s),
            None => buf.append("–"),
        }
        if start < 0 || end < 0 {
            push_dec_i64(&mut buf, end as i64);
        } else {
            let s64 = start as u64;
            let e: u64 = if end >= start {
                end as u64
            } else {
                expand_u64(s64, end as u64)
            };
            let value: u64 = if matches!(self, PageRangeFormat::Expanded) {
                e
            } else if matches!(self, PageRangeFormat::Chicago15 | PageRangeFormat::Chicago16)
                && (start < 100 || s64 % 100 == 0) {
                e
            } else if matches!(self, PageRangeFormat::Minimal) {
                changed_part_u64(s64, e, 0)
            } else if matches!(self, PageRangeFormat::MinimalTwo) && e < 10 {
                changed_part_u64(s64, e, 1)
            } else if matches!(self, PageRangeFormat::Chicago15) && start > 100 && 1 <= s64 % 100
                && s64 % 100 < 10 {
                changed_part_u64(s64, e, 0)
            } else if matches!(self, PageRangeFormat::Chicago15) && csp10_u64(s64) == 1000 {
                let changed = changed_part_u64(s64, e, 1);
                if csp10_u64(changed) == 100 {
                    e
                } else {
                    changed
                }
            } else {
                changed_part_u64(s64, e, 1)
            };
            push_dec_i64(&mut buf, value as i64);
        }
        proof {
            assert(buf@ =~= spec_format(
                self,
                start as int,
                end as int,
                spec_separator(separator),
            ));
        }
        buf
    }
}

} // verus!
