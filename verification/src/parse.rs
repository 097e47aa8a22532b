//! Exact parsers for the numeric configuration values.
//!
//! Everything the configuration strings contain — decimal and hex
//! integers, decimal fractions such as a fade of `0.8` — is parsed here
//! with full contracts: a parser accepts exactly the well-formed strings
//! whose value fits, and returns exactly that value.

use vstd::prelude::*;

use vstd::slice::slice_subrange;

use crate::frac::lemma_mul_u64_fits;

verus! {

/// The numeric value of one ASCII digit: `0`-`9`, `a`-`f` and `A`-`F`
/// count; any other byte maps to the sentinel 16, which no supported base
/// admits.
pub open spec fn digit_val(c: u8) -> nat {
    if 0x30 <= c && c <= 0x39 {
        (c - 0x30) as nat
    } else if 0x61 <= c && c <= 0x66 {
        (c - 0x61 + 10) as nat
    } else if 0x41 <= c && c <= 0x46 {
        (c - 0x41 + 10) as nat
    } else {
        16
    }
}

/// Whether `c` is a digit of the given base.
pub open spec fn is_digit_in(c: u8, base: nat) -> bool {
    digit_val(c) < base
}

/// Whether every byte of `s` is a digit of the given base.
pub open spec fn all_digits_in(s: Seq<u8>, base: nat) -> bool {
    forall|i: int| 0 <= i < s.len() ==> is_digit_in(#[trigger] s[i], base)
}

/// The non-negative integer a digit string denotes in the given base,
/// most significant digit first.
pub open spec fn radix_value(s: Seq<u8>, base: nat) -> nat
    decreases s.len(),
{
    if s.len() == 0 {
        0
    } else {
        radix_value(s.drop_last(), base) * base + digit_val(s.last())
    }
}

/// The value of a digit, 16 for a byte that is no digit at all.
fn digit_of(c: u8) -> (r: u8)
    ensures
        r == digit_val(c),
{
    if 0x30 <= c && c <= 0x39 {
        c - 0x30
    } else if 0x61 <= c && c <= 0x66 {
        c - 0x61 + 10
    } else if 0x41 <= c && c <= 0x46 {
        c - 0x41 + 10
    } else {
        16
    }
}

/// A longer digit string never denotes a smaller value: the value of a
/// prefix is a lower bound for the value of the whole string.
proof fn lemma_radix_prefix_le(s: Seq<u8>, j: int, base: nat)
    requires
        0 <= j <= s.len(),
        1 <= base,
    ensures
        radix_value(s.take(j), base) <= radix_value(s, base),
    decreases s.len() - j,
{
    if j == s.len() {
        assert(s.take(j) =~= s);
    } else {
        let shorter = s.take(j);
        let longer = s.take(j + 1);
        assert(longer.drop_last() =~= shorter);
        assert(longer.last() == s[j]);
        let v = radix_value(shorter, base);
        assert(v <= v * base) by (nonlinear_arith)
            requires
                0 <= v,
                1 <= base,
        ;
        lemma_radix_prefix_le(s, j + 1, base);
    }
}

/// Parses an unsigned integer in the given base (10 or 16). Accepts
/// exactly the non-empty all-digit strings whose value fits in a `u64`,
/// and returns exactly that value.
pub fn parse_radix_u64(s: &[u8], base: u64) -> (r: Option<u64>)
    requires
        base == 10 || base == 16,
    ensures
        r is Some <==> 1 <= s@.len() && all_digits_in(s@, base as nat) && radix_value(
            s@,
            base as nat,
        ) <= u64::MAX,
        r matches Some(v) ==> v == radix_value(s@, base as nat),
{
    let n = s.len();
    if n == 0 {
        return None;
    }
    let mut acc: u64 = 0;
    let mut i: usize = 0;
    while i < n
        invariant
            0 <= i <= n,
            n == s@.len(),
            base == 10 || base == 16,
            all_digits_in(s@.take(i as int), base as nat),
            acc == radix_value(s@.take(i as int), base as nat),
        decreases n - i,
    {
        let c = s[i];
        let d = digit_of(c);
        if d >= base as u8 {
            proof {
                assert(!is_digit_in(s@[i as int], base as nat));
            }
            return None;
        }
        proof {
            lemma_mul_u64_fits(acc as int, base as int);
            assert(s@.take(i as int + 1).drop_last() =~= s@.take(i as int));
            assert(s@.take(i as int + 1).last() == s@[i as int]);
        }
        let wide: u128 = (acc as u128) * (base as u128) + (d as u128);
        assert(wide == radix_value(s@.take(i as int + 1), base as nat));
        if wide > 0xffff_ffff_ffff_ffff {
            proof {
                lemma_radix_prefix_le(s@, i as int + 1, base as nat);
            }
            return None;
        }
        acc = wide as u64;
        i = i + 1;
    }
    proof {
        assert(s@.take(n as int) =~= s@);
    }
    Some(acc)
}

/// Parses a decimal unsigned integer.
pub fn parse_u64(s: &[u8]) -> (r: Option<u64>)
    ensures
        r is Some <==> 1 <= s@.len() && all_digits_in(s@, 10) && radix_value(s@, 10) <= u64::MAX,
        r matches Some(v) ==> v == radix_value(s@, 10),
{
    parse_radix_u64(s, 10)
}

/// Parses a hexadecimal unsigned integer (no `0x` prefix).
pub fn parse_hex_u64(s: &[u8]) -> (r: Option<u64>)
    ensures
        r is Some <==> 1 <= s@.len() && all_digits_in(s@, 16) && radix_value(s@, 16) <= u64::MAX,
        r matches Some(v) ==> v == radix_value(s@, 16),
{
    parse_radix_u64(s, 16)
}

/// The position of the first occurrence of `sep` in `s`, or `s.len()`
/// when `sep` does not occur.
pub open spec fn split_index(s: Seq<u8>, sep: u8) -> int
    decreases s.len(),
{
    if s.len() == 0 {
        0
    } else if s[0] == sep {
        0
    } else {
        1 + split_index(s.drop_first(), sep)
    }
}

/// A scan that saw no `sep` before `i`, and `sep` at `i` if it stopped
/// inside the string, has found exactly `split_index`.
proof fn lemma_split_index_is(s: Seq<u8>, sep: u8, i: int)
    requires
        0 <= i <= s.len(),
        forall|j: int| 0 <= j < i ==> s[j] != sep,
        i < s.len() ==> s[i] == sep,
    ensures
        split_index(s, sep) == i,
    decreases s.len(),
{
    if s.len() == 0 {
    } else if s[0] == sep {
        assert(i == 0);
    } else {
        let rest = s.drop_first();
        assert(i >= 1);
        assert forall|j: int| 0 <= j < i - 1 implies rest[j] != sep by {
            assert(rest[j] == s[j + 1]);
        }
        assert(i - 1 < rest.len() ==> rest[i - 1] == s[i]);
        lemma_split_index_is(rest, sep, i - 1);
    }
}

/// Finds the first occurrence of `sep`, returning `s.len()` when there is
/// none.
pub fn find_byte(s: &[u8], sep: u8) -> (r: usize)
    ensures
        r == split_index(s@, sep),
        r <= s@.len(),
        r < s@.len() ==> s@[r as int] == sep,
        forall|i: int| 0 <= i < r ==> s@[i] != sep,
{
    let n = s.len();
    let mut i: usize = 0;
    while i < n
        invariant
            0 <= i <= n,
            n == s@.len(),
            forall|j: int| 0 <= j < i ==> s@[j] != sep,
        decreases n - i,
    {
        if s[i] == sep {
            proof {
                lemma_split_index_is(s@, sep, i as int);
            }
            return i;
        }
        i = i + 1;
    }
    proof {
        lemma_split_index_is(s@, sep, n as int);
    }
    n
}

/// Ten to the `k`.
pub open spec fn pow10(k: nat) -> nat
    decreases k,
{
    if k == 0 {
        1
    } else {
        10 * pow10((k - 1) as nat)
    }
}

/// Powers of ten are positive and grow with the exponent.
proof fn lemma_pow10_mono(j: nat, k: nat)
    requires
        j <= k,
    ensures
        1 <= pow10(j) <= pow10(k),
    decreases k,
{
    if k == 0 {
    } else if j == k {
        lemma_pow10_mono((j - 1) as nat, (k - 1) as nat);
    } else {
        lemma_pow10_mono(j, (k - 1) as nat);
    }
}

/// Ten to the `k` as a machine integer; `None` when it does not fit.
fn pow10_u64(k: usize) -> (r: Option<u64>)
    ensures
        r is Some <==> pow10(k as nat) <= u64::MAX,
        r matches Some(v) ==> v == pow10(k as nat),
{
    let mut acc: u64 = 1;
    let mut i: usize = 0;
    while i < k
        invariant
            0 <= i <= k,
            acc == pow10(i as nat),
        decreases k - i,
    {
        if acc > 0xffff_ffff_ffff_ffff / 10 {
            proof {
                assert(pow10(i as nat + 1) == 10 * pow10(i as nat));
                lemma_pow10_mono(i as nat + 1, k as nat);
            }
            return None;
        }
        acc = acc * 10;
        i = i + 1;
    }
    Some(acc)
}

/// ASCII whitespace, as it may surround a number in a configuration
/// value.
pub open spec fn is_space(c: u8) -> bool {
    c == 0x20 || c == 0x09 || c == 0x0a || c == 0x0d
}

/// `s` without its leading whitespace.
pub open spec fn trim_front(s: Seq<u8>) -> Seq<u8>
    decreases s.len(),
{
    if s.len() > 0 && is_space(s[0]) {
        trim_front(s.drop_first())
    } else {
        s
    }
}

/// `s` without its trailing whitespace.
pub open spec fn trim_back(s: Seq<u8>) -> Seq<u8>
    decreases s.len(),
{
    if s.len() > 0 && is_space(s.last()) {
        trim_back(s.drop_last())
    } else {
        s
    }
}

/// `s` without leading and trailing whitespace.
pub open spec fn trimmed(s: Seq<u8>) -> Seq<u8> {
    trim_back(trim_front(s))
}

/// A scan that saw only whitespace before `j`, and something else at `j`
/// if it stopped inside the string, has skipped exactly the front trim.
proof fn lemma_trim_front_is(s: Seq<u8>, j: int)
    requires
        0 <= j <= s.len(),
        forall|i: int| 0 <= i < j ==> is_space(#[trigger] s[i]),
        j < s.len() ==> !is_space(s[j]),
    ensures
        trim_front(s) =~= s.skip(j),
    decreases j,
{
    if j == 0 {
        assert(s.skip(0) =~= s);
    } else {
        let rest = s.drop_first();
        assert(is_space(s[0]));
        assert forall|i: int| 0 <= i < j - 1 implies is_space(#[trigger] rest[i]) by {
            assert(rest[i] == s[i + 1]);
        }
        assert(j - 1 < rest.len() ==> rest[j - 1] == s[j]);
        lemma_trim_front_is(rest, j - 1);
        assert(rest.skip(j - 1) =~= s.skip(j));
    }
}

/// A scan that saw only whitespace from `k` on, and something else just
/// before `k` if `k` is inside the string, has cut exactly the back trim.
proof fn lemma_trim_back_is(s: Seq<u8>, k: int)
    requires
        0 <= k <= s.len(),
        forall|i: int| k <= i < s.len() ==> is_space(#[trigger] s[i]),
        k > 0 ==> !is_space(s[k - 1]),
    ensures
        trim_back(s) =~= s.take(k),
    decreases s.len(),
{
    if k == s.len() {
        if s.len() > 0 {
            assert(!is_space(s.last()));
        }
        assert(s.take(k) =~= s);
    } else {
        assert(is_space(s.last()));
        let shorter = s.drop_last();
        assert forall|i: int| k <= i < shorter.len() implies is_space(#[trigger] shorter[i]) by {
            assert(shorter[i] == s[i]);
        }
        lemma_trim_back_is(shorter, k);
        assert(shorter.take(k) =~= s.take(k));
    }
}

/// Whether `c` is ASCII whitespace.
fn is_space_byte(c: u8) -> (r: bool)
    ensures
        r == is_space(c),
{
    c == 0x20 || c == 0x09 || c == 0x0a || c == 0x0d
}

/// `s` without leading and trailing ASCII whitespace.
pub fn trim_spaces(s: &[u8]) -> (r: &[u8])
    ensures
        r@ == trimmed(s@),
{
    let n = s.len();
    let mut lo: usize = 0;
    while lo < n && is_space_byte(s[lo])
        invariant
            0 <= lo <= n,
            n == s@.len(),
            forall|i: int| 0 <= i < lo ==> is_space(#[trigger] s@[i]),
        decreases n - lo,
    {
        lo = lo + 1;
    }
    let mut hi: usize = n;
    while hi > lo && is_space_byte(s[hi - 1])
        invariant
            lo <= hi <= n,
            n == s@.len(),
            forall|i: int| hi <= i < n ==> is_space(#[trigger] s@[i]),
        decreases hi,
    {
        hi = hi - 1;
    }
    proof {
        lemma_trim_front_is(s@, lo as int);
        let t = s@.skip(lo as int);
        assert forall|i: int| hi as int - lo as int <= i < t.len() implies is_space(#[trigger] t[i]) by {
            assert(t[i] == s@[i + lo]);
        }
        if hi > lo {
            assert(t[hi - lo - 1] == s@[hi - 1]);
        }
        lemma_trim_back_is(t, hi as int - lo as int);
        assert(t.take(hi as int - lo as int) =~= s@.subrange(lo as int, hi as int));
    }
    slice_subrange(s, lo, hi)
}

/// The integer digits of a decimal literal: what stands before the first
/// dot.
pub open spec fn int_part(s: Seq<u8>) -> Seq<u8> {
    s.take(split_index(s, 0x2e))
}

/// The fraction digits of a decimal literal: what stands after the first
/// dot; empty when there is no dot.
pub open spec fn frac_part(s: Seq<u8>) -> Seq<u8> {
    if split_index(s, 0x2e) < s.len() {
        s.skip(split_index(s, 0x2e) + 1)
    } else {
        Seq::empty()
    }
}

/// A well-formed decimal literal: digits, an optional dot, digits, with
/// at least one digit overall — `30`, `0.8`, `2.`, `.5`.
pub open spec fn decimal_wf(s: Seq<u8>) -> bool {
    &&& all_digits_in(int_part(s), 10)
    &&& all_digits_in(frac_part(s), 10)
    &&& int_part(s).len() + frac_part(s).len() >= 1
}

/// The numerator of the rational a decimal literal denotes, over
/// `decimal_den`: the digits read as one integer.
pub open spec fn decimal_num(s: Seq<u8>) -> nat {
    radix_value(int_part(s), 10) * pow10(frac_part(s).len()) + radix_value(frac_part(s), 10)
}

/// The denominator of the rational a decimal literal denotes: ten to the
/// number of fraction digits.
pub open spec fn decimal_den(s: Seq<u8>) -> nat {
    pow10(frac_part(s).len())
}

/// Parses a non-negative decimal literal into the exact rational
/// `num / den` it denotes. Accepts exactly the well-formed literals whose
/// numerator and denominator both fit in a `u64`.
pub fn parse_decimal(s: &[u8]) -> (r: Option<(u64, u64)>)
    ensures
        r is Some <==> decimal_wf(s@) && decimal_num(s@) <= u64::MAX && decimal_den(s@)
            <= u64::MAX,
        r matches Some(v) ==> v.0 == decimal_num(s@) && v.1 == decimal_den(s@) && 1 <= v.1,
{
    let n = s.len();
    let dot = find_byte(s, 0x2e);
    let ip = slice_subrange(s, 0, dot);
    proof {
        assert(ip@ =~= int_part(s@));
    }
    let fp = if dot < n {
        let fp = slice_subrange(s, dot + 1, n);
        proof {
            assert(fp@ =~= frac_part(s@));
        }
        fp
    } else {
        let fp = slice_subrange(s, n, n);
        proof {
            assert(fp@ =~= frac_part(s@));
        }
        fp
    };
    if ip.len() == 0 && fp.len() == 0 {
        return None;
    }
    proof {
        lemma_pow10_mono(0, frac_part(s@).len());
    }
    let int_val: u64 = if ip.len() == 0 {
        0
    } else {
        match parse_u64(ip) {
            Some(v) => v,
            None => {
                proof {
                    if all_digits_in(ip@, 10) {
                        // only the value can have failed; the numerator is
                        // at least the integer part's value
                        lemma_le_times_pos(
                            radix_value(ip@, 10),
                            pow10(frac_part(s@).len()),
                        );
                    }
                }
                return None;
            },
        }
    };
    let frac_val: u64 = if fp.len() == 0 {
        0
    } else {
        match parse_u64(fp) {
            Some(v) => v,
            None => {
                return None;
            },
        }
    };
    let den: u64 = match pow10_u64(fp.len()) {
        Some(v) => v,
        None => {
            return None;
        },
    };
    proof {
        lemma_mul_u64_fits(int_val as int, den as int);
        lemma_le_times_pos(int_val as nat, den as nat);
    }
    let wide: u128 = (int_val as u128) * (den as u128) + (frac_val as u128);
    if wide > 0xffff_ffff_ffff_ffff {
        return None;
    }
    Some((wide as u64, den))
}

/// `a <= a * b` for positive `b`.
proof fn lemma_le_times_pos(a: nat, b: nat)
    requires
        1 <= b,
    ensures
        a <= a * b,
{
    assert(a <= a * b) by (nonlinear_arith)
        requires
            0 <= a,
            1 <= b,
    ;
}

} // verus!
