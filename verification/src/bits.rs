//! Bit-level arithmetic used by the plane-layout inference: the
//! number of set bits of a mask, the number of trailing zero bits,
//! and the reconstruction of a contiguous mask from those two values.

use vstd::prelude::*;

verus! {

use vstd::arithmetic::power2::pow2;
use vstd::arithmetic::power2::lemma_pow2_adds;
use vstd::arithmetic::power2::lemma_pow2_strictly_increases;
use vstd::arithmetic::power2::lemma2_to64;
use vstd::arithmetic::power2::lemma2_to64_rest;

/// Number of set bits in the binary representation of `n`.
pub open spec fn bit_count(n: int) -> nat
    recommends
        n >= 0,
    decreases n,
{
    if n <= 0 {
        0
    } else {
        (bit_count(n / 2) + (n % 2)) as nat
    }
}

/// Number of trailing zero bits of `n`.
pub open spec fn trailing_zeros(n: int) -> nat
    recommends
        n > 0,
    decreases n,
{
    if n <= 0 {
        0
    } else if n % 2 == 1 {
        0
    } else {
        1 + trailing_zeros(n / 2)
    }
}

/// Number of binary digits of `n` (0 for 0).
pub open spec fn bit_length(n: int) -> nat
    recommends
        n >= 0,
    decreases n,
{
    if n <= 0 {
        0
    } else {
        1 + bit_length(n / 2)
    }
}

/// The contiguous mask of `size` set bits starting `shift` bits up.
pub open spec fn contiguous_mask(size: int, shift: int) -> int
    recommends
        size >= 1,
        shift >= 0,
{
    (pow2(size as nat) - 1) * pow2(shift as nat)
}

pub proof fn lemma_bit_count_le_length(n: int)
    requires
        n >= 0,
    ensures
        bit_count(n) <= bit_length(n),
    decreases n,
{
    if n > 0 {
        lemma_bit_count_le_length(n / 2);
    }
}

pub proof fn lemma_count_zeros_le_length(n: int)
    requires
        n > 0,
    ensures
        bit_count(n) + trailing_zeros(n) <= bit_length(n),
        bit_count(n) >= 1,
    decreases n,
{
    if n % 2 == 1 {
        lemma_bit_count_le_length(n / 2);
    } else {
        lemma_count_zeros_le_length(n / 2);
    }
}

pub proof fn lemma_bit_length_bound(n: int, k: nat)
    requires
        0 <= n < pow2(k),
    ensures
        bit_length(n) <= k,
    decreases k,
{
    if n > 0 {
        if k == 0 {
            assert(pow2(0) == 1) by {
                lemma2_to64();
            }
        } else {
            assert(pow2(k) == 2 * pow2((k - 1) as nat)) by {
                lemma_pow2_adds(1, (k - 1) as nat);
                lemma2_to64();
            }
            lemma_bit_length_bound(n / 2, (k - 1) as nat);
        }
    }
}

pub proof fn lemma_bit_count_double(n: int)
    requires
        n >= 0,
    ensures
        bit_count(2 * n) == bit_count(n),
{
    if n > 0 {
        assert((2 * n) / 2 == n);
        assert((2 * n) % 2 == 0);
    }
}

pub proof fn lemma_trailing_double(n: int)
    requires
        n > 0,
    ensures
        trailing_zeros(2 * n) == 1 + trailing_zeros(n),
{
    assert((2 * n) / 2 == n);
    assert((2 * n) % 2 == 0);
}

pub proof fn lemma_bit_count_low_mask(s: nat)
    ensures
        bit_count(pow2(s) - 1) == s,
    decreases s,
{
    if s == 0 {
        assert(pow2(0) == 1) by {
            lemma2_to64();
        }
    } else {
        assert(pow2(s) == 2 * pow2((s - 1) as nat)) by {
            lemma_pow2_adds(1, (s - 1) as nat);
            lemma2_to64();
        }
        let m = pow2((s - 1) as nat) - 1;
        assert(pow2(s) - 1 == 2 * m + 1);
        assert(pow2((s - 1) as nat) >= 1) by {
            vstd::arithmetic::power2::lemma_pow2_pos((s - 1) as nat);
        }
        assert((2 * m + 1) / 2 == m);
        assert((2 * m + 1) % 2 == 1);
        lemma_bit_count_low_mask((s - 1) as nat);
    }
}

/// A contiguous mask of `size >= 1` bits shifted up by `shift` bits has
/// exactly `size` set bits and `shift` trailing zeros.
pub proof fn lemma_contiguous_mask_counts(size: int, shift: int)
    requires
        size >= 1,
        shift >= 0,
    ensures
        bit_count(contiguous_mask(size, shift)) == size,
        trailing_zeros(contiguous_mask(size, shift)) == shift,
        contiguous_mask(size, shift) > 0,
    decreases shift,
{
    vstd::arithmetic::power2::lemma_pow2_pos(size as nat);
    vstd::arithmetic::power2::lemma_pow2_pos(shift as nat);
    assert(pow2(size as nat) >= 2) by {
        lemma2_to64();
        if size > 1 {
            lemma_pow2_strictly_increases(1, size as nat);
        }
    }
    let low = pow2(size as nat) - 1;
    if shift == 0 {
        assert(pow2(0) == 1) by {
            lemma2_to64();
        }
        assert(contiguous_mask(size, 0) == low);
        lemma_bit_count_low_mask(size as nat);
        // low is odd: pow2(size) is even for size >= 1
        assert(pow2(size as nat) == 2 * pow2((size - 1) as nat)) by {
            lemma_pow2_adds(1, (size - 1) as nat);
            lemma2_to64();
        }
        assert(low % 2 == 1);
    } else {
        assert(pow2(shift as nat) == 2 * pow2((shift - 1) as nat)) by {
            lemma_pow2_adds(1, (shift - 1) as nat);
            lemma2_to64();
        }
        let prev = low * pow2((shift - 1) as nat);
        assert(contiguous_mask(size, shift) == 2 * prev) by {
            vstd::arithmetic::mul::lemma_mul_is_associative(low as int, 2, pow2((shift - 1) as nat) as int);
            vstd::arithmetic::mul::lemma_mul_is_commutative(low as int, 2);
            vstd::arithmetic::mul::lemma_mul_is_associative(2, low as int, pow2((shift - 1) as nat) as int);
        }
        lemma_contiguous_mask_counts(size, shift - 1);
        lemma_bit_count_double(prev);
        lemma_trailing_double(prev);
    }
}

/// A contiguous mask whose top bit stays within `size + shift <= 64`
/// fits in a `u64`.
pub proof fn lemma_contiguous_mask_fits(size: int, shift: int)
    requires
        size >= 1,
        shift >= 0,
        size + shift <= 64,
    ensures
        0 < contiguous_mask(size, shift) < pow2(64),
{
    vstd::arithmetic::power2::lemma_pow2_pos(size as nat);
    vstd::arithmetic::power2::lemma_pow2_pos(shift as nat);
    assert(pow2(size as nat) >= 2) by {
        lemma2_to64();
        if size > 1 {
            lemma_pow2_strictly_increases(1, size as nat);
        }
    }
    let low = pow2(size as nat) - 1;
    assert(1 * pow2(shift as nat) <= low * pow2(shift as nat)) by {
        vstd::arithmetic::mul::lemma_mul_inequality(1, low as int, pow2(shift as nat) as int);
    }
    assert(low * pow2(shift as nat) < pow2(size as nat) * pow2(shift as nat)) by {
        vstd::arithmetic::mul::lemma_mul_strict_inequality(
            low as int,
            pow2(size as nat) as int,
            pow2(shift as nat) as int,
        );
    }
    assert(pow2(size as nat) * pow2(shift as nat) == pow2((size + shift) as nat)) by {
        lemma_pow2_adds(size as nat, shift as nat);
    }
    if size + shift < 64 {
        lemma_pow2_strictly_increases((size + shift) as nat, 64);
    }
}

/// Every `u64` is below `pow2(64)`.
pub proof fn lemma_u64_below_pow2_64(m: u64)
    ensures
        m < pow2(64),
{
    lemma2_to64();
    lemma2_to64_rest();
}

/// A factor `pow2(r)` of a value that fits in a `u64` keeps `r` below 64.
proof fn lemma_shift_exponent_bound(v: u64, r: u32, m: u64)
    requires
        v >= 1,
        v * pow2(r as nat) <= m,
    ensures
        r < 64,
{
    lemma_u64_below_pow2_64(m);
    assert(1 * pow2(r as nat) <= v * pow2(r as nat)) by {
        vstd::arithmetic::mul::lemma_mul_inequality(1, v as int, pow2(r as nat) as int);
    }
    if r >= 64 {
        if r > 64 {
            lemma_pow2_strictly_increases(64, r as nat);
        }
        assert(false);
    }
}

/// Counts the trailing zero bits of a non-zero mask.
pub fn mask_trailing_zeros(m: u64) -> (r: u32)
    requires
        m != 0,
    ensures
        r == trailing_zeros(m as int),
        r < 64,
{
    let mut v: u64 = m;
    let mut r: u32 = 0;
    proof {
        lemma_u64_below_pow2_64(m);
        assert(pow2(0) == 1) by {
            lemma2_to64();
        }
    }
    while v % 2 == 0
        invariant
            v >= 1,
            trailing_zeros(m as int) == r + trailing_zeros(v as int),
            v * pow2(r as nat) <= m,
            pow2(r as nat) >= 1,
            m < pow2(64),
        decreases v,
    {
        proof {
            assert(trailing_zeros(v as int) == 1 + trailing_zeros(v as int / 2));
            assert(pow2((r + 1) as nat) == 2 * pow2(r as nat)) by {
                lemma_pow2_adds(1, r as nat);
                lemma2_to64();
            }
            assert((v / 2) * (2 * pow2(r as nat)) == v * pow2(r as nat)) by {
                vstd::arithmetic::mul::lemma_mul_is_associative(v as int / 2, 2, pow2(r as nat) as int);
            }
            lemma_shift_exponent_bound(v, r, m);
            assert((v / 2) * pow2((r + 1) as nat) == v * pow2(r as nat));
        }
        v = v / 2;
        r = r + 1;
    }
    proof {
        assert(trailing_zeros(v as int) == 0);
        lemma_shift_exponent_bound(v, r, m);
    }
    r
}

/// Counts the set bits of a mask.
pub fn mask_bit_count(m: u64) -> (r: u32)
    ensures
        r == bit_count(m as int),
        r <= 64,
        m != 0 ==> r >= 1,
{
    proof {
        lemma_u64_below_pow2_64(m);
        lemma_bit_length_bound(m as int, 64);
        lemma_bit_count_le_length(m as int);
        if m != 0 {
            lemma_count_zeros_le_length(m as int);
        }
    }
    let mut v: u64 = m;
    let mut r: u32 = 0;
    while v != 0
        invariant
            bit_count(m as int) == r + bit_count(v as int),
            r <= bit_count(m as int),
            bit_count(m as int) <= 64,
        decreases v,
    {
        proof {
            if v % 2 == 1 {
                lemma_count_zeros_le_length(v as int);
            }
        }
        r = r + (v % 2) as u32;
        v = v / 2;
    }
    r
}

/// Builds the contiguous mask with `size` set bits starting at bit `shift`.
pub fn build_contiguous_mask(size: u32, shift: u32) -> (r: u64)
    requires
        1 <= size,
        size + shift <= 64,
    ensures
        r == contiguous_mask(size as int, shift as int),
        r != 0,
{
    proof {
        lemma_contiguous_mask_fits(size as int, shift as int);
        lemma2_to64();
        lemma2_to64_rest();
    }
    let mut r: u64 = 0;
    let mut i: u32 = 0;
    while i < size
        invariant
            i <= size,
            size + shift <= 64,
            r == pow2(i as nat) - 1,
            pow2(size as nat) <= pow2(64),
        decreases size - i,
    {
        proof {
            assert(pow2((i + 1) as nat) == 2 * pow2(i as nat)) by {
                lemma_pow2_adds(1, i as nat);
                lemma2_to64();
            }
            assert(pow2((i + 1) as nat) <= pow2(64)) by {
                if i + 1 < 64 {
                    lemma_pow2_strictly_increases((i + 1) as nat, 64);
                }
            }
            lemma2_to64();
            lemma2_to64_rest();
        }
        r = 2 * r + 1;
        i = i + 1;
    }
    let mut j: u32 = 0;
    while j < shift
        invariant
            j <= shift,
            1 <= size,
            size + shift <= 64,
            r == (pow2(size as nat) - 1) * pow2(j as nat),
        decreases shift - j,
    {
        proof {
            lemma_contiguous_mask_fits(size as int, (j + 1) as int);
            assert(pow2((j + 1) as nat) == 2 * pow2(j as nat)) by {
                lemma_pow2_adds(1, j as nat);
                lemma2_to64();
            }
            assert((pow2(size as nat) - 1) * (2 * pow2(j as nat)) == 2 * ((pow2(size as nat) - 1)
                * pow2(j as nat))) by {
                vstd::arithmetic::mul::lemma_mul_is_associative(
                    pow2(size as nat) - 1,
                    2,
                    pow2(j as nat) as int,
                );
                vstd::arithmetic::mul::lemma_mul_is_commutative(pow2(size as nat) - 1, 2);
                vstd::arithmetic::mul::lemma_mul_is_associative(
                    2,
                    pow2(size as nat) - 1,
                    pow2(j as nat) as int,
                );
            }
            lemma2_to64();
            lemma2_to64_rest();
        }
        r = 2 * r;
        j = j + 1;
    }
    proof {
        lemma_contiguous_mask_counts(size as int, shift as int);
    }
    r
}

} // verus!
