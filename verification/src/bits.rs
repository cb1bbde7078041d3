//! Bit-field primitives: build a mask for an inclusive bit range, extract a
//! range right-aligned, and insert a value into a range while preserving the
//! other bits.

use vstd::prelude::*;

verus! {

use vstd::arithmetic::div_mod::lemma_small_mod;
use vstd::arithmetic::power2::{lemma2_to64, pow2};
use vstd::bits::{
    lemma_u32_low_bits_mask_is_mod, lemma_u32_shr_is_div, lemma_u64_shl_is_mul,
    lemma_u64_pow2_no_overflow, low_bits_mask,
};

/// True when bit `index` of `value` is set.
pub open spec fn bit_set(value: u32, index: u32) -> bool
    recommends
        index < 32,
{
    (value >> index) & 1 == 1
}

/// An integer with bits `lo..=hi` set and every other bit clear.
pub fn bitmask(lo: u32, hi: u32) -> (r: u32)
    requires
        lo <= hi < 32,
    ensures
        forall|i: u32| i < 32 ==> (#[trigger] bit_set(r, i) <==> lo <= i <= hi),
        r as u64 == (((1u64 << ((hi + 1 - lo) as u64)) - 1) as u64) << (lo as u64),
{
    let width: u32 = hi + 1 - lo;
    assert(1u64 <= (1u64 << (width as u64)) && (1u64 << (width as u64)) - 1
        <= 0xFFFF_FFFFu64) by (bit_vector)
        requires
            width <= 32,
    ;
    let low: u32 = ((1u64 << (width as u64)) - 1) as u32;
    let r = low << lo;
    proof {
        assert(r as u64 == (((1u64 << ((hi + 1 - lo) as u64)) - 1) as u64) << (lo as u64)) by (bit_vector)
            requires
                lo <= hi < 32,
                width == hi + 1 - lo,
                low == ((1u64 << (width as u64)) - 1) as u32,
                r == low << lo,
        ;
        assert forall|i: u32| i < 32 implies (#[trigger] bit_set(r, i) <==> lo <= i <= hi) by {
            assert((r >> i) & 1 == (if lo <= i && i <= hi {
                1u32
            } else {
                0u32
            })) by (bit_vector)
                requires
                    lo <= hi < 32,
                    i < 32,
                    r as u64 == (((1u64 << ((hi + 1 - lo) as u64)) - 1) as u64) << (lo as u64),
            ;
        }
    }
    r
}

/// The bits `lo..=hi` of `value`, right-aligned: the field's value, both as
/// its bit image and as the arithmetic `(value / 2^lo) % 2^width`.
pub fn get_bits(value: u32, hi: u32, lo: u32) -> (r: u32)
    requires
        lo <= hi < 32,
    ensures
        forall|i: u32|
            i < 32 ==> (#[trigger] bit_set(r, i) <==> (i + lo <= hi && bit_set(value, (i + lo) as u32))),
        r == (value as nat / pow2(lo as nat)) % pow2((hi + 1 - lo) as nat),
{
    let m = bitmask(lo, hi);
    let r = (value & m) >> lo;
    proof {
        let width = (hi + 1 - lo) as nat;
        let shifted = value >> lo;
        lemma_u64_pow2_no_overflow(width);
        lemma_u64_shl_is_mul(1u64, (hi + 1 - lo) as u64);
        if width == 32 {
            lemma2_to64();
        } else {
            vstd::bits::lemma_u32_pow2_no_overflow(width);
        }
        let low: u32 = ((1u64 << ((hi + 1 - lo) as u64)) - 1) as u32;
        assert(r == shifted & low) by (bit_vector)
            requires
                lo <= hi < 32,
                m as u64 == (((1u64 << ((hi + 1 - lo) as u64)) - 1) as u64) << (lo as u64),
                low == ((1u64 << ((hi + 1 - lo) as u64)) - 1) as u32,
                shifted == value >> lo,
                r == (value & m) >> lo,
        ;
        lemma_u32_shr_is_div(value, lo);
        assert(low as nat == low_bits_mask(width));
        if width < 32 {
            lemma_u32_low_bits_mask_is_mod(shifted, width);
        } else {
            assert(shifted & low == shifted) by (bit_vector)
                requires
                    low == 0xFFFF_FFFFu32,
            ;
            lemma_small_mod(shifted as nat, pow2(32));
        }
        assert forall|i: u32|
            i < 32 implies (#[trigger] bit_set(r, i) <==> (i + lo <= hi && bit_set(
            value,
            (i + lo) as u32,
        ))) by {
            assert((r >> i) & 1 == (if i + lo <= hi {
                (value >> ((i + lo) as u32)) & 1u32
            } else {
                0u32
            })) by (bit_vector)
                requires
                    lo <= hi < 32,
                    i < 32,
                    m as u64 == (((1u64 << ((hi + 1 - lo) as u64)) - 1) as u64) << (lo as u64),
                    r == (value & m) >> lo,
            ;
        }
    }
    r
}

/// `value` with bits `lo..=hi` replaced by the low bits of `field`, every
/// other bit preserved.
pub fn put_bits(value: u32, hi: u32, lo: u32, field: u32) -> (r: u32)
    requires
        lo <= hi < 32,
    ensures
        forall|i: u32|
            i < 32 ==> #[trigger] bit_set(r, i) == (if lo <= i <= hi {
                bit_set(field, (i - lo) as u32)
            } else {
                bit_set(value, i)
            }),
{
    let m = bitmask(lo, hi);
    let r = (value & !m) | ((field << lo) & m);
    proof {
        assert forall|i: u32|
            i < 32 implies #[trigger] bit_set(r, i) == (if lo <= i <= hi {
            bit_set(field, (i - lo) as u32)
        } else {
            bit_set(value, i)
        }) by {
            let d: u32 = if i >= lo {
                (i - lo) as u32
            } else {
                0u32
            };
            assert((r >> i) & 1 == (if lo <= i && i <= hi {
                (field >> d) & 1u32
            } else {
                (value >> i) & 1u32
            })) by (bit_vector)
                requires
                    lo <= hi < 32,
                    i < 32,
                    i >= lo ==> d == i - lo,
                    m as u64 == (((1u64 << ((hi + 1 - lo) as u64)) - 1) as u64) << (lo as u64),
                    r == (value & !m) | ((field << lo) & m),
            ;
        }
    }
    r
}

} // verus!
