//! A total order over float64 bit encodings.
//!
//! The host's element comparisons are only partial: a not-a-number
//! value compares with nothing. The kernel layer needs `max` and `min`
//! to be well defined on every array, so the bridge imposes a total
//! order directly on the 64-bit encodings:
//!
//! - every not-a-number encoding is greatest, and all such encodings
//!   rank equal to one another;
//! - all other encodings rank by numeric value, with every negative
//!   zero strictly below positive zero.
//!
//! This is achieved by mapping each encoding to a key: not-a-number
//! encodings map to `u64::MAX`; negative values (sign bit set) map to
//! their bitwise complement, so that more-negative values get smaller
//! keys; non-negative values map to themselves with the sign bit set,
//! placing them above every negative value. Keys compare as ordinary
//! unsigned integers.

use vstd::prelude::*;

verus! {

/// Mask of the 11 exponent bits of a float64 encoding.
pub const EXP_MASK: u64 = 0x7FF0_0000_0000_0000;

/// Mask of the 52 fraction bits of a float64 encoding.
pub const FRAC_MASK: u64 = 0x000F_FFFF_FFFF_FFFF;

/// Mask of the sign bit of a float64 encoding.
pub const SIGN_MASK: u64 = 0x8000_0000_0000_0000;

/// A float64 encoding denotes not-a-number exactly when its exponent
/// bits are all set and its fraction bits are not all clear.
pub open spec fn is_nan_bits(b: u64) -> bool {
    b & EXP_MASK == EXP_MASK && b & FRAC_MASK != 0
}

/// The ordering key of a float64 encoding. Keys compare as unsigned
/// integers; see the module documentation for the policy.
pub open spec fn order_key(b: u64) -> u64 {
    if is_nan_bits(b) {
        u64::MAX
    } else if b & SIGN_MASK == SIGN_MASK {
        !b
    } else {
        b | SIGN_MASK
    }
}

/// `a` ranks at or below `b` in the imposed total order.
pub open spec fn total_le(a: u64, b: u64) -> bool {
    order_key(a) <= order_key(b)
}

/// `a` ranks strictly below `b` in the imposed total order.
pub open spec fn total_lt(a: u64, b: u64) -> bool {
    order_key(a) < order_key(b)
}

/// Runtime check of `is_nan_bits`.
pub fn nan_bits(b: u64) -> (r: bool)
    ensures
        r == is_nan_bits(b),
{
    b & EXP_MASK == EXP_MASK && b & FRAC_MASK != 0
}

/// Runtime computation of `order_key`.
pub fn key_of(b: u64) -> (r: u64)
    ensures
        r == order_key(b),
{
    if nan_bits(b) {
        u64::MAX
    } else if b & SIGN_MASK == SIGN_MASK {
        !b
    } else {
        b | SIGN_MASK
    }
}

/// Runtime comparison: `a` at or below `b` in the total order.
pub fn le_bits(a: u64, b: u64) -> (r: bool)
    ensures
        r == total_le(a, b),
{
    key_of(a) <= key_of(b)
}

/// Runtime comparison: `a` strictly below `b` in the total order.
pub fn lt_bits(a: u64, b: u64) -> (r: bool)
    ensures
        r == total_lt(a, b),
{
    key_of(a) < key_of(b)
}

/// The imposed order is total: any two encodings compare.
pub proof fn lemma_order_total(a: u64, b: u64)
    ensures
        total_le(a, b) || total_le(b, a),
{
}

/// The imposed order is transitive.
pub proof fn lemma_order_transitive(a: u64, b: u64, c: u64)
    requires
        total_le(a, b),
        total_le(b, c),
    ensures
        total_le(a, c),
{
}

/// Only not-a-number encodings have the greatest key.
pub proof fn lemma_key_max_only_nan(b: u64)
    requires
        order_key(b) == u64::MAX,
    ensures
        is_nan_bits(b),
{
    if !is_nan_bits(b) {
        if b & SIGN_MASK == SIGN_MASK {
            assert(b & 0x8000_0000_0000_0000 == 0x8000_0000_0000_0000 ==> !b != u64::MAX)
                by (bit_vector);
        } else {
            assert((b | 0x8000_0000_0000_0000) == u64::MAX ==> (b & 0x7FF0_0000_0000_0000
                == 0x7FF0_0000_0000_0000 && b & 0x000F_FFFF_FFFF_FFFF != 0)) by (bit_vector);
        }
    }
}

/// Every not-a-number encoding is greatest in the imposed order.
pub proof fn lemma_nan_greatest(a: u64, n: u64)
    requires
        is_nan_bits(n),
    ensures
        total_le(a, n),
{
}

/// Outside the not-a-number encodings the order is antisymmetric:
/// two encodings that rank at or below each other are the same bits.
pub proof fn lemma_order_antisymmetric(a: u64, b: u64)
    requires
        total_le(a, b),
        total_le(b, a),
        !is_nan_bits(a),
        !is_nan_bits(b),
    ensures
        a == b,
{
    assert(order_key(a) == order_key(b));
    let ka = order_key(a);
    let kb = order_key(b);
    if a & SIGN_MASK == SIGN_MASK {
        assert(ka == !a);
        assert(a & 0x8000_0000_0000_0000 == 0x8000_0000_0000_0000 ==> (!a)
            & 0x8000_0000_0000_0000 == 0) by (bit_vector);
    } else {
        assert(ka == (a | SIGN_MASK));
        assert((a | 0x8000_0000_0000_0000) & 0x8000_0000_0000_0000 == 0x8000_0000_0000_0000)
            by (bit_vector);
    }
    if b & SIGN_MASK == SIGN_MASK {
        assert(kb == !b);
        assert(b & 0x8000_0000_0000_0000 == 0x8000_0000_0000_0000 ==> (!b)
            & 0x8000_0000_0000_0000 == 0) by (bit_vector);
    } else {
        assert(kb == (b | SIGN_MASK));
        assert((b | 0x8000_0000_0000_0000) & 0x8000_0000_0000_0000 == 0x8000_0000_0000_0000)
            by (bit_vector);
    }
    if a & SIGN_MASK == SIGN_MASK && b & SIGN_MASK == SIGN_MASK {
        assert(!a == !b ==> a == b) by (bit_vector);
    } else if a & SIGN_MASK != SIGN_MASK && b & SIGN_MASK != SIGN_MASK {
        assert((a | 0x8000_0000_0000_0000) == (b | 0x8000_0000_0000_0000) && a
            & 0x8000_0000_0000_0000 != 0x8000_0000_0000_0000 && b & 0x8000_0000_0000_0000
            != 0x8000_0000_0000_0000 ==> a == b) by (bit_vector);
    }
}

} // verus!
