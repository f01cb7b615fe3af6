//! A total order on `f64` bit patterns, used to sort event markers by
//! onset without floating-point arithmetic.
//!
//! The key maps a bit pattern to an integer so that key order is the IEEE
//! 754 total order: every negative value (sign bit set, larger magnitude
//! meaning more negative) comes before every non-negative one, and within
//! each sign class numeric order is kept. On finite values this agrees
//! with the `f64` comparison; unlike it, it is total, so no onset value
//! can make the sort fail.

use vstd::prelude::*;

verus! {

/// The sign bit of an `f64` bit pattern, as a `u64` constant.
pub const SIGN_BIT: u64 = 0x8000_0000_0000_0000;

/// Order key of an `f64` bit pattern: key order is the IEEE 754 total
/// order of the values the bits encode.
pub open spec fn f64_key(bits: u64) -> int {
    if bits >= SIGN_BIT {
        // negative: larger bit pattern means more negative
        0xffff_ffff_ffff_ffff - bits
    } else {
        // non-negative: numeric order is bit order
        SIGN_BIT + bits
    }
}

/// Whether the value encoded by `a` precedes or equals the one encoded by
/// `b` in the total order.
pub fn f64_le(a: u64, b: u64) -> (r: bool)
    ensures
        r == (f64_key(a) <= f64_key(b)),
{
    if a >= SIGN_BIT {
        if b >= SIGN_BIT {
            b <= a
        } else {
            true
        }
    } else {
        if b >= SIGN_BIT {
            false
        } else {
            a <= b
        }
    }
}

/// Two bit patterns with the same key are the same pattern: the key loses
/// nothing, so ordering by it can tell any two distinct onsets apart.
pub proof fn lemma_f64_key_injective(a: u64, b: u64)
    requires
        f64_key(a) == f64_key(b),
    ensures
        a == b,
{
}

} // verus!
