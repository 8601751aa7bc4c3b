//! Laws on doubles and counts.
use vstd::prelude::*;
use vstd::std_specs::cmp::PartialEqSpec;

use crate::double::{
    doubles_order_as_their_bits, equal, greater, is_finite, is_nan, scaled_value, sign_bit, Double,
};
use crate::events::clamped_count;

verus! {

/// The bits without the sign say what a double is: finite up to the largest finite one, infinite
/// at one pattern, and no number above that.
pub proof fn bits_say_what_a_double_is(bits: u64)
    ensures
        is_finite(bits) <==> bits as int % 0x8000_0000_0000_0000 <= 0x7fef_ffff_ffff_ffff,
        is_nan(bits) <==> bits as int % 0x8000_0000_0000_0000 > 0x7ff0_0000_0000_0000,
        !(is_finite(bits) && is_nan(bits)),
        sign_bit(bits) <==> bits as int / 0x8000_0000_0000_0000 == 1,
{
}

/// A double lies below zero exactly where its sign bit is set and anything else with it; zero and
/// negative zero are the only ones at zero.
pub proof fn doubles_below_zero_have_their_sign_set(bits: u64)
    requires
        !is_nan(bits),
    ensures
        scaled_value(bits) < 0 <==> bits > 0x8000_0000_0000_0000,
        scaled_value(bits) == 0 <==> bits == 0 || bits == 0x8000_0000_0000_0000,
        scaled_value(bits) > 0 <==> 0 < bits < 0x8000_0000_0000_0000,
{
    assert(!is_nan(0));
    assert(scaled_value(0) == 0);
    doubles_order_as_their_bits(0, bits);
    doubles_order_as_their_bits(bits, 0);
}

/// Two doubles are equal exactly where their bits are, or where both are zero of either sign.
pub proof fn doubles_are_equal_as_their_bits_are(a: u64, b: u64)
    ensures
        equal(a, b) <==> !is_nan(a) && !is_nan(b) && (a == b || (a as int
            % 0x8000_0000_0000_0000 == 0 && b as int % 0x8000_0000_0000_0000 == 0)),
{
    if !is_nan(a) && !is_nan(b) {
        doubles_order_as_their_bits(a, b);
        doubles_order_as_their_bits(b, a);
    }
}

/// What is not a number is neither above, below nor equal to anything; the order of the others is
/// transitive.
pub proof fn doubles_compare_consistently(a: u64, b: u64, c: u64)
    ensures
        is_nan(a) ==> !greater(a, b) && !greater(b, a) && !equal(a, b) && !equal(b, a),
        greater(a, b) && greater(b, c) ==> greater(a, c),
        greater(a, b) ==> !equal(a, b),
        !is_nan(a) ==> equal(a, a) && !greater(a, a),
{
}

/// Comparing two doubles gives whether both are numbers of one value.
pub proof fn doubles_compare_by_value(a: Double, b: Double)
    ensures
        a.eq_spec(&b) <==> equal(a.bits, b.bits),
{
}

/// A count is the largest that fits in 32 bits and does not exceed what was sent; where nothing was
/// sent it is zero.
pub proof fn counts_are_kept_as_far_as_they_fit(n: u64)
    ensures
        clamped_count(Some(n)) <= n,
        n > u32::MAX ==> clamped_count(Some(n)) == u32::MAX,
        n <= u32::MAX ==> clamped_count(Some(n)) == n,
        clamped_count(None) == 0,
{
}

} // verus!
