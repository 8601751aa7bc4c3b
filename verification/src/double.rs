//! Double-precision numbers, held as their bits.
use vstd::arithmetic::power2::{lemma_pow2_adds, lemma_pow2_pos, lemma_pow2_strictly_increases, pow2};
use vstd::prelude::*;

verus! {

/// An IEEE 754 double-precision number, held as its 64 bits.
///
/// The bits are those of `f64::to_bits`: one sign bit, then eleven bits of exponent, then
/// fifty-two bits of fraction.
#[derive(Clone, Copy, Debug)]
pub struct Double {
    /// The bits of the number.
    pub bits: u64,
}

/// Whether the sign bit is set.
pub open spec fn sign_bit(bits: u64) -> bool {
    bits >= 0x8000_0000_0000_0000
}

/// The eleven bits of the exponent.
pub open spec fn exponent_bits(bits: u64) -> nat {
    (bits as nat / 0x10_0000_0000_0000) % 0x800
}

/// The fifty-two bits of the fraction.
pub open spec fn fraction_bits(bits: u64) -> nat {
    bits as nat % 0x10_0000_0000_0000
}

/// Whether the bits spell no number at all.
pub open spec fn is_nan(bits: u64) -> bool {
    exponent_bits(bits) == 0x7ff && fraction_bits(bits) != 0
}

/// Whether the bits spell a finite number.
pub open spec fn is_finite(bits: u64) -> bool {
    exponent_bits(bits) != 0x7ff
}

/// The absolute value, in units of the smallest positive double (two to the power -1074).
///
/// Every finite double is a whole multiple of that unit. The formula gives the infinities a
/// magnitude above that of every finite double.
pub open spec fn magnitude(bits: u64) -> nat {
    if exponent_bits(bits) == 0 {
        fraction_bits(bits)
    } else {
        (fraction_bits(bits) + 0x10_0000_0000_0000) * pow2((exponent_bits(bits) - 1) as nat)
    }
}

/// The value, in units of the smallest positive double.
pub open spec fn scaled_value(bits: u64) -> int {
    if sign_bit(bits) {
        -(magnitude(bits) as int)
    } else {
        magnitude(bits) as int
    }
}

/// IEEE 754 `a > b`: both are numbers, and the value of `a` is the larger one.
pub open spec fn greater(a: u64, b: u64) -> bool {
    !is_nan(a) && !is_nan(b) && scaled_value(a) > scaled_value(b)
}

/// IEEE 754 `a == b`: both are numbers of one value.
pub open spec fn equal(a: u64, b: u64) -> bool {
    !is_nan(a) && !is_nan(b) && scaled_value(a) == scaled_value(b)
}

/// The bits without the sign bit.
spec fn key(bits: u64) -> nat {
    bits as nat % 0x8000_0000_0000_0000
}

proof fn lemma_key_splits(bits: u64)
    ensures
        key(bits) == exponent_bits(bits) * 0x10_0000_0000_0000 + fraction_bits(bits),
        exponent_bits(bits) < 0x800,
        fraction_bits(bits) < 0x10_0000_0000_0000,
{
    let n = bits as nat;
    let q = n / 0x10_0000_0000_0000;
    assert(n == q * 0x10_0000_0000_0000 + n % 0x10_0000_0000_0000);
    assert(q < 0x1000);
    if q >= 0x800 {
        assert(q % 0x800 == q - 0x800);
        assert(n % 0x8000_0000_0000_0000 == n - 0x8000_0000_0000_0000);
    } else {
        assert(q % 0x800 == q);
        assert(n % 0x8000_0000_0000_0000 == n);
    }
}

/// The magnitude grows with the bits below the sign.
proof fn lemma_magnitude_increases(a: u64, b: u64)
    requires
        key(a) < key(b),
    ensures
        magnitude(a) < magnitude(b),
{
    lemma_key_splits(a);
    lemma_key_splits(b);
    let (ea, fa) = (exponent_bits(a), fraction_bits(a));
    let (eb, fb) = (exponent_bits(b), fraction_bits(b));
    let one = 0x10_0000_0000_0000nat;
    if eb > 0 {
        lemma_pow2_pos((eb - 1) as nat);
        let p = pow2((eb - 1) as nat);
        if ea == eb {
            assert(fa < fb);
            assert((fa + one) * p < (fb + one) * p) by (nonlinear_arith)
                requires
                    fa < fb,
                    p > 0,
            ;
        } else if ea == 0 {
            assert((fb + one) * p >= one) by (nonlinear_arith)
                requires
                    p > 0,
                    fb >= 0,
                    one >= 0,
            ;
        } else {
            assert(ea < eb);
            let pa = pow2((ea - 1) as nat);
            lemma_pow2_pos((ea - 1) as nat);
            lemma_pow2_adds((ea - 1) as nat, (eb - ea) as nat);
            lemma_pow2_pos((eb - ea) as nat);
            let step = pow2((eb - ea) as nat);
            assert(step >= 2) by {
                lemma_pow2_strictly_increases(0, (eb - ea) as nat);
                vstd::arithmetic::power2::lemma2_to64();
            }
            assert(p == pa * step);
            assert((fa + one) * pa < (2 * one) * pa) by (nonlinear_arith)
                requires
                    fa < one,
                    pa > 0,
            ;
            assert((2 * one) * pa <= one * (pa * step)) by (nonlinear_arith)
                requires
                    step >= 2,
                    pa > 0,
                    one > 0,
            ;
            assert(one * p <= (fb + one) * p) by (nonlinear_arith)
                requires
                    fb >= 0,
                    p > 0,
            ;
        }
    }
}

/// Equal bits below the sign give equal magnitudes, and no others do.
proof fn lemma_magnitude_order(a: u64, b: u64)
    ensures
        magnitude(a) < magnitude(b) <==> key(a) < key(b),
        magnitude(a) == magnitude(b) <==> key(a) == key(b),
        magnitude(a) == 0 <==> key(a) == 0,
        magnitude(b) == 0 <==> key(b) == 0,
{
    if key(a) < key(b) {
        lemma_magnitude_increases(a, b);
    }
    if key(b) < key(a) {
        lemma_magnitude_increases(b, a);
    }
    lemma_key_splits(a);
    lemma_key_splits(b);
    lemma_key_splits(0);
    assert(key(0) == 0 && magnitude(0) == 0);
    if key(a) > 0 {
        lemma_magnitude_increases(0, a);
    }
    if key(b) > 0 {
        lemma_magnitude_increases(0, b);
    }
    if key(a) == key(b) {
        assert(exponent_bits(a) == exponent_bits(b) && fraction_bits(a) == fraction_bits(b)) by {
            assert(key(a) / 0x10_0000_0000_0000 == exponent_bits(a));
            assert(key(b) / 0x10_0000_0000_0000 == exponent_bits(b));
        }
    }
}

/// Doubles order as their bits do: above zero with them, below zero against them, and whatever is
/// positive or zero lies above whatever is negative.
pub proof fn doubles_order_as_their_bits(a: u64, b: u64)
    requires
        !is_nan(a),
        !is_nan(b),
    ensures
        !sign_bit(a) && !sign_bit(b) ==> (greater(a, b) <==> a > b),
        sign_bit(a) && sign_bit(b) ==> (greater(a, b) <==> a < b),
        sign_bit(a) && !sign_bit(b) ==> !greater(a, b),
        !sign_bit(a) && sign_bit(b) ==> (greater(a, b) <==> a != 0 || b
            != 0x8000_0000_0000_0000),
{
    lemma_magnitude_order(a, b);
}

/// No two doubles are each greater than the other, and two numbers of which neither is greater are
/// equal.
pub proof fn doubles_are_ordered(a: u64, b: u64)
    ensures
        !(greater(a, b) && greater(b, a)),
        !is_nan(a) && !is_nan(b) ==> greater(a, b) || greater(b, a) || equal(a, b),
{
}

impl Double {
    /// The number with the given bits.
    pub fn from_bits(bits: u64) -> (r: Self)
        ensures
            r.bits == bits,
    {
        Double { bits }
    }

    /// The bits of the number.
    pub fn to_bits(self) -> (r: u64)
        ensures
            r == self.bits,
    {
        self.bits
    }

    /// Whether this is not a number.
    pub fn is_nan(self) -> (r: bool)
        ensures
            r == is_nan(self.bits),
    {
        (self.bits / 0x10_0000_0000_0000) % 0x800 == 0x7ff && self.bits % 0x10_0000_0000_0000 != 0
    }

    /// Whether this is neither infinite nor not a number.
    pub fn is_finite(self) -> (r: bool)
        ensures
            r == is_finite(self.bits),
    {
        (self.bits / 0x10_0000_0000_0000) % 0x800 != 0x7ff
    }

    /// Whether this is less than zero: false where it is not a number.
    pub fn is_negative(self) -> (r: bool)
        ensures
            r == (!is_nan(self.bits) && scaled_value(self.bits) < 0),
    {
        proof {
            lemma_magnitude_order(self.bits, self.bits);
        }
        !self.is_nan() && self.bits > 0x8000_0000_0000_0000
    }

    /// Whether this is greater than `other`: false where either is not a number.
    pub fn exceeds(self, other: Double) -> (r: bool)
        ensures
            r == greater(self.bits, other.bits),
    {
        if self.is_nan() || other.is_nan() {
            return false;
        }
        proof {
            lemma_magnitude_order(self.bits, other.bits);
        }
        let a: u64 = self.bits % 0x8000_0000_0000_0000;
        let b: u64 = other.bits % 0x8000_0000_0000_0000;
        let a_negative = self.bits >= 0x8000_0000_0000_0000;
        let b_negative = other.bits >= 0x8000_0000_0000_0000;
        if a_negative {
            b_negative && a < b
        } else if b_negative {
            a > 0 || b > 0
        } else {
            a > b
        }
    }
}

impl PartialEq for Double {
    /// Whether both are numbers of one value: zero equals negative zero, and what is not a number
    /// equals nothing.
    fn eq(&self, other: &Self) -> (r: bool) {
        if self.is_nan() || other.is_nan() {
            return false;
        }
        proof {
            lemma_magnitude_order(self.bits, other.bits);
        }
        let a: u64 = self.bits % 0x8000_0000_0000_0000;
        let b: u64 = other.bits % 0x8000_0000_0000_0000;
        let a_negative = self.bits >= 0x8000_0000_0000_0000;
        let b_negative = other.bits >= 0x8000_0000_0000_0000;
        a == b && (a == 0 || a_negative == b_negative)
    }
}

impl vstd::std_specs::cmp::PartialEqSpecImpl for Double {
    open spec fn obeys_eq_spec() -> bool {
        true
    }

    open spec fn eq_spec(&self, other: &Self) -> bool {
        equal(self.bits, other.bits)
    }
}

} // verus!
