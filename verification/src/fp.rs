use vstd::prelude::*;

verus! {

/// The place value of the sign bit of a 64-bit IEEE 754 binary64 value: a
/// pattern at or above it has the sign bit set, and the remainder below it is
/// the magnitude, the exponent and fraction fields together.
pub const SIGN_BIT: u64 = 0x8000_0000_0000_0000;

/// The magnitude of an infinity. A magnitude strictly above this encodes a NaN;
/// at or below it, the magnitude of a finite value or an infinity. For values
/// of equal sign that are not NaN, IEEE 754 numeric order coincides with the
/// unsigned order of the magnitudes.
pub const INFINITY_MAGNITUDE: u64 = 0x7FF0_0000_0000_0000;

/// The bit pattern of 1.0.
pub const ONE_BITS: u64 = 0x3FF0_0000_0000_0000;

/// The bit pattern of the binary64 machine epsilon, 2^-52.
pub const EPSILON_BITS: u64 = 0x3CB0_0000_0000_0000;

/// A 64-bit IEEE 754 value carried by its bit pattern. The engine stores,
/// classifies and compares such values by pure bit logic, which is verified;
/// arithmetic on them is left to the caller, which owns the numeric hardware.
#[derive(Clone, Copy, Debug, PartialEq, Eq, Structural)]
pub struct Fp {
    bits: u64,
}

impl Fp {
    /// The value's identity is its bit pattern.
    pub closed spec fn view(self) -> u64 {
        self.bits
    }

    /// Wraps a bit pattern obtained from a binary64 value.
    pub fn from_bits(bits: u64) -> (r: Fp)
        ensures
            r@ == bits,
    {
        Fp { bits }
    }

    /// Hands the bit pattern back, for the caller to turn into a number again.
    pub fn bits(&self) -> (r: u64)
        ensures
            r == self@,
    {
        self.bits
    }

    /// Positive zero, whose bit pattern is all zeros.
    pub fn zero() -> (r: Fp)
        ensures
            r@ == 0,
    {
        Fp { bits: 0 }
    }
}

/// The exponent and fraction bits of a pattern, dropping the sign.
pub open spec fn magnitude_of(bits: u64) -> u64 {
    bits % SIGN_BIT
}

/// Whether the sign bit is set (the value is negative or a negative zero or
/// a NaN with the sign bit set).
pub open spec fn sign_of(bits: u64) -> bool {
    bits >= SIGN_BIT
}

/// Whether the pattern encodes a NaN: exponent all ones and a nonzero fraction,
/// that is, a magnitude strictly above that of an infinity.
pub open spec fn is_nan_bits(bits: u64) -> bool {
    magnitude_of(bits) > INFINITY_MAGNITUDE
}

/// Whether the pattern encodes a zero of either sign.
pub open spec fn is_zero_bits(bits: u64) -> bool {
    magnitude_of(bits) == 0
}

/// Whether the encoded value compares strictly below zero: the sign bit is
/// set and the magnitude is that of a nonzero number or a negative infinity.
/// A negative zero and a NaN do not compare below zero.
pub open spec fn is_negative_bits(bits: u64) -> bool {
    sign_of(bits) && 1 <= magnitude_of(bits) <= INFINITY_MAGNITUDE
}

/// IEEE 754 `a <= b` on the encoded values. NaN compares below or above
/// nothing; for two negative values the magnitude order is reversed; zeros of
/// either sign are mutually below-or-equal.
pub open spec fn le_bits(a: u64, b: u64) -> bool {
    if is_nan_bits(a) || is_nan_bits(b) {
        false
    } else if sign_of(a) {
        if sign_of(b) {
            magnitude_of(a) >= magnitude_of(b)
        } else {
            true
        }
    } else {
        if sign_of(b) {
            magnitude_of(a) == 0 && magnitude_of(b) == 0
        } else {
            magnitude_of(a) <= magnitude_of(b)
        }
    }
}

/// Whether the pattern encodes a p-value in the open interval (0, 1).
/// Positive values below 1.0 are exactly the patterns strictly between the
/// pattern of positive zero and the pattern of 1.0: for positive finite
/// values, numeric order coincides with unsigned order of the patterns, and
/// every pattern at or above `ONE_BITS` encodes a value at least 1.0, an
/// infinity, a NaN or a negative value, none of which is admissible.
pub open spec fn valid_p_bits(bits: u64) -> bool {
    1 <= bits < ONE_BITS
}

/// Whether the encoded value compares strictly below zero.
pub fn is_negative(v: &Fp) -> (r: bool)
    ensures
        r == is_negative_bits(v@),
{
    let m: u64 = v.bits() % SIGN_BIT;
    v.bits() >= SIGN_BIT && 1 <= m && m <= INFINITY_MAGNITUDE
}

/// Whether the pattern encodes a zero of either sign.
pub fn is_zero(v: &Fp) -> (r: bool)
    ensures
        r == is_zero_bits(v@),
{
    v.bits() % SIGN_BIT == 0
}

/// IEEE 754 `a <= b` on the encoded values, decided by bit logic alone.
pub fn le(a: &Fp, b: &Fp) -> (r: bool)
    ensures
        r == le_bits(a@, b@),
{
    let am: u64 = a.bits() % SIGN_BIT;
    let bm: u64 = b.bits() % SIGN_BIT;
    if am > INFINITY_MAGNITUDE || bm > INFINITY_MAGNITUDE {
        false
    } else if a.bits() >= SIGN_BIT {
        if b.bits() >= SIGN_BIT {
            am >= bm
        } else {
            true
        }
    } else {
        if b.bits() >= SIGN_BIT {
            am == 0 && bm == 0
        } else {
            am <= bm
        }
    }
}

/// Whether the pattern encodes a p-value in the open interval (0, 1).
pub fn is_valid_p(v: &Fp) -> (r: bool)
    ensures
        r == valid_p_bits(v@),
{
    1 <= v.bits() && v.bits() < ONE_BITS
}

} // verus!
