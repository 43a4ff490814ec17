use vstd::prelude::*;

use crate::fp::Fp;
use crate::fp::magnitude_of;
use crate::fp::SIGN_BIT;
use crate::fp::INFINITY_MAGNITUDE;

verus! {

/// The magnitude bits of 10000.0, the threshold at and above which a value is
/// displayed in scientific notation.
pub const UPPER_FIXED_MAGNITUDE: u64 = 0x40C3_8800_0000_0000;

/// The magnitude bits of 0.001, the threshold below which a nonzero value is
/// displayed in scientific notation.
pub const LOWER_FIXED_MAGNITUDE: u64 = 0x3F50_624D_D2F1_A9FC;

/// The ASCII digit zero.
pub const ZERO_DIGIT: u8 = 48;

/// The ASCII decimal point.
pub const POINT: u8 = 46;

/// Which rendering the display policy selects for a value.
#[derive(Clone, Copy, Debug, PartialEq, Eq, Structural)]
pub enum FormatClass {
    /// A zero of either sign is displayed as the bare digit zero.
    Zero,
    /// A magnitude of at least 10000.0, or below 0.001 but not zero, is
    /// displayed in normalized scientific notation with the requested number
    /// of mantissa digits.
    Scientific,
    /// Every other value is displayed in fixed-point notation with the
    /// requested number of digits, then stripped of trailing zero digits and
    /// of a bare trailing decimal point.
    Fixed,
}

/// The display policy over the value's magnitude bits. For values of one
/// sign that are not NaN, numeric order coincides with the unsigned order of
/// the magnitudes, so the two thresholds are magnitude bounds; an infinity
/// falls in the scientific class and a NaN (magnitude above any infinity) in
/// the fixed class, as the ordinary comparisons would place them.
pub open spec fn classify_bits(bits: u64) -> FormatClass {
    if magnitude_of(bits) == 0 {
        FormatClass::Zero
    } else if UPPER_FIXED_MAGNITUDE <= magnitude_of(bits) <= INFINITY_MAGNITUDE {
        FormatClass::Scientific
    } else if magnitude_of(bits) < LOWER_FIXED_MAGNITUDE {
        FormatClass::Scientific
    } else {
        FormatClass::Fixed
    }
}

/// Selects the rendering for a value by its magnitude alone.
pub fn classify(v: &Fp) -> (r: FormatClass)
    ensures
        r == classify_bits(v@),
{
    let m: u64 = v.bits() % SIGN_BIT;
    if m == 0 {
        FormatClass::Zero
    } else if UPPER_FIXED_MAGNITUDE <= m && m <= INFINITY_MAGNITUDE {
        FormatClass::Scientific
    } else if m < LOWER_FIXED_MAGNITUDE {
        FormatClass::Scientific
    } else {
        FormatClass::Fixed
    }
}

/// Whether the rendering holds a decimal point.
pub open spec fn contains_point(s: Seq<u8>) -> bool {
    exists|i: int| 0 <= i < s.len() && s[i] == POINT
}

/// The rendering with its trailing zero digits removed.
pub open spec fn strip_zeros(s: Seq<u8>) -> Seq<u8>
    decreases s.len(),
{
    if s.len() > 0 && s.last() == ZERO_DIGIT {
        strip_zeros(s.drop_last())
    } else {
        s
    }
}

/// The rendering with a bare trailing decimal point removed.
pub open spec fn strip_point(s: Seq<u8>) -> Seq<u8> {
    if s.len() > 0 && s.last() == POINT {
        s.drop_last()
    } else {
        s
    }
}

/// The fixed-point display rule: a rendering with a decimal point loses its
/// trailing zero digits, and then a bare trailing point if one is left; a
/// rendering without a decimal point is kept whole.
pub open spec fn stripped(s: Seq<u8>) -> Seq<u8> {
    if contains_point(s) {
        strip_point(strip_zeros(s))
    } else {
        s
    }
}

/// Strips a fixed-point rendering, given as ASCII bytes, of its trailing zero
/// digits after the decimal point, and of a bare trailing point if stripping
/// leaves one.
pub fn strip_trailing_zeros(digits: Vec<u8>) -> (r: Vec<u8>)
    ensures
        r@ == stripped(digits@),
{
    let ghost original: Seq<u8> = digits@;
    let mut has_point = false;
    let mut i: usize = 0;
    while i < digits.len()
        invariant
            0 <= i <= digits@.len(),
            digits@ == original,
            has_point == contains_point(original.subrange(0, i as int)),
        decreases digits@.len() - i,
    {
        if digits[i] == POINT {
            has_point = true;
        }
        proof {
            let prev = original.subrange(0, i as int);
            let next = original.subrange(0, i + 1);
            assert(next =~= prev.push(original[i as int]));
            if original[i as int] == POINT {
                assert(next[i as int] == POINT);
            } else {
                if contains_point(prev) {
                    let j = choose|j: int| 0 <= j < prev.len() && #[trigger] prev[j] == POINT;
                    assert(next[j] == POINT);
                }
                if contains_point(next) {
                    let j = choose|j: int| 0 <= j < next.len() && #[trigger] next[j] == POINT;
                    assert(j < i);
                    assert(prev[j] == POINT);
                }
            }
        }
        i = i + 1;
    }
    proof {
        assert(original.subrange(0, original.len() as int) =~= original);
    }
    if !has_point {
        return digits;
    }
    let mut digits = digits;
    while digits.len() > 0 && digits[digits.len() - 1] == ZERO_DIGIT
        invariant
            strip_zeros(digits@) == strip_zeros(original),
        decreases digits@.len(),
    {
        digits.pop();
    }
    assert(digits@ == strip_zeros(original));
    if digits.len() > 0 && digits[digits.len() - 1] == POINT {
        digits.pop();
    }
    digits
}

} // verus!
