use vstd::prelude::*;

verus! {

use vstd::math::abs;

// Bit patterns (IEEE 754 binary64) for the numeric constants the solver is
// configured with.  The library never computes with machine reals itself: a
// `Scalar` implementation decides what value each pattern denotes, and the
// floating-point implementations that callers supply decode them with the
// standard `from_bits` conversion.

/// Pattern of zero.
pub const BITS_ZERO: u64 = 0x0;

/// Pattern of one.
pub const BITS_ONE: u64 = 0x3FF0000000000000;

/// Pattern of minus one.
pub const BITS_NEG_ONE: u64 = 0xBFF0000000000000;

/// Pattern of one half.
pub const BITS_HALF: u64 = 0x3FE0000000000000;

/// Pattern of one fifth, the default sufficient-decrease constant.
pub const BITS_FIFTH: u64 = 0x3FC999999999999A;

/// Pattern of ten to the minus sixth, the default barrier parameter.
pub const BITS_1E_MINUS_6: u64 = 0x3EB0C6F7A0B5ED8D;

/// Pattern of ten to the ninth, the default constraint-penalty coefficient.
pub const BITS_1E_PLUS_9: u64 = 0x41CDCD6500000000;

/// Pattern of ten to the minus ninth, the steepest-descent tolerance.
pub const BITS_1E_MINUS_9: u64 = 0x3E112E0BE826D695;

/// Pattern of ten to the minus twelfth, the quasi-Newton tolerance.
pub const BITS_1E_MINUS_12: u64 = 0x3D719799812DEA11;

/// Pattern of ten to the minus tenth, the flat-direction threshold.
pub const BITS_1E_MINUS_10: u64 = 0x3DDB7CDFD9D7BDBB;

/// Pattern of ten to the minus fourth, the lower clamp of the line-search
/// parameters.
pub const BITS_1E_MINUS_4: u64 = 0x3F1A36E2EB1C432D;

/// Pattern of one minus ten to the minus fourth, the upper clamp of the
/// line-search parameters.
pub const BITS_ONE_MINUS_1E_MINUS_4: u64 = 0x3FEFFF2E48E8A71E;

/// Pattern of positive infinity.
pub const BITS_INFINITY: u64 = 0x7FF0000000000000;

/// Pattern of negative infinity.
pub const BITS_NEG_INFINITY: u64 = 0xFFF0000000000000;

/// The arithmetic the solver runs on.
///
/// Every executable operation is pinned to its own specification function, so
/// everything the solver computes is characterized exactly as a composition
/// of these operations, whatever arithmetic a caller chooses.  Callers who
/// want machine reals implement this trait for a wrapper around their
/// floating-point type, with `from_bits` as the standard bit-pattern
/// conversion; the implementations are then outside the verified library,
/// like the problem descriptions themselves.
pub trait Scalar: Sized + Copy {
    /// The value a constant's bit pattern denotes.
    spec fn from_bits_spec(bits: u64) -> Self;

    /// Sum of `self` and `other`.
    spec fn add_spec(self, other: Self) -> Self;

    /// Difference of `self` and `other`.
    spec fn sub_spec(self, other: Self) -> Self;

    /// Product of `self` and `other`.
    spec fn mul_spec(self, other: Self) -> Self;

    /// Quotient of `self` by `other`.
    spec fn div_spec(self, other: Self) -> Self;

    /// Additive inverse of `self`.
    spec fn neg_spec(self) -> Self;

    /// Natural logarithm of `self`.
    spec fn ln_spec(self) -> Self;

    /// Square root of `self`.
    spec fn sqrt_spec(self) -> Self;

    /// Absolute value of `self`.
    spec fn abs_spec(self) -> Self;

    /// The larger of `self` and `other`.
    spec fn max_spec(self, other: Self) -> Self;

    /// The smaller of `self` and `other`.
    spec fn min_spec(self, other: Self) -> Self;

    /// Whether `self` is strictly below `other`.
    spec fn below_spec(self, other: Self) -> bool;

    /// Whether `self` is an invalid value (not a number).
    spec fn is_nan_spec(self) -> bool;

    fn from_bits(bits: u64) -> (r: Self)
        ensures
            r == Self::from_bits_spec(bits),
    ;

    fn add(self, other: Self) -> (r: Self)
        ensures
            r == self.add_spec(other),
    ;

    fn sub(self, other: Self) -> (r: Self)
        ensures
            r == self.sub_spec(other),
    ;

    fn mul(self, other: Self) -> (r: Self)
        ensures
            r == self.mul_spec(other),
    ;

    fn div(self, other: Self) -> (r: Self)
        ensures
            r == self.div_spec(other),
    ;

    fn neg(self) -> (r: Self)
        ensures
            r == self.neg_spec(),
    ;

    fn ln(self) -> (r: Self)
        ensures
            r == self.ln_spec(),
    ;

    fn sqrt(self) -> (r: Self)
        ensures
            r == self.sqrt_spec(),
    ;

    fn abs(self) -> (r: Self)
        ensures
            r == self.abs_spec(),
    ;

    fn max(self, other: Self) -> (r: Self)
        ensures
            r == self.max_spec(other),
    ;

    fn min(self, other: Self) -> (r: Self)
        ensures
            r == self.min_spec(other),
    ;

    fn below(self, other: Self) -> (r: bool)
        ensures
            r == self.below_spec(other),
    ;

    fn is_nan(self) -> (r: bool)
        ensures
            r == self.is_nan_spec(),
    ;

    /// A human-readable rendering; its exact shape is the implementation's
    /// business.
    fn describe(self) -> String;
}

/// Clamp of a mathematical integer into the signed 64-bit range.
pub open spec fn sat_i64(x: int) -> i64 {
    if x > i64::MAX {
        i64::MAX
    } else if x < i64::MIN {
        i64::MIN
    } else {
        x as i64
    }
}

/// Saturating signed 64-bit integers as a solver arithmetic.
///
/// This instance keeps every operation total and exactly analyzable; it
/// exercises the solver's structure rather than its numerics.  A logarithm
/// and a square root are not meaningful on saturating integers, so both are
/// fixed at zero, and no value is invalid.
impl Scalar for i64 {
    open spec fn from_bits_spec(bits: u64) -> i64 {
        sat_i64(bits as int)
    }

    open spec fn add_spec(self, other: i64) -> i64 {
        sat_i64(self + other)
    }

    open spec fn sub_spec(self, other: i64) -> i64 {
        sat_i64(self - other)
    }

    open spec fn mul_spec(self, other: i64) -> i64 {
        sat_i64(self * other)
    }

    open spec fn div_spec(self, other: i64) -> i64 {
        if other == 0 {
            0
        } else {
            sat_i64(quotient_toward_zero(self as int, other as int))
        }
    }

    open spec fn neg_spec(self) -> i64 {
        sat_i64(-(self as int))
    }

    open spec fn ln_spec(self) -> i64 {
        0
    }

    open spec fn sqrt_spec(self) -> i64 {
        0
    }

    open spec fn abs_spec(self) -> i64 {
        if self < 0 {
            sat_i64(-(self as int))
        } else {
            self
        }
    }

    open spec fn max_spec(self, other: i64) -> i64 {
        if self < other {
            other
        } else {
            self
        }
    }

    open spec fn min_spec(self, other: i64) -> i64 {
        if other < self {
            other
        } else {
            self
        }
    }

    open spec fn below_spec(self, other: i64) -> bool {
        self < other
    }

    open spec fn is_nan_spec(self) -> bool {
        false
    }

    fn from_bits(bits: u64) -> (r: i64) {
        if bits > i64::MAX as u64 {
            i64::MAX
        } else {
            bits as i64
        }
    }

    fn add(self, other: i64) -> (r: i64) {
        let wide: i128 = self as i128 + other as i128;
        clamp_wide(wide)
    }

    fn sub(self, other: i64) -> (r: i64) {
        let wide: i128 = self as i128 - other as i128;
        clamp_wide(wide)
    }

    fn mul(self, other: i64) -> (r: i64) {
        proof {
            assert((self as int) * (other as int) <= i128::MAX && (self as int) * (other as int)
                >= i128::MIN) by (nonlinear_arith)
                requires
                    i64::MIN <= self <= i64::MAX,
                    i64::MIN <= other <= i64::MAX,
            ;
        }
        let wide: i128 = (self as i128) * (other as i128);
        clamp_wide(wide)
    }

    fn div(self, other: i64) -> (r: i64) {
        if other == 0 {
            0
        } else {
            let wide: i128 = div_toward_zero(self as i128, other as i128);
            clamp_wide(wide)
        }
    }

    fn neg(self) -> (r: i64) {
        clamp_wide(-(self as i128))
    }

    fn ln(self) -> (r: i64) {
        0
    }

    fn sqrt(self) -> (r: i64) {
        0
    }

    fn abs(self) -> (r: i64) {
        if self < 0 {
            clamp_wide(-(self as i128))
        } else {
            self
        }
    }

    fn max(self, other: i64) -> (r: i64) {
        if self < other {
            other
        } else {
            self
        }
    }

    fn min(self, other: i64) -> (r: i64) {
        if other < self {
            other
        } else {
            self
        }
    }

    fn below(self, other: i64) -> (r: bool) {
        self < other
    }

    fn is_nan(self) -> (r: bool) {
        false
    }

    fn describe(self) -> String {
        decimal_digits(self)
    }
}

/// Clamp of a 65-bit-safe intermediate into the signed 64-bit range.
fn clamp_wide(wide: i128) -> (r: i64)
    ensures
        r == sat_i64(wide as int),
{
    if wide > i64::MAX as i128 {
        i64::MAX
    } else if wide < i64::MIN as i128 {
        i64::MIN
    } else {
        wide as i64
    }
}

/// Integer quotient rounded toward zero, as machine division rounds.
pub open spec fn quotient_toward_zero(a: int, b: int) -> int {
    let m: int = (abs(a) / abs(b)) as int;
    if (a < 0) == (b < 0) {
        m
    } else {
        -m
    }
}

/// Division of 64-bit-range values rounded toward zero.
fn div_toward_zero(a: i128, b: i128) -> (r: i128)
    requires
        b != 0,
        i64::MIN <= a <= i64::MAX,
        i64::MIN <= b <= i64::MAX,
    ensures
        r == quotient_toward_zero(a as int, b as int),
{
    let ua: u64 = if a < 0 {
        (-a) as u64
    } else {
        a as u64
    };
    let ub: u64 = if b < 0 {
        (-b) as u64
    } else {
        b as u64
    };
    let m: u64 = ua / ub;
    if (a < 0) == (b < 0) {
        m as i128
    } else {
        -(m as i128)
    }
}

/// Decimal rendering of a signed integer.
pub fn decimal_digits(x: i64) -> String {
    let mut rest: u64 = if x < 0 {
        ((-(x as i128)) as u64)
    } else {
        x as u64
    };
    let mut digits = String::new();
    if rest == 0 {
        digits.append("0");
    }
    while rest > 0
        decreases rest,
    {
        let d: u64 = rest % 10;
        let piece: &str = match d {
            0 => "0",
            1 => "1",
            2 => "2",
            3 => "3",
            4 => "4",
            5 => "5",
            6 => "6",
            7 => "7",
            8 => "8",
            _ => "9",
        };
        let mut next = String::from_str(piece);
        next.append(digits.as_str());
        digits = next;
        rest = rest / 10;
    }
    if x < 0 {
        let mut signed = String::from_str("-");
        signed.append(digits.as_str());
        digits = signed;
    }
    digits
}

} // verus!
