//! Fixed-point numbers with six decimal places.

use vstd::prelude::*;

verus! {

/// How many millionths make one unit.
pub const MICROS_PER_UNIT: i64 = 1_000_000;

/// A real-valued quantity, held as a whole number of millionths.
///
/// `Fixed { micros: 1_500_000 }` stands for 1.5. Results that would leave the
/// range of `i64` saturate at its ends.
#[derive(Clone, Copy, Debug, PartialEq, Eq, Structural)]
pub struct Fixed {
    pub micros: i64,
}

/// `v`, held to the range of `i64`.
pub open spec fn clamp_i64(v: int) -> int {
    if v < i64::MIN {
        i64::MIN as int
    } else if v > i64::MAX {
        i64::MAX as int
    } else {
        v
    }
}

/// `v`, held to the range of `i32`.
pub open spec fn clamp_i32(v: int) -> int {
    if v < i32::MIN {
        i32::MIN as int
    } else if v > i32::MAX {
        i32::MAX as int
    } else {
        v
    }
}

/// The absolute value of `v`.
pub open spec fn magnitude(v: int) -> int {
    if v < 0 {
        -v
    } else {
        v
    }
}

/// The quotient `n / d` with its fraction dropped (rounded toward zero).
pub open spec fn trunc_div(n: int, d: int) -> int
    recommends
        d != 0,
{
    if (n >= 0) == (d > 0) {
        magnitude(n) / magnitude(d)
    } else {
        -(magnitude(n) / magnitude(d))
    }
}

/// The quotient `n / d` rounded to the nearest whole number, a half going
/// away from zero.
pub open spec fn round_div(n: int, d: int) -> int
    recommends
        d > 0,
{
    if n >= 0 {
        (2 * n + d) / (2 * d)
    } else {
        -((2 * (-n) + d) / (2 * d))
    }
}

/// The millionths of the quotient `num / den`.
///
/// The fraction beyond the sixth decimal place is dropped and the result
/// saturates. A zero denominator gives the end of the range on the side of
/// the numerator's sign, and zero for `0 / 0`.
pub open spec fn ratio_micros(num: int, den: int) -> int {
    if den == 0 {
        if num > 0 {
            i64::MAX as int
        } else if num < 0 {
            i64::MIN as int
        } else {
            0
        }
    } else {
        clamp_i64(trunc_div(num * 1_000_000, den))
    }
}

/// The quotient `n / d` rounded to the nearest whole number, a half going
/// away from zero, for a divisor of either sign.
pub open spec fn round_quotient(n: int, d: int) -> int
    recommends
        d != 0,
{
    if (n >= 0) == (d > 0) {
        round_div(magnitude(n), magnitude(d))
    } else {
        -round_div(magnitude(n), magnitude(d))
    }
}

/// A whole number divided by a fixed-point number, rounded to the nearest
/// whole number and saturating.
///
/// A divisor of zero gives the end of the range on the side of the dividend's
/// sign, and zero for a dividend of zero.
pub open spec fn divided_whole(whole: int, divisor_micros: int) -> int {
    if divisor_micros == 0 {
        if whole > 0 {
            i64::MAX as int
        } else if whole < 0 {
            i64::MIN as int
        } else {
            0
        }
    } else {
        clamp_i64(round_quotient(whole * 1_000_000, divisor_micros))
    }
}

/// `v` as an `i64`, saturating.
pub fn saturate_i64(v: i128) -> (r: i64)
    ensures
        r as int == clamp_i64(v as int),
{
    if v < i64::MIN as i128 {
        i64::MIN
    } else if v > i64::MAX as i128 {
        i64::MAX
    } else {
        v as i64
    }
}

/// `v` as an `i32`, saturating.
pub fn saturate_i32(v: i128) -> (r: i32)
    ensures
        r as int == clamp_i32(v as int),
{
    if v < i32::MIN as i128 {
        i32::MIN
    } else if v > i32::MAX as i128 {
        i32::MAX
    } else {
        v as i32
    }
}

/// The millionths of `num / den` for operands of up to a hundred bits.
pub(crate) fn ratio_wide(num: i128, den: i128) -> (r: i64)
    requires
        -0x10_0000_0000_0000_0000_0000_0000 <= num <= 0x10_0000_0000_0000_0000_0000_0000,
        -0x10_0000_0000_0000_0000_0000_0000 <= den <= 0x10_0000_0000_0000_0000_0000_0000,
    ensures
        r as int == ratio_micros(num as int, den as int),
{
    if den == 0 {
        if num > 0 {
            i64::MAX
        } else if num < 0 {
            i64::MIN
        } else {
            0
        }
    } else {
        let n: u128 = if num < 0 { (-num) as u128 } else { num as u128 };
        let d: u128 = if den < 0 { (-den) as u128 } else { den as u128 };
        let scaled: u128 = n * 1_000_000;
        let q: u128 = scaled / d;
        assert(q <= scaled) by (nonlinear_arith)
            requires
                q == scaled / d,
                d >= 1,
        ;
        assert(magnitude(num as int * 1_000_000) == scaled as int);
        if (num >= 0) == (den > 0) {
            saturate_i64(q as i128)
        } else {
            saturate_i64(-(q as i128))
        }
    }
}

impl Fixed {
    /// The number as a mathematical count of millionths.
    pub open spec fn value(self) -> int {
        self.micros as int
    }

    /// Zero.
    pub fn zero() -> (r: Fixed)
        ensures
            r.micros == 0,
    {
        Fixed { micros: 0 }
    }

    /// One.
    pub fn one() -> (r: Fixed)
        ensures
            r.micros == 1_000_000,
    {
        Fixed { micros: 1_000_000 }
    }

    /// The number with the given count of millionths.
    pub fn from_micros(micros: i64) -> (r: Fixed)
        ensures
            r.micros == micros,
    {
        Fixed { micros }
    }

    /// The whole number `units`.
    pub fn from_int(units: i32) -> (r: Fixed)
        ensures
            r.micros == units * 1_000_000,
    {
        Fixed { micros: units as i64 * 1_000_000 }
    }

    /// The quotient `num / den`, to six decimal places.
    pub fn ratio(num: i64, den: i64) -> (r: Fixed)
        ensures
            r.micros == ratio_micros(num as int, den as int),
    {
        Fixed { micros: ratio_wide(num as i128, den as i128) }
    }

    /// The whole number `whole` divided by this number, rounded to the nearest
    /// whole number.
    pub fn divide_whole(self, whole: i64) -> (quotient: i64)
        ensures
            quotient as int == divided_whole(whole as int, self.micros as int),
    {
        if self.micros == 0 {
            if whole > 0 {
                i64::MAX
            } else if whole < 0 {
                i64::MIN
            } else {
                0
            }
        } else {
            let num: i128 = whole as i128 * 1_000_000;
            let den: i128 = self.micros as i128;
            let n: u128 = if num < 0 { (-num) as u128 } else { num as u128 };
            let d: u128 = if den < 0 { (-den) as u128 } else { den as u128 };
            let q: u128 = (2 * n + d) / (2 * d);
            assert(q <= 2 * n + d) by (nonlinear_arith)
                requires
                    q == (2 * n + d) / (2 * d),
                    d >= 1,
            ;
            if (num >= 0) == (den > 0) {
                saturate_i64(q as i128)
            } else {
                saturate_i64(-(q as i128))
            }
        }
    }

    /// The quotient `self / rhs`, to six decimal places.
    pub fn div(self, rhs: Fixed) -> (r: Fixed)
        ensures
            r.micros == ratio_micros(self.micros as int, rhs.micros as int),
    {
        Fixed::ratio(self.micros, rhs.micros)
    }
}

} // verus!
