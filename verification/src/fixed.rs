//! A signed fixed-point number with a 64-bit mantissa and an implicit
//! denominator of one billion, used to represent the fee multiplier.

use vstd::prelude::*;

verus! {

/// Number of parts in one whole unit: a value carries an implicit
/// denominator of one billion.
pub const FIXED64_DIV: i64 = 1_000_000_000;

/// Signed fixed-point number: the represented value is `parts / FIXED64_DIV`.
#[derive(Clone, Copy, Debug, PartialEq, Eq, Structural)]
pub struct Fixed64 {
    pub parts: i64,
}

/// Clamps a mathematical integer into the `i64` range.
pub open spec fn clip64(x: int) -> int {
    if x > i64::MAX as int {
        i64::MAX as int
    } else if x < i64::MIN as int {
        i64::MIN as int
    } else {
        x
    }
}

/// Division rounding toward zero, for a positive divisor: the semantics of
/// `/` on Rust's signed machine integers.
pub open spec fn div_trunc(n: int, d: int) -> int {
    if n >= 0 {
        n / d
    } else {
        -((-n) / d)
    }
}

/// Magnitudes multiply: `|a * b| == |a| * |b|`, with the sign of the product
/// determined by the signs of the factors.
proof fn lemma_mul_sign_mag(a: int, b: int, ma: int, mb: int)
    by (nonlinear_arith)
    requires
        ma == if a >= 0 { a } else { -a },
        mb == if b >= 0 { b } else { -b },
    ensures
        a * b >= 0 ==> a * b == ma * mb,
        a * b < 0 ==> -(a * b) == ma * mb,
        ((a < 0) != (b < 0)) ==> a * b <= 0,
        ((a < 0) == (b < 0)) ==> a * b >= 0,
{
}

/// The magnitude of a 64-bit signed integer, widened so that `i64::MIN` is
/// representable.
fn magnitude(p: i64) -> (r: u128)
    ensures
        p >= 0 ==> r == p as int,
        p < 0 ==> r == -(p as int),
{
    if p >= 0 {
        p as u128
    } else {
        let wide: i128 = -(p as i128);
        wide as u128
    }
}

impl Fixed64 {
    /// Builds a value directly from a count of billionths.
    pub fn from_parts(parts: i64) -> (r: Fixed64)
        ensures
            r.parts == parts,
    {
        Fixed64 { parts }
    }

    /// Builds a whole number, saturating at the numeric range.
    pub fn from_natural(whole: i64) -> (r: Fixed64)
        ensures
            r.parts as int == clip64(whole * FIXED64_DIV),
    {
        let wide: i128 = (whole as i128) * 1_000_000_000i128;
        Fixed64 { parts: clamp_i128(wide) }
    }

    /// Builds the ratio `n / d`, rounded toward zero to the nearest billionth
    /// and saturating at the numeric range. A zero denominator is treated
    /// as one.
    pub fn from_rational(n: i64, d: u64) -> (r: Fixed64)
        ensures
            r.parts as int == clip64(
                div_trunc(n * FIXED64_DIV, if d == 0 { 1int } else { d as int }),
            ),
    {
        let den: u128 = if d == 0 {
            1
        } else {
            d as u128
        };
        let mn: u128 = magnitude(n);
        let scaled: u128 = mn * 1_000_000_000u128;
        let q: u128 = scaled / den;
        proof {
            if n >= 0 {
                assert(scaled as int == n * FIXED64_DIV);
            } else {
                assert(scaled as int == -(n * FIXED64_DIV));
            }
        }
        from_sign_magnitude(n < 0, q)
    }

    /// Addition that saturates at the numeric range.
    pub fn saturating_add(self, rhs: Fixed64) -> (r: Fixed64)
        ensures
            r.parts as int == clip64(self.parts + rhs.parts),
    {
        let wide: i128 = self.parts as i128 + rhs.parts as i128;
        Fixed64 { parts: clamp_i128(wide) }
    }

    /// Subtraction that saturates at the numeric range.
    pub fn saturating_sub(self, rhs: Fixed64) -> (r: Fixed64)
        ensures
            r.parts as int == clip64(self.parts - rhs.parts),
    {
        let wide: i128 = self.parts as i128 - rhs.parts as i128;
        Fixed64 { parts: clamp_i128(wide) }
    }

    /// Fixed-point multiplication: the product of the represented values,
    /// rounded toward zero to the nearest billionth and saturating at the
    /// numeric range.
    pub fn saturating_mul(self, rhs: Fixed64) -> (r: Fixed64)
        ensures
            r.parts as int == clip64(div_trunc(self.parts * rhs.parts, FIXED64_DIV as int)),
    {
        let ghost pa: int = self.parts as int;
        let ghost pb: int = rhs.parts as int;
        let ma: u128 = magnitude(self.parts);
        let mb: u128 = magnitude(rhs.parts);
        proof {
            lemma_mul_sign_mag(pa, pb, ma as int, mb as int);
            assert(ma * mb <= 0x8000_0000_0000_0000u128 * 0x8000_0000_0000_0000u128)
                by (nonlinear_arith)
                requires
                    ma <= 0x8000_0000_0000_0000u128,
                    mb <= 0x8000_0000_0000_0000u128,
            ;
        }
        let prod: u128 = ma * mb;
        let q: u128 = prod / (FIXED64_DIV as u128);
        let neg: bool = (self.parts < 0) != (rhs.parts < 0);
        from_sign_magnitude(neg, q)
    }
}

/// Clamps a 128-bit intermediate into the 64-bit mantissa range.
fn clamp_i128(wide: i128) -> (r: i64)
    ensures
        r as int == clip64(wide as int),
{
    if wide > i64::MAX as i128 {
        i64::MAX
    } else if wide < i64::MIN as i128 {
        i64::MIN
    } else {
        wide as i64
    }
}

/// Reassembles a mantissa from a sign and a magnitude, saturating at the
/// numeric range.
fn from_sign_magnitude(neg: bool, mag: u128) -> (r: Fixed64)
    ensures
        !neg ==> r.parts as int == clip64(mag as int),
        neg ==> r.parts as int == clip64(-(mag as int)),
{
    if neg {
        if mag >= 0x8000_0000_0000_0000u128 {
            Fixed64 { parts: i64::MIN }
        } else {
            Fixed64 { parts: -(mag as i64) }
        }
    } else {
        if mag > i64::MAX as u128 {
            Fixed64 { parts: i64::MAX }
        } else {
            Fixed64 { parts: mag as i64 }
        }
    }
}

impl Default for Fixed64 {
    /// The zero multiplier.
    fn default() -> (r: Fixed64)
        ensures
            r.parts == 0,
    {
        Fixed64 { parts: 0 }
    }
}

} // verus!
