//! Screen rectangles as the UI hands them over, kept as the bit patterns of
//! their `f32` coordinates so that the library can compare them exactly as
//! `f32`'s `==` does without computing with floats.
use vstd::prelude::*;

verus! {

/// The bit pattern of an `f32` is a NaN: all exponent bits set and a nonzero
/// fraction.
pub open spec fn f32_bits_is_nan(b: u32) -> bool {
    b % 0x8000_0000 > 0x7f80_0000
}

/// The bit pattern of an `f32` is `+0.0` or `-0.0`.
pub open spec fn f32_bits_is_zero(b: u32) -> bool {
    b % 0x8000_0000 == 0
}

/// IEEE 754 equality of two `f32` values given by their bit patterns: a NaN
/// equals nothing, the two zeros are equal, and otherwise equal values have
/// equal bits.
pub open spec fn f32_bits_eq(a: u32, b: u32) -> bool {
    &&& !f32_bits_is_nan(a)
    &&& !f32_bits_is_nan(b)
    &&& (a == b || (f32_bits_is_zero(a) && f32_bits_is_zero(b)))
}

/// Compares two `f32` values, given by their bit patterns, as `f32`'s `==` does.
pub fn f32_bits_equal(a: u32, b: u32) -> (r: bool)
    ensures
        r == f32_bits_eq(a, b),
{
    let ma = a % 0x8000_0000;
    let mb = b % 0x8000_0000;
    if ma > 0x7f80_0000 || mb > 0x7f80_0000 {
        false
    } else {
        a == b || (ma == 0 && mb == 0)
    }
}

/// An axis-aligned rectangle: the bit patterns of the `f32` coordinates of its
/// minimum and maximum corners.
#[derive(Clone, Copy, Debug, PartialEq, Eq, Structural)]
pub struct RectBits {
    pub min_x: u32,
    pub min_y: u32,
    pub max_x: u32,
    pub max_y: u32,
}

impl RectBits {
    /// The two rectangles compare equal coordinate by coordinate, as `f32`.
    pub open spec fn same_as_spec(self, other: RectBits) -> bool {
        &&& f32_bits_eq(self.min_x, other.min_x)
        &&& f32_bits_eq(self.min_y, other.min_y)
        &&& f32_bits_eq(self.max_x, other.max_x)
        &&& f32_bits_eq(self.max_y, other.max_y)
    }

    /// No coordinate is a NaN.
    pub open spec fn has_no_nan(self) -> bool {
        &&& !f32_bits_is_nan(self.min_x)
        &&& !f32_bits_is_nan(self.min_y)
        &&& !f32_bits_is_nan(self.max_x)
        &&& !f32_bits_is_nan(self.max_y)
    }

    /// Compares two rectangles as the UI's `Rect` equality does.
    pub fn same_as(&self, other: &RectBits) -> (r: bool)
        ensures
            r == self.same_as_spec(*other),
    {
        f32_bits_equal(self.min_x, other.min_x) && f32_bits_equal(self.min_y, other.min_y)
            && f32_bits_equal(self.max_x, other.max_x) && f32_bits_equal(self.max_y, other.max_y)
    }
}

/// A rectangle equals itself exactly when none of its coordinates is a NaN.
pub proof fn law_rect_reflexive_unless_nan(r: RectBits)
    ensures
        r.same_as_spec(r) <==> r.has_no_nan(),
{
}

/// Rectangle equality is symmetric.
pub proof fn law_rect_symmetric(a: RectBits, b: RectBits)
    ensures
        a.same_as_spec(b) == b.same_as_spec(a),
{
}

/// `f32` equality on bit patterns: a NaN (exponent all ones, fraction
/// nonzero) equals nothing; `+0.0` and `-0.0` are equal; any other two values
/// are equal exactly when their bits are.
pub proof fn law_f32_equality_cases(a: u32, b: u32)
    ensures
        a % 0x8000_0000 > 0x7f80_0000 ==> !f32_bits_eq(a, b) && !f32_bits_eq(b, a),
        a % 0x8000_0000 == 0 && b % 0x8000_0000 == 0 ==> f32_bits_eq(a, b),
        a % 0x8000_0000 <= 0x7f80_0000 && b % 0x8000_0000 <= 0x7f80_0000 && !(a % 0x8000_0000
            == 0 && b % 0x8000_0000 == 0) ==> (f32_bits_eq(a, b) <==> a == b),
{
}

/// Rectangles compare equal exactly when all four coordinates do.
pub proof fn law_rect_equality_by_coordinates(r: RectBits, q: RectBits)
    ensures
        r.same_as_spec(q) <==> (f32_bits_eq(r.min_x, q.min_x) && f32_bits_eq(r.min_y, q.min_y)
            && f32_bits_eq(r.max_x, q.max_x) && f32_bits_eq(r.max_y, q.max_y)),
{
}

} // verus!
