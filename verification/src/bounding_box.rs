//! Integer vector and pixel-space bounding-box representations.

use vstd::prelude::*;

use crate::decimal::record_line;
use crate::decimal::record_line_of;

verus! {

/// Holds when `x` fits in a signed 32-bit integer.
pub open spec fn in_i32(x: int) -> bool {
    i32::MIN <= x <= i32::MAX
}

/// Integer division truncating toward zero, the semantics of Rust's `/`
/// on signed integers. Spec-mode `/` is Euclidean, so the negative cases
/// are expressed through the nonnegative quotient.
pub open spec fn trunc_div(x: int, d: int) -> int
    recommends
        d != 0,
{
    if x == 0 {
        0
    } else if x > 0 && d > 0 {
        x / d
    } else if x < 0 && d < 0 {
        (x * -1) / (d * -1)
    } else if x < 0 {
        ((x * -1) / d) * -1
    } else {
        (x / (d * -1)) * -1
    }
}

/// A quotient truncated toward zero is no larger in magnitude than the
/// dividend, so dividing a value that fits in `i32` stays in `i32`. The
/// one exception is `i32::MIN / -1`, whose quotient is one past `i32::MAX`.
pub proof fn lemma_trunc_div_in_i32(x: int, d: int)
    requires
        in_i32(x),
        d != 0,
        !(x == i32::MIN && d == -1),
    ensures
        in_i32(trunc_div(x, d)),
{
    if x > 0 && d > 0 {
        vstd::arithmetic::div_mod::lemma_div_pos_is_pos(x, d);
        vstd::arithmetic::div_mod::lemma_div_nonincreasing(x, d);
    } else if x < 0 && d < 0 {
        lemma_nonneg_quotient_in_i32(x * -1, d * -1);
    } else if x < 0 {
        vstd::arithmetic::div_mod::lemma_div_pos_is_pos(x * -1, d);
        vstd::arithmetic::div_mod::lemma_div_nonincreasing(x * -1, d);
    } else if x > 0 {
        vstd::arithmetic::div_mod::lemma_div_pos_is_pos(x, d * -1);
        vstd::arithmetic::div_mod::lemma_div_nonincreasing(x, d * -1);
    }
}

/// A nonnegative numerator no greater than `i32::MAX + 1` divided by a
/// positive denominator gives a quotient within the `i32` range, except
/// for the pair that divides `i32::MAX + 1` by one.
proof fn lemma_nonneg_quotient_in_i32(m: int, d: int)
    requires
        0 <= m <= 0x8000_0000,
        0 < d,
        !(m == 0x8000_0000 && d == 1),
    ensures
        in_i32(m / d),
{
    vstd::arithmetic::div_mod::lemma_div_pos_is_pos(m, d);
    if d == 1 {
        vstd::arithmetic::div_mod::lemma_div_nonincreasing(m, 1);
    } else {
        vstd::arithmetic::div_mod::lemma_div_is_ordered_by_denominator(m, 2, d);
        vstd::arithmetic::div_mod::lemma_div_is_ordered(m, 0x8000_0000, 2);
        assert(0x8000_0000int / 2 == 0x4000_0000int) by (nonlinear_arith);
    }
}

/// Division of one `i32` by another, truncating toward zero.
fn div_trunc(n: i32, d: i32) -> (r: i32)
    requires
        d != 0,
        in_i32(trunc_div(n as int, d as int)),
    ensures
        r as int == trunc_div(n as int, d as int),
{
    match n.checked_div(d) {
        Some(q) => q,
        // unreachable: the preconditions rule out division by zero and
        // a quotient outside the i32 range
        None => 0,
    }
}

/// A 2D vector of signed 32-bit pixel coordinates.
#[derive(Clone, Copy, Debug, PartialEq, Eq, Structural)]
pub struct IVec2(pub i32, pub i32);

impl IVec2 {
    /// Component-wise addition.
    pub fn add(self, v: Self) -> (r: Self)
        requires
            in_i32(self.0 + v.0),
            in_i32(self.1 + v.1),
        ensures
            r.0 == self.0 + v.0,
            r.1 == self.1 + v.1,
    {
        IVec2(self.0 + v.0, self.1 + v.1)
    }

    /// Component-wise subtraction.
    pub fn sub(self, v: Self) -> (r: Self)
        requires
            in_i32(self.0 - v.0),
            in_i32(self.1 - v.1),
        ensures
            r.0 == self.0 - v.0,
            r.1 == self.1 - v.1,
    {
        IVec2(self.0 - v.0, self.1 - v.1)
    }

    /// Component-wise multiplication.
    pub fn mul(self, v: Self) -> (r: Self)
        requires
            in_i32(self.0 * v.0),
            in_i32(self.1 * v.1),
        ensures
            r.0 == self.0 * v.0,
            r.1 == self.1 * v.1,
    {
        IVec2(self.0 * v.0, self.1 * v.1)
    }

    /// Component-wise division by a scalar, truncating toward zero.
    pub fn div(self, a: i32) -> (r: Self)
        requires
            a != 0,
            !(self.0 == i32::MIN && a == -1),
            !(self.1 == i32::MIN && a == -1),
        ensures
            r.0 as int == trunc_div(self.0 as int, a as int),
            r.1 as int == trunc_div(self.1 as int, a as int),
    {
        proof {
            lemma_trunc_div_in_i32(self.0 as int, a as int);
            lemma_trunc_div_in_i32(self.1 as int, a as int);
        }
        IVec2(div_trunc(self.0, a), div_trunc(self.1, a))
    }
}

/// Bounding box with the min and max pixel defining the top-left and
/// bottom-right corner respectively. This is the canonical hub: every
/// other representation converts to and from it.
#[derive(Clone, Copy, Debug, PartialEq, Eq, Structural)]
pub struct BoundingBox {
    pub min: IVec2,
    pub max: IVec2,
}

/// Bounding box defined by its top-left coordinate and its size
/// (width, height), with the image origin at the top left.
#[derive(Clone, Copy, Debug, PartialEq, Eq, Structural)]
pub struct TopLeftBoundingBox {
    pub top_left: IVec2,
    pub size: IVec2,
}

/// Bounding box defined by its center pixel and its size (width, height).
#[derive(Clone, Copy, Debug, PartialEq, Eq, Structural)]
pub struct CenterBoundingBox {
    pub center: IVec2,
    pub size: IVec2,
}

/// Holds when `t` is the top-left/size form of the corner box `b`:
/// the top-left corner is kept and the size is `max - min`.
pub open spec fn is_top_left_of(t: TopLeftBoundingBox, b: BoundingBox) -> bool {
    &&& t.top_left == b.min
    &&& t.size.0 == b.max.0 - b.min.0
    &&& t.size.1 == b.max.1 - b.min.1
}

/// Holds when `b` is the corner form of the top-left/size box `t`:
/// `min` is the top-left corner and `max` is `top_left + size`.
pub open spec fn is_corner_of_top_left(b: BoundingBox, t: TopLeftBoundingBox) -> bool {
    &&& b.min == t.top_left
    &&& b.max.0 == t.top_left.0 + t.size.0
    &&& b.max.1 == t.top_left.1 + t.size.1
}

/// Holds when `c` is the center/size form of the corner box `b`: the size
/// is `max - min` and the center is `min` plus half the size, with the
/// half truncated toward zero.
pub open spec fn is_center_of_corner(c: CenterBoundingBox, b: BoundingBox) -> bool {
    &&& c.size.0 == b.max.0 - b.min.0
    &&& c.size.1 == b.max.1 - b.min.1
    &&& c.center.0 == trunc_div(b.max.0 - b.min.0, 2) + b.min.0
    &&& c.center.1 == trunc_div(b.max.1 - b.min.1, 2) + b.min.1
}

/// Holds when `b` is the corner form of the center/size box `c`: `min` is
/// the center minus half the size (truncated toward zero) and `max` is
/// `min + size`.
pub open spec fn is_corner_of_center(b: BoundingBox, c: CenterBoundingBox) -> bool {
    &&& b.min.0 == c.center.0 - trunc_div(c.size.0 as int, 2)
    &&& b.min.1 == c.center.1 - trunc_div(c.size.1 as int, 2)
    &&& b.max.0 == c.size.0 + b.min.0
    &&& b.max.1 == c.size.1 + b.min.1
}

impl BoundingBox {
    /// Corner form of a top-left/size box: `min = top_left`,
    /// `max = top_left + size`.
    pub fn from_top_left(tlbbox: TopLeftBoundingBox) -> (r: Self)
        requires
            in_i32(tlbbox.top_left.0 + tlbbox.size.0),
            in_i32(tlbbox.top_left.1 + tlbbox.size.1),
        ensures
            is_corner_of_top_left(r, tlbbox),
    {
        BoundingBox { min: tlbbox.top_left, max: tlbbox.top_left.add(tlbbox.size) }
    }

    /// Corner form of a center/size box: `min = center - size / 2` with the
    /// half-size truncated toward zero, `max = size + min`.
    pub fn from_center(cbbox: CenterBoundingBox) -> (r: Self)
        requires
            in_i32(cbbox.center.0 - trunc_div(cbbox.size.0 as int, 2)),
            in_i32(cbbox.center.1 - trunc_div(cbbox.size.1 as int, 2)),
            in_i32(cbbox.size.0 + cbbox.center.0 - trunc_div(cbbox.size.0 as int, 2)),
            in_i32(cbbox.size.1 + cbbox.center.1 - trunc_div(cbbox.size.1 as int, 2)),
        ensures
            is_corner_of_center(r, cbbox),
    {
        let half = cbbox.size.div(2);
        let min = cbbox.center.sub(half);
        let max = cbbox.size.add(min);
        BoundingBox { min, max }
    }

    /// The box as one output record: `min.x,min.y,max.x,max.y`.
    pub fn to_line(&self) -> (r: String)
        ensures
            r@ == record_line_of(
                self.min.0 as int,
                self.min.1 as int,
                self.max.0 as int,
                self.max.1 as int,
            ),
    {
        record_line(self.min.0, self.min.1, self.max.0, self.max.1)
    }
}

impl TopLeftBoundingBox {
    /// Top-left/size form of a corner box: `top_left = min`,
    /// `size = max - min`.
    pub fn from_corner(bbox: BoundingBox) -> (r: Self)
        requires
            in_i32(bbox.max.0 - bbox.min.0),
            in_i32(bbox.max.1 - bbox.min.1),
        ensures
            is_top_left_of(r, bbox),
    {
        TopLeftBoundingBox { top_left: bbox.min, size: bbox.max.sub(bbox.min) }
    }

    /// The box as one output record: `top_left.x,top_left.y,size.x,size.y`.
    pub fn to_line(&self) -> (r: String)
        ensures
            r@ == record_line_of(
                self.top_left.0 as int,
                self.top_left.1 as int,
                self.size.0 as int,
                self.size.1 as int,
            ),
    {
        record_line(self.top_left.0, self.top_left.1, self.size.0, self.size.1)
    }
}

impl CenterBoundingBox {
    /// Center/size form of a corner box: `size = max - min`,
    /// `center = size / 2 + min` with the half-size truncated toward zero.
    pub fn from_corner(bbox: BoundingBox) -> (r: Self)
        requires
            in_i32(bbox.max.0 - bbox.min.0),
            in_i32(bbox.max.1 - bbox.min.1),
            in_i32(trunc_div(bbox.max.0 - bbox.min.0, 2) + bbox.min.0),
            in_i32(trunc_div(bbox.max.1 - bbox.min.1, 2) + bbox.min.1),
        ensures
            is_center_of_corner(r, bbox),
    {
        let size = bbox.max.sub(bbox.min);
        let center = size.div(2).add(bbox.min);
        CenterBoundingBox { center, size }
    }

    /// The box as one output record: `center.x,center.y,size.x,size.y`.
    pub fn to_line(&self) -> (r: String)
        ensures
            r@ == record_line_of(
                self.center.0 as int,
                self.center.1 as int,
                self.size.0 as int,
                self.size.1 as int,
            ),
    {
        record_line(self.center.0, self.center.1, self.size.0, self.size.1)
    }
}

/// Law: converting a corner box to top-left/size form and back reproduces
/// the original exactly; both directions are pure integer arithmetic with
/// no rounding.
pub proof fn lemma_corner_top_left_round_trip(b: BoundingBox, t: TopLeftBoundingBox, r: BoundingBox)
    requires
        is_top_left_of(t, b),
        is_corner_of_top_left(r, t),
    ensures
        r == b,
{
}

/// Law: converting a corner box to center/size form and back reproduces
/// the size always, and in fact reproduces `min` and `max` exactly: the
/// same truncated half-size is first added to and then subtracted from
/// `min`, so the truncation cancels even for odd or negative sizes. In
/// particular the recovered corners never stray from the originals, which
/// stays within the one-unit discrepancy that truncating division could
/// at most introduce.
pub proof fn lemma_corner_center_round_trip(b: BoundingBox, c: CenterBoundingBox, r: BoundingBox)
    requires
        is_center_of_corner(c, b),
        is_corner_of_center(r, c),
    ensures
        r.max.0 - r.min.0 == b.max.0 - b.min.0,
        r.max.1 - r.min.1 == b.max.1 - b.min.1,
        r == b,
{
}

} // verus!
