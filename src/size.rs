//! Lengths held as whole multiples of a ten-thousandth of a point.

use vstd::prelude::*;

verus! {

/// How many raw units make one point.
pub const UNITS_PER_POINT: i64 = 10000;

/// Whether a mathematical integer can be held by an `i64`.
pub open spec fn fits(v: int) -> bool {
    i64::MIN <= v <= i64::MAX
}

/// Halving that rounds toward zero.
pub open spec fn half_of(v: int) -> int {
    if v >= 0 {
        v / 2
    } else {
        -((-v) / 2)
    }
}

/// A length, in ten-thousandths of a point.
#[derive(Debug, Clone, Copy, PartialEq, Eq, Structural)]
pub struct Size {
    pub raw: i64,
}

impl Size {
    /// The length of `raw` ten-thousandths of a point.
    pub fn new(raw: i64) -> (r: Size)
        ensures
            r.raw == raw,
    {
        Size { raw }
    }

    /// The length of a whole number of points.
    pub fn pt(points: i64) -> (r: Size)
        requires
            fits(points * UNITS_PER_POINT),
        ensures
            r.raw == points * UNITS_PER_POINT,
    {
        Size { raw: points * UNITS_PER_POINT }
    }

    /// The zero length.
    pub fn zero() -> (r: Size)
        ensures
            r.raw == 0,
    {
        Size { raw: 0 }
    }

    /// Half of this length, rounded toward zero.
    pub fn half(self) -> (r: Size)
        ensures
            r.raw == half_of(self.raw as int),
    {
        if self.raw >= 0 {
            Size { raw: self.raw / 2 }
        } else {
            let a: i64 = -(self.raw + 1);
            let h: i64 = a / 2 + a % 2;
            proof {
                assert(h == (a + 1) / 2) by (nonlinear_arith)
                    requires a >= 0, h == a / 2 + a % 2;
            }
            Size { raw: -h }
        }
    }

    /// The difference of two lengths.
    pub fn minus(self, other: Size) -> (r: Size)
        requires
            fits(self.raw - other.raw),
        ensures
            r.raw == self.raw - other.raw,
    {
        Size { raw: self.raw - other.raw }
    }
}

/// A pair of lengths: horizontal and vertical, or primary and secondary.
#[derive(Debug, Clone, Copy, PartialEq, Eq, Structural)]
pub struct Size2D {
    pub x: Size,
    pub y: Size,
}

/// Padding on each of the four sides of a box.
#[derive(Debug, Clone, Copy, PartialEq, Eq, Structural)]
pub struct SizeBox {
    pub left: Size,
    pub top: Size,
    pub right: Size,
    pub bottom: Size,
}

/// Whether the padding can be taken off the dimensions without overflow.
pub open spec fn unpadded_fits(d: Size2D, p: SizeBox) -> bool {
    &&& fits(d.x.raw - p.left.raw)
    &&& fits(d.x.raw - p.left.raw - p.right.raw)
    &&& fits(d.y.raw - p.top.raw)
    &&& fits(d.y.raw - p.top.raw - p.bottom.raw)
}

impl Size2D {
    pub fn new(x: Size, y: Size) -> (r: Size2D)
        ensures
            r.x == x,
            r.y == y,
    {
        Size2D { x, y }
    }

    pub fn zero() -> (r: Size2D)
        ensures
            r.x.raw == 0,
            r.y.raw == 0,
    {
        Size2D { x: Size::zero(), y: Size::zero() }
    }

    /// These dimensions with the padding taken off each side.
    pub fn unpadded(self, padding: SizeBox) -> (r: Size2D)
        requires
            unpadded_fits(self, padding),
        ensures
            r.x.raw == self.x.raw - padding.left.raw - padding.right.raw,
            r.y.raw == self.y.raw - padding.top.raw - padding.bottom.raw,
    {
        Size2D {
            x: self.x.minus(padding.left).minus(padding.right),
            y: self.y.minus(padding.top).minus(padding.bottom),
        }
    }
}

impl SizeBox {
    pub fn new(left: Size, top: Size, right: Size, bottom: Size) -> (r: SizeBox)
        ensures
            r == (SizeBox { left, top, right, bottom }),
    {
        SizeBox { left, top, right, bottom }
    }

    /// No padding on any side.
    pub fn zero() -> (r: SizeBox)
        ensures
            r.left.raw == 0,
            r.top.raw == 0,
            r.right.raw == 0,
            r.bottom.raw == 0,
    {
        SizeBox { left: Size::zero(), top: Size::zero(), right: Size::zero(), bottom: Size::zero() }
    }
}

} // verus!
