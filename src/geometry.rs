//! Direction-agnostic axes, alignment, anchors and padded layout spaces.

use vstd::prelude::*;
use crate::size::{half_of, unpadded_fits, Size, Size2D, SizeBox};

verus! {

/// Directions along which content is laid out.
#[derive(Debug, Clone, Copy, PartialEq, Eq, Structural)]
pub enum Axis {
    LeftToRight,
    RightToLeft,
    TopToBottom,
    BottomToTop,
}

impl Axis {
    pub open spec fn horizontal(self) -> bool {
        self is LeftToRight || self is RightToLeft
    }

    pub open spec fn positive(self) -> bool {
        self is LeftToRight || self is TopToBottom
    }

    /// Whether this is a horizontal axis.
    pub fn is_horizontal(&self) -> (r: bool)
        ensures
            r == self.horizontal(),
    {
        match self {
            Axis::LeftToRight | Axis::RightToLeft => true,
            Axis::TopToBottom | Axis::BottomToTop => false,
        }
    }

    /// Whether this axis points into the positive coordinate direction.
    pub fn is_positive(&self) -> (r: bool)
        ensures
            r == self.positive(),
    {
        match self {
            Axis::LeftToRight | Axis::TopToBottom => true,
            Axis::RightToLeft | Axis::BottomToTop => false,
        }
    }

    /// The direction factor: 1 for a positive axis, -1 for a negative one.
    pub fn factor(&self) -> (r: i32)
        ensures
            r == (if self.positive() { 1i32 } else { -1i32 }),
    {
        if self.is_positive() {
            1
        } else {
            -1
        }
    }
}

/// The two axes along which content is laid out.
#[derive(Debug, Clone, Copy, PartialEq, Eq, Structural)]
pub struct LayoutAxes {
    pub primary: Axis,
    pub secondary: Axis,
}

/// A size in primary/secondary terms: swapped unless the primary axis is horizontal.
pub open spec fn generalized(axes: LayoutAxes, size: Size2D) -> Size2D {
    if axes.primary.horizontal() {
        size
    } else {
        Size2D { x: size.y, y: size.x }
    }
}

impl LayoutAxes {
    /// One axis is horizontal and the other vertical.
    pub open spec fn wf(self) -> bool {
        self.primary.horizontal() != self.secondary.horizontal()
    }

    pub fn new(primary: Axis, secondary: Axis) -> (r: LayoutAxes)
        requires
            primary.horizontal() != secondary.horizontal(),
        ensures
            r.primary == primary,
            r.secondary == secondary,
            r.wf(),
    {
        LayoutAxes { primary, secondary }
    }

    /// The size with x along the primary axis and y along the secondary one.
    pub fn generalize(&self, size: Size2D) -> (r: Size2D)
        ensures
            r == generalized(*self, size),
    {
        if self.primary.is_horizontal() {
            size
        } else {
            Size2D { x: size.y, y: size.x }
        }
    }

    /// The horizontal/vertical size of a generalized one; the inverse of `generalize`.
    pub fn specialize(&self, size: Size2D) -> (r: Size2D)
        ensures
            r == generalized(*self, size),
            generalized(*self, r) == size,
    {
        self.generalize(size)
    }
}

/// Generalizing twice along the same axes gives back the size it started from.
pub proof fn lemma_generalize_involution(axes: LayoutAxes, size: Size2D)
    ensures
        generalized(axes, generalized(axes, size)) == size,
{
}

/// Where to align content.
#[derive(Debug, Clone, Copy, PartialEq, Eq, Structural)]
pub enum Alignment {
    Origin,
    Center,
    End,
}

/// The alignment along each of the two axes.
#[derive(Debug, Clone, Copy, PartialEq, Eq, Structural)]
pub struct LayoutAlignment {
    pub primary: Alignment,
    pub secondary: Alignment,
}

impl LayoutAlignment {
    pub fn new(primary: Alignment, secondary: Alignment) -> (r: LayoutAlignment)
        ensures
            r.primary == primary,
            r.secondary == secondary,
    {
        LayoutAlignment { primary, secondary }
    }
}

/// The anchor offset of an item aligned in free extent `size` along `axis`.
pub open spec fn anchor_of(axis: Axis, size: int, alignment: Alignment) -> int {
    match alignment {
        Alignment::Center => half_of(size),
        Alignment::Origin => if axis.positive() { 0 } else { size },
        Alignment::End => if axis.positive() { size } else { 0 },
    }
}

/// The offset from the axis's logical origin at which an item with the given
/// alignment is placed, in a container with free extent `size` along `axis`.
pub fn anchor(axis: Axis, size: Size, alignment: Alignment) -> (r: Size)
    ensures
        r.raw == anchor_of(axis, size.raw as int, alignment),
        alignment is Center ==> r.raw == half_of(size.raw as int),
        axis.positive() && alignment is Origin ==> r.raw == 0,
        axis.positive() && alignment is End ==> r == size,
        !axis.positive() && alignment is Origin ==> r == size,
        !axis.positive() && alignment is End ==> r.raw == 0,
{
    match (axis.is_positive(), alignment) {
        (true, Alignment::Origin) | (false, Alignment::End) => Size::zero(),
        (_, Alignment::Center) => size.half(),
        (true, Alignment::End) | (false, Alignment::Origin) => size,
    }
}

/// One candidate region to lay content out in.
#[derive(Debug, Clone, Copy)]
pub struct LayoutSpace {
    /// The maximum size of the box.
    pub dimensions: Size2D,
    /// Whether the result takes the full dimensions (true) or shrinks to its
    /// content (false), for the horizontal and the vertical axis.
    pub expand: (bool, bool),
    /// Padding kept free on each side.
    pub padding: SizeBox,
}

impl LayoutSpace {
    /// The usable area can be computed without overflow.
    pub open spec fn wf(self) -> bool {
        unpadded_fits(self.dimensions, self.padding)
    }

    /// The dimensions minus the padding.
    pub open spec fn usable_area(self) -> Size2D {
        Size2D {
            x: Size { raw: (self.dimensions.x.raw - self.padding.left.raw - self.padding.right.raw) as i64 },
            y: Size { raw: (self.dimensions.y.raw - self.padding.top.raw - self.padding.bottom.raw) as i64 },
        }
    }

    /// The offset from the origin to the start of content: `(padding.left, padding.top)`.
    pub fn start(&self) -> (r: Size2D)
        ensures
            r.x == self.padding.left,
            r.y == self.padding.top,
    {
        Size2D::new(self.padding.left, self.padding.top)
    }

    /// The usable area: dimensions minus padding.
    pub fn usable(&self) -> (r: Size2D)
        requires
            self.wf(),
        ensures
            r == self.usable_area(),
            r.x.raw == self.dimensions.x.raw - self.padding.left.raw - self.padding.right.raw,
            r.y.raw == self.dimensions.y.raw - self.padding.top.raw - self.padding.bottom.raw,
    {
        self.dimensions.unpadded(self.padding)
    }

    /// A space of the usable dimensions, without padding and without expansion.
    pub fn usable_space(&self) -> (r: LayoutSpace)
        requires
            self.wf(),
        ensures
            r.dimensions == self.usable_area(),
            r.expand == (false, false),
            r.padding.left.raw == 0 && r.padding.top.raw == 0,
            r.padding.right.raw == 0 && r.padding.bottom.raw == 0,
            r.wf(),
            r.usable_area() == r.dimensions,
    {
        LayoutSpace { dimensions: self.usable(), expand: (false, false), padding: SizeBox::zero() }
    }
}

} // verus!
