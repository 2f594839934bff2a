//! The room a frame takes around its content: margins, and the rectangles
//! that a frame derives from them.

use vstd::prelude::*;
use crate::geometry::{Pos2, Rect, Vec2};

verus! {

/// Distances kept free on the four sides of a rectangle, in layout units.
#[derive(Clone, Copy, Debug, PartialEq, Eq, Structural)]
pub struct Margin {
    pub left: i64,
    pub right: i64,
    pub top: i64,
    pub bottom: i64,
}

/// `v` is representable as a coordinate.
pub open spec fn representable(v: int) -> bool {
    i64::MIN <= v <= i64::MAX
}

impl Margin {
    /// The margin with `border_size.x` added on the left and on the right and
    /// `border_size.y` added at the top and at the bottom, where all four sums
    /// are representable.
    pub open spec fn spec_widen(self, border_size: Vec2) -> Option<Margin> {
        if representable(self.left + border_size.x) && representable(self.right + border_size.x)
            && representable(self.top + border_size.y) && representable(
            self.bottom + border_size.y,
        ) {
            Some(
                Margin {
                    left: (self.left + border_size.x) as i64,
                    right: (self.right + border_size.x) as i64,
                    top: (self.top + border_size.y) as i64,
                    bottom: (self.bottom + border_size.y) as i64,
                },
            )
        } else {
            None
        }
    }

    /// Widens the margin by the border thickness on all sides, so that
    /// content laid out inside it stays clear of the border bands.
    pub fn widen(&self, border_size: &Vec2) -> (r: Option<Margin>)
        ensures
            r == self.spec_widen(*border_size),
    {
        match (
            self.left.checked_add(border_size.x),
            self.right.checked_add(border_size.x),
            self.top.checked_add(border_size.y),
            self.bottom.checked_add(border_size.y),
        ) {
            (Some(left), Some(right), Some(top), Some(bottom)) => Some(
                Margin { left, right, top, bottom },
            ),
            _ => None,
        }
    }
}

impl Rect {
    /// The rectangle with every side moved outwards by the margin on that
    /// side, where the four new coordinates are representable.
    pub open spec fn spec_expand(self, margin: Margin) -> Option<Rect> {
        if representable(self.min.x - margin.left) && representable(self.min.y - margin.top)
            && representable(self.max.x + margin.right) && representable(
            self.max.y + margin.bottom,
        ) {
            Some(
                Rect {
                    min: Pos2 {
                        x: (self.min.x - margin.left) as i64,
                        y: (self.min.y - margin.top) as i64,
                    },
                    max: Pos2 {
                        x: (self.max.x + margin.right) as i64,
                        y: (self.max.y + margin.bottom) as i64,
                    },
                },
            )
        } else {
            None
        }
    }

    /// The rectangle with every side moved inwards by the margin on that
    /// side, where the four new coordinates are representable.
    pub open spec fn spec_shrink(self, margin: Margin) -> Option<Rect> {
        if representable(self.min.x + margin.left) && representable(self.min.y + margin.top)
            && representable(self.max.x - margin.right) && representable(
            self.max.y - margin.bottom,
        ) {
            Some(
                Rect {
                    min: Pos2 {
                        x: (self.min.x + margin.left) as i64,
                        y: (self.min.y + margin.top) as i64,
                    },
                    max: Pos2 {
                        x: (self.max.x - margin.right) as i64,
                        y: (self.max.y - margin.bottom) as i64,
                    },
                },
            )
        } else {
            None
        }
    }

    pub fn expand(&self, margin: &Margin) -> (r: Option<Rect>)
        ensures
            r == self.spec_expand(*margin),
    {
        match (
            self.min.x.checked_sub(margin.left),
            self.min.y.checked_sub(margin.top),
            self.max.x.checked_add(margin.right),
            self.max.y.checked_add(margin.bottom),
        ) {
            (Some(x0), Some(y0), Some(x1), Some(y1)) => Some(
                Rect { min: Pos2 { x: x0, y: y0 }, max: Pos2 { x: x1, y: y1 } },
            ),
            _ => None,
        }
    }

    pub fn shrink(&self, margin: &Margin) -> (r: Option<Rect>)
        ensures
            r == self.spec_shrink(*margin),
    {
        match (
            self.min.x.checked_add(margin.left),
            self.min.y.checked_add(margin.top),
            self.max.x.checked_sub(margin.right),
            self.max.y.checked_sub(margin.bottom),
        ) {
            (Some(x0), Some(y0), Some(x1), Some(y1)) => Some(
                Rect { min: Pos2 { x: x0, y: y0 }, max: Pos2 { x: x1, y: y1 } },
            ),
            _ => None,
        }
    }
}

/// The area left for a frame's content: what is available, less the inner
/// and then the outer margin.
pub open spec fn spec_inner_area(available: Rect, inner_margin: Margin, outer_margin: Margin) -> Option<
    Rect,
> {
    match available.spec_shrink(inner_margin) {
        Some(within) => within.spec_shrink(outer_margin),
        None => None,
    }
}

/// The area that a frame occupies and paints: what its content took, plus
/// the inner margin, less the outer margin.
pub open spec fn spec_frame_area(content: Rect, inner_margin: Margin, outer_margin: Margin) -> Option<
    Rect,
> {
    match content.spec_expand(inner_margin) {
        Some(around) => around.spec_shrink(outer_margin),
        None => None,
    }
}

/// The area in which a frame lays out its content.
pub fn inner_area(available: &Rect, inner_margin: &Margin, outer_margin: &Margin) -> (r: Option<Rect>)
    ensures
        r == spec_inner_area(*available, *inner_margin, *outer_margin),
{
    match available.shrink(inner_margin) {
        Some(within) => within.shrink(outer_margin),
        None => None,
    }
}

/// The area that a frame allocates once its content is laid out.
pub fn frame_area(content: &Rect, inner_margin: &Margin, outer_margin: &Margin) -> (r: Option<Rect>)
    ensures
        r == spec_frame_area(*content, *inner_margin, *outer_margin),
{
    match content.expand(inner_margin) {
        Some(around) => around.shrink(outer_margin),
        None => None,
    }
}

/// Content laid out in the area that a widened margin leaves lies inside the
/// centre of the nine-slice grid over the frame: between the border bands on
/// both axes.
pub proof fn lemma_widened_margin_clears_border(
    frame: Rect,
    content_margin: Margin,
    border_size: Vec2,
)
    requires
        content_margin.left >= 0,
        content_margin.right >= 0,
        content_margin.top >= 0,
        content_margin.bottom >= 0,
        content_margin.spec_widen(border_size) is Some,
        frame.spec_shrink(content_margin.spec_widen(border_size)->Some_0) is Some,
    ensures
        ({
            let inner = frame.spec_shrink(content_margin.spec_widen(border_size)->Some_0)->Some_0;
            &&& frame.min.x + border_size.x <= inner.min.x
            &&& inner.max.x <= frame.max.x - border_size.x
            &&& frame.min.y + border_size.y <= inner.min.y
            &&& inner.max.y <= frame.max.y - border_size.y
        }),
{
}

} // verus!
