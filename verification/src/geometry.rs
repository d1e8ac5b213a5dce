//! Integer rectangle and point math shared by layout and hit testing.
//!
//! Rectangles use the platform convention: `left`/`top` are inclusive,
//! `right`/`bottom` exclusive, all in client-area pixels.

use vstd::prelude::*;

verus! {

/// A point in client-area coordinates.
#[derive(Clone, Copy, Debug, PartialEq, Eq, Structural)]
pub struct Point {
    pub x: i32,
    pub y: i32,
}

/// A rectangle in client-area coordinates; `right` and `bottom` are exclusive.
#[derive(Clone, Copy, Debug, PartialEq, Eq, Structural)]
pub struct Rect {
    pub left: i32,
    pub top: i32,
    pub right: i32,
    pub bottom: i32,
}

impl Rect {
    /// Width as a mathematical integer (negative for an inverted rectangle).
    pub open spec fn width(self) -> int {
        self.right - self.left
    }

    /// Height as a mathematical integer (negative for an inverted rectangle).
    pub open spec fn height(self) -> int {
        self.bottom - self.top
    }

    /// A rectangle whose sides are ordered.
    pub open spec fn well_formed(self) -> bool {
        self.left <= self.right && self.top <= self.bottom
    }
}

/// Containment test, with the platform's half-open convention:
/// a point on the right or bottom edge is outside.
pub open spec fn spec_pt_in_rect(p: Point, r: Rect) -> bool {
    r.left <= p.x < r.right && r.top <= p.y < r.bottom
}

/// Executable containment test matching `spec_pt_in_rect`.
pub fn pt_in_rect(p: Point, r: Rect) -> (b: bool)
    ensures
        b == spec_pt_in_rect(p, r),
{
    r.left <= p.x && p.x < r.right && r.top <= p.y && p.y < r.bottom
}

/// Scaling of a logical pixel value by `dpi / 96`, truncating.
pub open spec fn spec_dpi_scale(value: int, dpi: int) -> int {
    value * dpi / 96
}

/// Scales a non-negative logical pixel value to physical pixels at `dpi`.
pub fn dpi_scale(value: i32, dpi: u32) -> (r: i32)
    requires
        0 <= value,
        value * dpi <= i32::MAX,
    ensures
        r == spec_dpi_scale(value as int, dpi as int),
        0 <= r <= value * dpi,
{
    let wide: u32 = (value as u32) * dpi;
    proof {
        assert(wide == value * dpi);
        assert(wide / 96 <= wide) by (nonlinear_arith);
    }
    (wide / 96) as i32
}

/// The centered position: `outer.left` plus half the spare width (and the
/// same vertically), sizes kept.
pub open spec fn spec_centered(inner: Rect, outer: Rect) -> Rect {
    let padding_x = (outer.width() - inner.width()) / 2;
    let padding_y = (outer.height() - inner.height()) / 2;
    Rect {
        left: (outer.left + padding_x) as i32,
        top: (outer.top + padding_y) as i32,
        right: (outer.left + padding_x + inner.width()) as i32,
        bottom: (outer.top + padding_y + inner.height()) as i32,
    }
}

/// Moves `to_center` so that it sits centered inside `outer_rect`,
/// keeping its width and height.
pub fn center_rect_in_rect(to_center: &mut Rect, outer_rect: &Rect)
    requires
        0 <= old(to_center).width() <= outer_rect.width(),
        0 <= old(to_center).height() <= outer_rect.height(),
        outer_rect.width() <= i32::MAX,
        outer_rect.height() <= i32::MAX,
    ensures
        *final(to_center) == spec_centered(*old(to_center), *outer_rect),
        final(to_center).width() == old(to_center).width(),
        final(to_center).height() == old(to_center).height(),
        outer_rect.left <= final(to_center).left,
        final(to_center).right <= outer_rect.right,
        outer_rect.top <= final(to_center).top,
        final(to_center).bottom <= outer_rect.bottom,
{
    let to_width: i32 = to_center.right - to_center.left;
    let to_height: i32 = to_center.bottom - to_center.top;
    let outer_width: i32 = outer_rect.right - outer_rect.left;
    let outer_height: i32 = outer_rect.bottom - outer_rect.top;
    let padding_x: i32 = (outer_width - to_width) / 2;
    let padding_y: i32 = (outer_height - to_height) / 2;
    proof {
        assert(0 <= (outer_width - to_width) as int / 2 <= outer_width - to_width);
        assert(0 <= (outer_height - to_height) as int / 2 <= outer_height - to_height);
    }
    to_center.left = outer_rect.left + padding_x;
    to_center.top = outer_rect.top + padding_y;
    to_center.right = to_center.left + to_width;
    to_center.bottom = to_center.top + to_height;
}

} // verus!
