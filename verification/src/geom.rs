//! Points and rectangles, and the one-pixel tolerance that coalesces
//! geometry updates.

use vstd::prelude::*;

verus! {

/// A point in screen or client coordinates.
#[derive(Clone, Copy, PartialEq, Eq, Structural, Debug)]
pub struct Point {
    pub x: i32,
    pub y: i32,
}

/// A rectangle given by its edges, as the window manager reports it.
#[derive(Clone, Copy, PartialEq, Eq, Structural, Debug)]
pub struct Rect {
    pub left: i32,
    pub top: i32,
    pub right: i32,
    pub bottom: i32,
}

/// A rectangle given by its top-left corner and its size, as move/resize
/// requests carry it.
#[derive(Clone, Copy, PartialEq, Eq, Structural, Debug)]
pub struct PosRect {
    pub x: i32,
    pub y: i32,
    pub w: i32,
    pub h: i32,
}

impl Rect {
    pub open spec fn spec_width(self) -> int {
        self.right - self.left
    }

    pub open spec fn spec_height(self) -> int {
        self.bottom - self.top
    }

    /// Both edge differences fit in `i32`, so the rectangle can be handed to a
    /// move/resize call whose size arguments are `i32`.
    pub open spec fn wf(self) -> bool {
        &&& i32::MIN <= self.spec_width() <= i32::MAX
        &&& i32::MIN <= self.spec_height() <= i32::MAX
    }

    /// The same rectangle in corner-and-size form.
    pub open spec fn spec_as_pos(self) -> PosRect {
        PosRect {
            x: self.left,
            y: self.top,
            w: self.spec_width() as i32,
            h: self.spec_height() as i32,
        }
    }

    pub fn width(&self) -> (r: i32)
        requires
            self.wf(),
        ensures
            r == self.spec_width(),
    {
        (self.right as i64 - self.left as i64) as i32
    }

    pub fn height(&self) -> (r: i32)
        requires
            self.wf(),
        ensures
            r == self.spec_height(),
    {
        (self.bottom as i64 - self.top as i64) as i32
    }

    pub fn as_pos(&self) -> (r: PosRect)
        requires
            self.wf(),
        ensures
            r == self.spec_as_pos(),
    {
        PosRect { x: self.left, y: self.top, w: self.width(), h: self.height() }
    }
}

/// Two coordinates agree up to one pixel of rounding drift.
pub open spec fn close1(a: int, b: int) -> bool {
    -1 <= a - b <= 1
}

/// The observed client rectangle and the requested one agree in every
/// component up to one pixel; such a request is dropped to stop update storms.
pub open spec fn within_tolerance(cur: PosRect, req: PosRect) -> bool {
    &&& close1(cur.x as int, req.x as int)
    &&& close1(cur.y as int, req.y as int)
    &&& close1(cur.w as int, req.w as int)
    &&& close1(cur.h as int, req.h as int)
}

/// One-pixel closeness test, computed without overflow.
pub fn close_within_one(a: i32, b: i32) -> (r: bool)
    ensures
        r == close1(a as int, b as int),
{
    let d: i64 = a as i64 - b as i64;
    -1 <= d && d <= 1
}

pub fn rects_within_tolerance(cur: &PosRect, req: &PosRect) -> (r: bool)
    ensures
        r == within_tolerance(*cur, *req),
{
    close_within_one(cur.x, req.x) && close_within_one(cur.y, req.y) && close_within_one(
        cur.w,
        req.w,
    ) && close_within_one(cur.h, req.h)
}

} // verus!
