//! Whole-pixel geometry of the layout: points, sizes and rectangles, and how
//! a split divides a rectangle between its two children.

use vstd::prelude::*;
use crate::dock::{SplitDirection, RATIO_SCALE};

verus! {

/// A position in window pixels.
#[derive(Debug, Clone, Copy, PartialEq, Eq, Structural)]
pub struct Point {
    pub x: i32,
    pub y: i32,
}

/// An extent in pixels.
#[derive(Debug, Clone, Copy, PartialEq, Eq, Structural)]
pub struct Size {
    pub width: u32,
    pub height: u32,
}

/// An axis-aligned rectangle: its top-left corner and its extent.
#[derive(Debug, Clone, Copy, PartialEq, Eq, Structural)]
pub struct Rect {
    pub x: i64,
    pub y: i64,
    pub width: u32,
    pub height: u32,
}

impl Point {
    /// The point `(x, y)`.
    pub fn new(x: i32, y: i32) -> (res: Self)
        ensures
            res.x == x,
            res.y == y,
    {
        Point { x, y }
    }
}

impl Size {
    /// The extent `width` by `height`.
    pub fn new(width: u32, height: u32) -> (res: Self)
        ensures
            res.width == width,
            res.height == height,
    {
        Size { width, height }
    }
}

/// The share of `len` that a split with ratio `ratio` gives its first child:
/// `len * ratio / RATIO_SCALE`, rounded down, with ratios above the scale
/// counting as the whole.
pub open spec fn first_part(len: u32, ratio: u32) -> nat {
    let r = if ratio > RATIO_SCALE { RATIO_SCALE as nat } else { ratio as nat };
    ((len as nat) * r / (RATIO_SCALE as nat)) as nat
}

/// The first child's share of `len` (see [`first_part`]).
pub fn first_part_exec(len: u32, ratio: u32) -> (res: u32)
    ensures
        res == first_part(len, ratio),
        res <= len,
{
    let r: u64 = if ratio > RATIO_SCALE { RATIO_SCALE as u64 } else { ratio as u64 };
    proof {
        assert((len as u64) * r <= (len as u64) * (RATIO_SCALE as u64)) by (nonlinear_arith)
            requires r <= RATIO_SCALE;
        assert(((len as nat) * (r as nat)) / (RATIO_SCALE as nat) <= len as nat) by (nonlinear_arith)
            requires r <= RATIO_SCALE;
    }
    (((len as u64) * r) / (RATIO_SCALE as u64)) as u32
}

impl Rect {
    /// Whether `p` lies in the rectangle; the left and top edges belong to
    /// it, the right and bottom edges do not.
    pub open spec fn spec_contains(self, p: Point) -> bool {
        &&& self.x <= p.x
        &&& p.x < self.x + self.width
        &&& self.y <= p.y
        &&& p.y < self.y + self.height
    }

    /// Whether `p` lies in the rectangle.
    pub fn contains(&self, p: Point) -> (res: bool)
        ensures
            res == self.spec_contains(p),
    {
        self.x <= p.x as i64 && (p.x as i64) < self.x + self.width as i64 && self.y <= p.y as i64
            && (p.y as i64) < self.y + self.height as i64
    }

    /// The parts of the rectangle that a split of `direction` and `ratio`
    /// gives its first and its second child: the first part takes
    /// [`first_part`] of the extent along the split axis, the second the rest.
    pub open spec fn split_parts(self, direction: SplitDirection, ratio: u32) -> (Rect, Rect) {
        match direction {
            SplitDirection::Horizontal => {
                let w = first_part(self.width, ratio);
                (
                    Rect { x: self.x, y: self.y, width: w as u32, height: self.height },
                    Rect { x: (self.x + w) as i64, y: self.y, width: (self.width - w) as u32, height: self.height },
                )
            },
            SplitDirection::Vertical => {
                let h = first_part(self.height, ratio);
                (
                    Rect { x: self.x, y: self.y, width: self.width, height: h as u32 },
                    Rect { x: self.x, y: (self.y + h) as i64, width: self.width, height: (self.height - h) as u32 },
                )
            },
        }
    }

    /// The rectangle's edges lie within the 32-bit coordinate range (its
    /// left and top edges no further left or up than `i32::MIN`, its right
    /// and bottom edges no further than `u32::MAX`), so that they and the
    /// pointer's offsets from them can be computed without overflow.
    pub open spec fn in_range(self) -> bool {
        &&& i32::MIN <= self.x
        &&& i32::MIN <= self.y
        &&& self.x + self.width <= u32::MAX
        &&& self.y + self.height <= u32::MAX
    }

    /// Divides the rectangle between the two children of a split.
    pub fn split(&self, direction: SplitDirection, ratio: u32) -> (res: (Rect, Rect))
        requires
            self.in_range(),
        ensures
            res == self.split_parts(direction, ratio),
            res.0.in_range(),
            res.1.in_range(),
    {
        match direction {
            SplitDirection::Horizontal => {
                let w = first_part_exec(self.width, ratio);
                (
                    Rect { x: self.x, y: self.y, width: w, height: self.height },
                    Rect { x: self.x + w as i64, y: self.y, width: self.width - w, height: self.height },
                )
            },
            SplitDirection::Vertical => {
                let h = first_part_exec(self.height, ratio);
                (
                    Rect { x: self.x, y: self.y, width: self.width, height: h },
                    Rect { x: self.x, y: self.y + h as i64, width: self.width, height: self.height - h },
                )
            },
        }
    }
}

/// The two parts of a split tile the rectangle: side by side (or one above
/// the other), without gap or overlap, the first taking its share of the
/// extent and the second the rest.
pub proof fn law_split_tiles(r: Rect, direction: SplitDirection, ratio: u32)
    requires
        r.in_range(),
    ensures
        ({
            let (a, b) = r.split_parts(direction, ratio);
            match direction {
                SplitDirection::Horizontal => {
                    &&& a.x == r.x && a.y == r.y && b.y == r.y
                    &&& a.height == r.height && b.height == r.height
                    &&& b.x == a.x + a.width
                    &&& a.width + b.width == r.width
                    &&& a.width == first_part(r.width, ratio)
                },
                SplitDirection::Vertical => {
                    &&& a.x == r.x && a.y == r.y && b.x == r.x
                    &&& a.width == r.width && b.width == r.width
                    &&& b.y == a.y + a.height
                    &&& a.height + b.height == r.height
                    &&& a.height == first_part(r.height, ratio)
                },
            }
        }),
{
    let len = match direction {
        SplitDirection::Horizontal => r.width,
        SplitDirection::Vertical => r.height,
    };
    let q = if ratio > RATIO_SCALE { RATIO_SCALE as nat } else { ratio as nat };
    assert((len as nat) * q / (RATIO_SCALE as nat) <= len as nat) by (nonlinear_arith)
        requires q <= RATIO_SCALE;
}

} // verus!
