//! Integer geometry on the tile grid.

use vstd::prelude::*;

verus! {

/// A point on the integer grid.
#[derive(Clone, Copy, Debug, PartialEq, Eq, Structural, Hash)]
pub struct IPoint {
    pub x: i64,
    pub y: i64,
}

/// A width and a height on the integer grid.
#[derive(Clone, Copy, Debug, PartialEq, Eq, Structural, Hash)]
pub struct ISize {
    pub width: usize,
    pub height: usize,
}

/// An axis aligned rectangle of grid cells: the cells `x` with
/// `left <= x < left + width` and `y` with `top <= y < top + height`.
#[derive(Clone, Copy, Debug, PartialEq, Eq, Structural, Hash)]
pub struct IRect {
    pub top_left: IPoint,
    pub size: ISize,
}

impl IPoint {
    pub fn new(x: i64, y: i64) -> (p: IPoint)
        ensures
            p.x == x,
            p.y == y,
    {
        IPoint { x, y }
    }
}

impl Default for IPoint {
    fn default() -> (p: IPoint)
        ensures
            p.x == 0,
            p.y == 0,
    {
        IPoint { x: 0, y: 0 }
    }
}

impl ISize {
    pub fn new(width: usize, height: usize) -> (s: ISize)
        ensures
            s.width == width,
            s.height == height,
    {
        ISize { width, height }
    }

    /// Number of cells covered by a rectangle of this size.
    pub fn area(&self) -> (a: usize)
        requires
            self.width * self.height <= usize::MAX,
        ensures
            a == self.width * self.height,
    {
        self.width * self.height
    }
}

impl Default for ISize {
    fn default() -> (s: ISize)
        ensures
            s.width == 0,
            s.height == 0,
    {
        ISize { width: 0, height: 0 }
    }
}

impl Default for IRect {
    fn default() -> (r: IRect)
        ensures
            r.top_left.x == 0,
            r.top_left.y == 0,
            r.size.width == 0,
            r.size.height == 0,
    {
        IRect { top_left: IPoint { x: 0, y: 0 }, size: ISize { width: 0, height: 0 } }
    }
}

impl IRect {
    /// First column of the rectangle.
    pub open spec fn left(self) -> int {
        self.top_left.x as int
    }

    /// First row of the rectangle.
    pub open spec fn top(self) -> int {
        self.top_left.y as int
    }

    /// The column just past the rectangle.
    pub open spec fn right(self) -> int {
        self.top_left.x + self.size.width
    }

    /// The row just past the rectangle.
    pub open spec fn bottom(self) -> int {
        self.top_left.y + self.size.height
    }

    /// The cell `p` lies in the rectangle.
    pub open spec fn holds_point(self, p: IPoint) -> bool {
        &&& self.left() <= p.x < self.right()
        &&& self.top() <= p.y < self.bottom()
    }

    /// Every cell of `other` lies in the rectangle (bounds taken as numbers).
    pub open spec fn holds_rect(self, other: IRect) -> bool {
        &&& self.left() <= other.left()
        &&& other.right() <= self.right()
        &&& self.top() <= other.top()
        &&& other.bottom() <= self.bottom()
    }

    /// The rectangle grown by `d` cells on each of its four sides.
    pub open spec fn grown(self, d: int) -> (int, int, int, int) {
        (self.left() - d, self.top() - d, self.size.width + 2 * d, self.size.height + 2 * d)
    }

    /// The four numbers `(left, top, width, height)` of the rectangle.
    pub open spec fn bounds(self) -> (int, int, int, int) {
        (self.left(), self.top(), self.size.width as int, self.size.height as int)
    }

    /// The rectangle grown by `d` cells on each of its four sides.
    pub open spec fn expanded(self, d: int) -> IRect {
        IRect {
            top_left: IPoint { x: (self.left() - d) as i64, y: (self.top() - d) as i64 },
            size: ISize {
                width: (self.size.width + 2 * d) as usize,
                height: (self.size.height + 2 * d) as usize,
            },
        }
    }

    /// Growing by `d` stays representable.
    pub open spec fn can_grow(self, d: int) -> bool {
        &&& i64::MIN <= self.left() - d
        &&& i64::MIN <= self.top() - d
        &&& self.size.width + 2 * d <= usize::MAX
        &&& self.size.height + 2 * d <= usize::MAX
    }

    pub fn new(x: i64, y: i64, width: usize, height: usize) -> (r: IRect)
        ensures
            r.bounds() == (x as int, y as int, width as int, height as int),
    {
        IRect { top_left: IPoint { x, y }, size: ISize { width, height } }
    }

    /// Check whether the given cell lies in this rectangle.
    pub fn contains_point(&self, point: &IPoint) -> (b: bool)
        ensures
            b == self.holds_point(*point),
    {
        let dx: i128 = point.x as i128 - self.top_left.x as i128;
        let dy: i128 = point.y as i128 - self.top_left.y as i128;
        0 <= dx && dx < self.size.width as i128 && 0 <= dy && dy < self.size.height as i128
    }

    /// Check whether every cell of the given rectangle lies in this one.
    pub fn contains_rect(&self, other: &IRect) -> (b: bool)
        ensures
            b == self.holds_rect(*other),
    {
        let left: i128 = self.top_left.x as i128;
        let top: i128 = self.top_left.y as i128;
        let right: i128 = left + self.size.width as i128;
        let bottom: i128 = top + self.size.height as i128;
        let o_left: i128 = other.top_left.x as i128;
        let o_top: i128 = other.top_left.y as i128;
        let o_right: i128 = o_left + other.size.width as i128;
        let o_bottom: i128 = o_top + other.size.height as i128;
        left <= o_left && o_right <= right && top <= o_top && o_bottom <= bottom
    }

    /// The rectangle grown by `distance` cells on every side.
    pub fn expanded_by(&self, distance: usize) -> (r: IRect)
        requires
            self.can_grow(distance as int),
        ensures
            r.bounds() == self.grown(distance as int),
            r == self.expanded(distance as int),
    {
        IRect {
            top_left: IPoint {
                x: (self.top_left.x as i128 - distance as i128) as i64,
                y: (self.top_left.y as i128 - distance as i128) as i64,
            },
            size: ISize {
                width: self.size.width + 2 * distance,
                height: self.size.height + 2 * distance,
            },
        }
    }
}

} // verus!
