//! Axis-aligned boxes on an integer grid and the nine anchor points of a box.
//!
//! Coordinates of a box are `i32`; everything derived from them (sizes,
//! anchor points) is computed in `i64`, where no sum or difference of two
//! `i32` values can overflow. Halving rounds toward the box's origin, so the
//! anchors of an odd-sized box lie on the grid point just before the exact
//! midpoint.
use vstd::prelude::*;

verus! {

/// A point (or a size) on the integer grid.
#[derive(Clone, Copy, Debug, PartialEq, Eq, Structural)]
pub struct Vector2 {
    pub x: i64,
    pub y: i64,
}

impl Vector2 {
    pub fn new(x: i64, y: i64) -> (r: Vector2)
        ensures
            r.x == x,
            r.y == y,
    {
        Vector2 { x, y }
    }
}

/// The nine named reference points of a rectangle.
#[derive(Clone, Copy, Debug, PartialEq, Eq, Structural)]
pub enum Anchor {
    TopLeft,
    TopCenter,
    TopRight,
    CenterLeft,
    Center,
    CenterRight,
    BottomLeft,
    BottomCenter,
    BottomRight,
}

/// All anchors, row by row from the top, left to right within a row.
pub open spec fn all_anchors() -> Seq<Anchor> {
    seq![
        Anchor::TopLeft,
        Anchor::TopCenter,
        Anchor::TopRight,
        Anchor::CenterLeft,
        Anchor::Center,
        Anchor::CenterRight,
        Anchor::BottomLeft,
        Anchor::BottomCenter,
        Anchor::BottomRight,
    ]
}

impl Anchor {
    /// Every anchor once, in the order of `all_anchors`.
    pub fn values() -> (r: Vec<Anchor>)
        ensures
            r@ == all_anchors(),
    {
        let mut v: Vec<Anchor> = Vec::new();
        v.push(Anchor::TopLeft);
        v.push(Anchor::TopCenter);
        v.push(Anchor::TopRight);
        v.push(Anchor::CenterLeft);
        v.push(Anchor::Center);
        v.push(Anchor::CenterRight);
        v.push(Anchor::BottomLeft);
        v.push(Anchor::BottomCenter);
        v.push(Anchor::BottomRight);
        assert(v@ =~= all_anchors());
        v
    }
}

/// A rectangle given by its top-left corner `(x1, y1)` and its bottom-right
/// corner `(x2, y2)`.
#[derive(Clone, Copy, Debug, PartialEq, Eq, Structural)]
pub struct BoundingBox2D {
    pub x1: i32,
    pub y1: i32,
    pub x2: i32,
    pub y2: i32,
}

/// A rectangle as origin and size, the form in which it is handed to a
/// drawing surface.
#[derive(Clone, Copy, Debug, PartialEq, Eq, Structural)]
pub struct Rect {
    pub x: i64,
    pub y: i64,
    pub width: i64,
    pub height: i64,
}

impl BoundingBox2D {
    /// The corners are in order: no negative extent.
    pub open spec fn wf(self) -> bool {
        self.x1 <= self.x2 && self.y1 <= self.y2
    }

    pub open spec fn width_spec(self) -> int {
        self.x2 - self.x1
    }

    pub open spec fn height_spec(self) -> int {
        self.y2 - self.y1
    }

    /// Where each anchor lies: corners and edges are the straightforward
    /// combinations of the corners and the halved extents.
    pub open spec fn anchor_point(self, anchor: Anchor) -> (int, int) {
        let hw = self.width_spec() / 2;
        let hh = self.height_spec() / 2;
        match anchor {
            Anchor::TopLeft => (self.x1 as int, self.y1 as int),
            Anchor::TopCenter => (self.x1 + hw, self.y1 as int),
            Anchor::TopRight => (self.x2 as int, self.y1 as int),
            Anchor::CenterLeft => (self.x1 as int, self.y1 + hh),
            Anchor::Center => (self.x1 + hw, self.y1 + hh),
            Anchor::CenterRight => (self.x2 as int, self.y1 + hh),
            Anchor::BottomLeft => (self.x1 as int, self.y2 as int),
            Anchor::BottomCenter => (self.x1 + hw, self.y2 as int),
            Anchor::BottomRight => (self.x2 as int, self.y2 as int),
        }
    }

    /// The box with origin `pos` and size `size`, as a value.
    pub open spec fn from_origin_size(pos: Vector2, size: Vector2) -> BoundingBox2D {
        BoundingBox2D {
            x1: pos.x as i32,
            y1: pos.y as i32,
            x2: (pos.x + size.x) as i32,
            y2: (pos.y + size.y) as i32,
        }
    }

    /// The point of `anchor` as a grid point.
    pub open spec fn anchor_vec(self, anchor: Anchor) -> Vector2 {
        Vector2 { x: self.anchor_point(anchor).0 as i64, y: self.anchor_point(anchor).1 as i64 }
    }

    /// The box with origin `(x, y)` and size `(w, h)`.
    pub fn new(x: i32, y: i32, w: i32, h: i32) -> (r: BoundingBox2D)
        requires
            w >= 0,
            h >= 0,
            x + w <= i32::MAX,
            y + h <= i32::MAX,
        ensures
            r.wf(),
            r.x1 == x,
            r.y1 == y,
            r.x2 == x + w,
            r.y2 == y + h,
    {
        BoundingBox2D { x1: x, y1: y, x2: x + w, y2: y + h }
    }

    /// The box with origin `pos` and size `size`.
    pub fn new_v(pos: Vector2, size: Vector2) -> (r: BoundingBox2D)
        requires
            i32::MIN <= pos.x,
            i32::MIN <= pos.y,
            0 <= size.x <= i32::MAX,
            0 <= size.y <= i32::MAX,
            pos.x + size.x <= i32::MAX,
            pos.y + size.y <= i32::MAX,
        ensures
            r.wf(),
            r == BoundingBox2D::from_origin_size(pos, size),
            r.x1 == pos.x,
            r.y1 == pos.y,
            r.x2 == pos.x + size.x,
            r.y2 == pos.y + size.y,
    {
        BoundingBox2D::new(pos.x as i32, pos.y as i32, size.x as i32, size.y as i32)
    }

    pub fn width(&self) -> (r: i64)
        ensures
            r == self.width_spec(),
    {
        self.x2 as i64 - self.x1 as i64
    }

    pub fn height(&self) -> (r: i64)
        ensures
            r == self.height_spec(),
    {
        self.y2 as i64 - self.y1 as i64
    }

    /// The midpoint, halves rounded toward the origin.
    pub fn center(&self) -> (r: Vector2)
        requires
            self.wf(),
        ensures
            (r.x as int, r.y as int) == self.anchor_point(Anchor::Center),
            r.x == self.x1 + self.width_spec() / 2,
            r.y == self.y1 + self.height_spec() / 2,
    {
        Vector2::new(self.x1 as i64 + self.width() / 2, self.y1 as i64 + self.height() / 2)
    }

    /// The point of this box that `anchor` names.
    pub fn calc(&self, anchor: Anchor) -> (r: Vector2)
        requires
            self.wf(),
        ensures
            (r.x as int, r.y as int) == self.anchor_point(anchor),
            r == self.anchor_vec(anchor),
    {
        let hw = self.width() / 2;
        let hh = self.height() / 2;
        let x1 = self.x1 as i64;
        let y1 = self.y1 as i64;
        let x2 = self.x2 as i64;
        let y2 = self.y2 as i64;
        match anchor {
            Anchor::TopLeft => Vector2::new(x1, y1),
            Anchor::TopCenter => Vector2::new(x1 + hw, y1),
            Anchor::TopRight => Vector2::new(x2, y1),
            Anchor::CenterLeft => Vector2::new(x1, y1 + hh),
            Anchor::Center => self.center(),
            Anchor::CenterRight => Vector2::new(x2, y1 + hh),
            Anchor::BottomLeft => Vector2::new(x1, y2),
            Anchor::BottomCenter => Vector2::new(x1 + hw, y2),
            Anchor::BottomRight => Vector2::new(x2, y2),
        }
    }

    pub open spec fn rect_spec(self) -> Rect {
        Rect {
            x: self.x1 as i64,
            y: self.y1 as i64,
            width: self.width_spec() as i64,
            height: self.height_spec() as i64,
        }
    }
}

impl From<BoundingBox2D> for Rect {
    /// The same rectangle as origin and size.
    fn from(b: BoundingBox2D) -> (r: Rect) {
        Rect { x: b.x1 as i64, y: b.y1 as i64, width: b.width(), height: b.height() }
    }
}

impl vstd::std_specs::convert::FromSpecImpl<BoundingBox2D> for Rect {
    open spec fn obeys_from_spec() -> bool {
        true
    }

    open spec fn from_spec(b: BoundingBox2D) -> Rect {
        b.rect_spec()
    }
}

/// A box built from origin and non-negative size has exactly that size, its
/// center is the origin plus half the size, and its anchors are as
/// `anchor_point` places them.
pub proof fn lemma_constructed_box(x: i32, y: i32, w: i32, h: i32, b: BoundingBox2D)
    requires
        w >= 0,
        h >= 0,
        x + w <= i32::MAX,
        y + h <= i32::MAX,
        b == (BoundingBox2D { x1: x, y1: y, x2: (x + w) as i32, y2: (y + h) as i32 }),
    ensures
        b.wf(),
        b.width_spec() == w,
        b.height_spec() == h,
        b.anchor_point(Anchor::Center) == (x + w / 2, y + h / 2),
{
}

} // verus!
