//! Points, vectors and axis-aligned rectangles in fixed-point units.

use vstd::prelude::*;
use crate::units::COORD_MAX;

verus! {

/// A point or a displacement in the plane. `y` grows upwards.
#[derive(Clone, Copy, Debug, PartialEq, Eq, Structural)]
pub struct Vec2 {
    pub x: i32,
    pub y: i32,
}

/// Shorthand for building a [`Vec2`].
pub fn vec2(x: i32, y: i32) -> (v: Vec2)
    ensures
        v == (Vec2 { x, y }),
{
    Vec2 { x, y }
}

/// An axis-aligned rectangle. Its edges are ordered and stay within
/// `COORD_MAX` of the origin, so its width and height fit in an `i32`.
#[derive(Clone, Copy, Debug, PartialEq, Eq)]
pub struct Rect {
    left: i32,
    right: i32,
    bottom: i32,
    top: i32,
}

/// Whether four edges describe a rectangle this library can hold.
pub open spec fn edges_ok(left: int, right: int, bottom: int, top: int) -> bool {
    &&& -(COORD_MAX as int) <= left <= right <= COORD_MAX as int
    &&& -(COORD_MAX as int) <= bottom <= top <= COORD_MAX as int
}

impl Rect {
    /// The invariant every `Rect` satisfies.
    #[verifier::type_invariant]
    pub closed spec fn wf(&self) -> bool {
        edges_ok(self.left as int, self.right as int, self.bottom as int, self.top as int)
    }

    pub closed spec fn spec_left(&self) -> i32 {
        self.left
    }

    pub closed spec fn spec_right(&self) -> i32 {
        self.right
    }

    pub closed spec fn spec_bottom(&self) -> i32 {
        self.bottom
    }

    pub closed spec fn spec_top(&self) -> i32 {
        self.top
    }

    /// Width as a mathematical integer.
    pub open spec fn spec_w(&self) -> int {
        self.spec_right() - self.spec_left()
    }

    /// Height as a mathematical integer.
    pub open spec fn spec_h(&self) -> int {
        self.spec_top() - self.spec_bottom()
    }

    /// What `wf` means in terms of the edges.
    pub proof fn lemma_wf_edges(&self)
        requires
            self.wf(),
        ensures
            edges_ok(
                self.spec_left() as int,
                self.spec_right() as int,
                self.spec_bottom() as int,
                self.spec_top() as int,
            ),
    {
    }

    /// The rectangle with the given edges, or `None` when they are out of
    /// order or further than `COORD_MAX` from the origin.
    pub fn from_edges(left: i32, right: i32, bottom: i32, top: i32) -> (r: Option<Rect>)
        ensures
            r.is_some() <==> edges_ok(left as int, right as int, bottom as int, top as int),
            r matches Some(rect) ==> {
                &&& rect.wf()
                &&& rect.spec_left() == left
                &&& rect.spec_right() == right
                &&& rect.spec_bottom() == bottom
                &&& rect.spec_top() == top
            },
    {
        if -COORD_MAX <= left && left <= right && right <= COORD_MAX && -COORD_MAX <= bottom
            && bottom <= top && top <= COORD_MAX {
            Some(Rect { left, right, bottom, top })
        } else {
            None
        }
    }

    /// The rectangle centred on `(x, y)` that is `w` wide and `h` high. When
    /// an extent is odd, the extra unit lies on the right or the top. `None`
    /// when an extent is negative or an edge would pass `COORD_MAX`.
    pub fn from_x_y_w_h(x: i32, y: i32, w: i32, h: i32) -> (r: Option<Rect>)
        ensures
            r.is_some() <==> w >= 0 && h >= 0 && edges_ok(
                x - w / 2,
                x - w / 2 + w,
                y - h / 2,
                y - h / 2 + h,
            ),
            r matches Some(rect) ==> {
                &&& rect.wf()
                &&& rect.spec_left() == x - w / 2
                &&& rect.spec_right() == x - w / 2 + w
                &&& rect.spec_bottom() == y - h / 2
                &&& rect.spec_top() == y - h / 2 + h
            },
    {
        if w < 0 || h < 0 {
            return None;
        }
        let left: i64 = x as i64 - (w / 2) as i64;
        let right: i64 = left + w as i64;
        let bottom: i64 = y as i64 - (h / 2) as i64;
        let top: i64 = bottom + h as i64;
        let limit: i64 = COORD_MAX as i64;
        if -limit <= left && right <= limit && -limit <= bottom && top <= limit {
            Some(
                Rect {
                    left: left as i32,
                    right: right as i32,
                    bottom: bottom as i32,
                    top: top as i32,
                },
            )
        } else {
            None
        }
    }

    #[verifier::when_used_as_spec(spec_left)]
    pub fn left(&self) -> (r: i32)
        ensures
            r == self.spec_left(),
    {
        self.left
    }

    #[verifier::when_used_as_spec(spec_right)]
    pub fn right(&self) -> (r: i32)
        ensures
            r == self.spec_right(),
    {
        self.right
    }

    #[verifier::when_used_as_spec(spec_bottom)]
    pub fn bottom(&self) -> (r: i32)
        ensures
            r == self.spec_bottom(),
    {
        self.bottom
    }

    #[verifier::when_used_as_spec(spec_top)]
    pub fn top(&self) -> (r: i32)
        ensures
            r == self.spec_top(),
    {
        self.top
    }

    /// Width: the distance from the left edge to the right edge.
    pub fn w(&self) -> (r: i32)
        ensures
            r == self.spec_w(),
            r >= 0,
    {
        proof {
            use_type_invariant(self);
        }
        self.right - self.left
    }

    /// Height: the distance from the bottom edge to the top edge.
    pub fn h(&self) -> (r: i32)
        ensures
            r == self.spec_h(),
            r >= 0,
    {
        proof {
            use_type_invariant(self);
        }
        self.top - self.bottom
    }

    /// Width and height as a vector.
    pub fn wh(&self) -> (v: Vec2)
        ensures
            v.x == self.spec_w(),
            v.y == self.spec_h(),
    {
        Vec2 { x: self.w(), y: self.h() }
    }

    /// The centre, rounded toward the bottom-left corner.
    pub fn xy(&self) -> (v: Vec2)
        ensures
            v.x == self.spec_left() + self.spec_w() / 2,
            v.y == self.spec_bottom() + self.spec_h() / 2,
    {
        Vec2 { x: self.left + self.w() / 2, y: self.bottom + self.h() / 2 }
    }

    pub fn top_left(&self) -> (v: Vec2)
        ensures
            v == (Vec2 { x: self.spec_left(), y: self.spec_top() }),
    {
        Vec2 { x: self.left, y: self.top }
    }

    pub fn bottom_left(&self) -> (v: Vec2)
        ensures
            v == (Vec2 { x: self.spec_left(), y: self.spec_bottom() }),
    {
        Vec2 { x: self.left, y: self.bottom }
    }

    pub fn bottom_right(&self) -> (v: Vec2)
        ensures
            v == (Vec2 { x: self.spec_right(), y: self.spec_bottom() }),
    {
        Vec2 { x: self.right, y: self.bottom }
    }

    /// Whether `p` lies inside the rectangle, edges included.
    pub fn contains(&self, p: Vec2) -> (b: bool)
        ensures
            b == self.spec_contains(p),
    {
        self.left <= p.x && p.x <= self.right && self.bottom <= p.y && p.y <= self.top
    }

    pub open spec fn spec_contains(&self, p: Vec2) -> bool {
        &&& self.spec_left() <= p.x <= self.spec_right()
        &&& self.spec_bottom() <= p.y <= self.spec_top()
    }
}

} // verus!
