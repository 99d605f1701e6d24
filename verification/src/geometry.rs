//! Screen sizes, points and the base triangle.

use vstd::prelude::*;

verus! {

/// The size of a terminal screen in character cells.
///
/// The cell in column 0, row 0 is the top-left one; x grows to the right and
/// y grows downward.
#[derive(Clone, Copy, Debug, PartialEq, Eq)]
pub struct ScreenDimension {
    /// Number of columns.
    pub width: u16,
    /// Number of rows.
    pub height: u16,
}

impl ScreenDimension {
    /// A screen can hold the figure when neither of its sides is zero.
    pub open spec fn is_valid(&self) -> bool {
        self.width > 0 && self.height > 0
    }

    /// The far corner of the screen: the largest coordinates a point inside
    /// the base triangle can have.
    pub open spec fn corner(&self) -> Point {
        Point { x: self.width, y: self.height }
    }

    pub fn new(width: u16, height: u16) -> (dim: ScreenDimension)
        ensures
            dim.width == width,
            dim.height == height,
    {
        ScreenDimension { width, height }
    }
}

/// A cell position on the screen.
#[derive(Clone, Copy, Debug, PartialEq, Eq, Structural)]
pub struct Point {
    pub x: u16,
    pub y: u16,
}

impl Point {
    pub fn new(x: u16, y: u16) -> (p: Point)
        ensures
            p.x == x,
            p.y == y,
    {
        Point { x, y }
    }

    /// Neither coordinate exceeds that of `bound`.
    pub open spec fn within(self, bound: Point) -> bool {
        self.x <= bound.x && self.y <= bound.y
    }

    /// The point halfway between `self` and `other`, each axis rounded down.
    pub open spec fn midpoint_spec(self, other: Point) -> Point {
        Point { x: ((self.x + other.x) / 2) as u16, y: ((self.y + other.y) / 2) as u16 }
    }

    /// Moves halfway toward `other`. The sum of two coordinates is formed in
    /// a wider type, so no pair of points overflows.
    pub fn midpoint(self, other: Point) -> (m: Point)
        ensures
            m == self.midpoint_spec(other),
            m.x == (self.x + other.x) / 2,
            m.y == (self.y + other.y) / 2,
    {
        let sum_x: u32 = self.x as u32 + other.x as u32;
        let sum_y: u32 = self.y as u32 + other.y as u32;
        Point { x: (sum_x / 2) as u16, y: (sum_y / 2) as u16 }
    }
}

/// The three corners that the chaos game contracts toward. They are fixed
/// once the triangle is built.
#[derive(Clone, Copy, Debug)]
pub struct Triangle {
    pub vertices: [Point; 3],
}

impl View for Triangle {
    type V = Seq<Point>;

    open spec fn view(&self) -> Seq<Point> {
        self.vertices@
    }
}

/// The corners of the triangle that spans a screen: top-left, bottom-centre,
/// top-right.
pub open spec fn base_vertices(dim: ScreenDimension) -> Seq<Point> {
    seq![
        Point { x: 0, y: 0 },
        Point { x: dim.width / 2, y: dim.height },
        Point { x: dim.width, y: 0 },
    ]
}

impl Triangle {
    pub fn new(first: Point, second: Point, third: Point) -> (t: Triangle)
        ensures
            t@ == seq![first, second, third],
    {
        let t = Triangle { vertices: [first, second, third] };
        assert(t@ =~= seq![first, second, third]);
        t
    }

    /// The triangle has the corners of the one that spans the screen `dim`.
    pub open spec fn spans(&self, dim: ScreenDimension) -> bool {
        self@ == base_vertices(dim)
    }

    /// The triangle that spans the screen `dim`: its corners are `(0, 0)`,
    /// `(width / 2, height)` and `(width, 0)`.
    pub fn from_screen(dim: &ScreenDimension) -> (t: Triangle)
        ensures
            t.spans(*dim),
            t@ == seq![
                Point { x: 0, y: 0 },
                Point { x: dim.width / 2, y: dim.height },
                Point { x: dim.width, y: 0 },
            ],
    {
        Triangle::new(
            Point::new(0, 0),
            Point::new(dim.width / 2, dim.height),
            Point::new(dim.width, 0),
        )
    }

    /// The corner that a draw selects: the draw counts around the three
    /// corners.
    pub open spec fn vertex_spec(&self, draw: usize) -> Point {
        self@[(draw % 3) as int]
    }

    pub fn vertex(&self, draw: usize) -> (v: Point)
        ensures
            v == self.vertex_spec(draw),
    {
        self.vertices[draw % 3]
    }

    /// Every corner lies within `bound`.
    pub open spec fn within(&self, bound: Point) -> bool {
        forall|i: int| 0 <= i < 3 ==> (#[trigger] self@[i]).within(bound)
    }
}

/// Building the base triangle is repeatable: two triangles that span screens
/// of equal sides have the same corners, coordinate by coordinate.
pub proof fn lemma_base_triangle_repeatable(
    first: Triangle,
    second: Triangle,
    a: ScreenDimension,
    b: ScreenDimension,
)
    requires
        first.spans(a),
        second.spans(b),
        a.width == b.width,
        a.height == b.height,
    ensures
        first@ == second@,
        forall|i: int|
            0 <= i < 3 ==> first@[i].x == second@[i].x && first@[i].y == second@[i].y,
{
}

/// The triangle that spans a screen lies on that screen: no corner has a
/// coordinate beyond the screen's far corner.
pub proof fn lemma_base_triangle_on_screen(triangle: Triangle, dim: ScreenDimension)
    requires
        triangle.spans(dim),
    ensures
        triangle.within(dim.corner()),
{
}

/// A midpoint lies between its two ends on each axis, so it never leaves the
/// box that holds both.
pub proof fn lemma_midpoint_between(p: Point, q: Point)
    ensures
        p.x <= q.x ==> p.x <= p.midpoint_spec(q).x <= q.x,
        q.x <= p.x ==> q.x <= p.midpoint_spec(q).x <= p.x,
        p.y <= q.y ==> p.y <= p.midpoint_spec(q).y <= q.y,
        q.y <= p.y ==> q.y <= p.midpoint_spec(q).y <= p.y,
        forall|bound: Point|
            p.within(bound) && q.within(bound) ==> #[trigger] p.midpoint_spec(q).within(bound),
{
}

} // verus!
