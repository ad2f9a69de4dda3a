//! The arena: a rectangle of the plane fenced by four walls, and the test
//! that tells which side of a box another box has struck.

use vstd::prelude::*;
use crate::fixed::{divide, lemma_product_bound, product, quotient, times, LIMIT, SCALE};
use crate::geometry::Point;

verus! {

/// The rectangle in which everything lives, and the thickness of its walls.
#[derive(Clone, Copy, Debug, PartialEq, Eq, Structural)]
pub struct Arena {
    pub left: i64,
    pub right: i64,
    pub bottom: i64,
    pub top: i64,
    pub thickness: i64,
}

/// The side of the arena on which a wall stands.
#[derive(Clone, Copy, Debug, PartialEq, Eq, Structural)]
pub enum BoundaryLocation {
    Left,
    Right,
    Bottom,
    Top,
}

/// An axis-aligned box: its centre and its full extent along each axis.
#[derive(Clone, Copy, Debug, PartialEq, Eq, Structural)]
pub struct Body {
    pub position: Point,
    pub size: Point,
}

/// The side of the second box that the first one has struck, or `Inside`
/// where, along neither axis, the first straddles just one end of the second.
#[derive(Clone, Copy, Debug, PartialEq, Eq, Structural)]
pub enum Collision {
    Left,
    Right,
    Top,
    Bottom,
    Inside,
}

impl Arena {
    /// The arena has a positive width and height, and fits the representable plane.
    pub open spec fn wf(&self) -> bool {
        &&& -LIMIT <= self.left < self.right <= LIMIT
        &&& -LIMIT <= self.bottom < self.top <= LIMIT
        &&& 0 <= self.thickness <= LIMIT
    }

    /// The point lies in the arena, its edges included.
    pub open spec fn holds(&self, p: Point) -> bool {
        self.left <= p.x <= self.right && self.bottom <= p.y <= self.top
    }

    /// The centre of the arena, each coordinate rounded toward zero.
    pub open spec fn centre(&self) -> Point {
        Point {
            x: quotient(self.left + self.right, 2) as i64,
            y: quotient(self.bottom + self.top, 2) as i64,
        }
    }

    /// Tells whether the arena is well formed.
    pub fn is_valid(&self) -> (r: bool)
        ensures
            r == self.wf(),
    {
        -LIMIT <= self.left && self.left < self.right && self.right <= LIMIT && -LIMIT
            <= self.bottom && self.bottom < self.top && self.top <= LIMIT && 0 <= self.thickness
            && self.thickness <= LIMIT
    }

    /// Tells whether the point lies in the arena, its edges included.
    pub fn contains(&self, p: Point) -> (r: bool)
        ensures
            r == self.holds(p),
    {
        self.left <= p.x && p.x <= self.right && self.bottom <= p.y && p.y <= self.top
    }

    /// The point that lies the fraction `u` of the way across the arena and
    /// the fraction `v` of the way up.
    pub open spec fn spot(&self, u: int, v: int) -> Point {
        Point {
            x: (self.left + product(u, self.right - self.left)) as i64,
            y: (self.bottom + product(v, self.top - self.bottom)) as i64,
        }
    }

    /// The point that lies the fraction `u` of the way across the arena and
    /// the fraction `v` of the way up.
    pub fn place(&self, u: i64, v: i64) -> (r: Point)
        requires
            self.wf(),
            0 <= u <= SCALE,
            0 <= v <= SCALE,
        ensures
            r == self.spot(u as int, v as int),
            self.holds(r),
    {
        let width: i64 = self.right - self.left;
        let height: i64 = self.top - self.bottom;
        proof {
            lemma_product_bound(u as int, width as int, SCALE as int, width as int);
            lemma_product_bound(v as int, height as int, SCALE as int, height as int);
            assert((SCALE * width) / (SCALE as int) == width) by (nonlinear_arith)
                requires
                    SCALE == 1_000_000_000,
            ;
            assert((SCALE * height) / (SCALE as int) == height) by (nonlinear_arith)
                requires
                    SCALE == 1_000_000_000,
            ;
        }
        Point { x: self.left + times(u, width), y: self.bottom + times(v, height) }
    }

    /// The centre of the arena.
    pub fn middle(&self) -> (r: Point)
        requires
            self.wf(),
        ensures
            r == self.centre(),
            self.holds(r),
    {
        let x: i128 = divide((self.left + self.right) as i128, 2);
        let y: i128 = divide((self.bottom + self.top) as i128, 2);
        Point { x: x as i64, y: y as i64 }
    }
}

impl BoundaryLocation {
    /// Where the wall on this side is centred: on the arena's edge, halfway along it.
    pub open spec fn centre(&self, arena: Arena) -> Point {
        match self {
            BoundaryLocation::Left => Point { x: arena.left, y: arena.centre().y },
            BoundaryLocation::Right => Point { x: arena.right, y: arena.centre().y },
            BoundaryLocation::Bottom => Point { x: arena.centre().x, y: arena.bottom },
            BoundaryLocation::Top => Point { x: arena.centre().x, y: arena.top },
        }
    }

    /// The extent of the wall on this side: as thick as the arena says, and
    /// longer than the edge by that thickness, so that the corners close.
    pub open spec fn extent(&self, arena: Arena) -> Point {
        match self {
            BoundaryLocation::Left | BoundaryLocation::Right => Point {
                x: arena.thickness,
                y: (arena.top - arena.bottom + arena.thickness) as i64,
            },
            BoundaryLocation::Bottom | BoundaryLocation::Top => Point {
                x: (arena.right - arena.left + arena.thickness) as i64,
                y: arena.thickness,
            },
        }
    }

    /// The centre of the wall on this side of the arena.
    pub fn position(&self, arena: &Arena) -> (r: Point)
        requires
            arena.wf(),
        ensures
            r == self.centre(*arena),
            r.within(LIMIT as int),
    {
        let mid = arena.middle();
        match self {
            BoundaryLocation::Left => Point { x: arena.left, y: mid.y },
            BoundaryLocation::Right => Point { x: arena.right, y: mid.y },
            BoundaryLocation::Bottom => Point { x: mid.x, y: arena.bottom },
            BoundaryLocation::Top => Point { x: mid.x, y: arena.top },
        }
    }

    /// The extent of the wall on this side of the arena.
    pub fn size(&self, arena: &Arena) -> (r: Point)
        requires
            arena.wf(),
        ensures
            r == self.extent(*arena),
            0 <= r.x <= 3 * LIMIT,
            0 <= r.y <= 3 * LIMIT,
    {
        let height: i64 = arena.top - arena.bottom;
        let width: i64 = arena.right - arena.left;
        match self {
            BoundaryLocation::Left | BoundaryLocation::Right => Point {
                x: arena.thickness,
                y: height + arena.thickness,
            },
            BoundaryLocation::Bottom | BoundaryLocation::Top => Point {
                x: width + arena.thickness,
                y: arena.thickness,
            },
        }
    }
}

impl Body {
    /// The box fits the representable plane, and its extent is not negative.
    pub open spec fn wf(&self) -> bool {
        &&& self.position.within(2 * LIMIT)
        &&& 0 <= self.size.x <= 3 * LIMIT
        &&& 0 <= self.size.y <= 3 * LIMIT
    }

    /// Twice the least x of the box.
    pub open spec fn west(&self) -> int {
        2 * self.position.x - self.size.x
    }

    /// Twice the greatest x of the box.
    pub open spec fn east(&self) -> int {
        2 * self.position.x + self.size.x
    }

    /// Twice the least y of the box.
    pub open spec fn south(&self) -> int {
        2 * self.position.y - self.size.y
    }

    /// Twice the greatest y of the box.
    pub open spec fn north(&self) -> int {
        2 * self.position.y + self.size.y
    }

    /// The wall that stands on the given side of the arena.
    pub fn wall(location: BoundaryLocation, arena: &Arena) -> (r: Body)
        requires
            arena.wf(),
        ensures
            r.position == location.centre(*arena),
            r.size == location.extent(*arena),
            r.wf(),
    {
        Body { position: location.position(arena), size: location.size(arena) }
    }
}

/// The two boxes share an area.
pub open spec fn overlap(a: Body, b: Body) -> bool {
    a.west() < b.east() && a.east() > b.west() && a.south() < b.north() && a.north() > b.south()
}

/// Along one axis, with `lo` and `hi` the ends of each box: how deep the
/// first box reaches into the second across the one end of the second that
/// it straddles; nothing where it straddles both ends or none. The side is
/// -1 for the low end, 1 for the high end.
pub open spec fn reach(a_lo: int, a_hi: int, b_lo: int, b_hi: int) -> Option<(int, int)> {
    if a_lo < b_lo && a_hi > b_lo && a_hi < b_hi {
        Some((-1int, a_hi - b_lo))
    } else if a_lo > b_lo && a_lo < b_hi && a_hi > b_hi {
        Some((1int, b_hi - a_lo))
    } else {
        None
    }
}

/// The side of `b` that `a` has struck: none where the boxes share no area;
/// else the side across which `a` reaches less deep, the horizontal one
/// where both depths are equal; `Inside` where `a` straddles one end of `b`
/// along neither axis.
pub open spec fn contact(a: Body, b: Body) -> Option<Collision> {
    if !overlap(a, b) {
        None
    } else {
        let across = reach(a.west(), a.east(), b.west(), b.east());
        let along = reach(a.south(), a.north(), b.south(), b.north());
        let horizontal = match across {
            Some((side, _)) => if side < 0 {
                Collision::Left
            } else {
                Collision::Right
            },
            None => Collision::Inside,
        };
        let vertical = match along {
            Some((side, _)) => if side < 0 {
                Collision::Bottom
            } else {
                Collision::Top
            },
            None => Collision::Inside,
        };
        let vertical_wins = match (across, along) {
            (Some((_, dx)), Some((_, dy))) => dy < dx,
            (None, Some(_)) => true,
            _ => false,
        };
        Some(
            if vertical_wins {
                vertical
            } else {
                horizontal
            },
        )
    }
}

/// The heading after striking a wall on the given side: the component that
/// points into the wall is turned back, and nothing else changes.
pub open spec fn reflected(d: Point, c: Collision) -> Point {
    match c {
        Collision::Left => if d.x > 0 {
            Point { x: (-d.x) as i64, y: d.y }
        } else {
            d
        },
        Collision::Right => if d.x < 0 {
            Point { x: (-d.x) as i64, y: d.y }
        } else {
            d
        },
        Collision::Top => if d.y < 0 {
            Point { x: d.x, y: (-d.y) as i64 }
        } else {
            d
        },
        Collision::Bottom => if d.y > 0 {
            Point { x: d.x, y: (-d.y) as i64 }
        } else {
            d
        },
        Collision::Inside => d,
    }
}

/// Tells which side of `b` the box `a` has struck, if the two share an area.
pub fn collide(a: &Body, b: &Body) -> (r: Option<Collision>)
    requires
        a.wf(),
        b.wf(),
    ensures
        r == contact(*a, *b),
{
    let a_west: i64 = 2 * a.position.x - a.size.x;
    let a_east: i64 = 2 * a.position.x + a.size.x;
    let a_south: i64 = 2 * a.position.y - a.size.y;
    let a_north: i64 = 2 * a.position.y + a.size.y;
    let b_west: i64 = 2 * b.position.x - b.size.x;
    let b_east: i64 = 2 * b.position.x + b.size.x;
    let b_south: i64 = 2 * b.position.y - b.size.y;
    let b_north: i64 = 2 * b.position.y + b.size.y;
    if a_west < b_east && a_east > b_west && a_south < b_north && a_north > b_south {
        let mut horizontal = Collision::Inside;
        let mut dx: i64 = 0;
        let mut across: bool = false;
        if a_west < b_west && a_east > b_west && a_east < b_east {
            horizontal = Collision::Left;
            dx = a_east - b_west;
            across = true;
        } else if a_west > b_west && a_west < b_east && a_east > b_east {
            horizontal = Collision::Right;
            dx = b_east - a_west;
            across = true;
        }
        let mut vertical = Collision::Inside;
        let mut dy: i64 = 0;
        let mut along: bool = false;
        if a_south < b_south && a_north > b_south && a_north < b_north {
            vertical = Collision::Bottom;
            dy = a_north - b_south;
            along = true;
        } else if a_south > b_south && a_south < b_north && a_north > b_north {
            vertical = Collision::Top;
            dy = b_north - a_south;
            along = true;
        }
        if along && (!across || dy < dx) {
            Some(vertical)
        } else {
            Some(horizontal)
        }
    } else {
        None
    }
}

/// Turns a heading back from the wall it has struck.
pub fn reflect(d: Point, c: Collision) -> (r: Point)
    requires
        d.is_heading(),
    ensures
        r == reflected(d, c),
        r.is_heading(),
{
    proof {
        assert((-d.x) * (-d.x) == d.x * d.x) by (nonlinear_arith);
        assert((-d.y) * (-d.y) == d.y * d.y) by (nonlinear_arith);
    }
    match c {
        Collision::Left => if d.x > 0 {
            Point { x: -d.x, y: d.y }
        } else {
            d
        },
        Collision::Right => if d.x < 0 {
            Point { x: -d.x, y: d.y }
        } else {
            d
        },
        Collision::Top => if d.y < 0 {
            Point { x: d.x, y: -d.y }
        } else {
            d
        },
        Collision::Bottom => if d.y > 0 {
            Point { x: d.x, y: -d.y }
        } else {
            d
        },
        Collision::Inside => d,
    }
}

/// Two boxes touch exactly when they share an area.
pub proof fn law_contact_iff_overlap(a: Body, b: Body)
    ensures
        contact(a, b) is Some <==> overlap(a, b),
{
}

/// A strike on a side means that the first box straddles that edge of the
/// second and no other edge along that axis. A strike on a horizontal side
/// reaches no deeper than the first box reaches across an edge that it
/// straddles along the other axis; a strike on the top or bottom reaches
/// less deep than that.
pub proof fn law_contact_edge(a: Body, b: Body)
    ensures
        contact(a, b) == Some(Collision::Left) ==> a.west() < b.west() < a.east() < b.east(),
        contact(a, b) == Some(Collision::Right) ==> b.west() < a.west() < b.east() < a.east(),
        contact(a, b) == Some(Collision::Bottom) ==> a.south() < b.south() < a.north() < b.north(),
        contact(a, b) == Some(Collision::Top) ==> b.south() < a.south() < b.north() < a.north(),
        contact(a, b) == Some(Collision::Inside) ==> reach(a.west(), a.east(), b.west(), b.east())
            is None && reach(a.south(), a.north(), b.south(), b.north()) is None,
        contact(a, b) == Some(Collision::Left) || contact(a, b) == Some(Collision::Right)
            ==> match (
            reach(a.west(), a.east(), b.west(), b.east()),
            reach(a.south(), a.north(), b.south(), b.north()),
        ) {
            (Some((_, dx)), Some((_, dy))) => dx <= dy,
            (Some(_), None) => true,
            _ => false,
        },
        contact(a, b) == Some(Collision::Bottom) || contact(a, b) == Some(Collision::Top)
            ==> match (
            reach(a.west(), a.east(), b.west(), b.east()),
            reach(a.south(), a.north(), b.south(), b.north()),
        ) {
            (Some((_, dx)), Some((_, dy))) => dy < dx,
            (None, Some(_)) => true,
            _ => false,
        },
{
}

/// The reflection law of the left wall: a heading that points to the right
/// has its horizontal component negated and its vertical one kept; one that
/// does not is left as it is.
pub proof fn law_left_reflection(d: Point)
    requires
        d.is_heading(),
    ensures
        d.x > 0 ==> reflected(d, Collision::Left).x == -d.x && reflected(d, Collision::Left).y
            == d.y,
        d.x <= 0 ==> reflected(d, Collision::Left) == d,
{
}

/// After a reflection the heading no longer points into the wall it
/// struck, so a second strike on the same wall changes nothing.
pub proof fn law_reflection_settles(d: Point, c: Collision)
    requires
        d.is_heading(),
    ensures
        reflected(reflected(d, c), c) == reflected(d, c),
{
}

} // verus!
