//! Geometry primitives: integer vectors, compass directions and turns.

use vstd::prelude::*;

verus! {

/// Whether an integer fits in an `i32`.
pub open spec fn fits_i32(v: int) -> bool {
    i32::MIN <= v <= i32::MAX
}

/// A point or displacement on the integer grid.
#[derive(PartialEq, Eq, Structural, Clone, Copy, Debug)]
pub struct Vector2i {
    pub x: i32,
    pub y: i32,
}

impl core::ops::Add<Vector2i> for Vector2i {
    type Output = Vector2i;

    fn add(self, rhs: Vector2i) -> (r: Vector2i) {
        Vector2i { x: self.x + rhs.x, y: self.y + rhs.y }
    }
}

impl vstd::std_specs::ops::AddSpecImpl<Vector2i> for Vector2i {
    open spec fn obeys_add_spec() -> bool {
        true
    }

    open spec fn add_req(self, rhs: Vector2i) -> bool {
        fits_i32(self.x + rhs.x) && fits_i32(self.y + rhs.y)
    }

    open spec fn add_spec(self, rhs: Vector2i) -> Vector2i {
        Vector2i { x: (self.x + rhs.x) as i32, y: (self.y + rhs.y) as i32 }
    }
}

impl core::ops::Sub<Vector2i> for Vector2i {
    type Output = Vector2i;

    fn sub(self, rhs: Vector2i) -> (r: Vector2i) {
        Vector2i { x: self.x - rhs.x, y: self.y - rhs.y }
    }
}

impl vstd::std_specs::ops::SubSpecImpl<Vector2i> for Vector2i {
    open spec fn obeys_sub_spec() -> bool {
        true
    }

    open spec fn sub_req(self, rhs: Vector2i) -> bool {
        fits_i32(self.x - rhs.x) && fits_i32(self.y - rhs.y)
    }

    open spec fn sub_spec(self, rhs: Vector2i) -> Vector2i {
        Vector2i { x: (self.x - rhs.x) as i32, y: (self.y - rhs.y) as i32 }
    }
}

impl core::ops::Mul<i32> for Vector2i {
    type Output = Vector2i;

    fn mul(self, rhs: i32) -> (r: Vector2i) {
        Vector2i { x: self.x * rhs, y: self.y * rhs }
    }
}

impl vstd::std_specs::ops::MulSpecImpl<i32> for Vector2i {
    open spec fn obeys_mul_spec() -> bool {
        true
    }

    open spec fn mul_req(self, rhs: i32) -> bool {
        fits_i32(self.x * rhs) && fits_i32(self.y * rhs)
    }

    open spec fn mul_spec(self, rhs: i32) -> Vector2i {
        Vector2i { x: (self.x * rhs) as i32, y: (self.y * rhs) as i32 }
    }
}

impl Vector2i {
    /// Moves this vector by `rhs` in place.
    pub fn add_assign(&mut self, rhs: Vector2i)
        requires
            fits_i32(old(self).x + rhs.x),
            fits_i32(old(self).y + rhs.y),
        ensures
            final(self).x == old(self).x + rhs.x,
            final(self).y == old(self).y + rhs.y,
    {
        *self = Vector2i { x: self.x + rhs.x, y: self.y + rhs.y };
    }

    /// Moves this vector by `-rhs` in place.
    pub fn sub_assign(&mut self, rhs: Vector2i)
        requires
            fits_i32(old(self).x - rhs.x),
            fits_i32(old(self).y - rhs.y),
        ensures
            final(self).x == old(self).x - rhs.x,
            final(self).y == old(self).y - rhs.y,
    {
        *self = Vector2i { x: self.x - rhs.x, y: self.y - rhs.y };
    }
}

/// A turn of a quarter circle, to the left or to the right.
#[derive(PartialEq, Eq, Structural, Clone, Copy, Debug)]
pub enum TurnDirection {
    LEFT,
    RIGHT,
}

/// The compass direction that the tracer faces.
#[derive(PartialEq, Eq, Structural, Clone, Copy, Debug)]
pub enum Direction {
    NORTH,
    SOUTH,
    EAST,
    WEST,
}

/// The turn in the other sense.
pub open spec fn opposite_of(t: TurnDirection) -> TurnDirection {
    match t {
        TurnDirection::LEFT => TurnDirection::RIGHT,
        TurnDirection::RIGHT => TurnDirection::LEFT,
    }
}

/// The facing after a quarter turn from `d`: counter-clockwise for a left
/// turn, clockwise for a right one.
pub open spec fn turned(d: Direction, t: TurnDirection) -> Direction {
    match t {
        TurnDirection::LEFT => match d {
            Direction::NORTH => Direction::WEST,
            Direction::SOUTH => Direction::EAST,
            Direction::EAST => Direction::NORTH,
            Direction::WEST => Direction::SOUTH,
        },
        TurnDirection::RIGHT => match d {
            Direction::NORTH => Direction::EAST,
            Direction::SOUTH => Direction::WEST,
            Direction::EAST => Direction::SOUTH,
            Direction::WEST => Direction::NORTH,
        },
    }
}

/// The x component of the unit step towards `d` (north is +y, east is +x).
pub open spec fn unit_x(d: Direction) -> int {
    match d {
        Direction::EAST => 1,
        Direction::WEST => -1,
        _ => 0,
    }
}

/// The y component of the unit step towards `d`.
pub open spec fn unit_y(d: Direction) -> int {
    match d {
        Direction::NORTH => 1,
        Direction::SOUTH => -1,
        _ => 0,
    }
}

impl TurnDirection {
    /// The turn in the other sense: left for right and right for left.
    pub fn opposite(&self) -> (r: TurnDirection)
        ensures
            r == opposite_of(*self),
            r != *self,
            opposite_of(r) == *self,
    {
        match *self {
            TurnDirection::LEFT => TurnDirection::RIGHT,
            TurnDirection::RIGHT => TurnDirection::LEFT,
        }
    }

    /// The one-letter name of the turn: "L" or "R".
    pub fn to_text(&self) -> (r: String)
        ensures
            *self == TurnDirection::LEFT ==> r@ == "L"@,
            *self == TurnDirection::RIGHT ==> r@ == "R"@,
    {
        match *self {
            TurnDirection::LEFT => "L".to_owned(),
            TurnDirection::RIGHT => "R".to_owned(),
        }
    }
}

impl Direction {
    /// The facing after turning a quarter circle by `change`.
    pub fn next_direction(&self, change: TurnDirection) -> (r: Direction)
        ensures
            r == turned(*self, change),
    {
        match *self {
            Direction::NORTH => if TurnDirection::LEFT == change {
                Direction::WEST
            } else {
                Direction::EAST
            },
            Direction::SOUTH => if TurnDirection::LEFT == change {
                Direction::EAST
            } else {
                Direction::WEST
            },
            Direction::EAST => if TurnDirection::LEFT == change {
                Direction::NORTH
            } else {
                Direction::SOUTH
            },
            Direction::WEST => if TurnDirection::LEFT == change {
                Direction::SOUTH
            } else {
                Direction::NORTH
            },
        }
    }

    /// The unit step towards this direction.
    pub fn cartesian_move(&self) -> (r: Vector2i)
        ensures
            r.x == unit_x(*self),
            r.y == unit_y(*self),
    {
        match *self {
            Direction::NORTH => Vector2i { x: 0, y: 1 },
            Direction::SOUTH => Vector2i { x: 0, y: -1 },
            Direction::EAST => Vector2i { x: 1, y: 0 },
            Direction::WEST => Vector2i { x: -1, y: 0 },
        }
    }

    /// The lower-case name of the direction, such as "north".
    pub fn to_text(&self) -> (r: String)
        ensures
            *self == Direction::NORTH ==> r@ == "north"@,
            *self == Direction::SOUTH ==> r@ == "south"@,
            *self == Direction::EAST ==> r@ == "east"@,
            *self == Direction::WEST ==> r@ == "west"@,
    {
        match *self {
            Direction::NORTH => "north".to_owned(),
            Direction::SOUTH => "south".to_owned(),
            Direction::EAST => "east".to_owned(),
            Direction::WEST => "west".to_owned(),
        }
    }
}

/// Taking the opposite of a turn twice gives the turn back.
pub proof fn lemma_opposite_involutive(t: TurnDirection)
    ensures
        opposite_of(opposite_of(t)) == t,
{
}

/// Four quarter turns in the same sense bring any facing back to itself.
pub proof fn lemma_four_turns_identity(d: Direction, t: TurnDirection)
    ensures
        turned(turned(turned(turned(d, t), t), t), t) == d,
{
}

} // verus!
