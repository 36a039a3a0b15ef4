use vstd::prelude::*;

verus! {

/// Number of playable columns.
pub const WIDTH: u16 = 30;

/// Number of playable rows.
pub const HEIGHT: u16 = 20;

/// Milliseconds between two movement steps.
pub const TICK_MS: u64 = 120;

/// A board position `(x, y)`; the playable interior is `1..=WIDTH` by `1..=HEIGHT`.
pub type Cell = (u16, u16);

/// A heading of the snake.
#[derive(Clone, Copy, Debug, PartialEq, Eq, Structural)]
pub enum Direction {
    Up,
    Down,
    Left,
    Right,
}

/// The cell lies on or beyond the one-cell border around the interior.
pub open spec fn is_wall_spec(c: Cell) -> bool {
    c.0 == 0 || c.0 > WIDTH || c.1 == 0 || c.1 > HEIGHT
}

/// The cell is part of the playable interior.
pub open spec fn in_interior(c: Cell) -> bool {
    !is_wall_spec(c)
}

/// The direction pointing the opposite way.
pub open spec fn opposite_spec(d: Direction) -> Direction {
    match d {
        Direction::Up => Direction::Down,
        Direction::Down => Direction::Up,
        Direction::Left => Direction::Right,
        Direction::Right => Direction::Left,
    }
}

/// One cell further in direction `d`; a coordinate never goes below 0 nor above `u16::MAX`.
pub open spec fn offset_spec(c: Cell, d: Direction) -> Cell {
    match d {
        Direction::Up => (c.0, if c.1 == 0 { 0 } else { (c.1 - 1) as u16 }),
        Direction::Down => (c.0, if c.1 == u16::MAX { u16::MAX } else { (c.1 + 1) as u16 }),
        Direction::Left => (if c.0 == 0 { 0 } else { (c.0 - 1) as u16 }, c.1),
        Direction::Right => (if c.0 == u16::MAX { u16::MAX } else { (c.0 + 1) as u16 }, c.1),
    }
}

/// Whether `c` is a wall position.
pub fn is_wall(c: Cell) -> (r: bool)
    ensures
        r == is_wall_spec(c),
{
    c.0 == 0 || c.0 > WIDTH || c.1 == 0 || c.1 > HEIGHT
}

impl Direction {
    /// The reverse heading.
    pub fn opposite(self) -> (r: Direction)
        ensures
            r == opposite_spec(self),
    {
        match self {
            Direction::Up => Direction::Down,
            Direction::Down => Direction::Up,
            Direction::Left => Direction::Right,
            Direction::Right => Direction::Left,
        }
    }
}

/// The neighbour of `c` in direction `d`, clamped at the coordinate range.
/// Moving up or left from coordinate 0 stays at 0, which is a wall.
pub fn offset(c: Cell, d: Direction) -> (r: Cell)
    ensures
        r == offset_spec(c, d),
{
    match d {
        Direction::Up => (c.0, c.1.saturating_sub(1)),
        Direction::Down => (c.0, c.1.saturating_add(1)),
        Direction::Left => (c.0.saturating_sub(1), c.1),
        Direction::Right => (c.0.saturating_add(1), c.1),
    }
}

} // verus!
