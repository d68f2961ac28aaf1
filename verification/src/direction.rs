//! Headings of the snake and the key presses that steer it.

use vstd::prelude::*;

verus! {

/// One of the four headings on the grid. Row 0 is the top row, so `UP`
/// lowers the row index and `DOWN` raises it.
#[allow(non_camel_case_types)]
#[derive(Clone, Copy, PartialEq, Eq, Structural, Debug)]
pub enum Direction {
    UP,
    DOWN,
    LEFT,
    RIGHT,
}

impl Direction {
    /// The heading that points the other way.
    pub open spec fn spec_opposite(self) -> Direction {
        match self {
            Direction::UP => Direction::DOWN,
            Direction::DOWN => Direction::UP,
            Direction::LEFT => Direction::RIGHT,
            Direction::RIGHT => Direction::LEFT,
        }
    }

    /// The cell one step away from `cell` in this heading. The result may
    /// lie outside every grid: nothing is clipped here.
    pub open spec fn step(self, cell: (int, int)) -> (int, int) {
        match self {
            Direction::UP => (cell.0, cell.1 - 1),
            Direction::DOWN => (cell.0, cell.1 + 1),
            Direction::LEFT => (cell.0 - 1, cell.1),
            Direction::RIGHT => (cell.0 + 1, cell.1),
        }
    }

    /// The heading that points the other way.
    #[verifier::when_used_as_spec(spec_opposite)]
    pub fn opposite(self) -> (other: Direction)
        ensures
            other == self.spec_opposite(),
    {
        match self {
            Direction::UP => Direction::DOWN,
            Direction::DOWN => Direction::UP,
            Direction::LEFT => Direction::RIGHT,
            Direction::RIGHT => Direction::LEFT,
        }
    }
}

/// A key press as the rules see it: one of the four arrows, or anything else.
#[derive(Clone, Copy, PartialEq, Eq, Structural, Debug)]
pub enum Key {
    Up,
    Down,
    Left,
    Right,
    Other,
}

impl Key {
    /// The heading an arrow key asks for; `None` for every other key.
    pub open spec fn spec_direction(self) -> Option<Direction> {
        match self {
            Key::Up => Some(Direction::UP),
            Key::Down => Some(Direction::DOWN),
            Key::Left => Some(Direction::LEFT),
            Key::Right => Some(Direction::RIGHT),
            Key::Other => None,
        }
    }

    /// The heading an arrow key asks for; `None` for every other key.
    #[verifier::when_used_as_spec(spec_direction)]
    pub fn direction(self) -> (requested: Option<Direction>)
        ensures
            requested == self.spec_direction(),
    {
        match self {
            Key::Up => Some(Direction::UP),
            Key::Down => Some(Direction::DOWN),
            Key::Left => Some(Direction::LEFT),
            Key::Right => Some(Direction::RIGHT),
            Key::Other => None,
        }
    }
}

/// Turning round twice gives the heading one started with, and no heading
/// is its own opposite.
pub proof fn lemma_opposite_involutive(d: Direction)
    ensures
        d.spec_opposite().spec_opposite() == d,
        d.spec_opposite() != d,
{
}

} // verus!
