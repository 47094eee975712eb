use vstd::prelude::*;

verus! {

/// One of the four cardinal headings on the grid.
#[derive(Clone, Copy, PartialEq, Eq, Structural, Debug)]
pub enum Direction {
    Up,
    Down,
    Left,
    Right,
}

/// A directional key from the input collaborator, already stripped down to
/// what the game reads; every key that is not an arrow is `Other`.
#[derive(Clone, Copy, PartialEq, Eq, Structural, Debug)]
pub enum KeyInput {
    Up,
    Down,
    Left,
    Right,
    Other,
}

impl Direction {
    /// The opposite heading: `Up` with `Down`, `Left` with `Right`.
    pub open spec fn spec_inverse(self) -> Direction {
        match self {
            Direction::Up => Direction::Down,
            Direction::Down => Direction::Up,
            Direction::Left => Direction::Right,
            Direction::Right => Direction::Left,
        }
    }

    pub fn inverse(&self) -> (r: Direction)
        ensures
            r == self.spec_inverse(),
    {
        match *self {
            Direction::Up => Direction::Down,
            Direction::Down => Direction::Up,
            Direction::Left => Direction::Right,
            Direction::Right => Direction::Left,
        }
    }

    /// Which heading a directional key stands for, if any.
    pub open spec fn spec_from_keycode(key: KeyInput) -> Option<Direction> {
        match key {
            KeyInput::Up => Some(Direction::Up),
            KeyInput::Down => Some(Direction::Down),
            KeyInput::Left => Some(Direction::Left),
            KeyInput::Right => Some(Direction::Right),
            KeyInput::Other => None,
        }
    }

    /// Maps a directional key to a heading; an unrecognized key maps to
    /// nothing and is simply not a direction change.
    pub fn from_keycode(key: KeyInput) -> (r: Option<Direction>)
        ensures
            r == Direction::spec_from_keycode(key),
    {
        match key {
            KeyInput::Up => Some(Direction::Up),
            KeyInput::Down => Some(Direction::Down),
            KeyInput::Left => Some(Direction::Left),
            KeyInput::Right => Some(Direction::Right),
            KeyInput::Other => None,
        }
    }
}

/// The inverse is an involution: taking it twice yields the heading itself.
pub proof fn lemma_inverse_involutive(d: Direction)
    ensures
        d.spec_inverse().spec_inverse() == d,
{
}

} // verus!
