use vstd::prelude::*;

verus! {

/// One of the four facings on the grid.
#[derive(Clone, Copy, Debug, PartialEq, Eq, Structural)]
pub enum Direction {
    East,
    South,
    West,
    North,
}

impl Direction {
    /// Position of the facing in the clockwise cycle East, South, West, North.
    pub open spec fn index(self) -> int {
        match self {
            Direction::East => 0,
            Direction::South => 1,
            Direction::West => 2,
            Direction::North => 3,
        }
    }

    /// The facing that stands `k` quarter turns clockwise from East.
    pub open spec fn from_index(k: int) -> Direction {
        let k = k % 4;
        if k == 0 {
            Direction::East
        } else if k == 1 {
            Direction::South
        } else if k == 2 {
            Direction::West
        } else {
            Direction::North
        }
    }

    /// The facing reached by `k` quarter turns clockwise.
    pub open spec fn turned(self, k: int) -> Direction {
        Direction::from_index(self.index() + k)
    }

    /// The unit step `(dx, dy)` taken when moving one cell in this facing
    /// (x grows towards East, y grows towards South).
    pub open spec fn offset_spec(self) -> (int, int) {
        match self {
            Direction::East => (1, 0),
            Direction::South => (0, 1),
            Direction::West => (-1, 0),
            Direction::North => (0, -1),
        }
    }

    pub fn offset(&self) -> (r: (isize, isize))
        ensures
            (r.0 as int, r.1 as int) == self.offset_spec(),
    {
        match self {
            Direction::East => (1, 0),
            Direction::South => (0, 1),
            Direction::West => (-1, 0),
            Direction::North => (0, -1),
        }
    }

    /// A quarter turn counter-clockwise.
    pub fn left(&self) -> (r: Self)
        ensures
            r == self.turned(3),
    {
        match self {
            Direction::East => Direction::North,
            Direction::South => Direction::East,
            Direction::West => Direction::South,
            Direction::North => Direction::West,
        }
    }

    /// A quarter turn clockwise.
    pub fn right(&self) -> (r: Self)
        ensures
            r == self.turned(1),
    {
        match self {
            Direction::East => Direction::South,
            Direction::South => Direction::West,
            Direction::West => Direction::North,
            Direction::North => Direction::East,
        }
    }

    /// A half turn.
    pub fn rev(&self) -> (r: Self)
        ensures
            r == self.turned(2),
    {
        match self {
            Direction::East => Direction::West,
            Direction::South => Direction::North,
            Direction::West => Direction::East,
            Direction::North => Direction::South,
        }
    }
}

/// Turning left and then right, or right and then left, gives back the
/// facing; a half turn is its own inverse and equals two left turns.
pub proof fn lemma_turns_invert(d: Direction)
    ensures
        d.turned(3).turned(1) == d,
        d.turned(1).turned(3) == d,
        d.turned(2).turned(2) == d,
        d.turned(3).turned(3) == d.turned(2),
{
}

/// The step of the opposite facing is the negated step.
pub proof fn lemma_reverse_offset(d: Direction)
    ensures
        d.turned(2).offset_spec() == (-d.offset_spec().0, -d.offset_spec().1),
{
}

} // verus!
