use vstd::prelude::*;
use vstd::arithmetic::div_mod::lemma_small_mod;

use crate::direction::Direction;
use crate::position::{Position, LEVEL_HEIGHT, LEVEL_WIDTH};

verus! {

/// What stands on the boundary between two neighbouring cells.
#[derive(Clone, Copy, Debug, PartialEq, Eq, Structural)]
pub enum Wall {
    Open,
    Solid,
    Door,
}

impl Wall {
    /// Whether the boundary can be walked through.
    pub fn is_passable(&self) -> (r: bool)
        ensures
            r == (*self != Wall::Solid),
    {
        match self {
            Wall::Open | Wall::Door => true,
            Wall::Solid => false,
        }
    }
}

/// A fixed grid of cell boundaries.
///
/// `horiz_walls[x][y]` is the boundary on the northern side of cell `(x, y)`
/// (row `LEVEL_HEIGHT` closes the southern side of the last row), and
/// `vert_walls[x][y]` the boundary on the western side of cell `(x, y)`
/// (column `LEVEL_WIDTH` closes the eastern side of the last column).
#[derive(Clone, Debug)]
pub struct Level {
    pub horiz_walls: [[Wall; 21]; 20],
    pub vert_walls: [[Wall; 20]; 21],
}

impl Level {
    /// The horizontal boundary at column `x`, row `y`.
    pub open spec fn horiz(self, x: int, y: int) -> Wall {
        self.horiz_walls@[x]@[y]
    }

    /// The vertical boundary at column `x`, row `y`.
    pub open spec fn vert(self, x: int, y: int) -> Wall {
        self.vert_walls@[x]@[y]
    }

    /// The boundary that a step from `pos` in facing `dir` crosses.
    pub open spec fn wall_at(self, pos: Position, dir: Direction) -> Wall {
        match dir {
            Direction::East => self.vert(pos.x + 1, pos.y as int),
            Direction::South => self.horiz(pos.x as int, pos.y + 1),
            Direction::West => self.vert(pos.x as int, pos.y as int),
            Direction::North => self.horiz(pos.x as int, pos.y as int),
        }
    }

    pub fn wall_towards(&self, pos: Position, dir: Direction) -> (r: Wall)
        requires
            pos.wf(),
        ensures
            r == self.wall_at(pos, dir),
    {
        match dir {
            Direction::East => self.vert_walls[pos.x + 1][pos.y],
            Direction::South => self.horiz_walls[pos.x][pos.y + 1],
            Direction::West => self.vert_walls[pos.x][pos.y],
            Direction::North => self.horiz_walls[pos.x][pos.y],
        }
    }
}

impl Level {
    /// The boundary layout of the example level: the outer border is solid,
    /// the western side of cell `(4, 4)` is a door, and all else is open.
    pub open spec fn is_example(self) -> bool {
        &&& forall|x: int, y: int|
            0 <= x < LEVEL_WIDTH && 0 <= y <= LEVEL_HEIGHT ==> #[trigger] self.horiz(x, y) == if y
                == 0 || y == LEVEL_HEIGHT {
                Wall::Solid
            } else {
                Wall::Open
            }
        &&& forall|x: int, y: int|
            0 <= x <= LEVEL_WIDTH && 0 <= y < LEVEL_HEIGHT ==> #[trigger] self.vert(x, y) == if x
                == 0 || x == LEVEL_WIDTH {
                Wall::Solid
            } else if x == 4 && y == 4 {
                Wall::Door
            } else {
                Wall::Open
            }
    }

    pub fn example_level() -> (r: Self)
        ensures
            r.is_example(),
    {
        let mut horiz_walls = [[Wall::Open; 21]; 20];
        let mut x: usize = 0;
        while x < LEVEL_WIDTH
            invariant
                x <= LEVEL_WIDTH,
                forall|i: int, y: int|
                    0 <= i < LEVEL_WIDTH && 0 <= y <= LEVEL_HEIGHT ==> #[trigger] horiz_walls@[i]@[y]
                        == if i < x && (y == 0 || y == LEVEL_HEIGHT) {
                        Wall::Solid
                    } else {
                        Wall::Open
                    },
            decreases LEVEL_WIDTH - x,
        {
            horiz_walls[x][0] = Wall::Solid;
            horiz_walls[x][LEVEL_HEIGHT] = Wall::Solid;
            x = x + 1;
        }
        let mut vert_walls = [[Wall::Open; 20]; 21];
        let mut y: usize = 0;
        while y < LEVEL_HEIGHT
            invariant
                y <= LEVEL_HEIGHT,
                forall|x: int, j: int|
                    0 <= x <= LEVEL_WIDTH && 0 <= j < LEVEL_HEIGHT ==> #[trigger] vert_walls@[x]@[j]
                        == if j < y && (x == 0 || x == LEVEL_WIDTH) {
                        Wall::Solid
                    } else {
                        Wall::Open
                    },
            decreases LEVEL_HEIGHT - y,
        {
            vert_walls[0][y] = Wall::Solid;
            vert_walls[LEVEL_WIDTH][y] = Wall::Solid;
            y = y + 1;
        }
        vert_walls[4][4] = Wall::Door;
        Level { horiz_walls, vert_walls }
    }
}

/// Where a step from `pos` in facing `dir` stays inside the grid, the
/// boundary it crosses is the one that the step back crosses.
pub open spec fn is_interior_edge(pos: Position, dir: Direction) -> bool {
    match dir {
        Direction::East => pos.x + 1 < LEVEL_WIDTH,
        Direction::South => pos.y + 1 < LEVEL_HEIGHT,
        Direction::West => pos.x >= 1,
        Direction::North => pos.y >= 1,
    }
}

/// The boundary between two neighbouring cells is the same seen from either
/// side: looking from `pos` towards `dir` and from the neighbour back
/// towards `pos`.
pub proof fn lemma_wall_symmetry(level: Level, pos: Position, dir: Direction)
    requires
        pos.wf(),
        is_interior_edge(pos, dir),
    ensures
        level.wall_at(pos, dir) == level.wall_at(pos.moved(dir, 1), dir.turned(2)),
{
    let (dx, dy) = dir.offset_spec();
    let nx = pos.x + dx;
    let ny = pos.y + dy;
    assert(0 <= nx < LEVEL_WIDTH && 0 <= ny < LEVEL_HEIGHT);
    lemma_small_mod(nx as nat, LEVEL_WIDTH as nat);
    lemma_small_mod(ny as nat, LEVEL_HEIGHT as nat);
    assert(pos.moved(dir, 1) == Position { x: nx as usize, y: ny as usize });
}

} // verus!
