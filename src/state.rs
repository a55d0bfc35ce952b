use vstd::prelude::*;

use crate::character::Character;
use crate::direction::Direction;
use crate::item::Item;
use crate::level::Level;
use crate::position::Position;

verus! {

/// The world: the level, where the party stands and faces, its members and
/// the items it carries.
#[derive(Clone, Debug)]
pub struct State {
    pub level: Level,
    pub pos: Position,
    pub dir: Direction,
    pub party: Vec<Character>,
    pub inventory: Vec<Item>,
}

impl State {
    /// The party stands on a cell of the grid.
    pub open spec fn wf(self) -> bool {
        self.pos.wf()
    }
}

} // verus!
