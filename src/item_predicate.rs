use vstd::prelude::*;

use crate::character::Character;
use crate::item::{Item, ItemSlot};
use crate::state::State;

verus! {

/// The rule that decides which item may be chosen during one visit of the
/// inventory.
#[derive(Clone, Copy, Debug, PartialEq, Eq, Structural)]
pub enum ItemPredicate {
    /// The item must fit the given slot of the given party member.
    Equippable(usize, ItemSlot),
    /// Any item may be chosen.
    Any,
}

impl ItemPredicate {
    /// Whether `item` satisfies the rule, given the party.
    pub open spec fn holds(self, item: Item, party: Seq<Character>) -> bool {
        match self {
            ItemPredicate::Equippable(i, slot) => i < party.len() && item.can_equip(party[i as int], slot),
            ItemPredicate::Any => true,
        }
    }

    pub fn matches(&self, item: Item, state: &State) -> (r: bool)
        ensures
            r == self.holds(item, state.party@),
    {
        match self {
            ItemPredicate::Equippable(i, slot) => {
                if *i < state.party.len() {
                    item.equippable(&state.party[*i], *slot)
                } else {
                    false
                }
            },
            ItemPredicate::Any => true,
        }
    }
}

} // verus!
