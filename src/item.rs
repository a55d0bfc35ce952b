use vstd::prelude::*;

use crate::character::{Character, CharacterClass};

verus! {

/// An item that can sit in the inventory or in an equipment slot.
#[derive(Clone, Copy, Debug, PartialEq, Eq, Structural)]
pub enum Item {
    BronzeSword,
    IronSword,
    SteelSword,
}

/// One of a character's three equipment slots.
#[derive(Clone, Copy, Debug, PartialEq, Eq, Structural)]
pub enum ItemSlot {
    Weapon,
    Shield,
    Armor,
}

impl Item {
    /// The name shown for the item.
    pub open spec fn name_text(self) -> Seq<char> {
        match self {
            Item::BronzeSword => "BRONZE SWORD"@,
            Item::IronSword => "IRON SWORD"@,
            Item::SteelSword => "STEEL SWORD"@,
        }
    }

    pub fn name(&self) -> (r: &'static str)
        ensures
            r@ == self.name_text(),
    {
        match self {
            Item::BronzeSword => "BRONZE SWORD",
            Item::IronSword => "IRON SWORD",
            Item::SteelSword => "STEEL SWORD",
        }
    }

    /// The lines of the description shown for the item.
    pub open spec fn desc_text(self) -> Seq<Seq<char>> {
        match self {
            Item::BronzeSword => seq!["[1 HAND, WARRIOR REQ.]"@, "GIVES +3 ATK."@],
            Item::IronSword => seq!["[1 HAND, WARRIOR REQ.]"@, "GIVES +5 ATK."@],
            Item::SteelSword => seq!["[1 HAND, WARRIOR REQ.]"@, "GIVES +7 ATK."@],
        }
    }

    pub fn desc(self) -> (r: &'static [&'static str])
        ensures
            r@.map_values(|line: &str| line@) == self.desc_text(),
    {
        match self {
            Item::BronzeSword => &["[1 HAND, WARRIOR REQ.]", "GIVES +3 ATK."],
            Item::IronSword => &["[1 HAND, WARRIOR REQ.]", "GIVES +5 ATK."],
            Item::SteelSword => &["[1 HAND, WARRIOR REQ.]", "GIVES +7 ATK."],
        }
    }
}

impl Item {
    /// The slot the item goes into.
    pub open spec fn fits(self) -> ItemSlot {
        match self {
            Item::BronzeSword | Item::IronSword | Item::SteelSword => ItemSlot::Weapon,
        }
    }

    /// The class a character needs to use the item.
    pub open spec fn required_class(self) -> CharacterClass {
        match self {
            Item::BronzeSword | Item::IronSword | Item::SteelSword => CharacterClass::Warrior,
        }
    }

    /// Whether `by` may carry the item in `slot`.
    pub open spec fn can_equip(self, by: Character, slot: ItemSlot) -> bool {
        by.class == self.required_class() && slot == self.fits()
    }

    pub fn equippable_to(&self, by: &Character, slot: ItemSlot) -> (r: bool)
        ensures
            r == self.can_equip(*by, slot),
    {
        match self {
            Item::BronzeSword | Item::IronSword | Item::SteelSword => by.class
                == CharacterClass::Warrior && slot == ItemSlot::Weapon,
        }
    }

    pub fn equippable(&self, by: &Character, slot: ItemSlot) -> (r: bool)
        ensures
            r == self.can_equip(*by, slot),
    {
        self.equippable_to(by, slot)
    }
}

impl ItemSlot {
    /// Position of the slot in the cycle Weapon, Shield, Armor.
    pub open spec fn index(self) -> int {
        match self {
            ItemSlot::Weapon => 0,
            ItemSlot::Shield => 1,
            ItemSlot::Armor => 2,
        }
    }

    /// The slot `k` places further along the cycle.
    pub open spec fn cycled(self, k: int) -> ItemSlot {
        let j = (self.index() + k) % 3;
        if j == 0 {
            ItemSlot::Weapon
        } else if j == 1 {
            ItemSlot::Shield
        } else {
            ItemSlot::Armor
        }
    }

    /// The following slot of the cycle.
    pub fn next(&self) -> (r: Self)
        ensures
            r == self.cycled(1),
    {
        match self {
            ItemSlot::Weapon => ItemSlot::Shield,
            ItemSlot::Shield => ItemSlot::Armor,
            ItemSlot::Armor => ItemSlot::Weapon,
        }
    }

    /// The preceding slot of the cycle.
    pub fn prev(&self) -> (r: Self)
        ensures
            r == self.cycled(2),
    {
        match self {
            ItemSlot::Weapon => ItemSlot::Armor,
            ItemSlot::Shield => ItemSlot::Weapon,
            ItemSlot::Armor => ItemSlot::Shield,
        }
    }
}

/// Stepping to the following slot and back, or back and then forward,
/// gives the slot one started from.
pub proof fn lemma_slot_cycle_inverse(s: ItemSlot)
    ensures
        s.cycled(1).cycled(2) == s,
        s.cycled(2).cycled(1) == s,
{
}

} // verus!
