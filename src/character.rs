use vstd::prelude::*;

use crate::item::{Item, ItemSlot};

verus! {

/// The class of a party member; it decides which items can be equipped.
#[derive(Clone, Copy, Debug, PartialEq, Eq, Structural)]
pub enum CharacterClass {
    Warrior,
    Priest,
    Magician,
}

impl CharacterClass {
    /// The name shown for the class.
    pub open spec fn name_text(self) -> Seq<char> {
        match self {
            CharacterClass::Warrior => "WARRIOR"@,
            CharacterClass::Priest => "PRIEST"@,
            CharacterClass::Magician => "MAGICIAN"@,
        }
    }

    pub fn name(&self) -> (r: &'static str)
        ensures
            r@ == self.name_text(),
    {
        match self {
            CharacterClass::Warrior => "WARRIOR",
            CharacterClass::Priest => "PRIEST",
            CharacterClass::Magician => "MAGICIAN",
        }
    }

    /// Starting base attack of a fresh character of the class.
    pub fn start_base_atk(&self) -> (r: u32)
        ensures
            r == match self {
                CharacterClass::Warrior => 2u32,
                CharacterClass::Priest => 0u32,
                CharacterClass::Magician => 0u32,
            },
    {
        match self {
            CharacterClass::Warrior => 2,
            CharacterClass::Priest => 0,
            CharacterClass::Magician => 0,
        }
    }

    /// Starting base defence of a fresh character of the class.
    pub fn start_base_def(&self) -> (r: u32)
        ensures
            r == match self {
                CharacterClass::Warrior => 1u32,
                CharacterClass::Priest => 0u32,
                CharacterClass::Magician => 0u32,
            },
    {
        match self {
            CharacterClass::Warrior => 1,
            CharacterClass::Priest => 0,
            CharacterClass::Magician => 0,
        }
    }

    /// Starting base magic attack of a fresh character of the class.
    pub fn start_base_matk(&self) -> (r: u32)
        ensures
            r == match self {
                CharacterClass::Warrior => 0u32,
                CharacterClass::Priest => 1u32,
                CharacterClass::Magician => 3u32,
            },
    {
        match self {
            CharacterClass::Warrior => 0,
            CharacterClass::Priest => 1,
            CharacterClass::Magician => 3,
        }
    }

    /// Starting base magic defence of a fresh character of the class.
    pub fn start_base_mdef(&self) -> (r: u32)
        ensures
            r == match self {
                CharacterClass::Warrior => 1u32,
                CharacterClass::Priest => 0u32,
                CharacterClass::Magician => 0u32,
            },
    {
        match self {
            CharacterClass::Warrior => 1,
            CharacterClass::Priest => 0,
            CharacterClass::Magician => 0,
        }
    }
}

/// A party member: base stats and three equipment slots.
#[derive(Clone, Debug)]
pub struct Character {
    pub name: String,
    pub class: CharacterClass,
    pub lvl: u32,
    pub hp: u32,
    pub max_hp: u32,
    pub mp: u32,
    pub max_mp: u32,
    pub base_atk: u32,
    pub base_def: u32,
    pub base_matk: u32,
    pub base_mdef: u32,
    pub base_agi: u32,
    pub base_luck: u32,
    pub weapon: Option<Item>,
    pub shield: Option<Item>,
    pub armor: Option<Item>,
}

/// Attack bonus that a wielded weapon gives.
pub open spec fn weapon_bonus(weapon: Option<Item>) -> int {
    match weapon {
        Option::Some(Item::BronzeSword) => 3,
        Option::Some(Item::IronSword) => 5,
        Option::Some(Item::SteelSword) => 7,
        Option::None => 0,
    }
}

impl Character {
    /// Effective attack: the base value plus the bonus of the weapon held.
    pub open spec fn atk_spec(self) -> int {
        self.base_atk + weapon_bonus(self.weapon)
    }

    pub fn atk(&self) -> (r: u32)
        requires
            self.atk_spec() <= u32::MAX,
        ensures
            r == self.atk_spec(),
    {
        let mut atk = self.base_atk;
        match self.weapon {
            Some(Item::BronzeSword) => atk += 3,
            Some(Item::IronSword) => atk += 5,
            Some(Item::SteelSword) => atk += 7,
            None => {},
        }
        atk
    }

    pub fn def(&self) -> (r: u32)
        ensures
            r == self.base_def,
    {
        self.base_def
    }

    pub fn matk(&self) -> (r: u32)
        ensures
            r == self.base_matk,
    {
        self.base_matk
    }

    pub fn mdef(&self) -> (r: u32)
        ensures
            r == self.base_mdef,
    {
        self.base_mdef
    }

    pub fn agi(&self) -> (r: u32)
        ensures
            r == self.base_agi,
    {
        self.base_agi
    }

    pub fn luck(&self) -> (r: u32)
        ensures
            r == self.base_luck,
    {
        self.base_luck
    }

    /// What the slot holds.
    pub open spec fn slot(self, slot: ItemSlot) -> Option<Item> {
        match slot {
            ItemSlot::Weapon => self.weapon,
            ItemSlot::Shield => self.shield,
            ItemSlot::Armor => self.armor,
        }
    }

    /// The character with `slot` holding `item` and everything else unchanged.
    pub open spec fn with_slot(self, slot: ItemSlot, item: Option<Item>) -> Character {
        match slot {
            ItemSlot::Weapon => Character { weapon: item, ..self },
            ItemSlot::Shield => Character { shield: item, ..self },
            ItemSlot::Armor => Character { armor: item, ..self },
        }
    }

    pub fn item(&self, slot: ItemSlot) -> (r: Option<Item>)
        ensures
            r == self.slot(slot),
    {
        match slot {
            ItemSlot::Weapon => self.weapon,
            ItemSlot::Shield => self.shield,
            ItemSlot::Armor => self.armor,
        }
    }

    pub fn item_mut(&mut self, slot: ItemSlot) -> (r: &mut Option<Item>)
        ensures
            *r == old(self).slot(slot),
            *final(self) == old(self).with_slot(slot, *final(r)),
    {
        match slot {
            ItemSlot::Weapon => &mut self.weapon,
            ItemSlot::Shield => &mut self.shield,
            ItemSlot::Armor => &mut self.armor,
        }
    }
}

} // verus!
