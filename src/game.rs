use vstd::prelude::*;

use crate::character::{Character, CharacterClass};
use crate::direction::Direction;
use crate::explore::{self, explore_key, explore_tick};
use crate::item::Item;
use crate::level::Level;
use crate::position::Position;
use crate::scene::{ExploreScene, Key, Scene};
use crate::state::State;
use crate::view_character::{self, view_character_key};
use crate::view_inventory::{self, accepts, equip_inventory, equip_party, view_inventory_key};

verus! {

/// The world together with the scene that currently handles input.
#[derive(Debug)]
pub struct Game {
    pub state: State,
    pub scene: Scene,
}

/// A party member with the given name, class, level and stats, holding
/// `weapon` and nothing else.
pub open spec fn is_member(
    c: Character,
    name: Seq<char>,
    class: CharacterClass,
    stats: Seq<u32>,
    weapon: Option<Item>,
) -> bool {
    &&& c.name@ == name
    &&& c.class == class
    &&& stats == seq![
        c.lvl,
        c.hp,
        c.max_hp,
        c.mp,
        c.max_mp,
        c.base_atk,
        c.base_def,
        c.base_matk,
        c.base_mdef,
        c.base_agi,
        c.base_luck,
    ]
    &&& c.weapon == weapon
    &&& c.shield == Option::<Item>::None
    &&& c.armor == Option::<Item>::None
}

/// The party a new game starts with.
pub open spec fn is_starting_party(party: Seq<Character>) -> bool {
    &&& party.len() == 3
    &&& is_member(
        party[0],
        "TELLURIUS"@,
        CharacterClass::Warrior,
        seq![1u32, 9, 9, 0, 0, 6, 5, 0, 0, 1, 0],
        Option::Some(Item::IronSword),
    )
    &&& is_member(
        party[1],
        "MERCUTIO"@,
        CharacterClass::Priest,
        seq![1u32, 8, 8, 4, 4, 4, 3, 4, 3, 2, 0],
        Option::None,
    )
    &&& is_member(
        party[2],
        "LEUTHERIA"@,
        CharacterClass::Magician,
        seq![1u32, 6, 6, 7, 7, 1, 0, 6, 5, 3, 1],
        Option::None,
    )
}

/// The inventory a new game starts with: three rounds of the three swords.
pub open spec fn is_starting_inventory(inventory: Seq<Item>) -> bool {
    &&& inventory.len() == 9
    &&& forall|k: int|
        0 <= k < 9 ==> #[trigger] inventory[k] == if k % 3 == 0 {
            Item::BronzeSword
        } else if k % 3 == 1 {
            Item::IronSword
        } else {
            Item::SteelSword
        }
}

impl Game {
    pub open spec fn wf(self) -> bool {
        &&& self.state.wf()
        &&& self.scene.wf(self.state.party@.len(), self.state.inventory@.len())
    }

    /// The scene that follows `key` in `g`.
    pub open spec fn next_scene(g: Game, key: Key) -> Scene {
        match g.scene {
            Scene::Explore(e) => explore_key(
                g.state.level,
                g.state.pos,
                g.state.dir,
                g.state.party@.len(),
                e,
                key,
            ).2,
            Scene::ViewCharacter(v) => view_character_key(v, key),
            Scene::ViewInventory(v) => view_inventory_key(
                g.state.party@,
                g.state.inventory@,
                v,
                key,
            ),
        }
    }

    /// A new game: the example level, the party at `(0, 0)` facing South,
    /// the starting party and inventory, exploring at rest.
    pub fn new() -> (r: Game)
        ensures
            r.wf(),
            r.state.level.is_example(),
            r.state.pos == (Position { x: 0, y: 0 }),
            r.state.dir == Direction::South,
            is_starting_party(r.state.party@),
            is_starting_inventory(r.state.inventory@),
            r.scene == Scene::Explore(ExploreScene { anim: None, selected: None }),
    {
        let mut inventory: Vec<Item> = Vec::new();
        let mut round: usize = 0;
        while round < 3
            invariant
                round <= 3,
                inventory@.len() == 3 * round,
                forall|k: int|
                    0 <= k < inventory@.len() ==> #[trigger] inventory@[k] == if k % 3 == 0 {
                        Item::BronzeSword
                    } else if k % 3 == 1 {
                        Item::IronSword
                    } else {
                        Item::SteelSword
                    },
            decreases 3 - round,
        {
            inventory.push(Item::BronzeSword);
            inventory.push(Item::IronSword);
            inventory.push(Item::SteelSword);
            round = round + 1;
        }
        let party = vec![
            Character {
                name: "TELLURIUS".to_owned(),
                class: CharacterClass::Warrior,
                lvl: 1,
                hp: 9,
                max_hp: 9,
                mp: 0,
                max_mp: 0,
                base_atk: 6,
                base_def: 5,
                base_matk: 0,
                base_mdef: 0,
                base_agi: 1,
                base_luck: 0,
                weapon: Some(Item::IronSword),
                shield: None,
                armor: None,
            },
            Character {
                name: "MERCUTIO".to_owned(),
                class: CharacterClass::Priest,
                lvl: 1,
                hp: 8,
                max_hp: 8,
                mp: 4,
                max_mp: 4,
                base_atk: 4,
                base_def: 3,
                base_matk: 4,
                base_mdef: 3,
                base_agi: 2,
                base_luck: 0,
                weapon: None,
                shield: None,
                armor: None,
            },
            Character {
                name: "LEUTHERIA".to_owned(),
                class: CharacterClass::Magician,
                lvl: 1,
                hp: 6,
                max_hp: 6,
                mp: 7,
                max_mp: 7,
                base_atk: 1,
                base_def: 0,
                base_matk: 6,
                base_mdef: 5,
                base_agi: 3,
                base_luck: 1,
                weapon: None,
                shield: None,
                armor: None,
            },
        ];
        Game {
            state: State {
                level: Level::example_level(),
                pos: Position { x: 0, y: 0 },
                dir: Direction::South,
                party,
                inventory,
            },
            scene: Scene::Explore(ExploreScene { anim: None, selected: None }),
        }
    }

    /// Routes a key press to the active scene and installs the scene that
    /// follows.
    pub fn key_down_event(&mut self, key: Key)
        requires
            old(self).wf(),
        ensures
            final(self).wf(),
            final(self).scene == Game::next_scene(*old(self), key),
            final(self).state.level == old(self).state.level,
            match old(self).scene {
                Scene::Explore(e) => {
                    let (pos, dir, _) = explore_key(
                        old(self).state.level,
                        old(self).state.pos,
                        old(self).state.dir,
                        old(self).state.party@.len(),
                        e,
                        key,
                    );
                    &&& final(self).state.pos == pos
                    &&& final(self).state.dir == dir
                    &&& final(self).state.party == old(self).state.party
                    &&& final(self).state.inventory == old(self).state.inventory
                },
                Scene::ViewCharacter(_) => final(self).state == old(self).state,
                Scene::ViewInventory(v) => {
                    let party = old(self).state.party@;
                    let inventory = old(self).state.inventory@;
                    &&& final(self).state.pos == old(self).state.pos
                    &&& final(self).state.dir == old(self).state.dir
                    &&& accepts(party, inventory, v, key) ==> {
                        &&& final(self).state.party@ == equip_party(
                            party,
                            inventory,
                            *v.parent,
                            v.i as int,
                        )
                        &&& final(self).state.inventory@ == equip_inventory(
                            party,
                            inventory,
                            *v.parent,
                            v.i as int,
                        )
                    }
                    &&& !accepts(party, inventory, v, key) ==> {
                        &&& final(self).state.party == old(self).state.party
                        &&& final(self).state.inventory == old(self).state.inventory
                    }
                },
            },
    {
        let mut scene = Scene::Explore(ExploreScene { anim: None, selected: None });
        std::mem::swap(&mut scene, &mut self.scene);
        let next = match scene {
            Scene::Explore(e) => explore::key_down_event(&mut self.state, e, key),
            Scene::ViewCharacter(v) => view_character::key_down_event(v, key),
            Scene::ViewInventory(v) => view_inventory::key_down_event(&mut self.state, v, key),
        };
        self.scene = next;
    }

    /// Lets `delta` nanoseconds pass for the active scene.
    pub fn update(&mut self, delta: u64)
        requires
            old(self).wf(),
        ensures
            final(self).wf(),
            final(self).state.dir == old(self).state.dir,
            final(self).state.level == old(self).state.level,
            final(self).state.party == old(self).state.party,
            final(self).state.inventory == old(self).state.inventory,
            match old(self).scene {
                Scene::Explore(e) => {
                    let (pos, anim) = explore_tick(old(self).state.pos, old(self).state.dir, e.anim, delta);
                    &&& final(self).state.pos == pos
                    &&& final(self).scene == Scene::Explore(ExploreScene { anim, selected: e.selected })
                },
                _ => final(self).state.pos == old(self).state.pos && final(self).scene == old(self).scene,
            },
    {
        match &mut self.scene {
            Scene::Explore(e) => explore::update(&mut self.state, e, delta),
            _ => {},
        }
    }
}

/// An inventory visit ends with its answer: cancelling it, or confirming an
/// item that its rule accepts, returns to the scene that opened the visit,
/// which is never itself an inventory visit. A second cancel or confirm
/// therefore never reaches the visit that was answered.
pub proof fn lemma_answer_leaves_inventory(g: Game, key: Key)
    requires
        g.wf(),
        g.scene is ViewInventory,
        key == Key::Escape || accepts(
            g.state.party@,
            g.state.inventory@,
            g.scene->ViewInventory_0,
            key,
        ),
    ensures
        Game::next_scene(g, key) == *g.scene->ViewInventory_0.parent,
        !(Game::next_scene(g, key) is ViewInventory),
{
}

} // verus!
