use blackbox::direction::Direction;
use blackbox::explore::STEP_DURATION;
use blackbox::game::Game;
use blackbox::item::{Item, ItemSlot};
use blackbox::item_predicate::ItemPredicate;
use blackbox::character::CharacterClass;
use blackbox::position::Position;
use blackbox::scene::{ExploreAnimation, ExploreScene, Key, Scene, ViewCharacterScene};

const MS: u64 = 1_000_000;

fn explore(anim: Option<ExploreAnimation>, selected: Option<usize>) -> Scene {
    Scene::Explore(ExploreScene { anim, selected })
}

#[test]
fn new_game_starts_exploring() {
    let game = Game::new();
    assert_eq!(game.state.pos, Position { x: 0, y: 0 });
    assert_eq!(game.state.dir, Direction::South);
    assert_eq!(game.state.party.len(), 3);
    assert_eq!(game.state.party[0].name, "TELLURIUS");
    assert_eq!(game.state.party[0].weapon, Some(Item::IronSword));
    assert_eq!(game.state.party[2].class, CharacterClass::Magician);
    assert_eq!(game.state.inventory.len(), 9);
    assert_eq!(game.state.inventory[3], Item::BronzeSword);
    assert_eq!(game.state.inventory[8], Item::SteelSword);
    assert_eq!(game.scene, explore(None, None));
}

#[test]
fn forward_step_commits_when_time_is_up() {
    let mut game = Game::new();
    game.key_down_event(Key::Up);
    assert_eq!(STEP_DURATION, 200 * MS);
    assert_eq!(game.scene, explore(Some(ExploreAnimation::StepForward(200 * MS)), None));
    assert_eq!(game.state.pos, Position { x: 0, y: 0 });
    game.update(120 * MS);
    assert_eq!(game.scene, explore(Some(ExploreAnimation::StepForward(80 * MS)), None));
    assert_eq!(game.state.pos, Position { x: 0, y: 0 });
    game.update(80 * MS);
    assert_eq!(game.scene, explore(None, None));
    assert_eq!(game.state.pos, Position { x: 0, y: 1 });
}

#[test]
fn backward_step_commits_at_once() {
    let mut game = Game::new();
    game.state.pos = Position { x: 5, y: 5 };
    game.state.dir = Direction::East;
    game.key_down_event(Key::S);
    assert_eq!(game.state.pos, Position { x: 4, y: 5 });
    assert_eq!(game.scene, explore(Some(ExploreAnimation::StepBackward(200 * MS)), None));
    game.update(250 * MS);
    assert_eq!(game.scene, explore(None, None));
    assert_eq!(game.state.pos, Position { x: 4, y: 5 });
}

#[test]
fn strafe_commits_at_once() {
    let mut game = Game::new();
    game.state.pos = Position { x: 5, y: 5 };
    game.state.dir = Direction::North;
    game.key_down_event(Key::A);
    assert_eq!(game.state.pos, Position { x: 4, y: 5 });
    assert_eq!(game.scene, explore(Some(ExploreAnimation::StepLeft(200 * MS)), None));
    game.key_down_event(Key::Other);
    assert_eq!(game.scene, explore(None, None));
    game.key_down_event(Key::D);
    assert_eq!(game.state.pos, Position { x: 5, y: 5 });
    assert_eq!(game.scene, explore(Some(ExploreAnimation::StepRight(200 * MS)), None));
}

#[test]
fn key_during_step_finishes_it_first() {
    let mut game = Game::new();
    game.key_down_event(Key::W);
    game.update(10 * MS);
    game.key_down_event(Key::Up);
    assert_eq!(game.state.pos, Position { x: 0, y: 1 });
    assert_eq!(game.scene, explore(Some(ExploreAnimation::StepForward(200 * MS)), None));
}

#[test]
fn solid_wall_blocks_steps() {
    let mut game = Game::new();
    game.state.dir = Direction::North;
    game.key_down_event(Key::Up);
    assert_eq!(game.scene, explore(None, None));
    game.key_down_event(Key::A);
    assert_eq!(game.scene, explore(None, None));
    assert_eq!(game.state.pos, Position { x: 0, y: 0 });
    game.key_down_event(Key::D);
    assert_eq!(game.state.pos, Position { x: 1, y: 0 });
}

#[test]
fn door_lets_the_party_through() {
    let mut game = Game::new();
    game.state.pos = Position { x: 4, y: 4 };
    game.state.dir = Direction::West;
    game.key_down_event(Key::Up);
    game.update(200 * MS);
    assert_eq!(game.state.pos, Position { x: 3, y: 4 });
}

#[test]
fn arrows_turn_the_party() {
    let mut game = Game::new();
    game.key_down_event(Key::Left);
    assert_eq!(game.state.dir, Direction::East);
    game.key_down_event(Key::Down);
    assert_eq!(game.state.dir, Direction::West);
    game.key_down_event(Key::Right);
    assert_eq!(game.state.dir, Direction::North);
    assert_eq!(game.state.pos, Position { x: 0, y: 0 });
}

#[test]
fn party_cursor_wraps() {
    let mut game = Game::new();
    game.key_down_event(Key::P);
    assert_eq!(game.scene, explore(None, Some(0)));
    game.key_down_event(Key::Up);
    assert_eq!(game.scene, explore(None, Some(2)));
    game.key_down_event(Key::Down);
    assert_eq!(game.scene, explore(None, Some(0)));
    game.key_down_event(Key::Down);
    assert_eq!(game.scene, explore(None, Some(1)));
    game.key_down_event(Key::Escape);
    assert_eq!(game.scene, explore(None, None));
}

#[test]
fn empty_party_cannot_be_selected() {
    let mut game = Game::new();
    game.state.party.clear();
    game.key_down_event(Key::P);
    assert_eq!(game.scene, explore(None, None));
}

#[test]
fn view_character_slot_cycle() {
    let mut game = Game::new();
    game.key_down_event(Key::P);
    game.key_down_event(Key::Return);
    assert_eq!(
        game.scene,
        Scene::ViewCharacter(ViewCharacterScene { i: 0, selected: ItemSlot::Weapon })
    );
    game.key_down_event(Key::Up);
    assert_eq!(
        game.scene,
        Scene::ViewCharacter(ViewCharacterScene { i: 0, selected: ItemSlot::Armor })
    );
    game.key_down_event(Key::Up);
    assert_eq!(
        game.scene,
        Scene::ViewCharacter(ViewCharacterScene { i: 0, selected: ItemSlot::Shield })
    );
    game.key_down_event(Key::Escape);
    assert_eq!(game.scene, explore(None, Some(0)));
}

fn open_weapon_request(game: &mut Game) {
    game.key_down_event(Key::P);
    game.key_down_event(Key::Return);
    game.key_down_event(Key::Return);
}

#[test]
fn equip_request_carries_its_rule() {
    let mut game = Game::new();
    open_weapon_request(&mut game);
    match &game.scene {
        Scene::ViewInventory(v) => {
            assert_eq!(v.i, 0);
            assert_eq!(v.pred, ItemPredicate::Equippable(0, ItemSlot::Weapon));
            assert_eq!(
                *v.parent,
                Scene::ViewCharacter(ViewCharacterScene { i: 0, selected: ItemSlot::Weapon })
            );
        }
        other => panic!("expected the inventory, got {:?}", other),
    }
}

#[test]
fn unusable_item_confirm_is_a_no_op() {
    let mut game = Game::new();
    game.state.party[0].class = CharacterClass::Priest;
    open_weapon_request(&mut game);
    game.key_down_event(Key::Return);
    assert!(matches!(game.scene, Scene::ViewInventory(_)));
    assert_eq!(game.state.party[0].weapon, Some(Item::IronSword));
    assert_eq!(game.state.inventory.len(), 9);
}

#[test]
fn equip_swaps_into_the_slot() {
    let mut game = Game::new();
    open_weapon_request(&mut game);
    game.key_down_event(Key::Down);
    game.key_down_event(Key::Down);
    game.key_down_event(Key::Return);
    assert_eq!(
        game.scene,
        Scene::ViewCharacter(ViewCharacterScene { i: 0, selected: ItemSlot::Weapon })
    );
    assert_eq!(game.state.party[0].weapon, Some(Item::SteelSword));
    assert_eq!(
        game.state.inventory,
        vec![
            Item::BronzeSword,
            Item::IronSword,
            Item::BronzeSword,
            Item::IronSword,
            Item::SteelSword,
            Item::BronzeSword,
            Item::IronSword,
            Item::SteelSword,
            Item::IronSword,
        ]
    );
}

#[test]
fn equip_into_empty_slot_adds_nothing() {
    let mut game = Game::new();
    game.state.party[0].weapon = None;
    open_weapon_request(&mut game);
    game.key_down_event(Key::Return);
    assert_eq!(game.state.party[0].weapon, Some(Item::BronzeSword));
    assert_eq!(game.state.inventory.len(), 8);
    assert_eq!(game.state.inventory[0], Item::IronSword);
}

#[test]
fn wrong_slot_refuses_the_item() {
    let mut game = Game::new();
    game.key_down_event(Key::P);
    game.key_down_event(Key::Return);
    game.key_down_event(Key::Down);
    game.key_down_event(Key::Return);
    game.key_down_event(Key::Return);
    assert!(matches!(game.scene, Scene::ViewInventory(_)));
    assert_eq!(game.state.party[0].shield, None);
}

#[test]
fn cancel_leaves_the_inventory_once() {
    let mut game = Game::new();
    open_weapon_request(&mut game);
    game.key_down_event(Key::Escape);
    assert_eq!(
        game.scene,
        Scene::ViewCharacter(ViewCharacterScene { i: 0, selected: ItemSlot::Weapon })
    );
    assert_eq!(game.state.inventory.len(), 9);
    game.key_down_event(Key::Escape);
    assert_eq!(game.scene, explore(None, Some(0)));
}

#[test]
fn browse_accepts_any_item_without_effect() {
    let mut game = Game::new();
    game.key_down_event(Key::I);
    match &game.scene {
        Scene::ViewInventory(v) => {
            assert_eq!(v.pred, ItemPredicate::Any);
            assert_eq!(*v.parent, explore(None, None));
        }
        other => panic!("expected the inventory, got {:?}", other),
    }
    game.key_down_event(Key::Return);
    assert_eq!(game.scene, explore(None, None));
    assert_eq!(game.state.inventory.len(), 9);
}

#[test]
fn inventory_cursor_wraps() {
    let mut game = Game::new();
    game.key_down_event(Key::I);
    game.key_down_event(Key::Up);
    match &game.scene {
        Scene::ViewInventory(v) => assert_eq!(v.i, 8),
        other => panic!("expected the inventory, got {:?}", other),
    }
    game.key_down_event(Key::Down);
    match &game.scene {
        Scene::ViewInventory(v) => assert_eq!(v.i, 0),
        other => panic!("expected the inventory, got {:?}", other),
    }
}

#[test]
fn empty_inventory_cursor_stays() {
    let mut game = Game::new();
    game.state.inventory.clear();
    game.key_down_event(Key::I);
    game.key_down_event(Key::Up);
    game.key_down_event(Key::Down);
    game.key_down_event(Key::Return);
    match &game.scene {
        Scene::ViewInventory(v) => assert_eq!(v.i, 0),
        other => panic!("expected the inventory, got {:?}", other),
    }
    game.key_down_event(Key::Escape);
    assert_eq!(game.scene, explore(None, None));
}

#[test]
fn opening_inventory_ends_the_step() {
    let mut game = Game::new();
    game.key_down_event(Key::Up);
    game.key_down_event(Key::I);
    assert_eq!(game.state.pos, Position { x: 0, y: 1 });
    match &game.scene {
        Scene::ViewInventory(v) => assert_eq!(*v.parent, explore(None, None)),
        other => panic!("expected the inventory, got {:?}", other),
    }
    game.update(500 * MS);
    assert_eq!(game.state.pos, Position { x: 0, y: 1 });
}
