use vstd::prelude::*;

use crate::item_predicate::ItemPredicate;
use crate::scene::{
    idle_explore,
    ExploreScene,
    Key,
    Scene,
    ViewCharacterScene,
    ViewInventoryScene,
};

verus! {

/// The scene that follows `key` while a party member is shown.
pub open spec fn view_character_key(scene: ViewCharacterScene, key: Key) -> Scene {
    match key {
        Key::Escape => idle_explore(Option::Some(scene.i)),
        Key::Return => Scene::ViewInventory(
            ViewInventoryScene {
                i: 0,
                parent: Box::new(Scene::ViewCharacter(scene)),
                pred: ItemPredicate::Equippable(scene.i, scene.selected),
            },
        ),
        Key::Up => Scene::ViewCharacter(
            ViewCharacterScene { i: scene.i, selected: scene.selected.cycled(2) },
        ),
        Key::Down => Scene::ViewCharacter(
            ViewCharacterScene { i: scene.i, selected: scene.selected.cycled(1) },
        ),
        _ => Scene::ViewCharacter(scene),
    }
}

/// Handles a key press while a party member is shown, and returns the scene
/// that follows. The world is left as it is.
pub fn key_down_event(scene: ViewCharacterScene, key: Key) -> (r: Scene)
    ensures
        r == view_character_key(scene, key),
        forall|party_len: nat, inv_len: nat|
            Scene::ViewCharacter(scene).wf(party_len, inv_len) ==> #[trigger] r.wf(
                party_len,
                inv_len,
            ),
{
    proof {
        reveal_with_fuel(Scene::wf, 2);
    }
    match key {
        Key::Escape => Scene::Explore(ExploreScene { anim: None, selected: Some(scene.i) }),
        Key::Return => Scene::ViewInventory(
            ViewInventoryScene {
                i: 0,
                pred: ItemPredicate::Equippable(scene.i, scene.selected),
                parent: Box::new(Scene::ViewCharacter(scene)),
            },
        ),
        Key::Up => Scene::ViewCharacter(
            ViewCharacterScene { i: scene.i, selected: scene.selected.prev() },
        ),
        Key::Down => Scene::ViewCharacter(
            ViewCharacterScene { i: scene.i, selected: scene.selected.next() },
        ),
        _ => Scene::ViewCharacter(scene),
    }
}

} // verus!
