use vstd::prelude::*;
use vstd::multiset::Multiset;

use crate::character::Character;
use crate::item::Item;
use crate::item::ItemSlot;
use crate::scene::{cursor_down, cursor_up, Key, Scene, ViewCharacterScene, ViewInventoryScene};
use crate::state::State;

verus! {

/// The party once item `k` of the inventory is accepted on behalf of
/// `parent`: when the request came from a party member's slot, the item goes
/// into that slot.
pub open spec fn equip_party(party: Seq<Character>, inventory: Seq<Item>, parent: Scene, k: int) -> Seq<
    Character,
> {
    match parent {
        Scene::ViewCharacter(v) => if v.i < party.len() {
            party.update(v.i as int, party[v.i as int].with_slot(v.selected, Option::Some(inventory[k])))
        } else {
            party
        },
        _ => party,
    }
}

/// The inventory once item `k` is accepted on behalf of `parent`: when the
/// request came from a party member's slot, the item leaves its place and
/// what the slot held before, if anything, is added at the end.
pub open spec fn equip_inventory(party: Seq<Character>, inventory: Seq<Item>, parent: Scene, k: int) -> Seq<
    Item,
> {
    match parent {
        Scene::ViewCharacter(v) => if v.i < party.len() {
            let rest = inventory.remove(k);
            match party[v.i as int].slot(v.selected) {
                Option::Some(e) => rest.push(e),
                Option::None => rest,
            }
        } else {
            inventory
        },
        _ => inventory,
    }
}

/// Whether `key` accepts the highlighted item: it is confirmed, there is an
/// item under the cursor, and the visit's rule lets it be chosen.
pub open spec fn accepts(
    party: Seq<Character>,
    inventory: Seq<Item>,
    scene: ViewInventoryScene,
    key: Key,
) -> bool {
    &&& key == Key::Return
    &&& scene.i < inventory.len()
    &&& scene.pred.holds(inventory[scene.i as int], party)
}

/// The scene that follows `key` while the inventory is shown.
pub open spec fn view_inventory_key(
    party: Seq<Character>,
    inventory: Seq<Item>,
    scene: ViewInventoryScene,
    key: Key,
) -> Scene {
    let n = inventory.len() as int;
    match key {
        Key::Escape => *scene.parent,
        Key::Return => if accepts(party, inventory, scene, key) {
            *scene.parent
        } else {
            Scene::ViewInventory(scene)
        },
        Key::Up => if n > 0 {
            Scene::ViewInventory(
                ViewInventoryScene { i: ((scene.i + n - 1) % n) as usize, ..scene },
            )
        } else {
            Scene::ViewInventory(scene)
        },
        Key::Down => if n > 0 {
            Scene::ViewInventory(ViewInventoryScene { i: ((scene.i + 1) % n) as usize, ..scene })
        } else {
            Scene::ViewInventory(scene)
        },
        _ => Scene::ViewInventory(scene),
    }
}

/// Ends the inventory visit: accepts item `item_i` on behalf of the parent
/// scene, or refuses when there is none, and returns the parent scene.
fn answer_request(state: &mut State, scene: ViewInventoryScene, item_i: Option<usize>) -> (r: Scene)
    requires
        old(state).wf(),
        item_i matches Option::Some(k) ==> k < old(state).inventory@.len(),
    ensures
        r == *scene.parent,
        final(state).wf(),
        final(state).pos == old(state).pos,
        final(state).dir == old(state).dir,
        final(state).level == old(state).level,
        match item_i {
            Option::Some(k) => {
                &&& final(state).party@ == equip_party(
                    old(state).party@,
                    old(state).inventory@,
                    *scene.parent,
                    k as int,
                )
                &&& final(state).inventory@ == equip_inventory(
                    old(state).party@,
                    old(state).inventory@,
                    *scene.parent,
                    k as int,
                )
            },
            Option::None => {
                &&& final(state).party == old(state).party
                &&& final(state).inventory == old(state).inventory
            },
        },
{
    if let Some(k) = item_i {
        match &*scene.parent {
            Scene::ViewCharacter(v) => {
                if v.i < state.party.len() {
                    let inv_item = state.inventory.remove(k);
                    let member = &mut state.party[v.i];
                    let slot = member.item_mut(v.selected);
                    let equipped = *slot;
                    *slot = Some(inv_item);
                    if let Some(e) = equipped {
                        state.inventory.push(e);
                    }
                }
            },
            _ => {},
        }
    }
    *scene.parent
}

/// Handles a key press while the inventory is shown, and returns the scene
/// that follows.
pub fn key_down_event(state: &mut State, scene: ViewInventoryScene, key: Key) -> (r: Scene)
    requires
        old(state).wf(),
        Scene::ViewInventory(scene).wf(old(state).party@.len(), old(state).inventory@.len()),
    ensures
        r == view_inventory_key(old(state).party@, old(state).inventory@, scene, key),
        accepts(old(state).party@, old(state).inventory@, scene, key) ==> {
            &&& final(state).party@ == equip_party(
                old(state).party@,
                old(state).inventory@,
                *scene.parent,
                scene.i as int,
            )
            &&& final(state).inventory@ == equip_inventory(
                old(state).party@,
                old(state).inventory@,
                *scene.parent,
                scene.i as int,
            )
        },
        !accepts(old(state).party@, old(state).inventory@, scene, key) ==> {
            &&& final(state).party == old(state).party
            &&& final(state).inventory == old(state).inventory
        },
        final(state).wf(),
        final(state).pos == old(state).pos,
        final(state).dir == old(state).dir,
        final(state).level == old(state).level,
        r.wf(final(state).party@.len(), final(state).inventory@.len()),
{
    proof {
        reveal_with_fuel(Scene::wf, 2);
    }
    let n = state.inventory.len();
    match key {
        Key::Escape => answer_request(state, scene, None),
        Key::Return => {
            if scene.i < n && scene.pred.matches(state.inventory[scene.i], state) {
                let k = scene.i;
                answer_request(state, scene, Some(k))
            } else {
                Scene::ViewInventory(scene)
            }
        },
        Key::Up => {
            if n > 0 {
                let j = cursor_up(scene.i, n);
                Scene::ViewInventory(ViewInventoryScene { i: j, parent: scene.parent, pred: scene.pred })
            } else {
                Scene::ViewInventory(scene)
            }
        },
        Key::Down => {
            if n > 0 {
                let j = cursor_down(scene.i, n);
                Scene::ViewInventory(ViewInventoryScene { i: j, parent: scene.parent, pred: scene.pred })
            } else {
                Scene::ViewInventory(scene)
            }
        },
        _ => Scene::ViewInventory(scene),
    }
}

/// The items a slot holding `o` carries: none, or the one it holds.
pub open spec fn held(o: Option<Item>) -> Multiset<Item> {
    match o {
        Option::Some(e) => Multiset::singleton(e),
        Option::None => Multiset::empty(),
    }
}

/// Equipping is a swap: the chosen item ends up in the requested slot, no
/// other slot of the party changes, and the items of the inventory and of
/// that slot together stay the same, none lost and none made.
pub proof fn lemma_equip_swaps(
    party: Seq<Character>,
    inventory: Seq<Item>,
    member: ViewCharacterScene,
    k: int,
)
    requires
        member.i < party.len(),
        0 <= k < inventory.len(),
    ensures
        ({
            let parent = Scene::ViewCharacter(member);
            let new_party = equip_party(party, inventory, parent, k);
            let new_inventory = equip_inventory(party, inventory, parent, k);
            &&& new_party.len() == party.len()
            &&& new_party[member.i as int].slot(member.selected) == Option::Some(inventory[k])
            &&& forall|s: ItemSlot|
                s != member.selected ==> #[trigger] new_party[member.i as int].slot(s) == party[member.i as int].slot(s)
            &&& forall|j: int| 0 <= j < party.len() && j != member.i ==> #[trigger] new_party[j] == party[j]
            &&& new_inventory.to_multiset().add(held(new_party[member.i as int].slot(member.selected)))
                == inventory.to_multiset().add(held(party[member.i as int].slot(member.selected)))
        }),
{
    broadcast use vstd::seq_lib::group_to_multiset_ensures;
    broadcast use vstd::multiset::group_multiset_axioms;

    let old_slot = party[member.i as int].slot(member.selected);
    let rest = inventory.remove(k);
    let m = inventory.to_multiset();
    assert(rest.to_multiset() =~= m.remove(inventory[k]));
    assert(m.count(inventory[k]) > 0) by {
        assert(inventory.contains(inventory[k]));
    }
    match old_slot {
        Option::Some(e) => {
            assert(rest.push(e).to_multiset() =~= rest.to_multiset().insert(e));
            assert(rest.push(e).to_multiset().add(Multiset::singleton(inventory[k])) =~= m.add(
                Multiset::singleton(e),
            ));
        },
        Option::None => {
            assert(rest.to_multiset().add(Multiset::singleton(inventory[k])) =~= m.add(
                Multiset::empty(),
            ));
        },
    }
}

/// Number of inventory entries shown at once.
pub const ITEMS_PER_SCREEN: usize = 17;

/// Index of the first entry shown for an inventory of `len` items with the
/// cursor at `cursor`: the view keeps the cursor near its middle, but never
/// scrolls past the end of the list.
pub open spec fn first_shown_spec(cursor: int, len: int) -> int {
    let centred = if cursor > ITEMS_PER_SCREEN / 2 {
        cursor - ITEMS_PER_SCREEN / 2
    } else {
        0
    };
    let last_page = if len > ITEMS_PER_SCREEN {
        len - ITEMS_PER_SCREEN
    } else {
        0
    };
    if centred < last_page {
        centred
    } else {
        last_page
    }
}

/// Index of the first inventory entry to show; the entry under the cursor is
/// always among the `ITEMS_PER_SCREEN` entries shown from there.
pub fn first_shown(cursor: usize, len: usize) -> (r: usize)
    ensures
        r == first_shown_spec(cursor as int, len as int),
        cursor < len ==> r <= cursor < r + ITEMS_PER_SCREEN,
{
    let centred = cursor.saturating_sub(ITEMS_PER_SCREEN / 2);
    let last_page = len.saturating_sub(ITEMS_PER_SCREEN);
    if centred < last_page {
        centred
    } else {
        last_page
    }
}

} // verus!
