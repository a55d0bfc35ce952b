use vstd::prelude::*;

use crate::direction::Direction;
use crate::item::ItemSlot;
use crate::item_predicate::ItemPredicate;
use crate::level::{Level, Wall};
use crate::position::Position;
use crate::scene::{
    cursor_down,
    cursor_up,
    idle_explore,
    ExploreAnimation,
    ExploreScene,
    Key,
    Scene,
    ViewCharacterScene,
    ViewInventoryScene,
};
use crate::state::State;

verus! {

/// How long one step is shown, in nanoseconds.
pub const STEP_DURATION: u64 = 200_000_000;

/// Where the party stands once the step being shown is over: only a forward
/// step moves the party at its end; the other steps moved it when they began.
pub open spec fn settled(pos: Position, dir: Direction, anim: Option<ExploreAnimation>) -> Position {
    match anim {
        Option::Some(ExploreAnimation::StepForward(_)) => pos.moved(dir, 1),
        _ => pos,
    }
}

/// Whether a step from `pos` towards `dir` can be taken.
pub open spec fn open_towards(level: Level, pos: Position, dir: Direction) -> bool {
    level.wall_at(pos, dir) != Wall::Solid
}

/// A step of kind `anim` that has just begun, shown from `pos`.
pub open spec fn stepping(pos: Position, dir: Direction, anim: ExploreAnimation) -> (
    Position,
    Direction,
    Scene,
) {
    (pos, dir, Scene::Explore(ExploreScene { anim: Option::Some(anim), selected: Option::None }))
}

/// The position, facing and scene after `key` is pressed while exploring,
/// for a party of `party_len` members. Any step being shown is first brought
/// to its end.
pub open spec fn explore_key(
    level: Level,
    pos: Position,
    dir: Direction,
    party_len: nat,
    scene: ExploreScene,
    key: Key,
) -> (Position, Direction, Scene) {
    let p = settled(pos, dir, scene.anim);
    let n = party_len as int;
    match scene.selected {
        Option::Some(i) => match key {
            Key::Return => (
                p,
                dir,
                Scene::ViewCharacter(ViewCharacterScene { i, selected: ItemSlot::Weapon }),
            ),
            Key::Escape => (p, dir, idle_explore(Option::None)),
            Key::Up => (p, dir, idle_explore(Option::Some(((i + n - 1) % n) as usize))),
            Key::Down => (p, dir, idle_explore(Option::Some(((i + 1) % n) as usize))),
            _ => (p, dir, idle_explore(Option::Some(i))),
        },
        Option::None => match key {
            Key::Up | Key::W => if open_towards(level, p, dir) {
                stepping(p, dir, ExploreAnimation::StepForward(STEP_DURATION))
            } else {
                (p, dir, idle_explore(Option::None))
            },
            Key::S => if open_towards(level, p, dir.turned(2)) {
                stepping(p.moved(dir, -1), dir, ExploreAnimation::StepBackward(STEP_DURATION))
            } else {
                (p, dir, idle_explore(Option::None))
            },
            Key::A => if open_towards(level, p, dir.turned(3)) {
                stepping(p.moved(dir.turned(3), 1), dir, ExploreAnimation::StepLeft(STEP_DURATION))
            } else {
                (p, dir, idle_explore(Option::None))
            },
            Key::D => if open_towards(level, p, dir.turned(1)) {
                stepping(p.moved(dir.turned(1), 1), dir, ExploreAnimation::StepRight(STEP_DURATION))
            } else {
                (p, dir, idle_explore(Option::None))
            },
            Key::P => if n > 0 {
                (p, dir, idle_explore(Option::Some(0)))
            } else {
                (p, dir, idle_explore(Option::None))
            },
            Key::I => (
                p,
                dir,
                Scene::ViewInventory(
                    ViewInventoryScene {
                        i: 0,
                        parent: Box::new(idle_explore(Option::None)),
                        pred: ItemPredicate::Any,
                    },
                ),
            ),
            Key::Down => (p, dir.turned(2), idle_explore(Option::None)),
            Key::Left => (p, dir.turned(3), idle_explore(Option::None)),
            Key::Right => (p, dir.turned(1), idle_explore(Option::None)),
            _ => (p, dir, idle_explore(Option::None)),
        },
    }
}

/// Where the party stands and what is shown after `delta` nanoseconds pass.
pub open spec fn explore_tick(
    pos: Position,
    dir: Direction,
    anim: Option<ExploreAnimation>,
    delta: u64,
) -> (Position, Option<ExploreAnimation>) {
    match anim {
        Option::Some(a) => if delta >= a.remaining() {
            (settled(pos, dir, anim), Option::None)
        } else {
            (pos, Option::Some(a.with_remaining((a.remaining() - delta) as u64)))
        },
        Option::None => (pos, Option::None),
    }
}

/// Brings the step being shown to its end: a forward step moves the party
/// now, and the animation is cleared.
fn finish_anim(pos: &mut Position, dir: &Direction, anim: &mut Option<ExploreAnimation>)
    requires
        old(pos).wf(),
    ensures
        *final(pos) == settled(*old(pos), *dir, *old(anim)),
        final(pos).wf(),
        *final(anim) == Option::<ExploreAnimation>::None,
{
    match anim {
        Some(ExploreAnimation::StepForward(_)) => {
            *pos = pos.move_by(*dir, 1);
        },
        _ => {},
    }
    *anim = None;
}

/// Handles a key press while exploring, and returns the scene that follows.
pub fn key_down_event(state: &mut State, scene: ExploreScene, key: Key) -> (r: Scene)
    requires
        old(state).wf(),
        Scene::Explore(scene).wf(old(state).party@.len(), old(state).inventory@.len()),
    ensures
        (final(state).pos, final(state).dir, r) == explore_key(
            old(state).level,
            old(state).pos,
            old(state).dir,
            old(state).party@.len(),
            scene,
            key,
        ),
        final(state).wf(),
        final(state).level == old(state).level,
        final(state).party == old(state).party,
        final(state).inventory == old(state).inventory,
        r.wf(final(state).party@.len(), final(state).inventory@.len()),
{
    proof {
        reveal_with_fuel(Scene::wf, 2);
    }
    let mut anim = scene.anim;
    finish_anim(&mut state.pos, &state.dir, &mut anim);
    let n = state.party.len();
    match scene.selected {
        Some(i) => match key {
            Key::Return => Scene::ViewCharacter(ViewCharacterScene { i, selected: ItemSlot::Weapon }),
            Key::Escape => Scene::Explore(ExploreScene { anim: None, selected: None }),
            Key::Up => Scene::Explore(ExploreScene { anim: None, selected: Some(cursor_up(i, n)) }),
            Key::Down => Scene::Explore(
                ExploreScene { anim: None, selected: Some(cursor_down(i, n)) },
            ),
            _ => Scene::Explore(ExploreScene { anim: None, selected: Some(i) }),
        },
        None => match key {
            Key::Up | Key::W => {
                if state.level.wall_towards(state.pos, state.dir).is_passable() {
                    anim = Some(ExploreAnimation::StepForward(STEP_DURATION));
                }
                Scene::Explore(ExploreScene { anim, selected: None })
            },
            Key::S => {
                if state.level.wall_towards(state.pos, state.dir.rev()).is_passable() {
                    state.pos = state.pos.move_by(state.dir, -1);
                    anim = Some(ExploreAnimation::StepBackward(STEP_DURATION));
                }
                Scene::Explore(ExploreScene { anim, selected: None })
            },
            Key::A => {
                let side = state.dir.left();
                if state.level.wall_towards(state.pos, side).is_passable() {
                    state.pos = state.pos.move_by(side, 1);
                    anim = Some(ExploreAnimation::StepLeft(STEP_DURATION));
                }
                Scene::Explore(ExploreScene { anim, selected: None })
            },
            Key::D => {
                let side = state.dir.right();
                if state.level.wall_towards(state.pos, side).is_passable() {
                    state.pos = state.pos.move_by(side, 1);
                    anim = Some(ExploreAnimation::StepRight(STEP_DURATION));
                }
                Scene::Explore(ExploreScene { anim, selected: None })
            },
            Key::P => {
                let selected = if n > 0 {
                    Some(0)
                } else {
                    None
                };
                Scene::Explore(ExploreScene { anim: None, selected })
            },
            Key::I => Scene::ViewInventory(
                ViewInventoryScene {
                    i: 0,
                    parent: Box::new(Scene::Explore(ExploreScene { anim: None, selected: None })),
                    pred: ItemPredicate::Any,
                },
            ),
            Key::Down => {
                state.dir = state.dir.rev();
                Scene::Explore(ExploreScene { anim: None, selected: None })
            },
            Key::Left => {
                state.dir = state.dir.left();
                Scene::Explore(ExploreScene { anim: None, selected: None })
            },
            Key::Right => {
                state.dir = state.dir.right();
                Scene::Explore(ExploreScene { anim: None, selected: None })
            },
            _ => Scene::Explore(ExploreScene { anim: None, selected: None }),
        },
    }
}

/// Advances the step being shown by `delta` nanoseconds; a step whose time
/// is up is brought to its end.
pub fn update(state: &mut State, scene: &mut ExploreScene, delta: u64)
    requires
        old(state).wf(),
    ensures
        (final(state).pos, final(scene).anim) == explore_tick(
            old(state).pos,
            old(state).dir,
            old(scene).anim,
            delta,
        ),
        final(scene).selected == old(scene).selected,
        final(state).wf(),
        final(state).dir == old(state).dir,
        final(state).level == old(state).level,
        final(state).party == old(state).party,
        final(state).inventory == old(state).inventory,
{
    match scene.anim {
        Some(a) => {
            let remaining = match a {
                ExploreAnimation::StepBackward(t) => t,
                ExploreAnimation::StepForward(t) => t,
                ExploreAnimation::StepLeft(t) => t,
                ExploreAnimation::StepRight(t) => t,
            };
            if delta >= remaining {
                finish_anim(&mut state.pos, &state.dir, &mut scene.anim);
            } else {
                let t = remaining - delta;
                scene.anim = Some(
                    match a {
                        ExploreAnimation::StepBackward(_) => ExploreAnimation::StepBackward(t),
                        ExploreAnimation::StepForward(_) => ExploreAnimation::StepForward(t),
                        ExploreAnimation::StepLeft(_) => ExploreAnimation::StepLeft(t),
                        ExploreAnimation::StepRight(_) => ExploreAnimation::StepRight(t),
                    },
                );
            }
        },
        None => {},
    }
}

} // verus!
