use vstd::prelude::*;
use vstd::arithmetic::div_mod::{lemma_mod_add_multiples_vanish, lemma_mod_self_0, lemma_small_mod};

use crate::item::ItemSlot;
use crate::item_predicate::ItemPredicate;

verus! {

/// A logical key press, as the scenes understand it.
#[derive(Clone, Copy, Debug, PartialEq, Eq, Structural)]
pub enum Key {
    Up,
    Down,
    Left,
    Right,
    W,
    A,
    S,
    D,
    P,
    I,
    Return,
    Escape,
    /// Any key that no scene gives a meaning.
    Other,
}

/// A one-cell step being shown, with the time still left to show it, in
/// nanoseconds.
#[derive(Clone, Copy, Debug, PartialEq, Eq, Structural)]
pub enum ExploreAnimation {
    StepBackward(u64),
    StepForward(u64),
    StepLeft(u64),
    StepRight(u64),
}

impl ExploreAnimation {
    /// Time still left to show the step.
    pub open spec fn remaining(self) -> u64 {
        match self {
            ExploreAnimation::StepBackward(t) => t,
            ExploreAnimation::StepForward(t) => t,
            ExploreAnimation::StepLeft(t) => t,
            ExploreAnimation::StepRight(t) => t,
        }
    }

    /// The same kind of step with `t` left to show.
    pub open spec fn with_remaining(self, t: u64) -> ExploreAnimation {
        match self {
            ExploreAnimation::StepBackward(_) => ExploreAnimation::StepBackward(t),
            ExploreAnimation::StepForward(_) => ExploreAnimation::StepForward(t),
            ExploreAnimation::StepLeft(_) => ExploreAnimation::StepLeft(t),
            ExploreAnimation::StepRight(_) => ExploreAnimation::StepRight(t),
        }
    }
}

/// Walking through the level, optionally with a party member highlighted.
#[derive(Clone, Copy, Debug, PartialEq, Eq, Structural)]
pub struct ExploreScene {
    pub anim: Option<ExploreAnimation>,
    pub selected: Option<usize>,
}

/// Looking at one party member, with one equipment slot highlighted.
#[derive(Clone, Copy, Debug, PartialEq, Eq, Structural)]
pub struct ViewCharacterScene {
    pub i: usize,
    pub selected: ItemSlot,
}

/// Choosing an item from the inventory on behalf of `parent`, which is
/// resumed once the choice is made or refused.
#[derive(Debug, PartialEq, Eq)]
pub struct ViewInventoryScene {
    pub i: usize,
    pub parent: Box<Scene>,
    pub pred: ItemPredicate,
}

/// The active mode of the game.
#[derive(Debug, PartialEq, Eq)]
pub enum Scene {
    Explore(ExploreScene),
    ViewCharacter(ViewCharacterScene),
    ViewInventory(ViewInventoryScene),
}

/// An exploring scene at rest, with `selected` highlighted.
pub open spec fn idle_explore(selected: Option<usize>) -> Scene {
    Scene::Explore(ExploreScene { anim: None, selected })
}

impl Scene {
    /// Every index the scene holds is valid for a party of `party_len`
    /// members and an inventory of `inv_len` items, and a pending inventory
    /// visit returns to a scene that is not itself an inventory visit.
    pub open spec fn wf(self, party_len: nat, inv_len: nat) -> bool
        decreases self,
    {
        match self {
            Scene::Explore(e) => match e.selected {
                Option::Some(i) => i < party_len,
                Option::None => true,
            },
            Scene::ViewCharacter(v) => v.i < party_len,
            Scene::ViewInventory(v) => {
                &&& (inv_len == 0 || v.i < inv_len)
                &&& !(*v.parent is ViewInventory)
                &&& (*v.parent).wf(party_len, inv_len)
            },
        }
    }
}

/// The cursor one place up in a list of `n` entries, wrapping from the
/// first entry to the last.
pub(crate) fn cursor_up(i: usize, n: usize) -> (r: usize)
    requires
        i < n,
    ensures
        r == (i + n - 1) % (n as int),
        r < n,
{
    if i == 0 {
        proof {
            lemma_small_mod((n - 1) as nat, n as nat);
        }
        n - 1
    } else {
        proof {
            lemma_mod_add_multiples_vanish(i - 1, n as int);
            lemma_small_mod((i - 1) as nat, n as nat);
        }
        i - 1
    }
}

/// The cursor one place down in a list of `n` entries, wrapping from the
/// last entry to the first.
pub(crate) fn cursor_down(i: usize, n: usize) -> (r: usize)
    requires
        i < n,
    ensures
        r == (i + 1) % (n as int),
        r < n,
{
    if i + 1 == n {
        proof {
            lemma_mod_self_0(n as int);
        }
        0
    } else {
        proof {
            lemma_small_mod((i + 1) as nat, n as nat);
        }
        i + 1
    }
}

} // verus!
