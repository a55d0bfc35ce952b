//! The screen and mode controller of a small turn-based, first-person
//! dungeon crawler: the grid and its walls, the party and its equipment, and
//! the scenes that decide what each key press does.

pub mod character;
pub mod direction;
pub mod explore;
pub mod font;
pub mod game;
pub mod item;
pub mod item_predicate;
pub mod level;
pub mod position;
pub mod scene;
pub mod state;
pub mod view_character;
pub mod view_inventory;
pub mod viewport;
