//! Item placement for a randomized adventure.
//!
//! A world is a graph of locations; each location owns checks, and each
//! check hands out one item. The placement binds an item to every check so
//! that the game can still be completed: the progression items are placed
//! one by one on checks that the assumed search reaches without them, and
//! filler takes what is left.
//!
//! The catalogue of items is in [`item`], the world graph in [`world`], the
//! guards of its paths and checks in [`guard`]. [`search`] finds the checks
//! that an inventory can take, [`pools`] draws up the items of a run,
//! [`preplace`] places what the settings place ahead, and [`filler`] holds
//! the fill itself.

pub mod account;
pub mod binding;
pub mod check_map;
pub mod error;
pub mod exclusions;
pub mod fifo;
pub mod filler;
pub mod filter;
pub mod game;
pub mod guard;
pub mod item;
pub mod names;
pub mod placement;
pub mod pools;
pub mod preplace;
pub mod progress;
pub mod regions;
pub mod rng;
pub mod search;
pub mod settings;
pub mod spots;
pub mod text;
pub mod world;
