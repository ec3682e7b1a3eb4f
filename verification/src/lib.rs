//! A small world of tiles in which mobs move and bounce off the walls, shown through a
//! window that the user can move.
//!
//! `model` holds the state and renders it, `controller` moves the agents and the window,
//! `view` decides what the presentation does with the frames that reach it, and
//! `utils::numerics` holds the arithmetic that the others share.

pub mod controller;
pub mod model;
pub mod utils;
pub mod view;
