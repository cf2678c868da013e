//! Core rules of a small tower-defense game.
//!
//! The game is a machine with three phases: a start menu, the defense and
//! the end. The parts of the game are tied to phases: the menu to the start
//! menu; the camera, the map and the towers to the defense. [`game::Game`]
//! owns the phase and the world and runs the parts, frame by frame:
//!
//! - [`start_menu`]: three buttons, and what a click on each asks for;
//! - [`camera`]: six directions that pan and zoom the camera inside bounds;
//! - [`map`]: a chunk of stone columns of random height, and the rule that a
//!   click on a free block builds one tower on it and no second;
//! - [`tower`]: what a tower is made of, and how its cannon turns.
//!
//! Everything is counted in whole numbers, so that every rule is exact:
//! lengths in millionths of a world unit, directions in thousandths, time in
//! milliseconds, angles in millionths of a radian. See [`space`].

pub mod camera;
pub mod env;
pub mod game;
pub mod game_state;
pub mod map;
pub mod space;
pub mod start_menu;
pub mod tower;
pub mod world;
