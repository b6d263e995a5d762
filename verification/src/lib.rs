//! Core of a grid-based box-pushing puzzle game.
//!
//! The central pieces are the movement resolver working on a grid of tiles, and
//! the bounded undo/redo history container.  Everything that talks to the
//! terminal is modelled through a draw-command recorder; replaying those
//! commands on a real device is left to the surrounding application.

pub mod collections;
pub mod console;
pub mod game;
pub mod text;
pub mod utils;
