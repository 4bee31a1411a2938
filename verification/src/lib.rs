//! Core simulation of a 2D side-scrolling rhythm platformer with a level
//! editor: per-tick player physics for four movement modes, object-by-object
//! collision resolution (hazards, blocks, pads, orbs, portals, triggers),
//! the textual level format, and the editor's grid operations.
//!
//! All geometry and physics values are carried in tenths of a design pixel
//! ("deci units"), so that every constant of the rules (gravity 0.8, jump
//! force -13, pad impulse 15, ...) is an exact integer.

pub mod state;
pub mod physics;
pub mod objects;
pub mod geom;
pub mod world;
pub mod collision;
pub mod laws;
pub mod level_text;
pub mod editor;
