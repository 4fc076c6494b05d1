//! Gameplay modules of the server plugin.

pub mod mechanics;
