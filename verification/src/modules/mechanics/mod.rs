//! Mechanics modules.

pub mod tablist;
