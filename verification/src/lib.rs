//! Streamocracy: the decision logic of a Discord bot that lets the members of
//! a voice channel vote to disconnect someone who is screensharing.

pub mod commands;
pub mod config;
pub mod modules;
pub mod plugin;
pub mod polls;
pub mod text;
pub mod utils;
pub mod voice;

pub use modules::mechanics::tablist::Config as TablistConfig;
pub use plugin::PumpkinPlus;
