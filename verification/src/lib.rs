//! A video player's decisions, proved.

pub mod engine;
pub mod launch;
pub mod render;
pub mod text;
pub mod ui;
