//! Navigation state, viewport rendering and key dispatch of a terminal
//! directory browser.

pub mod commands;
pub mod entry;
pub mod fm;
pub mod keys;
pub mod laws;
pub mod model;
pub mod paths;
pub mod text;
