//! The macOS front end's decisions.

pub mod controller;
pub mod host;
pub mod mode;
pub mod modifiers;
pub mod presenting;
pub mod recorder;
