//! The Windows text service's decisions: switch-key taps, the Chinese / English mode
//! shared through the input server, and the preserved keys.

pub mod mode;
pub mod preserved;
pub mod tap;
