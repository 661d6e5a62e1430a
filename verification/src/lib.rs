//! Decision logic of the Qingjian input method shells: key codes, shortcut matching,
//! candidate navigation, the global Chinese / English mode, phrase learning and the
//! small state machines that the macOS, Windows and Linux front ends drive.
//!
//! Everything that talks to the operating system or to the conversion engine is done by
//! the caller; the functions here take what those calls returned and decide what happens
//! next.

pub mod keys;
pub mod text;
pub mod layout;
pub mod router;
pub mod mac;
pub mod tsf;
pub mod badge;
pub mod repl;
pub mod about;
