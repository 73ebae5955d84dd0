//! Keystroke-driven drawing commands: an incremental parser that turns typed
//! characters into finished commands, and the plain-value shapes those
//! commands build.

pub mod components;
pub mod graphics;
pub mod parser;
