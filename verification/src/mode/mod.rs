//! Display modes.

pub mod graphics;
