//! Verified core of an external CS2 memory tool: offset tables, the game's
//! entity lookups expressed as read-driven state machines, ELF and pattern
//! scanning over another process's memory, and weapon name classification.

pub mod cs2;
pub mod gui;
pub mod memory;
pub mod process;
pub mod text;
