//! Policy core of a reparenting-free window manager.
//!
//! The library owns the model: which top-level windows exist, which
//! workspace owns each of them, which one is focused, and what geometry is
//! authoritative. Every mutation is a pure state transition that returns the
//! display-server commands it wants issued; the surrounding process performs
//! the actual protocol I/O and feeds decoded notifications back in as events.

pub mod commands;
pub mod config;
pub mod cursor;
pub mod desktop;
pub mod events;
pub mod layout;
pub mod screen;
pub mod windows;
pub mod wm;
pub mod workspace;
