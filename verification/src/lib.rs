//! Interaction engine for a small full-screen catalog browser: a mode-stack
//! navigation model, a per-frame rebuilt hit-test registry, a text-input
//! focus model, and a time-expiring message queue, driven by a
//! render/expire/poll/dispatch loop that the surrounding binary runs.

pub mod boardgame;
pub mod engine;
pub mod focus;
pub mod messages;
pub mod mode;
pub mod parse_int;
pub mod region;
pub mod registry;
