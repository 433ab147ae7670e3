//! A verified model of a small canvas-drawing program.
//!
//! The library holds the program's logic: plain geometry records, a
//! rectangle renderer expressed as an exact sequence of drawing-surface
//! commands, a random hex-color generator whose output format is proved,
//! and the state machine of a one-shot image load, including the
//! first-arrival-wins race between its success and failure notifications.
//! Host glue replays the commands against the real drawing surface.

pub mod canvas;
pub mod color;
pub mod entry;
pub mod geometry;
pub mod loader;
