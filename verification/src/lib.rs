//! Previewing animated lighting patterns for LED strips.
//!
//! The crate owns a fixed registry of stateful animation generators, a
//! selection that names the active one, and a renderer that lays a frame of
//! colours out as a row of rectangles on a canvas. Drawing itself, the window
//! and the timer belong to the application around it.
//!
//! - [`color`]: colours and frames.
//! - [`generators`]: the trusted boundary to the outside generators.
//! - [`effect`]: the closed set of effects and their one capability.
//! - [`registry`]: one effect of every kind, by slot, with a fallback.
//! - [`selection`]: the active index and its wraparound.
//! - [`render`]: a frame as a display list of rectangles.
//! - [`previewer`]: registry and selection as one state, and its steps.

pub mod color;
pub mod effect;
pub mod generators;
pub mod previewer;
pub mod registry;
pub mod render;
pub mod selection;

pub use color::{Color, Frame};
pub use effect::{Effect, EffectKind, FrameError};
pub use previewer::{Previewer, TimerVerdict};
pub use registry::EffectRegistry;
pub use render::{DrawOp, PixelRect};
pub use selection::SelectionState;
