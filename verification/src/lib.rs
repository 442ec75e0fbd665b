//! A small 2D rendering framework: geometric primitives, colors, resource
//! bookkeeping, and the event model of the application shell. The GPU-facing
//! layer (shader programs, buffers, textures, the window) lives outside this
//! library and builds on the types and decisions verified here.

pub mod graphics;
pub mod primitives;
pub mod resources;
pub mod subsystems;

use vstd::prelude::*;

verus! {

/// The framework's error type.
pub enum SlashError {
    /// An operation needed a window, and none had been created.
    NoWindow,
}

/// The result type used throughout the framework.
pub type SlashResult<T> = Result<T, SlashError>;

} // verus!
