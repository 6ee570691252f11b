//! Actor, animation and interaction state machines for a small 2D
//! side-scrolling haunting game.
//!
//! World coordinates are fixed-point integers in thousandths of a world
//! unit; times are integer milliseconds; scales are thousandths. The
//! windowing, rendering, asset-decoding and audio subsystems are external
//! collaborators: the library models their state with plain values and
//! hands them commands (sound queues, positions, frame images) instead of
//! calling them.

pub mod arith;
pub mod camera;
pub mod assets;
pub mod default_actor;
pub mod entity;
pub mod detective;
pub mod error;
pub mod font;
pub mod game;
pub mod hero;
pub mod level;
pub mod sound;

pub use arith::clamp;
