//! A scrolling-wallpaper engine.
//!
//! Images are decoded and fitted to a frame in a background pipeline, then
//! scrolled and cross-faded on screen by a per-slot transition scheduler.
//! All geometry and timing is exact integer arithmetic; the unverified shell
//! around this library only moves bytes, spawns threads and talks to the
//! window system.

pub mod args;
pub mod catalog;
pub mod decode;
pub mod frac;
pub mod geom;
pub mod loader;
pub mod parse;
pub mod program;
pub mod rect;
pub mod rng;
pub mod sched;
pub mod stream;
pub mod uvs;
