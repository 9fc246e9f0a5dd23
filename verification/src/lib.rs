//! A retained-mode 2D chart description (a `Figure` holding plot areas filled
//! with drawable artists) and the verified pipeline that translates it, frame
//! by frame, into an ordered sequence of immediate-mode canvas commands.
//!
//! The library itself never touches a rasterizer or a window: it decides which
//! commands to issue, in which order, and how path and pen resources are
//! acquired and released.  An embedding executes those commands against a real
//! canvas and reports back the only facts the pipeline cannot know on its own:
//! whether a resource creation succeeded and whether the surface asked to
//! close.
//!
//! Floating-point quantities of the scene (coordinates, line widths, text
//! sizes) are carried as IEEE-754 single-precision bit patterns in `u32`
//! fields: the pipeline never computes on them, it only hands them through to
//! the canvas.  Color channels are carried as bytes, one per channel.

pub mod color;
pub mod driver;
pub mod error;
pub mod laws;
pub mod render;
pub mod scene;
