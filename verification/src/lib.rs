//! Core of a desktop viewport renderer: a command-driven render loop that
//! owns a GPU presentation surface and exposes frame data to a host UI
//! shell through a shared buffer.
//!
//! The crate models the full lifecycle — configuration validation, frame
//! buffer allocation, surface/swapchain bookkeeping, command batching and
//! the per-tick schedule of the render loop — and proves the invariants
//! the design rests on: the frame buffer always matches the applied
//! configuration, resizing to the active extent never rebuilds the
//! swapchain, teardown is idempotent, and nothing is presented once the
//! loop has stopped. The GPU calls themselves and the thread that drives
//! the loop live outside the library and consult it for every decision.

pub mod channel;
pub mod command;
pub mod component;
pub mod config;
pub mod frame_buffer;
pub mod render_loop;
pub mod state;
pub mod surface;
pub mod timing;

pub use config::MAX_DIMENSION;
