//! The sequential core of a video stabilization orchestrator.
//!
//! The crate holds the parameter state of a stabilization job, the rules by
//! which a background recomputation decides what is stale and whether it may
//! still commit, the overlay drawing done on a frame before it is warped, and
//! the packed layout in which correction parameters are handed to a renderer.
//! Real-valued settings are held as fixed-point numbers ([`Fixed`]), so every
//! rule is stated and proved over integers.

pub mod fixed;
pub mod lens;
pub mod manager;
pub mod overlay;
pub mod packing;
pub mod params;
pub mod recompute;
pub mod scheduler;
pub mod telemetry;
pub mod timing;

pub use fixed::Fixed;
pub use manager::{PixelFormat, StabilizationManager};
pub use params::{BasicParams, ParamsView};
pub use scheduler::run_threaded;
pub use timing::{frame_at_timestamp, timestamp_at_frame};
