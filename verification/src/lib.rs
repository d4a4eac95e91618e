//! Core engine of a video frame sampler.
//!
//! Given a video file, a target output height and a sample count, the engine
//! plans pseudo-random capture timestamps, derives the output geometry that
//! preserves the source aspect ratio, drives an external decoding pipeline
//! through a per-task lifecycle, encodes captured frames as 8-bit RGB PNG
//! images, and reports fractional progress per task to a single consumer.
//!
//! The decoding pipeline itself and all file and channel I/O live outside this
//! library; the library makes every decision of the task lifecycle and states
//! each of them as a contract.

pub mod encode;
pub mod executor;
pub mod geometry;
pub mod plan;
pub mod pool;
pub mod progress;
pub mod sort;
pub mod task;
pub mod timecode;
