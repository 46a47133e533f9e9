//! Verified orchestration logic for a VMAF-style video-quality
//! measurement run.
//!
//! The heavy lifting of such a run — demuxing, decoding, colorspace
//! conversion and the perceptual metric itself — belongs to external
//! native libraries and is driven by an unverified front end. What this
//! crate verifies is the glue that has a real contract: the planar
//! 4:2:0 frame layout and its validation, the frame bridge that pairs
//! each delivered frame with a monotonically increasing submission
//! index, the pooling-range bookkeeping at finalization, and the
//! driver's single-shot lifecycle state machine.

pub mod bridge;
pub mod driver;
pub mod error;
pub mod frame;
pub mod geometry;
pub mod pooling;
