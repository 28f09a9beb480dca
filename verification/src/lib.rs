//! Lifecycle control and frame reconstruction for an event-based video
//! codec pipeline.
//!
//! The library covers the logic that sits between a codec backend and a
//! display surface: deciding when an active source has drifted away from
//! the desired configuration and must be rebuilt, turning bounded batches
//! of decoded events into stable raster buffers, and mapping an
//! event-time tick counter onto frame boundaries, including end-of-stream
//! looping and throughput statistics.
//!
//! The codec itself (bitstream layout, header format, video decoding) is
//! an external collaborator: callers decode events and construct sources
//! outside and hand the results in as plain values.

pub mod config;
pub mod consumption;
pub mod drift;
pub mod event;
pub mod frame;
pub mod lifecycle;
pub mod playback;
pub mod stats;
pub mod timeline;
