//! Periodic screen-capture pipeline: raw frames from each display are
//! transcoded to a canonical RGBA form, composed side by side into one
//! canvas, encoded as PNG, and persisted; a day's artifacts can later be
//! stitched into a timelapse video by an external muxer.
//!
//! The capture device, the filesystem and the external tools live outside
//! this crate; everything that decides or computes — pixel transcoding,
//! composition, filename construction, tool argument lists, and the cycle
//! state machine — is verified here.

pub mod errors;
pub mod image_model;
pub mod transcode;
pub mod compose;
pub mod naming;
pub mod tools;
pub mod png;
pub mod cycle;
