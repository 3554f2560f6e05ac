//! Verified core of the MotionCam raw-video tool: the container header,
//! export settings and presets, lossless-JPEG frames for CinemaDNG, the
//! preview caches, pipeline timing, and the text the interface shows.

pub mod browser;
pub mod cli;
pub mod color;
pub mod dng;
pub mod encoder;
pub mod export;
pub mod file;
pub mod index;
pub mod keys;
pub mod lj92;
pub mod lj92_decode;
pub mod metadata;
pub mod motion;
pub mod naming;
pub mod pipeline;
pub mod preset;
pub mod preview;
pub mod session;
pub mod settings;
pub mod stats;
pub mod terminal;
pub mod text;
pub mod thumbnail;
pub mod thumbnail_cache;
pub mod workflow;
