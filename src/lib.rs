//! Pixel transforms and sample statistics over 3-channel, 8-bit images.

pub mod buffer;
pub mod ops;
pub mod stats;
pub mod transform;
