//! Polarimetric processing of raw frames taken through a 2×2 mosaic of
//! linear polarizers.
//!
//! A frame is walked in super-pixels of 2×2 samples, one sample per polarizer
//! angle (0°, 45°, 90°, 135°). Each super-pixel yields one Stokes triple
//! (S0, S1, S2), and S0 yields one byte of a greyscale visualization.
//!
//! All quantities are exact: a normalized sample and the Stokes components
//! are held as counts of 1/255, so that nothing is rounded before the
//! visualization byte is taken.

pub mod channel;
pub mod codec;
pub mod field;
pub mod frame;
pub mod mosaic;
pub mod pipeline;
pub mod request;
pub mod sampler;
pub mod stokes;
