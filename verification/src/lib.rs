//! Core of a duplex audio engine: a fixed-capacity FIFO sample buffer,
//! a device catalog with selection rules, and the block-processing
//! pipeline that chains echo cancellation and noise reduction.
//!
//! The numeric sample kernels (subtraction, spectral subtraction, RMS)
//! operate on hardware sample types and are supplied by the embedding
//! program; everything here is parametric in the sample type and fully
//! specified over sequences.

pub mod devices;
pub mod engine;
pub mod pipeline;
pub mod ring;
