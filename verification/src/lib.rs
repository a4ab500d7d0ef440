//! Island maps from fractal noise: elevation samples are sorted into biome
//! bands and painted into a pixel buffer.
//!
//! Elevations travel through this library as IEEE-754 binary64 bit patterns
//! ([`binary64::Binary64`]), so every comparison against a band threshold is
//! exact and is stated over the rational value that a pattern denotes.

pub mod binary64;
pub mod biome;
pub mod classify;
pub mod error;
pub mod generator;
pub mod map_generator;
pub mod noise_map;
