//! Procedural wallpaper generation: a handful of scalar seeds select a
//! recursive transform tree and a coloring rule, a large batch of normally
//! distributed points runs through them, and the dots land on a fixed-size
//! pixel canvas.
//!
//! Probabilities, coordinates and field values are held in fixed point, so
//! that the seed-driven decisions - bucketing, rescaling, gradient
//! interpolation, pixel mapping - carry exact contracts. The palette's
//! floating-point transforms themselves are evaluated by the caller on the
//! trees this crate builds.

pub mod canvas;
pub mod color;
pub mod config;
pub mod mapper;
pub mod palette;
pub mod prob;
