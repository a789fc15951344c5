//! Geometry and parsing for producing a square notification-icon crop.
//!
//! The library turns a detected bounding box (four integers, possibly read out
//! of noisy free-form text) and the dimensions of a source bitmap into a
//! square crop region, and drives the decode / crop / resize / encode steps of
//! the icon pipeline through a narrow trusted interface to the image codec.

pub mod errors;
pub mod geometry;
pub mod image_ops;
pub mod parse;
pub mod pipeline;
