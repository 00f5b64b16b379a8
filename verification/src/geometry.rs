//! Shapes as index and vertex data.

pub mod cube;
