//! Parameter types.

pub mod video;
