//! Safe views of SPA and PipeWire structures: buffer data planes and
//! chunks, buffer metadata, commands, and the outcome of connecting a
//! context.

pub mod buffer;
pub mod constants;
pub mod context;
pub mod flags;
pub mod param;
pub mod sys;
pub mod utils;
pub mod node;
pub mod pod;
