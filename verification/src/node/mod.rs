//! Nodes.

pub mod command;
