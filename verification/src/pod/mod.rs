//! Pod types.

use vstd::prelude::*;

pub mod command;

use crate::sys::{SPA_TYPE_COMMAND_Device, SPA_TYPE_COMMAND_Node, SPA_TYPE_Object};

verus! {

/// A SPA type number.
#[derive(Clone, Copy, PartialEq, Eq, Structural, Debug)]
pub struct SpaTypes(pub u32);

#[allow(non_snake_case)]
impl SpaTypes {
    pub fn Object() -> (r: Self)
        ensures
            r.0 == SPA_TYPE_Object,
    {
        Self(SPA_TYPE_Object)
    }

    pub fn CommandDevice() -> (r: Self)
        ensures
            r.0 == SPA_TYPE_COMMAND_Device,
    {
        Self(SPA_TYPE_COMMAND_Device)
    }

    pub fn CommandNode() -> (r: Self)
        ensures
            r.0 == SPA_TYPE_COMMAND_Node,
    {
        Self(SPA_TYPE_COMMAND_Node)
    }

    pub fn from_raw(raw: u32) -> (r: Self)
        ensures
            r.0 == raw,
    {
        Self(raw)
    }

    pub fn as_raw(&self) -> (r: u32)
        ensures
            r == self.0,
    {
        self.0
    }
}

} // verus!
