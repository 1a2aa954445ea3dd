//! Constants of the SPA protocol.

use vstd::prelude::*;

verus! {

/// Id that stands for "no id".
pub const ID_INVALID: u32 = crate::sys::SPA_ID_INVALID;

} // verus!
