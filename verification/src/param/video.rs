//! Video parameters.

use vstd::prelude::*;

verus! {

/// A video format, as its raw SPA number.
#[derive(Clone, Copy, PartialEq, Eq, Structural, Debug)]
pub struct VideoFormat(pub u32);

} // verus!
