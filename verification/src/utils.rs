//! Geometry types shared by the buffer metadata.

use vstd::prelude::*;

verus! {

/// A position, as SPA lays it out.
pub type Point = crate::sys::spa_point;

/// A size, as SPA lays it out.
pub type Rectangle = crate::sys::spa_rectangle;

} // verus!
