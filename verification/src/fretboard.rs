//! Courses about the fretboard of the guitar.

use vstd::prelude::*;

pub mod fretboard_exploration;
pub mod guarantees;
pub mod major_scale;
pub mod minor_scale;
pub mod model;

verus! {

/// The authors named by the courses of this library.
pub const AUTHORS: &'static str = "The Trane Project";

} // verus!
