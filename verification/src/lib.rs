//! Generates courses for exploring a musical scale, string by string, over the
//! fretboard of a guitar, in every key of the circle of fifths.
//!
//! A course is described in memory, as a tree of lessons and exercises with
//! their identifiers, names, texts and dependencies. Writing it to a course
//! library is left to the caller.

pub mod circle_fifths;
pub mod course;
pub mod fretboard;
pub mod notes;
pub mod scales;
pub mod text;
