//! The course that explores the major scale over the fretboard.

use vstd::prelude::*;
use crate::circle_fifths::AliasFailure;
use crate::circle_fifths::key_steps;
use crate::circle_fifths::lemma_standard_aliases_cover_circle;
use crate::course::CourseSpec;
use crate::fretboard::AUTHORS;
use crate::fretboard::fretboard_exploration::FretboardExplorationCourse;
use crate::fretboard::fretboard_exploration::FretboardExplorationView;
use crate::scales::ScaleType;

verus! {

/// The identifier of the course.
pub const COURSE_ID: &'static str = "trane::guitar::fretboard_exploration::major_scale";

/// The name of the directory under which the course is stored.
pub const DIRECTORY_NAME: &'static str = "fretboard_major_scale";

/// What the course is generated from: the major scale, in standard tuning,
/// each key shown as it is.
pub open spec fn settings() -> FretboardExplorationView {
    FretboardExplorationView {
        course_id: COURSE_ID@,
        dependencies: Seq::empty(),
        directory_name: DIRECTORY_NAME@,
        authors: seq![AUTHORS@],
        scale: ScaleType::Major,
        note_alias: None,
        tuning: None,
    }
}

/// Generates the course on the major scale. The lessons follow the circle of
/// fifths from C major onwards, so the course never fails.
pub fn course_builder() -> (result: Result<CourseSpec, AliasFailure>)
    ensures
        result matches Ok(course) && course@ == settings().course(key_steps(None)),
{
    let mut authors: Vec<String> = Vec::new();
    authors.push(AUTHORS.to_owned());
    let dependencies: Vec<String> = Vec::new();
    assert(authors.deep_view() =~= seq![AUTHORS@]);
    assert(dependencies.deep_view() =~= Seq::<Seq<char>>::empty());
    let scale_course = FretboardExplorationCourse {
        course_id: COURSE_ID.to_owned(),
        dependencies,
        directory_name: DIRECTORY_NAME.to_owned(),
        authors,
        scale: ScaleType::Major,
        note_alias: None,
        tuning: None,
    };
    proof {
        assert(scale_course@ == settings());
        lemma_standard_aliases_cover_circle(None);
    }
    scale_course.course_builder()
}

} // verus!
