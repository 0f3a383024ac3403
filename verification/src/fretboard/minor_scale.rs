//! The course that explores the minor scale over the fretboard.

use vstd::prelude::*;
use crate::circle_fifths::AliasFailure;
use crate::circle_fifths::NoteAlias;
use crate::circle_fifths::key_steps;
use crate::circle_fifths::lemma_standard_aliases_cover_circle;
use crate::course::CourseSpec;
use crate::fretboard::AUTHORS;
use crate::fretboard::fretboard_exploration::FretboardExplorationCourse;
use crate::fretboard::fretboard_exploration::FretboardExplorationView;
use crate::scales::ScaleType;

verus! {

/// The identifier of the course.
pub const COURSE_ID: &'static str = "trane::guitar::fretboard_exploration::minor_scale";

/// The name of the directory under which the course is stored.
pub const DIRECTORY_NAME: &'static str = "fretboard_minor_scale";

/// What the course is generated from: the minor scale, in standard tuning,
/// each key of the circle of fifths shown as its relative minor.
pub open spec fn settings() -> FretboardExplorationView {
    FretboardExplorationView {
        course_id: COURSE_ID@,
        dependencies: Seq::empty(),
        directory_name: DIRECTORY_NAME@,
        authors: seq![AUTHORS@],
        scale: ScaleType::Minor,
        note_alias: Some(NoteAlias::RelativeMinor),
        tuning: None,
    }
}

/// Generates the course on the minor scale. The lessons follow the circle of
/// fifths of the major keys, each shown as its relative minor, from A minor
/// onwards. Every key has a relative minor, so the course never fails.
pub fn course_builder() -> (result: Result<CourseSpec, AliasFailure>)
    ensures
        result matches Ok(course) && course@ == settings().course(
            key_steps(Some(NoteAlias::RelativeMinor)),
        ),
{
    let mut authors: Vec<String> = Vec::new();
    authors.push(AUTHORS.to_owned());
    let dependencies: Vec<String> = Vec::new();
    assert(authors.deep_view() =~= seq![AUTHORS@]);
    assert(dependencies.deep_view() =~= Seq::<Seq<char>>::empty());
    let scale_course = FretboardExplorationCourse {
        course_id: COURSE_ID.to_owned(),
        dependencies,
        directory_name: DIRECTORY_NAME.to_owned(),
        authors,
        scale: ScaleType::Minor,
        note_alias: Some(NoteAlias::RelativeMinor),
        tuning: None,
    };
    proof {
        assert(scale_course@ == settings());
        lemma_standard_aliases_cover_circle(Some(NoteAlias::RelativeMinor));
    }
    scale_course.course_builder()
}

} // verus!
