//! What a generated course says: the wording of every identifier, name and
//! text, and how exercises, lessons and the course are put together from them.

use vstd::prelude::*;
use crate::circle_fifths::KeyStep;
use crate::course::AssetView;
use crate::course::ExerciseView;
use crate::course::LessonView;
use crate::course::MetadataView;
use crate::notes::Note;
use crate::scales::ScaleType;
use crate::text::joined;
use crate::text::lowercased;

verus! {

/// The text that tells the learner how to work through the course.
pub const COURSE_INSTRUCTIONS: &'static str =
    "Inspired by an exercise from the book *The Advancing guitarist*.\n\nExplore the scale in each individual string without jumping across\nmultiple strings. Explore different fingerings, techniques, dynamics,\netc.\n\nYou can use a vamp or backing track, although they are not provided\nhere.\n";

/// The name of the file that holds the instructions of the course.
pub const COURSE_INSTRUCTIONS_FILE: &'static str = "course_instructions.md";

/// The name of the file that holds the question of an exercise.
pub const FRONT_FILE: &'static str = "front.md";

/// The name of the file that holds the answer of an exercise.
pub const BACK_FILE: &'static str = "back.md";

/// The strings of a guitar in standard tuning, from the lowest upwards. The
/// two E strings sound the same note, which is therefore listed once.
pub open spec fn standard_strings() -> Seq<Note> {
    seq![Note::E, Note::A, Note::D, Note::G, Note::B]
}

/// The strings that exercises are written for: those of the given tuning, or
/// of the standard tuning where none is given.
pub open spec fn strings_of(tuning: Option<Seq<Note>>) -> Seq<Note> {
    match tuning {
        None => standard_strings(),
        Some(strings) => strings,
    }
}

/// The names of the given notes, in the same order.
pub open spec fn names_of(notes: Seq<Note>) -> Seq<Seq<char>> {
    notes.map_values(|note: Note| note.name())
}

/// The notes of the scale on `root`, by name, separated by commas.
pub open spec fn scale_answer(scale: ScaleType, root: Note) -> Seq<char> {
    joined(names_of(scale.notes_on(root)), ", "@)
}

/// The identifier of the lesson for a key.
pub open spec fn lesson_id(course_id: Seq<char>, note: Note) -> Seq<char> {
    course_id + "::"@ + note.name()
}

/// The identifier of the exercise for one string in the lesson for a key.
pub open spec fn exercise_id(course_id: Seq<char>, root: Note, string: Note) -> Seq<char> {
    course_id + "::"@ + root.name() + "::"@ + string.name() + "_string"@
}

/// The name of the exercise for one string.
pub open spec fn exercise_name(scale: ScaleType, root: Note, string: Note) -> Seq<char> {
    "Explore the "@ + root.name() + " "@ + scale.name() + " scale in the "@ + string.name()
        + " string"@
}

/// The name of the directory of the exercise for one string.
pub open spec fn exercise_directory(string: Note) -> Seq<char> {
    string.name() + "_string"@
}

/// The question of the exercise for one string.
pub open spec fn front_text(scale: ScaleType, root: Note, string: Note) -> Seq<char> {
    "Explore the "@ + root.name() + " "@ + scale.name() + " scale in the "@ + string.name()
        + " string. \n"@
}

/// The answer of every exercise of the lesson for a key: the notes of the
/// scale on that key.
pub open spec fn back_text(scale: ScaleType, root: Note) -> Seq<char> {
    "The notes of the "@ + root.name() + " "@ + scale.name() + " scale are: "@ + scale_answer(
        scale,
        root,
    ) + ".\n"@
}

/// The exercise for one string in the lesson for the key `root`.
pub open spec fn exercise_model(
    course_id: Seq<char>,
    scale: ScaleType,
    root: Note,
    string: Note,
) -> ExerciseView {
    ExerciseView {
        id: exercise_id(course_id, root, string),
        name: exercise_name(scale, root, string),
        directory_name: exercise_directory(string),
        front: AssetView { file_name: FRONT_FILE@, contents: front_text(scale, root, string) },
        back: AssetView { file_name: BACK_FILE@, contents: back_text(scale, root) },
    }
}

/// The exercises of the lesson for the key `root`: one for each string, in
/// the order of the strings.
pub open spec fn exercises_model(
    course_id: Seq<char>,
    scale: ScaleType,
    root: Note,
    strings: Seq<Note>,
) -> Seq<ExerciseView> {
    Seq::new(strings.len(), |i: int| exercise_model(course_id, scale, root, strings[i]))
}

/// The name of the lesson for a key.
pub open spec fn lesson_name(scale: ScaleType, note: Note) -> Seq<char> {
    "Explore the "@ + note.name() + " "@ + scale.name() + " Scale in the fretboard"@
}

/// The description of the lesson for a key.
pub open spec fn lesson_description(scale: ScaleType, note: Note) -> Seq<char> {
    "Explore the notes of the "@ + note.name() + " "@ + scale.name() + " scale in the fretboard."@
}

/// The name of the directory of the lesson for a key.
pub open spec fn lesson_directory(note: Note) -> Seq<char> {
    "lesson_"@ + note.ascii_name()
}

/// The lessons that the lesson of a step depends on: the lesson of the step
/// before, and nothing at the first step.
pub open spec fn lesson_dependencies(course_id: Seq<char>, previous: Option<Note>) -> Seq<Seq<char>> {
    match previous {
        None => Seq::empty(),
        Some(previous) => seq![lesson_id(course_id, previous)],
    }
}

/// The metadata of the lesson for a key: the key itself, in ASCII.
pub open spec fn lesson_metadata(note: Note) -> Seq<MetadataView> {
    seq![MetadataView { key: "key"@, values: seq![note.ascii_name()] }]
}

/// The lesson of one step of the walk round the circle of fifths.
pub open spec fn lesson_model(
    course_id: Seq<char>,
    scale: ScaleType,
    strings: Seq<Note>,
    step: KeyStep,
) -> LessonView {
    LessonView {
        id: lesson_id(course_id, step.note),
        name: lesson_name(scale, step.note),
        description: lesson_description(scale, step.note),
        directory_name: lesson_directory(step.note),
        dependencies: lesson_dependencies(course_id, step.previous),
        metadata: lesson_metadata(step.note),
        exercises: exercises_model(course_id, scale, step.note, strings),
    }
}

/// The lessons of the given steps, in their order.
pub open spec fn lessons_model(
    course_id: Seq<char>,
    scale: ScaleType,
    strings: Seq<Note>,
    steps: Seq<KeyStep>,
) -> Seq<LessonView> {
    Seq::new(steps.len(), |i: int| lesson_model(course_id, scale, strings, steps[i]))
}

/// The name of a course on a scale.
pub open spec fn course_name(scale: ScaleType) -> Seq<char> {
    "Explore the "@ + scale.name() + " Scale in the fretboard"@
}

/// The description of a course on a scale.
pub open spec fn course_description(scale: ScaleType) -> Seq<char> {
    "Explore the "@ + scale.name() + " scale in all strings in the fretboard for all keys."@
}

/// The metadata of a course on a scale.
pub open spec fn course_metadata(scale: ScaleType) -> Seq<MetadataView> {
    seq![
        MetadataView { key: "skill"@, values: seq!["music"@] },
        MetadataView { key: "instrument"@, values: seq!["guitar"@] },
        MetadataView { key: "musical_skill"@, values: seq!["fretboard"@] },
        MetadataView { key: "musical_concept"@, values: seq!["scales"@] },
        MetadataView { key: "scale_type"@, values: seq![lowercased(scale.name())] },
    ]
}

/// The texts that belong to a course as a whole: its instructions.
pub open spec fn course_assets() -> Seq<AssetView> {
    seq![AssetView { file_name: COURSE_INSTRUCTIONS_FILE@, contents: COURSE_INSTRUCTIONS@ }]
}

} // verus!
