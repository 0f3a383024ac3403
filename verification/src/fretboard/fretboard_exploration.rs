//! A course that explores one scale on each single string of the guitar, with
//! a lesson for every key of the circle of fifths.

use vstd::prelude::*;
use vstd::string::StringExecFns;
use crate::circle_fifths::AliasFailure;
use crate::circle_fifths::KeyStep;
use crate::circle_fifths::NoteAlias;
use crate::circle_fifths::circle_key;
use crate::circle_fifths::covers_circle;
use crate::circle_fifths::first_gap;
use crate::circle_fifths::key_sequence;
use crate::circle_fifths::key_steps;
use crate::course::AssetSpec;
use crate::course::CourseSpec;
use crate::course::CourseView;
use crate::course::ExerciseSpec;
use crate::course::LessonSpec;
use crate::course::MetadataEntry;
use crate::course::MetadataView;
use crate::fretboard::guarantees::lemma_metadata_is_a_mapping;
use crate::fretboard::model::BACK_FILE;
use crate::fretboard::model::COURSE_INSTRUCTIONS;
use crate::fretboard::model::COURSE_INSTRUCTIONS_FILE;
use crate::fretboard::model::FRONT_FILE;
use crate::fretboard::model::back_text;
use crate::fretboard::model::course_assets;
use crate::fretboard::model::course_description;
use crate::fretboard::model::course_metadata;
use crate::fretboard::model::course_name;
use crate::fretboard::model::exercise_model;
use crate::fretboard::model::exercises_model;
use crate::fretboard::model::lesson_dependencies;
use crate::fretboard::model::lesson_id;
use crate::fretboard::model::lesson_metadata;
use crate::fretboard::model::lesson_model;
use crate::fretboard::model::lessons_model;
use crate::fretboard::model::names_of;
use crate::fretboard::model::scale_answer;
use crate::fretboard::model::standard_strings;
use crate::fretboard::model::strings_of;
use crate::notes::Note;
use crate::scales::ScaleType;
use crate::text::copy_strings;
use crate::text::joined;

verus! {

/// What a tuning holds: the notes of its strings, if one is given.
pub open spec fn tuning_view(tuning: Option<Vec<Note>>) -> Option<Seq<Note>> {
    match tuning {
        None => None,
        Some(strings) => Some(strings@),
    }
}

/// A course to explore a given scale all over the fretboard.
#[derive(Clone, Debug, PartialEq, Eq)]
pub struct FretboardExplorationCourse {
    /// The identifier of the course.
    pub course_id: String,
    /// The identifiers of the courses to be mastered before this one.
    pub dependencies: Vec<String>,
    /// The name of the directory under which the course is stored.
    pub directory_name: String,
    /// The authors named by the course.
    pub authors: Vec<String>,
    /// The scale type that the course is about.
    pub scale: ScaleType,
    /// An optional alias under which the key of each lesson is shown. With
    /// the relative minor as alias, for example, a course on the minor scale
    /// follows the circle of fifths of the major keys.
    pub note_alias: Option<NoteAlias>,
    /// The notes of the strings of the guitar. Where none are given, the
    /// standard tuning is used.
    pub tuning: Option<Vec<Note>>,
}

/// What a [`FretboardExplorationCourse`] holds.
pub struct FretboardExplorationView {
    pub course_id: Seq<char>,
    pub dependencies: Seq<Seq<char>>,
    pub directory_name: Seq<char>,
    pub authors: Seq<Seq<char>>,
    pub scale: ScaleType,
    pub note_alias: Option<NoteAlias>,
    pub tuning: Option<Seq<Note>>,
}

impl View for FretboardExplorationCourse {
    type V = FretboardExplorationView;

    open spec fn view(&self) -> FretboardExplorationView {
        FretboardExplorationView {
            course_id: self.course_id@,
            dependencies: self.dependencies.deep_view(),
            directory_name: self.directory_name@,
            authors: self.authors.deep_view(),
            scale: self.scale,
            note_alias: self.note_alias,
            tuning: tuning_view(self.tuning),
        }
    }
}

impl FretboardExplorationView {
    /// The course that is generated from the given steps of the walk round
    /// the circle of fifths.
    pub open spec fn course(self, steps: Seq<KeyStep>) -> CourseView {
        CourseView {
            id: self.course_id,
            name: course_name(self.scale),
            description: course_description(self.scale),
            directory_name: self.directory_name,
            authors: self.authors,
            dependencies: self.dependencies,
            metadata: course_metadata(self.scale),
            assets: course_assets(),
            lessons: lessons_model(self.course_id, self.scale, strings_of(self.tuning), steps),
        }
    }

    /// Whether `result` is what generating the course gives. Where every key
    /// of the circle can be shown, that is the course with one lesson for
    /// each of the twelve steps of the walk. Where some key has no alias, it
    /// is the failure that names the first such key, and no course at all.
    pub open spec fn generates(self, result: Result<CourseView, AliasFailure>) -> bool {
        match result {
            Ok(course) => covers_circle(self.note_alias) && course == self.course(
                key_steps(self.note_alias),
            ),
            Err(failure) => exists|place: int|
                first_gap(self.note_alias, place) && failure.note == circle_key(place),
        }
    }
}

/// What the result of generating a course holds.
pub open spec fn result_view(result: Result<CourseSpec, AliasFailure>) -> Result<
    CourseView,
    AliasFailure,
> {
    match result {
        Ok(course) => Ok(course@),
        Err(failure) => Err(failure),
    }
}

/// Returns the names of the given notes, separated by commas.
pub fn join_note_names(notes: &Vec<Note>) -> (text: String)
    ensures
        text@ == joined(names_of(notes@), ", "@),
{
    let mut text: String = String::new();
    let mut i: usize = 0;
    while i < notes.len()
        invariant
            i <= notes@.len(),
            text@ == joined(names_of(notes@.take(i as int)), ", "@),
        decreases notes@.len() - i,
    {
        let name: String = notes[i].to_string();
        proof {
            let before = names_of(notes@.take(i as int));
            let after = names_of(notes@.take(i + 1));
            assert(after.drop_last() =~= before);
            assert(after.last() == notes@[i as int].name());
        }
        if i > 0 {
            text.append(", ");
        }
        text.append(name.as_str());
        i += 1;
    }
    assert(notes@.take(notes@.len() as int) =~= notes@);
    text
}

/// Returns the exercise for one string in the lesson for the key `root`.
/// The answer, which all exercises of a lesson share, is passed in.
fn generate_exercise(
    course_id: &str,
    scale: ScaleType,
    root: Note,
    string: Note,
    answer: &str,
) -> (exercise: ExerciseSpec)
    requires
        answer@ == scale_answer(scale, root),
    ensures
        exercise@ == exercise_model(course_id@, scale, root, string),
{
    let root_name: String = root.to_string();
    let scale_name: String = scale.to_string();
    let string_name: String = string.to_string();

    let mut id: String = course_id.to_owned();
    id.append("::");
    id.append(root_name.as_str());
    id.append("::");
    id.append(string_name.as_str());
    id.append("_string");

    let mut name: String = "Explore the ".to_owned();
    name.append(root_name.as_str());
    name.append(" ");
    name.append(scale_name.as_str());
    name.append(" scale in the ");
    name.append(string_name.as_str());
    name.append(" string");

    let mut directory_name: String = string.to_string();
    directory_name.append("_string");

    let mut front: String = "Explore the ".to_owned();
    front.append(root_name.as_str());
    front.append(" ");
    front.append(scale_name.as_str());
    front.append(" scale in the ");
    front.append(string_name.as_str());
    front.append(" string. \n");

    let mut back: String = "The notes of the ".to_owned();
    back.append(root_name.as_str());
    back.append(" ");
    back.append(scale_name.as_str());
    back.append(" scale are: ");
    back.append(answer);
    back.append(".\n");

    ExerciseSpec {
        id,
        name,
        directory_name,
        front: AssetSpec { file_name: FRONT_FILE.to_owned(), contents: front },
        back: AssetSpec { file_name: BACK_FILE.to_owned(), contents: back },
    }
}

/// Returns one exercise for each of the given strings, in their order.
fn generate_exercises_for(
    course_id: &str,
    scale: ScaleType,
    note: Note,
    strings: &Vec<Note>,
) -> (exercises: Vec<ExerciseSpec>)
    ensures
        exercises.deep_view() == exercises_model(course_id@, scale, note, strings@),
{
    let scale_notes: Vec<Note> = scale.notes(note).notes;
    let answer: String = join_note_names(&scale_notes);
    let mut exercises: Vec<ExerciseSpec> = Vec::new();
    let mut i: usize = 0;
    while i < strings.len()
        invariant
            i <= strings@.len(),
            answer@ == scale_answer(scale, note),
            exercises@.len() == i,
            forall|k: int|
                0 <= k < i ==> (#[trigger] exercises@[k])@ == exercise_model(
                    course_id@,
                    scale,
                    note,
                    strings@[k],
                ),
        decreases strings@.len() - i,
    {
        let exercise: ExerciseSpec = generate_exercise(
            course_id,
            scale,
            note,
            strings[i],
            answer.as_str(),
        );
        exercises.push(exercise);
        i += 1;
    }
    assert(exercises.deep_view() =~= exercises_model(course_id@, scale, note, strings@));
    exercises
}

/// Returns an entry of metadata with a single value.
fn metadata_entry(key: &str, value: String) -> (entry: MetadataEntry)
    ensures
        entry@ == (MetadataView { key: key@, values: seq![value@] }),
{
    let mut values: Vec<String> = Vec::new();
    values.push(value);
    assert(values.deep_view() =~= seq![value@]);
    MetadataEntry { key: key.to_owned(), values }
}

/// Returns the identifier of the lesson for a key.
fn lesson_identifier(course_id: &str, note: Note) -> (id: String)
    ensures
        id@ == lesson_id(course_id@, note),
{
    let mut id: String = course_id.to_owned();
    id.append("::");
    id.append(note.to_string().as_str());
    id
}

impl FretboardExplorationCourse {
    /// Returns the strings of a guitar in standard tuning, the note of the
    /// two E strings listed once.
    pub fn standard_tuning() -> (strings: Vec<Note>)
        ensures
            strings@ == standard_strings(),
    {
        let strings: Vec<Note> = vec![Note::E, Note::A, Note::D, Note::G, Note::B];
        assert(strings@ =~= standard_strings());
        strings
    }

    /// Returns the exercises of the lesson for the key `note`: one for each
    /// string of the tuning, in the order of the strings, or one for each
    /// string of the standard tuning where no tuning is given. The notes of
    /// the scale are worked out once and give the answer of every exercise.
    pub fn generate_exercises(
        course_id: &str,
        scale: ScaleType,
        note: Note,
        tuning: &Option<Vec<Note>>,
    ) -> (exercises: Vec<ExerciseSpec>)
        ensures
            exercises.deep_view() == exercises_model(
                course_id@,
                scale,
                note,
                strings_of(tuning_view(*tuning)),
            ),
            exercises@.len() == strings_of(tuning_view(*tuning)).len(),
            forall|i: int|
                0 <= i < exercises@.len() ==> (#[trigger] exercises@[i])@.back.contents
                    == back_text(scale, note),
    {
        let exercises: Vec<ExerciseSpec> = match tuning {
            None => {
                let strings: Vec<Note> = Self::standard_tuning();
                generate_exercises_for(course_id, scale, note, &strings)
            },
            Some(strings) => {
                generate_exercises_for(course_id, scale, note, strings)
            },
        };
        let ghost strings = strings_of(tuning_view(*tuning));
        assert(exercises.deep_view().len() == exercises@.len());
        assert forall|i: int| 0 <= i < exercises@.len() implies (
        #[trigger] exercises@[i])@.back.contents == back_text(scale, note) by {
            assert(exercises.deep_view()[i] == exercises@[i]@);
            assert(exercises_model(course_id@, scale, note, strings)[i] == exercise_model(
                course_id@,
                scale,
                note,
                strings[i],
            ));
        }
        exercises
    }

    /// Returns the lesson of one step of the walk round the circle of
    /// fifths. The lesson is named after the note of the step, holds one
    /// exercise for each string, and depends on the lesson of the step
    /// before, if there is one.
    pub fn generate_lesson(
        course_id: &str,
        scale: ScaleType,
        tuning: &Option<Vec<Note>>,
        step: KeyStep,
    ) -> (lesson: LessonSpec)
        ensures
            lesson@ == lesson_model(course_id@, scale, strings_of(tuning_view(*tuning)), step),
    {
        let note_name: String = step.note.to_string();
        let scale_name: String = scale.to_string();

        let mut name: String = "Explore the ".to_owned();
        name.append(note_name.as_str());
        name.append(" ");
        name.append(scale_name.as_str());
        name.append(" Scale in the fretboard");

        let mut description: String = "Explore the notes of the ".to_owned();
        description.append(note_name.as_str());
        description.append(" ");
        description.append(scale_name.as_str());
        description.append(" scale in the fretboard.");

        let mut directory_name: String = "lesson_".to_owned();
        directory_name.append(step.note.to_ascii_string().as_str());

        let mut dependencies: Vec<String> = Vec::new();
        match step.previous {
            None => {},
            Some(previous) => {
                dependencies.push(lesson_identifier(course_id, previous));
            },
        }
        assert(dependencies.deep_view() =~= lesson_dependencies(course_id@, step.previous));

        let mut metadata: Vec<MetadataEntry> = Vec::new();
        metadata.push(metadata_entry("key", step.note.to_ascii_string()));
        assert(metadata.deep_view() =~= lesson_metadata(step.note));

        LessonSpec {
            id: lesson_identifier(course_id, step.note),
            name,
            description,
            directory_name,
            dependencies,
            metadata,
            exercises: Self::generate_exercises(course_id, scale, step.note, tuning),
        }
    }

    /// Returns the metadata of the course.
    fn metadata(&self) -> (metadata: Vec<MetadataEntry>)
        ensures
            metadata.deep_view() == course_metadata(self.scale),
    {
        let mut metadata: Vec<MetadataEntry> = Vec::new();
        metadata.push(metadata_entry("skill", "music".to_owned()));
        metadata.push(metadata_entry("instrument", "guitar".to_owned()));
        metadata.push(metadata_entry("musical_skill", "fretboard".to_owned()));
        metadata.push(metadata_entry("musical_concept", "scales".to_owned()));
        metadata.push(metadata_entry("scale_type", self.scale.to_lowercase_string()));
        assert(metadata.deep_view() =~= course_metadata(self.scale));
        metadata
    }

    /// Returns the lessons of the given steps, in their order.
    fn lessons(&self, steps: &Vec<KeyStep>) -> (lessons: Vec<LessonSpec>)
        ensures
            lessons.deep_view() == lessons_model(
                self.course_id@,
                self.scale,
                strings_of(tuning_view(self.tuning)),
                steps@,
            ),
    {
        let mut lessons: Vec<LessonSpec> = Vec::new();
        let mut i: usize = 0;
        while i < steps.len()
            invariant
                i <= steps@.len(),
                lessons@.len() == i,
                forall|k: int|
                    0 <= k < i ==> (#[trigger] lessons@[k])@ == lesson_model(
                        self.course_id@,
                        self.scale,
                        strings_of(tuning_view(self.tuning)),
                        steps@[k],
                    ),
            decreases steps@.len() - i,
        {
            let lesson: LessonSpec = Self::generate_lesson(
                self.course_id.as_str(),
                self.scale,
                &self.tuning,
                steps[i],
            );
            lessons.push(lesson);
            i += 1;
        }
        assert(lessons.deep_view() =~= lessons_model(
            self.course_id@,
            self.scale,
            strings_of(tuning_view(self.tuning)),
            steps@,
        ));
        lessons
    }

    /// Generates the course: its own description, and one lesson for each
    /// key of the circle of fifths, each lesson depending on the one before.
    /// Where the alias fails on a key, no course is returned, only the failure.
    pub fn course_builder(&self) -> (result: Result<CourseSpec, AliasFailure>)
        ensures
            result.is_ok() <==> covers_circle(self.note_alias),
            match result {
                Ok(course) => covers_circle(self.note_alias) && course@ == self@.course(
                    key_steps(self.note_alias),
                ),
                Err(failure) => exists|place: int|
                    first_gap(self.note_alias, place) && failure.note == circle_key(place),
            },
            self@.generates(result_view(result)),
            result matches Ok(course) ==> course@.lessons.len() == 12 && course@.well_formed(),
    {
        let steps: Vec<KeyStep> = match key_sequence(&self.note_alias) {
            Ok(steps) => steps,
            Err(failure) => {
                return Err(failure);
            },
        };
        let mut assets: Vec<AssetSpec> = Vec::new();
        assets.push(
            AssetSpec {
                file_name: COURSE_INSTRUCTIONS_FILE.to_owned(),
                contents: COURSE_INSTRUCTIONS.to_owned(),
            },
        );
        assert(assets.deep_view() =~= course_assets());

        let mut name: String = "Explore the ".to_owned();
        name.append(self.scale.to_string().as_str());
        name.append(" Scale in the fretboard");

        let mut description: String = "Explore the ".to_owned();
        description.append(self.scale.to_string().as_str());
        description.append(" scale in all strings in the fretboard for all keys.");

        let course = CourseSpec {
            id: self.course_id.clone(),
            name,
            description,
            directory_name: self.directory_name.clone(),
            authors: copy_strings(&self.authors),
            dependencies: copy_strings(&self.dependencies),
            metadata: self.metadata(),
            assets,
            lessons: self.lessons(&steps),
        };
        proof {
            lemma_metadata_is_a_mapping(self@, course@);
        }
        Ok(course)
    }
}

} // verus!
