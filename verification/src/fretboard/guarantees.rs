//! What holds of every course that is generated.

use vstd::prelude::*;
use crate::circle_fifths::AliasFailure;
use crate::circle_fifths::NoteAlias;
use crate::circle_fifths::circle_key;
use crate::circle_fifths::first_gap;
use crate::circle_fifths::key_step;
use crate::circle_fifths::key_steps;
use crate::circle_fifths::lemma_every_note_has_its_step;
use crate::circle_fifths::lemma_first_gap_is_unique;
use crate::circle_fifths::shown;
use crate::circle_fifths::tells_keys_apart;
use crate::course::CourseView;
use crate::fretboard::fretboard_exploration::FretboardExplorationView;
use crate::fretboard::model::course_metadata;
use crate::fretboard::model::lesson_id;
use crate::fretboard::model::names_of;
use crate::fretboard::model::strings_of;
use crate::notes::Note;
use crate::notes::lemma_names_tell_notes_apart;
use crate::text::joined;

verus! {

/// Generating a course twice from the same settings gives the same result
/// both times: the same course, text for text and in the same order, or the
/// same failure.
pub proof fn lemma_generation_is_deterministic(
    settings: FretboardExplorationView,
    first: Result<CourseView, AliasFailure>,
    second: Result<CourseView, AliasFailure>,
)
    requires
        settings.generates(first),
        settings.generates(second),
    ensures
        first == second,
{
    match (first, second) {
        (Err(one), Err(other)) => {
            let place = choose|place: int|
                first_gap(settings.note_alias, place) && one.note
                    == circle_key(place);
            let again = choose|place: int|
                first_gap(settings.note_alias, place) && other.note
                    == circle_key(place);
            lemma_first_gap_is_unique(settings.note_alias, place, again);
        },
        (Ok(_), Err(failure)) => {
            let place = choose|place: int|
                first_gap(settings.note_alias, place) && failure.note
                    == circle_key(place);
            assert(shown(settings.note_alias, circle_key(place)).is_some());
        },
        (Err(failure), Ok(_)) => {
            let place = choose|place: int|
                first_gap(settings.note_alias, place) && failure.note
                    == circle_key(place);
            assert(shown(settings.note_alias, circle_key(place)).is_some());
        },
        (Ok(_), Ok(_)) => {},
    }
}

/// A generated course has twelve lessons, and each lesson has one exercise
/// for each string of the tuning: five where the standard tuning is used.
pub proof fn lemma_course_is_complete(settings: FretboardExplorationView, course: CourseView)
    requires
        settings.generates(Ok(course)),
    ensures
        course.lessons.len() == 12,
        forall|i: int|
            0 <= i < 12 ==> (#[trigger] course.lessons[i]).exercises.len() == strings_of(
                settings.tuning,
            ).len(),
        settings.tuning.is_none() ==> forall|i: int|
            0 <= i < 12 ==> (#[trigger] course.lessons[i]).exercises.len() == 5,
{
}

/// The answer of every exercise of a generated course lists the notes of
/// the scale on the key of its lesson, by name, in the order of the scale
/// and separated by commas.
pub proof fn lemma_answers_list_the_scale(settings: FretboardExplorationView, course: CourseView)
    requires
        settings.generates(Ok(course)),
    ensures
        forall|i: int, j: int|
            0 <= i < 12 && 0 <= j < course.lessons[i].exercises.len() ==> (
            #[trigger] course.lessons[i].exercises[j]).back.contents == "The notes of the "@
                + key_step(settings.note_alias, i).note.name() + " "@ + settings.scale.name()
                + " scale are: "@ + joined(
                names_of(settings.scale.notes_on(key_step(settings.note_alias, i).note)),
                ", "@,
            ) + ".\n"@,
{
}

/// Whether lesson `later` names lesson `earlier` among its dependencies.
pub open spec fn depends_on(course: CourseView, later: int, earlier: int) -> bool {
    course.lessons[later].dependencies.contains(course.lessons[earlier].id)
}

/// The lessons for two different notes have different identifiers.
pub proof fn lemma_lesson_ids_differ(course_id: Seq<char>, one: Note, other: Note)
    requires
        one != other,
    ensures
        lesson_id(course_id, one) != lesson_id(course_id, other),
{
    lemma_names_tell_notes_apart(one, other);
    let prefix = course_id + "::"@;
    assert((prefix + one.name()).subrange(prefix.len() as int, (prefix + one.name()).len() as int)
        =~= one.name());
    assert((prefix + other.name()).subrange(
        prefix.len() as int,
        (prefix + other.name()).len() as int,
    ) =~= other.name());
}

/// Each lesson of a generated course depends on the lesson before it, and on
/// nothing else; the first lesson depends on nothing.
pub proof fn lemma_lessons_follow_one_another(
    settings: FretboardExplorationView,
    course: CourseView,
)
    requires
        settings.generates(Ok(course)),
    ensures
        course.lessons.len() == 12,
        course.lessons[0].dependencies.len() == 0,
        forall|i: int|
            1 <= i < 12 ==> (#[trigger] course.lessons[i]).dependencies == seq![
                course.lessons[i - 1].id,
            ],
{
    assert forall|i: int| 1 <= i < 12 implies (#[trigger] course.lessons[i]).dependencies == seq![
        course.lessons[i - 1].id,
    ] by {
        assert(shown(settings.note_alias, circle_key(i - 1)).is_some());
    }
}

/// The lessons of a generated course form a single chain. No two lessons
/// share an identifier, and a lesson names another among its dependencies
/// exactly when that other is the lesson before it: following the
/// dependencies from the last lesson leads through all twelve lessons, each
/// once, and ends at the first.
///
/// This holds where the alias shows different keys under different notes, as
/// it does where no alias is used and for the relative minor. An alias that
/// shows two keys under one note gives their lessons the same identifier.
pub proof fn lemma_lessons_form_a_chain(settings: FretboardExplorationView, course: CourseView)
    requires
        settings.generates(Ok(course)),
        tells_keys_apart(settings.note_alias),
    ensures
        course.lessons.len() == 12,
        forall|i: int, j: int|
            0 <= i < 12 && 0 <= j < 12 && i != j ==> (#[trigger] course.lessons[i]).id != (
            #[trigger] course.lessons[j]).id,
        forall|i: int, j: int|
            0 <= i < 12 && 0 <= j < 12 ==> (#[trigger] depends_on(course, i, j) <==> j == i - 1),
{
    let alias = settings.note_alias;
    let steps = key_steps(alias);
    lemma_lessons_follow_one_another(settings, course);
    assert forall|i: int, j: int| 0 <= i < 12 && 0 <= j < 12 && i != j implies (
    #[trigger] course.lessons[i]).id != (#[trigger] course.lessons[j]).id by {
        assert(shown(alias, circle_key(i)).is_some());
        assert(shown(alias, circle_key(j)).is_some());
        assert(shown(alias, circle_key(i)) != shown(alias, circle_key(j)));
        lemma_lesson_ids_differ(settings.course_id, steps[i].note, steps[j].note);
    }
    assert forall|i: int, j: int| 0 <= i < 12 && 0 <= j < 12 implies (#[trigger] depends_on(
        course,
        i,
        j,
    ) <==> j == i - 1) by {
        if i > 0 {
            let dependencies = course.lessons[i].dependencies;
            assert(dependencies == seq![course.lessons[i - 1].id]);
            assert(dependencies[0] == course.lessons[i - 1].id);
            if j != i - 1 {
                assert(course.lessons[j].id != course.lessons[i - 1].id);
            }
        }
    }
}

/// A generated course has one lesson for each of the twelve notes, and one
/// only, where the alias shows different keys under different notes.
pub proof fn lemma_every_note_has_its_lesson(
    settings: FretboardExplorationView,
    course: CourseView,
    note: Note,
)
    requires
        settings.generates(Ok(course)),
        tells_keys_apart(settings.note_alias),
    ensures
        exists|i: int|
            0 <= i < 12 && (#[trigger] course.lessons[i]).id == lesson_id(settings.course_id, note),
        forall|i: int, j: int|
            0 <= i < 12 && 0 <= j < 12 && (#[trigger] course.lessons[i]).id == lesson_id(
                settings.course_id,
                note,
            ) && (#[trigger] course.lessons[j]).id == lesson_id(settings.course_id, note) ==> i
                == j,
{
    lemma_every_note_has_its_step(settings.note_alias, note);
    lemma_lessons_form_a_chain(settings, course);
    let place = choose|place: int|
        0 <= place < 12 && (#[trigger] key_step(settings.note_alias, place)).note == note;
    assert(course.lessons[place].id == lesson_id(settings.course_id, note));
}

/// The alias changes what is shown, but not the shape of the course. Two
/// courses generated from settings that differ in the alias alone have the
/// same number of lessons, the same number of exercises in each lesson, and
/// the same number of dependencies in each lesson; in each of them every
/// lesson after the first depends on the one before it. What does not name a
/// key is the same in both.
pub proof fn lemma_alias_keeps_the_shape(
    settings: FretboardExplorationView,
    alias: Option<NoteAlias>,
    course: CourseView,
    aliased: CourseView,
)
    requires
        settings.generates(Ok(course)),
        (FretboardExplorationView { note_alias: alias, ..settings }).generates(Ok(aliased)),
    ensures
        aliased.lessons.len() == course.lessons.len(),
        forall|i: int|
            0 <= i < 12 ==> (#[trigger] aliased.lessons[i]).exercises.len() == (
            #[trigger] course.lessons[i]).exercises.len(),
        forall|i: int|
            0 <= i < 12 ==> (#[trigger] aliased.lessons[i]).dependencies.len() == (
            #[trigger] course.lessons[i]).dependencies.len(),
        forall|i: int|
            1 <= i < 12 ==> (#[trigger] aliased.lessons[i]).dependencies == seq![
                aliased.lessons[i - 1].id,
            ],
        aliased == (CourseView { lessons: aliased.lessons, ..course }),
{
    lemma_lessons_follow_one_another(settings, course);
    lemma_lessons_follow_one_another(
        FretboardExplorationView { note_alias: alias, ..settings },
        aliased,
    );
}

/// The metadata of a generated course, and of each of its lessons, lists
/// every category once.
pub proof fn lemma_metadata_is_a_mapping(settings: FretboardExplorationView, course: CourseView)
    requires
        settings.generates(Ok(course)),
    ensures
        course.well_formed(),
{
    reveal_strlit("skill");
    reveal_strlit("instrument");
    reveal_strlit("musical_skill");
    reveal_strlit("musical_concept");
    reveal_strlit("scale_type");
    let entries = course_metadata(settings.scale);
    assert forall|i: int, j: int|
        0 <= i < entries.len() && 0 <= j < entries.len() && i != j implies (#[trigger] entries[i]).key
        != (#[trigger] entries[j]).key by {
        assert(entries[i].key.len() != entries[j].key.len() || entries[i].key[0]
            != entries[j].key[0]);
    }
}

} // verus!
