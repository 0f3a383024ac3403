use fretboard_courses::fretboard::fretboard_exploration::FretboardExplorationCourse;
use fretboard_courses::notes::Note;
use fretboard_courses::scales::ScaleType;
use trane::course_builder::music::MusicMetadata;
use trane::course_builder::TraneMetadata;
use trane::data::music::notes::Accidental;
use trane::data::music::notes::NaturalNote;
use trane::data::music::notes::Note as SpelledNote;
use trane::data::music::scales::ScaleType as SpelledScaleType;

/// The pitch class that a spelled note sounds.
fn pitch_class(note: SpelledNote) -> Note {
    let natural: i32 = match note.0 {
        NaturalNote::C => 0,
        NaturalNote::D => 2,
        NaturalNote::E => 4,
        NaturalNote::F => 5,
        NaturalNote::G => 7,
        NaturalNote::A => 9,
        NaturalNote::B => 11,
    };
    let shift: i32 = match note.1 {
        Accidental::Natural => 0,
        Accidental::Flat => -1,
        Accidental::Sharp => 1,
    };
    Note::from_index((natural + shift).rem_euclid(12) as u8).unwrap()
}

fn pitch_classes(notes: &[SpelledNote]) -> Vec<Note> {
    notes.iter().map(|note| pitch_class(*note)).collect()
}

fn scale_types() -> Vec<(ScaleType, SpelledScaleType)> {
    vec![
        (ScaleType::Major, SpelledScaleType::Major),
        (ScaleType::Minor, SpelledScaleType::Minor),
        (ScaleType::MajorPentatonic, SpelledScaleType::MajorPentatonic),
        (ScaleType::MinorPentatonic, SpelledScaleType::MinorPentatonic),
    ]
}

fn spelled_notes() -> Vec<SpelledNote> {
    let mut notes = vec![];
    for natural in [
        NaturalNote::A,
        NaturalNote::B,
        NaturalNote::C,
        NaturalNote::D,
        NaturalNote::E,
        NaturalNote::F,
        NaturalNote::G,
    ] {
        for accidental in [Accidental::Natural, Accidental::Flat, Accidental::Sharp] {
            notes.push(SpelledNote(natural, accidental));
        }
    }
    notes
}

#[test]
fn scales_sound_the_notes_that_trane_spells() {
    let mut compared = 0;
    for (scale, spelled_scale) in scale_types() {
        for tonic in spelled_notes() {
            if let Ok(spelled) = spelled_scale.notes(tonic) {
                let root = pitch_class(spelled.notes[0]);
                assert_eq!(scale.notes(root).notes, pitch_classes(&spelled.notes));
                compared += 1;
            }
        }
    }
    assert_eq!(compared, 60);
}

#[test]
fn major_scales_start_on_the_tonic_that_trane_is_given() {
    for tonic in SpelledNote::all_keys(true) {
        let spelled = SpelledScaleType::Major.notes(tonic).unwrap();
        let scale = ScaleType::Major.notes(pitch_class(tonic));
        assert_eq!(scale.root, pitch_class(spelled.tonic));
        assert_eq!(scale.notes, pitch_classes(&spelled.notes));
    }
}

#[test]
fn relative_minors_sound_as_in_trane() {
    let mut compared = 0;
    for note in spelled_notes() {
        if let Ok(minor) = note.relative_minor() {
            assert_eq!(pitch_class(note).relative_minor(), pitch_class(minor));
            compared += 1;
        }
    }
    assert_eq!(compared, 15);
}

#[test]
fn the_keys_that_trane_lists_lie_on_the_circle_in_the_same_direction() {
    let keys = fretboard_courses::circle_fifths::circle_of_fifths();
    let mut current = SpelledNote::C;
    let mut place = 0;
    assert_eq!(keys[place], pitch_class(current));
    while let Some(next) = current.clockwise() {
        place += 1;
        current = next;
        assert_eq!(keys[place], pitch_class(current));
    }
    assert_eq!(place, 7);
}

#[test]
fn natural_and_sharp_notes_are_named_as_in_trane() {
    let mut compared = 0;
    for note in spelled_notes() {
        let is_plain = match (note.0, note.1) {
            (_, Accidental::Flat) => false,
            (NaturalNote::E, Accidental::Sharp) => false,
            (NaturalNote::B, Accidental::Sharp) => false,
            _ => true,
        };
        if is_plain {
            assert_eq!(pitch_class(note).to_string(), note.to_string());
            assert_eq!(pitch_class(note).to_ascii_string(), note.to_ascii_string());
            compared += 1;
        }
    }
    assert_eq!(compared, 12);
}

#[test]
fn scale_types_are_named_as_in_trane() {
    for (scale, spelled_scale) in scale_types() {
        assert_eq!(scale.to_string(), spelled_scale.to_string());
        assert_eq!(scale.to_lowercase_string(), spelled_scale.to_string().to_lowercase());
    }
}

#[test]
fn standard_tuning_is_spelled_with_natural_notes() {
    let spelled = vec![SpelledNote::E, SpelledNote::A, SpelledNote::D, SpelledNote::G, SpelledNote::B];
    assert_eq!(FretboardExplorationCourse::standard_tuning(), pitch_classes(&spelled));
}

#[test]
fn metadata_is_filed_under_the_categories_of_trane() {
    let course = fretboard_courses::fretboard::major_scale::course_builder().unwrap();
    let categories: Vec<String> = course.metadata.iter().map(|entry| entry.key.clone()).collect();
    assert_eq!(
        categories,
        vec![
            TraneMetadata::Skill.to_string(),
            MusicMetadata::Instrument.to_string(),
            MusicMetadata::MusicalSkill.to_string(),
            MusicMetadata::MusicalConcept.to_string(),
            MusicMetadata::ScaleType.to_string(),
        ]
    );
    for lesson in &course.lessons {
        assert_eq!(lesson.metadata.len(), 1);
        assert_eq!(lesson.metadata[0].key, MusicMetadata::Key.to_string());
    }
}
