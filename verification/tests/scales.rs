use fretboard_courses::notes::Note;
use fretboard_courses::scales::ScaleResult;
use fretboard_courses::scales::ScaleType;

const ROOTS: [Note; 12] = [
    Note::C,
    Note::CSharp,
    Note::D,
    Note::DSharp,
    Note::E,
    Note::F,
    Note::FSharp,
    Note::G,
    Note::GSharp,
    Note::A,
    Note::ASharp,
    Note::B,
];

const SCALES: [ScaleType; 4] = [
    ScaleType::Major,
    ScaleType::Minor,
    ScaleType::MajorPentatonic,
    ScaleType::MinorPentatonic,
];

#[test]
fn formulas_are_fixed() {
    assert_eq!(ScaleType::Major.semitone_steps(), vec![2, 2, 1, 2, 2, 2, 1]);
    assert_eq!(ScaleType::Minor.semitone_steps(), vec![2, 1, 2, 2, 1, 2, 2]);
    assert_eq!(ScaleType::MajorPentatonic.semitone_steps(), vec![2, 2, 3, 2, 3]);
    assert_eq!(ScaleType::MinorPentatonic.semitone_steps(), vec![3, 2, 2, 3, 2]);
}

#[test]
fn major_scale_on_c_has_no_sharps() {
    let scale = ScaleType::Major.notes(Note::C);
    assert_eq!(
        scale,
        ScaleResult {
            root: Note::C,
            notes: vec![Note::C, Note::D, Note::E, Note::F, Note::G, Note::A, Note::B],
        }
    );
}

#[test]
fn major_scale_on_g_has_one_sharp() {
    let scale = ScaleType::Major.notes(Note::G);
    assert_eq!(scale.root, Note::G);
    assert_eq!(
        scale.notes,
        vec![Note::G, Note::A, Note::B, Note::C, Note::D, Note::E, Note::FSharp]
    );
}

#[test]
fn major_scale_on_f_is_spelled_with_a_sharp() {
    let scale = ScaleType::Major.notes(Note::F);
    assert_eq!(
        scale.notes,
        vec![Note::F, Note::G, Note::A, Note::ASharp, Note::C, Note::D, Note::E]
    );
}

#[test]
fn major_scale_on_g_sharp_exists() {
    let scale = ScaleType::Major.notes(Note::GSharp);
    assert_eq!(
        scale.notes,
        vec![
            Note::GSharp,
            Note::ASharp,
            Note::C,
            Note::CSharp,
            Note::DSharp,
            Note::F,
            Note::G
        ]
    );
}

#[test]
fn minor_scale_on_a_has_no_sharps() {
    let scale = ScaleType::Minor.notes(Note::A);
    assert_eq!(scale.root, Note::A);
    assert_eq!(
        scale.notes,
        vec![Note::A, Note::B, Note::C, Note::D, Note::E, Note::F, Note::G]
    );
}

#[test]
fn pentatonic_scales_have_five_notes() {
    assert_eq!(
        ScaleType::MajorPentatonic.notes(Note::C).notes,
        vec![Note::C, Note::D, Note::E, Note::G, Note::A]
    );
    assert_eq!(
        ScaleType::MinorPentatonic.notes(Note::A).notes,
        vec![Note::A, Note::C, Note::D, Note::E, Note::G]
    );
}

#[test]
fn every_scale_has_one_note_for_each_step_of_its_formula() {
    for scale in SCALES {
        for root in ROOTS {
            let result = scale.notes(root);
            assert_eq!(result.root, root);
            assert_eq!(result.notes.len(), scale.semitone_steps().len());
            assert_eq!(result.notes[0], root);
        }
    }
}

#[test]
fn every_formula_leads_back_to_the_root() {
    for scale in SCALES {
        let sum: i32 = scale.semitone_steps().iter().map(|step| *step as i32).sum();
        assert_eq!(sum, 12);
        for root in ROOTS {
            assert_eq!(root.transpose(sum), root);
            assert_eq!(root.transpose(sum % 12), root);
        }
    }
}

#[test]
fn each_note_of_a_scale_lies_the_sum_of_the_steps_above_the_root() {
    for scale in SCALES {
        let steps = scale.semitone_steps();
        for root in ROOTS {
            let notes = scale.notes(root).notes;
            let mut offset: i32 = 0;
            for degree in 0..steps.len() {
                assert_eq!(notes[degree], root.transpose(offset));
                offset += steps[degree] as i32;
            }
        }
    }
}

#[test]
fn the_minor_scale_holds_the_notes_of_its_relative_major() {
    for root in ROOTS {
        let major = ScaleType::Major.notes(root).notes;
        let minor = ScaleType::Minor.notes(root.relative_minor()).notes;
        let expected = vec![major[5], major[6], major[0], major[1], major[2], major[3], major[4]];
        assert_eq!(minor, expected);
    }
}

#[test]
fn scale_types_are_named() {
    let names: Vec<String> = SCALES.iter().map(|scale| scale.to_string()).collect();
    assert_eq!(names, vec!["Major", "Minor", "Major Pentatonic", "Minor Pentatonic"]);
}

#[test]
fn scale_types_are_named_in_lower_case() {
    let names: Vec<String> = SCALES.iter().map(|scale| scale.to_lowercase_string()).collect();
    assert_eq!(names, vec!["major", "minor", "major pentatonic", "minor pentatonic"]);
    for scale in SCALES {
        assert_eq!(scale.to_lowercase_string(), scale.to_string().to_lowercase());
    }
}
