use fretboard_courses::notes::Note;
use fretboard_courses::notes::OCTAVE;

const ALL: [Note; 12] = [
    Note::C,
    Note::CSharp,
    Note::D,
    Note::DSharp,
    Note::E,
    Note::F,
    Note::FSharp,
    Note::G,
    Note::GSharp,
    Note::A,
    Note::ASharp,
    Note::B,
];

#[test]
fn notes_stand_in_canonical_order() {
    assert_eq!(OCTAVE, 12);
    for (position, note) in ALL.iter().enumerate() {
        assert_eq!(note.index() as usize, position);
        assert_eq!(Note::from_index(position as u8), Some(*note));
    }
}

#[test]
fn no_note_lies_outside_the_octave() {
    assert_eq!(Note::from_index(12), None);
    assert_eq!(Note::from_index(13), None);
    assert_eq!(Note::from_index(255), None);
}

#[test]
fn transpose_moves_up_by_semitones() {
    assert_eq!(Note::C.transpose(0), Note::C);
    assert_eq!(Note::C.transpose(1), Note::CSharp);
    assert_eq!(Note::C.transpose(2), Note::D);
    assert_eq!(Note::C.transpose(7), Note::G);
    assert_eq!(Note::E.transpose(5), Note::A);
    assert_eq!(Note::A.transpose(3), Note::C);
}

#[test]
fn transpose_wraps_around_the_octave() {
    assert_eq!(Note::B.transpose(1), Note::C);
    assert_eq!(Note::G.transpose(7), Note::D);
    assert_eq!(Note::C.transpose(12), Note::C);
    assert_eq!(Note::FSharp.transpose(24), Note::FSharp);
    assert_eq!(Note::D.transpose(13), Note::DSharp);
    assert_eq!(Note::A.transpose(120_000), Note::A);
}

#[test]
fn transpose_moves_down_for_negative_intervals() {
    assert_eq!(Note::C.transpose(-1), Note::B);
    assert_eq!(Note::C.transpose(-3), Note::A);
    assert_eq!(Note::C.transpose(-12), Note::C);
    assert_eq!(Note::C.transpose(-13), Note::B);
    assert_eq!(Note::E.transpose(-5), Note::B);
    assert_eq!(Note::G.transpose(-7), Note::C);
}

#[test]
fn transpose_accepts_the_largest_intervals() {
    assert_eq!(Note::C.transpose(i32::MAX), Note::G);
    assert_eq!(Note::C.transpose(i32::MIN), Note::E);
    assert_eq!(Note::B.transpose(i32::MAX), Note::FSharp);
    assert_eq!(Note::B.transpose(i32::MIN), Note::DSharp);
}

#[test]
fn transpose_up_and_down_again_is_the_identity() {
    for note in ALL {
        for semitones in -30..=30 {
            assert_eq!(note.transpose(semitones).transpose(-semitones), note);
            assert_eq!(
                note.transpose(semitones).index() as i32,
                (note.index() as i32 + semitones).rem_euclid(12)
            );
        }
    }
}

#[test]
fn relative_minor_lies_three_semitones_below() {
    assert_eq!(Note::C.relative_minor(), Note::A);
    assert_eq!(Note::G.relative_minor(), Note::E);
    assert_eq!(Note::F.relative_minor(), Note::D);
    assert_eq!(Note::D.relative_minor(), Note::B);
    assert_eq!(Note::A.relative_minor(), Note::FSharp);
    for note in ALL {
        assert_eq!(note.relative_minor(), note.transpose(-3));
    }
}

#[test]
fn notes_are_named_with_sharps() {
    let names: Vec<String> = ALL.iter().map(|note| note.to_string()).collect();
    assert_eq!(
        names,
        vec!["C", "C♯", "D", "D♯", "E", "F", "F♯", "G", "G♯", "A", "A♯", "B"]
    );
}

#[test]
fn ascii_names_hold_only_ascii() {
    let names: Vec<String> = ALL.iter().map(|note| note.to_ascii_string()).collect();
    assert_eq!(
        names,
        vec![
            "C", "C_sharp", "D", "D_sharp", "E", "F", "F_sharp", "G", "G_sharp", "A", "A_sharp",
            "B"
        ]
    );
    for name in names {
        assert!(name.is_ascii());
    }
}

#[test]
fn names_tell_notes_apart() {
    for one in ALL {
        for other in ALL {
            if one != other {
                assert_ne!(one.to_string(), other.to_string());
                assert_ne!(one.to_ascii_string(), other.to_ascii_string());
            }
        }
    }
}
