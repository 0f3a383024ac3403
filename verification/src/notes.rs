//! The twelve pitch classes and transposition between them.

use vstd::prelude::*;

verus! {

/// One of the twelve pitch classes of the chromatic scale, spelled with sharps.
///
/// The variants are listed in their canonical order, starting at C and rising
/// one semitone at a time.
#[derive(Clone, Copy, Debug, PartialEq, Eq, Hash, Structural)]
pub enum Note {
    C,
    CSharp,
    D,
    DSharp,
    E,
    F,
    FSharp,
    G,
    GSharp,
    A,
    ASharp,
    B,
}

/// The number of pitch classes in an octave.
pub const OCTAVE: u8 = 12;

impl Note {
    /// The place of the note in the canonical order, from 0 for C to 11 for B.
    pub open spec fn position(self) -> int {
        match self {
            Note::C => 0,
            Note::CSharp => 1,
            Note::D => 2,
            Note::DSharp => 3,
            Note::E => 4,
            Note::F => 5,
            Note::FSharp => 6,
            Note::G => 7,
            Note::GSharp => 8,
            Note::A => 9,
            Note::ASharp => 10,
            Note::B => 11,
        }
    }

    /// The note whose place in the canonical order is `position`.
    /// Only meaningful for `0 <= position < 12`.
    pub open spec fn at(position: int) -> Note {
        if position == 0 {
            Note::C
        } else if position == 1 {
            Note::CSharp
        } else if position == 2 {
            Note::D
        } else if position == 3 {
            Note::DSharp
        } else if position == 4 {
            Note::E
        } else if position == 5 {
            Note::F
        } else if position == 6 {
            Note::FSharp
        } else if position == 7 {
            Note::G
        } else if position == 8 {
            Note::GSharp
        } else if position == 9 {
            Note::A
        } else if position == 10 {
            Note::ASharp
        } else {
            Note::B
        }
    }

    /// The note that lies `semitones` above this one (below it, when
    /// `semitones` is negative), wrapping around the octave.
    pub open spec fn transposed(self, semitones: int) -> Note {
        Note::at((self.position() + semitones) % 12)
    }

    /// The name under which the note is shown to a reader.
    pub open spec fn name(self) -> Seq<char> {
        match self {
            Note::C => "C"@,
            Note::CSharp => "C\u{266f}"@,
            Note::D => "D"@,
            Note::DSharp => "D\u{266f}"@,
            Note::E => "E"@,
            Note::F => "F"@,
            Note::FSharp => "F\u{266f}"@,
            Note::G => "G"@,
            Note::GSharp => "G\u{266f}"@,
            Note::A => "A"@,
            Note::ASharp => "A\u{266f}"@,
            Note::B => "B"@,
        }
    }

    /// The name of the note in plain ASCII, for use in identifiers and paths.
    pub open spec fn ascii_name(self) -> Seq<char> {
        match self {
            Note::C => "C"@,
            Note::CSharp => "C_sharp"@,
            Note::D => "D"@,
            Note::DSharp => "D_sharp"@,
            Note::E => "E"@,
            Note::F => "F"@,
            Note::FSharp => "F_sharp"@,
            Note::G => "G"@,
            Note::GSharp => "G_sharp"@,
            Note::A => "A"@,
            Note::ASharp => "A_sharp"@,
            Note::B => "B"@,
        }
    }

    /// The relative minor of the major key on this note: the note three
    /// semitones below it.
    pub open spec fn relative_minor_key(self) -> Note {
        self.transposed(-3)
    }

    /// Returns the place of the note in the canonical order.
    pub fn index(self) -> (position: u8)
        ensures
            position == self.position(),
            position < OCTAVE,
    {
        match self {
            Note::C => 0,
            Note::CSharp => 1,
            Note::D => 2,
            Note::DSharp => 3,
            Note::E => 4,
            Note::F => 5,
            Note::FSharp => 6,
            Note::G => 7,
            Note::GSharp => 8,
            Note::A => 9,
            Note::ASharp => 10,
            Note::B => 11,
        }
    }

    /// Returns the note at the given place of the canonical order, or nothing
    /// when the place lies outside the octave.
    pub fn from_index(position: u8) -> (note: Option<Note>)
        ensures
            position < OCTAVE ==> note == Some(Note::at(position as int)),
            position >= OCTAVE ==> note.is_none(),
    {
        match position {
            0 => Some(Note::C),
            1 => Some(Note::CSharp),
            2 => Some(Note::D),
            3 => Some(Note::DSharp),
            4 => Some(Note::E),
            5 => Some(Note::F),
            6 => Some(Note::FSharp),
            7 => Some(Note::G),
            8 => Some(Note::GSharp),
            9 => Some(Note::A),
            10 => Some(Note::ASharp),
            11 => Some(Note::B),
            _ => None,
        }
    }

    /// Returns the note that lies `semitones` above this one, or below it when
    /// `semitones` is negative. Every interval is accepted: the result wraps
    /// around the octave.
    pub fn transpose(self, semitones: i32) -> (note: Note)
        ensures
            note == self.transposed(semitones as int),
            note.position() == (self.position() + semitones) % 12,
    {
        let step: u8 = steps_up(semitones);
        let target: u8 = (self.index() + step) % OCTAVE;
        proof {
            lemma_position_round_trip();
        }
        match Note::from_index(target) {
            Some(note) => note,
            None => self,
        }
    }

    /// Returns the relative minor of the major key on this note, which is
    /// the minor key that is made of the same notes.
    pub fn relative_minor(self) -> (note: Note)
        ensures
            note == self.relative_minor_key(),
            note == self.transposed(-3),
    {
        self.transpose(-3)
    }

    /// Returns the name under which the note is shown to a reader.
    pub fn to_string(&self) -> (text: String)
        ensures
            text@ == self.name(),
    {
        match self {
            Note::C => "C".to_owned(),
            Note::CSharp => "C\u{266f}".to_owned(),
            Note::D => "D".to_owned(),
            Note::DSharp => "D\u{266f}".to_owned(),
            Note::E => "E".to_owned(),
            Note::F => "F".to_owned(),
            Note::FSharp => "F\u{266f}".to_owned(),
            Note::G => "G".to_owned(),
            Note::GSharp => "G\u{266f}".to_owned(),
            Note::A => "A".to_owned(),
            Note::ASharp => "A\u{266f}".to_owned(),
            Note::B => "B".to_owned(),
        }
    }

    /// Returns the name of the note without any character outside ASCII, for
    /// use in directory names and metadata.
    pub fn to_ascii_string(&self) -> (text: String)
        ensures
            text@ == self.ascii_name(),
    {
        match self {
            Note::C => "C".to_owned(),
            Note::CSharp => "C_sharp".to_owned(),
            Note::D => "D".to_owned(),
            Note::DSharp => "D_sharp".to_owned(),
            Note::E => "E".to_owned(),
            Note::F => "F".to_owned(),
            Note::FSharp => "F_sharp".to_owned(),
            Note::G => "G".to_owned(),
            Note::GSharp => "G_sharp".to_owned(),
            Note::A => "A".to_owned(),
            Note::ASharp => "A_sharp".to_owned(),
            Note::B => "B".to_owned(),
        }
    }
}

/// Reduces a signed interval to the equivalent number of semitones upwards
/// within one octave.
fn steps_up(semitones: i32) -> (step: u8)
    ensures
        step == semitones % 12,
        step < OCTAVE,
{
    if semitones >= 0 {
        let step: i32 = semitones % 12;
        step as u8
    } else {
        // For a negative interval, count how far below the next octave
        // boundary it lies.
        let below: i32 = (-(semitones + 1)) % 12;
        (11 - below) as u8
    }
}

/// Every note is the one found at its own position, and every position
/// within the octave is that of the note found there.
pub proof fn lemma_position_round_trip()
    ensures
        forall|note: Note| 0 <= #[trigger] note.position() < 12,
        forall|note: Note| Note::at(#[trigger] note.position()) == note,
        forall|position: int| 0 <= position < 12 ==> #[trigger] Note::at(position).position() == position,
{
}

/// Transposing by one interval and then by another is transposing by their sum.
pub proof fn lemma_transposed_twice(note: Note, first: int, second: int)
    ensures
        note.transposed(first).transposed(second) == note.transposed(first + second),
{
    lemma_position_round_trip();
    let middle = (note.position() + first) % 12;
    assert(note.transposed(first).position() == middle);
    assert((middle + second) % 12 == (note.position() + first + second) % 12);
}

/// Transposition only depends on the interval modulo the octave: a whole
/// number of octaves leads back to the note itself.
pub proof fn lemma_transposed_by_octaves(note: Note, semitones: int)
    requires
        semitones % 12 == 0,
    ensures
        note.transposed(semitones) == note,
{
    lemma_position_round_trip();
    assert((note.position() + semitones) % 12 == note.position());
}

/// Different notes have different names, in both spellings.
pub proof fn lemma_names_tell_notes_apart(one: Note, other: Note)
    requires
        one != other,
    ensures
        one.name() != other.name(),
        one.ascii_name() != other.ascii_name(),
{
    reveal_strlit("C");
    reveal_strlit("D");
    reveal_strlit("E");
    reveal_strlit("F");
    reveal_strlit("G");
    reveal_strlit("A");
    reveal_strlit("B");
    reveal_strlit("C\u{266f}");
    reveal_strlit("D\u{266f}");
    reveal_strlit("F\u{266f}");
    reveal_strlit("G\u{266f}");
    reveal_strlit("A\u{266f}");
    reveal_strlit("C_sharp");
    reveal_strlit("D_sharp");
    reveal_strlit("F_sharp");
    reveal_strlit("G_sharp");
    reveal_strlit("A_sharp");
    assert(one.name().len() != other.name().len() || one.name()[0] != other.name()[0]);
    assert(one.ascii_name().len() != other.ascii_name().len() || one.ascii_name()[0]
        != other.ascii_name()[0]);
}

} // verus!
