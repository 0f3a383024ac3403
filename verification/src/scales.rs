//! Scale types, their interval formulas, and the notes of a scale on a root.

use vstd::prelude::*;
use crate::notes::Note;
use crate::notes::lemma_position_round_trip;
use crate::notes::lemma_transposed_twice;
use crate::notes::lemma_transposed_by_octaves;
use crate::text::lowercased;

verus! {

/// A kind of scale, defined by the intervals between its successive degrees.
#[derive(Clone, Copy, Debug, PartialEq, Eq, Hash, Structural)]
pub enum ScaleType {
    Major,
    Minor,
    MajorPentatonic,
    MinorPentatonic,
}

/// The notes of a scale built on a root.
#[derive(Clone, Debug, PartialEq, Eq)]
pub struct ScaleResult {
    /// The note the scale starts from.
    pub root: Note,
    /// The degrees of the scale in rising order, the root first.
    pub notes: Vec<Note>,
}

impl ScaleType {
    /// The formula of the scale: the number of semitones from each degree to
    /// the next, the last entry leading from the highest degree back to the
    /// root an octave higher.
    pub open spec fn formula(self) -> Seq<int> {
        match self {
            ScaleType::Major => seq![2, 2, 1, 2, 2, 2, 1],
            ScaleType::Minor => seq![2, 1, 2, 2, 1, 2, 2],
            ScaleType::MajorPentatonic => seq![2, 2, 3, 2, 3],
            ScaleType::MinorPentatonic => seq![3, 2, 2, 3, 2],
        }
    }

    /// The number of semitones between the root and the given degree: the sum
    /// of the first `degree` entries of the formula.
    pub open spec fn offset(self, degree: nat) -> int
        decreases degree,
    {
        if degree == 0 {
            0
        } else {
            self.offset((degree - 1) as nat) + self.formula()[degree - 1]
        }
    }

    /// The sum of the whole formula.
    pub open spec fn span(self) -> int {
        self.offset(self.formula().len())
    }

    /// The notes of the scale on `root`: one for each entry of the formula,
    /// each found by transposing the root by the offset of its degree.
    pub open spec fn notes_on(self, root: Note) -> Seq<Note> {
        Seq::new(self.formula().len(), |degree: int| root.transposed(self.offset(degree as nat)))
    }

    /// The name of the scale type.
    pub open spec fn name(self) -> Seq<char> {
        match self {
            ScaleType::Major => "Major"@,
            ScaleType::Minor => "Minor"@,
            ScaleType::MajorPentatonic => "Major Pentatonic"@,
            ScaleType::MinorPentatonic => "Minor Pentatonic"@,
        }
    }

    /// Returns the formula of the scale, one entry per degree.
    pub fn semitone_steps(&self) -> (steps: Vec<u8>)
        ensures
            steps@.len() == self.formula().len(),
            forall|i: int| 0 <= i < steps@.len() ==> steps@[i] as int == self.formula()[i],
    {
        match self {
            ScaleType::Major => vec![2u8, 2u8, 1u8, 2u8, 2u8, 2u8, 1u8],
            ScaleType::Minor => vec![2u8, 1u8, 2u8, 2u8, 1u8, 2u8, 2u8],
            ScaleType::MajorPentatonic => vec![2u8, 2u8, 3u8, 2u8, 3u8],
            ScaleType::MinorPentatonic => vec![3u8, 2u8, 2u8, 3u8, 2u8],
        }
    }

    /// Returns the notes of the scale on `root`. The walk starts at the root
    /// and moves up by one entry of the formula at a time.
    pub fn notes(&self, root: Note) -> (scale: ScaleResult)
        ensures
            scale.root == root,
            scale.notes@ == self.notes_on(root),
    {
        let steps: Vec<u8> = self.semitone_steps();
        let mut notes: Vec<Note> = Vec::new();
        let mut current: Note = root;
        let mut degree: usize = 0;
        proof {
            lemma_transposed_by_octaves(root, 0);
        }
        while degree < steps.len()
            invariant
                degree <= steps@.len(),
                steps@.len() == self.formula().len(),
                forall|i: int| 0 <= i < steps@.len() ==> steps@[i] as int == self.formula()[i],
                current == root.transposed(self.offset(degree as nat)),
                notes@.len() == degree,
                forall|i: int| 0 <= i < degree ==> notes@[i] == root.transposed(self.offset(i as nat)),
            decreases steps@.len() - degree,
        {
            notes.push(current);
            let step: u8 = steps[degree];
            proof {
                lemma_transposed_twice(root, self.offset(degree as nat), step as int);
            }
            current = current.transpose(step as i32);
            degree += 1;
        }
        assert(notes@ =~= self.notes_on(root));
        ScaleResult { root, notes }
    }

    /// Returns the name of the scale type.
    pub fn to_string(&self) -> (text: String)
        ensures
            text@ == self.name(),
    {
        match self {
            ScaleType::Major => "Major".to_owned(),
            ScaleType::Minor => "Minor".to_owned(),
            ScaleType::MajorPentatonic => "Major Pentatonic".to_owned(),
            ScaleType::MinorPentatonic => "Minor Pentatonic".to_owned(),
        }
    }

    /// Returns the name of the scale type in lower case.
    pub fn to_lowercase_string(&self) -> (text: String)
        ensures
            text@ == lowercased(self.name()),
    {
        proof {
            reveal_strlit("Major");
            reveal_strlit("Minor");
            reveal_strlit("Major Pentatonic");
            reveal_strlit("Minor Pentatonic");
            reveal_strlit("major");
            reveal_strlit("minor");
            reveal_strlit("major pentatonic");
            reveal_strlit("minor pentatonic");
        }
        let text = match self {
            ScaleType::Major => "major".to_owned(),
            ScaleType::Minor => "minor".to_owned(),
            ScaleType::MajorPentatonic => "major pentatonic".to_owned(),
            ScaleType::MinorPentatonic => "minor pentatonic".to_owned(),
        };
        assert(text@ =~= lowercased(self.name()));
        text
    }
}

/// A scale has one note for each entry of its formula, and the formula as a
/// whole spans an octave: transposing the root by its sum, or by that sum
/// reduced modulo twelve, leads back to the root.
pub proof fn lemma_scale_closes_on_root(scale: ScaleType, root: Note)
    ensures
        scale.notes_on(root).len() == scale.formula().len(),
        scale.notes_on(root)[0] == root,
        scale.span() == 12,
        root.transposed(scale.span()) == root,
        root.transposed(scale.span() % 12) == root,
{
    reveal_with_fuel(ScaleType::offset, 8);
    lemma_position_round_trip();
    lemma_transposed_by_octaves(root, 12);
    lemma_transposed_by_octaves(root, 0);
}

} // verus!
