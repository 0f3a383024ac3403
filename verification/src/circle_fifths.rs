//! The order in which the keys of a course follow one another: the circle of
//! fifths, walked upwards from C, each key optionally shown under an alias.

use vstd::prelude::*;
use vstd::relations::injective_on;
use vstd::set_lib::lemma_int_range;
use vstd::set_lib::lemma_map_size;
use vstd::set_lib::lemma_subset_equality;
use vstd::set_lib::set_int_range;
use crate::notes::Note;
use crate::notes::lemma_position_round_trip;
use crate::notes::lemma_transposed_twice;
use crate::notes::lemma_transposed_by_octaves;

verus! {

/// The number of semitones in a perfect fifth, the step of the walk.
pub const FIFTH: i32 = 7;

/// The number of keys on the circle.
pub const KEYS: usize = 12;

/// The key at the given place of the walk: the walk starts at C and each
/// step leads a fifth upwards.
pub open spec fn circle_key(place: int) -> Note {
    Note::C.transposed(7 * place)
}

/// The place of the walk at which the given note is the key.
pub open spec fn circle_place(note: Note) -> int {
    (7 * note.position()) % 12
}

/// The keys of the circle in the order of the walk.
pub open spec fn circle() -> Seq<Note> {
    Seq::new(12, |place: int| circle_key(place))
}

/// A way of showing each key of the circle under another note.
#[derive(Clone, Copy, Debug, PartialEq, Eq)]
pub enum NoteAlias {
    /// Each key is shown as its relative minor, three semitones below it.
    RelativeMinor,
    /// Each key is shown as the entry found at its position in the table; a
    /// key whose entry is empty has no alias.
    Table([Option<Note>; 12]),
}

/// The failure to find an alias for a key of the circle.
#[derive(Clone, Copy, Debug, PartialEq, Eq, Structural)]
pub struct AliasFailure {
    /// The key of the circle that has no alias.
    pub note: Note,
}

/// One step of the walk: the note a lesson is about, and the note of the
/// lesson before it, if there is one.
#[derive(Clone, Copy, Debug, PartialEq, Eq, Structural)]
pub struct KeyStep {
    /// The note of this step, as it is shown.
    pub note: Note,
    /// The note of the step before, as it is shown; `None` at the first step.
    pub previous: Option<Note>,
}

impl NoteAlias {
    /// The note under which `note` is shown, if it has an alias.
    pub open spec fn aliased(self, note: Note) -> Option<Note> {
        match self {
            NoteAlias::RelativeMinor => Some(note.relative_minor_key()),
            NoteAlias::Table(table) => table@[note.position()],
        }
    }

    /// Returns the note under which `note` is shown, or the failure to find one.
    pub fn apply(&self, note: Note) -> (result: Result<Note, AliasFailure>)
        ensures
            result == match self.aliased(note) {
                Some(alias) => Ok::<Note, AliasFailure>(alias),
                None => Err::<Note, AliasFailure>((AliasFailure { note })),
            },
    {
        match self {
            NoteAlias::RelativeMinor => Ok(note.relative_minor()),
            NoteAlias::Table(table) => {
                let position: usize = note.index() as usize;
                match table[position] {
                    Some(alias) => Ok(alias),
                    None => Err(AliasFailure { note }),
                }
            },
        }
    }
}

/// The note under which a key is shown: the key itself where no alias is in
/// use, else what the alias gives.
pub open spec fn shown(alias: Option<NoteAlias>, note: Note) -> Option<Note> {
    match alias {
        None => Some(note),
        Some(alias) => alias.aliased(note),
    }
}

/// Whether every key of the circle can be shown.
pub open spec fn covers_circle(alias: Option<NoteAlias>) -> bool {
    forall|place: int| 0 <= place < 12 ==> (#[trigger] shown(alias, circle_key(place))).is_some()
}

/// Whether `place` is the first place of the walk whose key cannot be shown.
pub open spec fn first_gap(alias: Option<NoteAlias>, place: int) -> bool {
    &&& 0 <= place < 12
    &&& shown(alias, circle_key(place)).is_none()
    &&& forall|earlier: int|
        0 <= earlier < place ==> (#[trigger] shown(alias, circle_key(earlier))).is_some()
}

/// The step at the given place of the walk.
pub open spec fn key_step(alias: Option<NoteAlias>, place: int) -> KeyStep {
    KeyStep {
        note: shown(alias, circle_key(place)).unwrap(),
        previous: if place == 0 {
            None
        } else {
            shown(alias, circle_key(place - 1))
        },
    }
}

/// The twelve steps of the walk.
pub open spec fn key_steps(alias: Option<NoteAlias>) -> Seq<KeyStep> {
    Seq::new(12, |place: int| key_step(alias, place))
}

/// Returns the note under which a key is shown, or the failure to find one.
pub fn show(alias: &Option<NoteAlias>, note: Note) -> (result: Result<Note, AliasFailure>)
    ensures
        result == match shown(*alias, note) {
            Some(alias) => Ok::<Note, AliasFailure>(alias),
            None => Err::<Note, AliasFailure>((AliasFailure { note })),
        },
{
    match alias {
        None => Ok(note),
        Some(alias) => alias.apply(note),
    }
}

/// Returns the keys of the circle of fifths in the order of the walk: C
/// first, then a fifth higher at each step, until all twelve have been named.
pub fn circle_of_fifths() -> (keys: Vec<Note>)
    ensures
        keys@ == circle(),
{
    let mut keys: Vec<Note> = Vec::new();
    let mut current: Note = Note::C;
    let mut place: usize = 0;
    proof {
        lemma_transposed_by_octaves(Note::C, 0);
    }
    while place < KEYS
        invariant
            place <= KEYS,
            keys@.len() == place,
            current == circle_key(place as int),
            forall|i: int| 0 <= i < place ==> keys@[i] == circle_key(i),
        decreases KEYS - place,
    {
        keys.push(current);
        proof {
            lemma_transposed_twice(Note::C, 7 * place, 7);
        }
        current = current.transpose(FIFTH);
        place += 1;
    }
    assert(keys@ =~= circle());
    keys
}

/// Returns the steps of the walk, one for each key of the circle. The walk
/// is given up at the first key that cannot be shown: no steps are returned
/// then, only the failure.
pub fn key_sequence(alias: &Option<NoteAlias>) -> (result: Result<Vec<KeyStep>, AliasFailure>)
    ensures
        result.is_ok() <==> covers_circle(*alias),
        match result {
            Ok(steps) => covers_circle(*alias) && steps@ == key_steps(*alias),
            Err(failure) => exists|place: int|
                first_gap(*alias, place) && failure.note == circle_key(place),
        },
{
    let keys: Vec<Note> = circle_of_fifths();
    let mut steps: Vec<KeyStep> = Vec::new();
    let mut previous: Option<Note> = None;
    let mut place: usize = 0;
    while place < keys.len()
        invariant
            keys@ == circle(),
            place <= 12,
            steps@.len() == place,
            forall|i: int| 0 <= i < place ==> (#[trigger] shown(*alias, circle_key(i))).is_some(),
            forall|i: int| 0 <= i < place ==> steps@[i] == key_step(*alias, i),
            previous == if place == 0 {
                None::<Note>
            } else {
                shown(*alias, circle_key(place - 1))
            },
        decreases 12 - place,
    {
        let key: Note = keys[place];
        match show(alias, key) {
            Ok(note) => {
                steps.push(KeyStep { note, previous });
                previous = Some(note);
            },
            Err(failure) => {
                assert(first_gap(*alias, place as int));
                return Err(failure);
            },
        }
        place += 1;
    }
    assert(steps@ =~= key_steps(*alias));
    Ok(steps)
}

/// The walk names every note exactly once: the keys at two different places
/// differ, and every note is the key at its own place of the walk.
pub proof fn lemma_circle_names_every_note_once()
    ensures
        forall|i: int, j: int|
            0 <= i < 12 && 0 <= j < 12 && i != j ==> #[trigger] circle_key(i) != #[trigger] circle_key(
                j,
            ),
        forall|note: Note|
            0 <= #[trigger] circle_place(note) < 12 && circle_key(circle_place(note)) == note,
{
    lemma_position_round_trip();
    assert(circle_key(0) == Note::C);
    assert(circle_key(1) == Note::G);
    assert(circle_key(2) == Note::D);
    assert(circle_key(3) == Note::A);
    assert(circle_key(4) == Note::E);
    assert(circle_key(5) == Note::B);
    assert(circle_key(6) == Note::FSharp);
    assert(circle_key(7) == Note::CSharp);
    assert(circle_key(8) == Note::GSharp);
    assert(circle_key(9) == Note::DSharp);
    assert(circle_key(10) == Note::ASharp);
    assert(circle_key(11) == Note::F);
}

/// At most one place of the walk is the first whose key cannot be shown.
pub proof fn lemma_first_gap_is_unique(alias: Option<NoteAlias>, one: int, other: int)
    requires
        first_gap(alias, one),
        first_gap(alias, other),
    ensures
        one == other,
{
    if one < other {
        assert(shown(alias, circle_key(one)).is_some());
    } else if other < one {
        assert(shown(alias, circle_key(other)).is_some());
    }
}

/// Whether the alias shows different keys of the circle under different notes.
pub open spec fn tells_keys_apart(alias: Option<NoteAlias>) -> bool {
    forall|i: int, j: int|
        0 <= i < 12 && 0 <= j < 12 && i != j ==> #[trigger] shown(alias, circle_key(i))
            != #[trigger] shown(alias, circle_key(j))
}

/// Without an alias, and with the relative minor as alias, every key of the
/// circle is shown, and no two keys are shown under the same note.
pub proof fn lemma_standard_aliases_cover_circle(alias: Option<NoteAlias>)
    requires
        alias.is_none() || alias == Some(NoteAlias::RelativeMinor),
    ensures
        covers_circle(alias),
        tells_keys_apart(alias),
{
    lemma_circle_names_every_note_once();
    assert forall|i: int, j: int| 0 <= i < 12 && 0 <= j < 12 && i != j implies #[trigger] shown(
        alias,
        circle_key(i),
    ) != #[trigger] shown(alias, circle_key(j)) by {
        if alias.is_some() {
            lemma_transposed_twice(circle_key(i), -3, 3);
            lemma_transposed_twice(circle_key(j), -3, 3);
            lemma_transposed_by_octaves(circle_key(i), 0);
            lemma_transposed_by_octaves(circle_key(j), 0);
        }
    }
}

/// An alias that shows every key of the circle, and different keys under
/// different notes, shows every note: each of the twelve notes is the note
/// of one step of the walk, and of one only.
pub proof fn lemma_every_note_has_its_step(alias: Option<NoteAlias>, note: Note)
    requires
        covers_circle(alias),
        tells_keys_apart(alias),
    ensures
        exists|place: int| 0 <= place < 12 && (#[trigger] key_step(alias, place)).note == note,
        forall|one: int, other: int|
            0 <= one < 12 && 0 <= other < 12 && (#[trigger] key_step(alias, one)).note == note && (
            #[trigger] key_step(alias, other)).note == note ==> one == other,
{
    lemma_position_round_trip();
    let places = set_int_range(0, 12);
    let position_at = |place: int| key_step(alias, place).note.position();
    assert forall|one: int, other: int|
        0 <= one < 12 && 0 <= other < 12 && one != other implies key_step(alias, one).note
        != key_step(alias, other).note by {
        assert(shown(alias, circle_key(one)).is_some());
        assert(shown(alias, circle_key(other)).is_some());
        assert(shown(alias, circle_key(one)) != shown(alias, circle_key(other)));
    }
    assert(injective_on(position_at, places)) by {
        assert forall|one: int, other: int|
            places.contains(one) && places.contains(other) && #[trigger] position_at(one)
                == #[trigger] position_at(other) implies one == other by {
            assert(Note::at(key_step(alias, one).note.position()) == key_step(alias, one).note);
            assert(Note::at(key_step(alias, other).note.position()) == key_step(
                alias,
                other,
            ).note);
        }
    }
    let positions = places.map(position_at);
    lemma_int_range(0, 12);
    lemma_map_size(places, positions, position_at);
    assert(positions.subset_of(places)) by {
        assert forall|position: int| positions.contains(position) implies places.contains(
            position,
        ) by {
            let place = choose|place: int|
                places.contains(place) && position == position_at(place);
            assert(position == key_step(alias, place).note.position());
        }
    }
    lemma_subset_equality(positions, places);
    assert(positions.contains(note.position()));
    let place = choose|place: int| places.contains(place) && note.position() == position_at(place);
    assert(key_step(alias, place).note == note);
}

} // verus!
