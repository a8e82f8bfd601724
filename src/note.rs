use std::sync::Arc;
use vstd::prelude::*;

use crate::clock::TICKS_PER_BEAT;
use crate::error::ConfigError;

verus! {

/// Pitches are kept in cents (hundredths of a semitone); this many make an octave.
pub const CENTS_PER_OCTAVE: i64 = 1200;

/// Thousandths of a beat in one beat: note durations are kept in thousandths.
pub const MILLIBEATS_PER_BEAT: u64 = 1000;

/// What a scale holds.
pub struct ScaleView {
    pub name: Seq<char>,
    /// Offset of each degree above the octave's base, in cents.
    pub steps: Seq<i32>,
    pub note_names: Seq<Seq<char>>,
}

/// An immutable mapping from degree index to pitch offset, with degree names.
/// It always has at least one degree, and one name per degree.
#[derive(Debug)]
pub struct Scale {
    name: String,
    steps: Vec<i32>,
    note_names: Vec<String>,
}

impl View for Scale {
    type V = ScaleView;

    closed spec fn view(&self) -> ScaleView {
        ScaleView {
            name: self.name@,
            steps: self.steps@,
            note_names: self.note_names@.map_values(|n: String| n@),
        }
    }
}

/// The offset of degree `index`; an index past the end falls back to the last degree.
pub open spec fn step_at(steps: Seq<i32>, index: int) -> int {
    if index < steps.len() {
        steps[index] as int
    } else {
        steps[steps.len() - 1] as int
    }
}

/// The degree above `index`, modulo `len`.
pub open spec fn degree_up(index: int, len: int) -> int {
    (index + 1) % len
}

/// The degree below `index`, modulo `len`.
pub open spec fn degree_down(index: int, len: int) -> int {
    (index + len - 1) % len
}

/// `x / d` rounded to the nearest integer, halves away from zero (`x >= 0`, `d > 0`).
pub open spec fn round_div(x: int, d: int) -> int {
    (2 * x + d) / (2 * d)
}

/// The length in ticks of a duration of `millibeats` thousandths of a beat,
/// rounded, and held to what a `u8` can carry.
pub open spec fn tick_length_of(millibeats: int) -> int {
    let l = round_div(millibeats * TICKS_PER_BEAT, MILLIBEATS_PER_BEAT as int);
    if l > 255 {
        255
    } else {
        l
    }
}

impl Scale {
    #[verifier::type_invariant]
    closed spec fn well_formed(&self) -> bool {
        &&& self.steps@.len() >= 1
        &&& self.steps@.len() == self.note_names@.len()
    }

    /// A scale from its name, its steps in cents and a name for each degree.
    /// It fails on an empty step table, and where the names do not match the steps.
    pub fn new(name: String, steps: Vec<i32>, note_names: Vec<String>) -> (r: Result<Scale, ConfigError>)
        ensures
            steps@.len() == 0 ==> r == Err::<Scale, ConfigError>(ConfigError::EmptyScale { scale: name }),
            steps@.len() != 0 && steps@.len() != note_names@.len() ==> r == Err::<Scale, ConfigError>(
                ConfigError::DegreeNamesMismatch { scale: name },
            ),
            steps@.len() != 0 && steps@.len() == note_names@.len() ==> (r matches Ok(s) && s@ == (
            ScaleView {
                name: name@,
                steps: steps@,
                note_names: note_names@.map_values(|n: String| n@),
            })),
    {
        if steps.len() == 0 {
            return Err(ConfigError::EmptyScale { scale: name });
        }
        if steps.len() != note_names.len() {
            return Err(ConfigError::DegreeNamesMismatch { scale: name });
        }
        Ok(Scale { name, steps, note_names })
    }

    /// Twelve-tone equal temperament: degree `i` lies `100 * i` cents up.
    pub fn new_12_tet() -> (r: Self)
        ensures
            r@.name == "12-TET"@,
            r@.steps.len() == 12,
            forall|i: int| 0 <= i < 12 ==> r@.steps[i] == 100 * i,
            r@.note_names == seq![
                "C"@, "C# / Db"@, "D"@, "D# / Eb"@, "E"@, "F"@,
                "F# / Gb"@, "G"@, "G# / Ab"@, "A"@, "A# / Bb"@, "B"@,
            ],
    {
        let mut steps: Vec<i32> = Vec::new();
        let mut i: i32 = 0;
        while i < 12
            invariant
                0 <= i <= 12,
                steps@.len() == i,
                forall|j: int| 0 <= j < i ==> steps@[j] == 100 * j,
            decreases 12 - i,
        {
            steps.push(i * 100);
            i = i + 1;
        }
        let note_names: Vec<String> = vec![
            "C".to_owned(),
            "C# / Db".to_owned(),
            "D".to_owned(),
            "D# / Eb".to_owned(),
            "E".to_owned(),
            "F".to_owned(),
            "F# / Gb".to_owned(),
            "G".to_owned(),
            "G# / Ab".to_owned(),
            "A".to_owned(),
            "A# / Bb".to_owned(),
            "B".to_owned(),
        ];
        let r = Scale { name: "12-TET".to_owned(), steps, note_names };
        assert(r@.note_names =~= seq![
            "C"@, "C# / Db"@, "D"@, "D# / Eb"@, "E"@, "F"@,
            "F# / Gb"@, "G"@, "G# / Ab"@, "A"@, "A# / Bb"@, "B"@,
        ]);
        r
    }

    /// The scale's name.
    pub fn name(&self) -> (r: String)
        ensures
            r@ == self@.name,
    {
        self.name.clone()
    }

    /// The number of degrees, at least one.
    pub fn len(&self) -> (r: usize)
        ensures
            r == self@.steps.len(),
            r >= 1,
    {
        proof {
            use_type_invariant(self);
        }
        self.steps.len()
    }

    /// The offset of degree `index` in cents; past the end, that of the last degree.
    pub fn step(&self, index: usize) -> (r: i32)
        ensures
            r == step_at(self@.steps, index as int),
    {
        proof {
            use_type_invariant(self);
        }
        if index < self.steps.len() {
            self.steps[index]
        } else {
            self.steps[self.steps.len() - 1]
        }
    }

    /// The name of degree `index`; past the end, that of the last degree.
    pub fn note_name(&self, index: usize) -> (r: String)
        ensures
            index < self@.note_names.len() ==> r@ == self@.note_names[index as int],
            index >= self@.note_names.len() ==> r@ == self@.note_names.last(),
    {
        proof {
            use_type_invariant(self);
        }
        let i = if index < self.note_names.len() {
            index
        } else {
            self.note_names.len() - 1
        };
        self.note_names[i].clone()
    }
}

/// A note length, in thousandths of a beat.
#[derive(Clone, Copy, PartialEq, Eq, Debug)]
pub struct NoteDuration {
    pub millibeats: u32,
}

impl NoteDuration {
    /// The length in ticks: `round(beats * 24)`, at most 255.
    pub fn get_tick_length(&self) -> (r: u8)
        ensures
            r == tick_length_of(self.millibeats as int),
    {
        let m = self.millibeats as u64;
        assert(m * 48 + 1000 <= 48 * 0xffff_ffffu64 + 1000) by (nonlinear_arith)
            requires
                m <= 0xffff_ffffu64,
        ;
        // twice the product, plus the divisor, over twice the divisor: the rounded quotient
        let l: u64 = (m * 48 + 1000) / 2000;
        if l > 255 {
            255
        } else {
            l as u8
        }
    }
}

/// A musical event: a scale, an octave, a degree, a duration, a velocity and a pan.
/// The degree may lie past the end of the scale: it then reads as the last degree.
#[derive(Debug)]
pub struct Note {
    pub scale: Arc<Scale>,
    pub octave: u8,
    pub duration: NoteDuration,
    pub note_index: usize,
    pub velocity: u8,
    pub panning: u8,
}

impl Clone for Note {
    fn clone(&self) -> (r: Self)
        ensures
            r == *self,
    {
        Note {
            scale: self.scale.clone(),
            octave: self.octave,
            duration: self.duration,
            note_index: self.note_index,
            velocity: self.velocity,
            panning: self.panning,
        }
    }
}

/// Octave of a new note.
pub const BASE_OCTAVE: u8 = 5;

/// Velocity of a new note.
pub const BASE_VELOCITY: u8 = 100;

/// Pan of a new note: the centre.
pub const PANNING_CENTER: u8 = 64;

/// Duration of a new note: half a beat.
pub const BASE_DURATION_MILLIBEATS: u32 = 500;

impl Note {
    /// The offset of the note's degree in its scale, in cents, with the last-degree fallback.
    pub open spec fn pitch_offset(&self) -> int {
        step_at(self.scale@.steps, self.note_index as int)
    }

    /// The note's pitch in cents above MIDI note 0.
    pub open spec fn pitch(&self) -> int {
        self.pitch_offset() + CENTS_PER_OCTAVE * self.octave
    }

    /// The first degree of `scale` in octave 5, half a beat long, velocity 100, centred.
    pub fn new(scale: Arc<Scale>) -> (r: Self)
        ensures
            r.scale == scale,
            r.octave == BASE_OCTAVE,
            r.duration.millibeats == BASE_DURATION_MILLIBEATS,
            r.note_index == 0,
            r.velocity == BASE_VELOCITY,
            r.panning == PANNING_CENTER,
    {
        Note {
            scale,
            octave: BASE_OCTAVE,
            duration: NoteDuration { millibeats: BASE_DURATION_MILLIBEATS },
            note_index: 0,
            velocity: BASE_VELOCITY,
            panning: PANNING_CENTER,
        }
    }

    /// The offset in cents of the note's degree; past the end of the scale,
    /// that of the last degree.
    pub fn resolve_pitch(&self) -> (r: i32)
        ensures
            r == self.pitch_offset(),
    {
        self.scale.step(self.note_index)
    }

    /// The note's pitch in hundredths of a MIDI note number (cents above note 0):
    /// its degree's offset plus twelve semitones per octave.
    pub fn get_midi_number(&self) -> (r: i64)
        ensures
            r == self.pitch(),
    {
        self.resolve_pitch() as i64 + CENTS_PER_OCTAVE * (self.octave as i64)
    }

    /// The name of the note's degree, with the same fallback as its pitch.
    pub fn get_common_name(&self) -> (r: String)
        ensures
            self.note_index < self.scale@.note_names.len() ==> r@
                == self.scale@.note_names[self.note_index as int],
            self.note_index >= self.scale@.note_names.len() ==> r@ == self.scale@.note_names.last(),
    {
        self.scale.note_name(self.note_index)
    }
}

/// `note` one degree up its scale: past the top degree it wraps to degree 0 of
/// the next octave; a note that would leave octave 255 stays as it is.
pub open spec fn transposed_up(note: Note) -> Note {
    let index = degree_up(note.note_index as int, note.scale@.steps.len() as int);
    if index != 0 {
        Note { note_index: index as usize, ..note }
    } else if note.octave < 255 {
        Note { note_index: 0, octave: (note.octave + 1) as u8, ..note }
    } else {
        note
    }
}

/// `note` one degree down its scale: below degree 0 it wraps to the top degree
/// of the octave below; a note that would leave octave 0 stays as it is.
pub open spec fn transposed_down(note: Note) -> Note {
    let len = note.scale@.steps.len() as int;
    let index = degree_down(note.note_index as int, len);
    if index != len - 1 {
        Note { note_index: index as usize, ..note }
    } else if note.octave > 0 {
        Note { note_index: index as usize, octave: (note.octave - 1) as u8, ..note }
    } else {
        note
    }
}

/// Moves `note` one degree up its scale (see `transposed_up`).
pub fn increment_tonality_of_note(note: &mut Note)
    ensures
        *final(note) == transposed_up(*old(note)),
{
    let len = note.scale.len();
    let r = note.note_index % len;
    let index = if r + 1 == len {
        0
    } else {
        r + 1
    };
    proof {
        vstd::arithmetic::div_mod::lemma_add_mod_noop_right(1, note.note_index as int, len as int);
        if r + 1 == len {
            vstd::arithmetic::div_mod::lemma_mod_self_0(len as int);
        } else {
            vstd::arithmetic::div_mod::lemma_small_mod((r + 1) as nat, len as nat);
        }
    }
    if index == 0 {
        if note.octave == 255 {
            return;
        }
        note.octave = note.octave + 1;
    }
    note.note_index = index;
}

/// Moves `note` one degree down its scale (see `transposed_down`).
pub fn decrement_tonality_of_note(note: &mut Note)
    ensures
        *final(note) == transposed_down(*old(note)),
{
    let len = note.scale.len();
    let r = note.note_index % len;
    let index = if r == 0 {
        len - 1
    } else {
        r - 1
    };
    proof {
        vstd::arithmetic::div_mod::lemma_small_mod((len - 1) as nat, len as nat);
        vstd::arithmetic::div_mod::lemma_add_mod_noop(note.note_index as int, len - 1, len as int);
        vstd::arithmetic::div_mod::lemma_mod_add_multiples_vanish(r - 1, len as int);
        if r != 0 {
            vstd::arithmetic::div_mod::lemma_small_mod((r - 1) as nat, len as nat);
        }
    }
    if index == len - 1 {
        if note.octave == 0 {
            return;
        }
        note.octave = note.octave - 1;
    }
    note.note_index = index;
}

/// Moving up from the top degree of a scale wraps to degree 0 one octave
/// higher; moving down from degree 0 wraps to the top degree one octave lower
/// (within the octaves a `u8` holds).
pub proof fn lemma_transpose_wraps(note: Note)
    requires
        1 <= note.scale@.steps.len() <= usize::MAX,
    ensures
        ({
            let top = note.scale@.steps.len() - 1;
            &&& note.note_index == top && note.octave < 255 ==> {
                &&& transposed_up(note).note_index == 0
                &&& transposed_up(note).octave == note.octave + 1
            }
            &&& note.note_index == 0 && note.octave > 0 ==> {
                &&& transposed_down(note).note_index == top
                &&& transposed_down(note).octave == note.octave - 1
            }
        }),
{
    let len = note.scale@.steps.len() as int;
    vstd::arithmetic::div_mod::lemma_mod_self_0(len);
    vstd::arithmetic::div_mod::lemma_small_mod((len - 1) as nat, len as nat);
}

/// A degree past the end of a scale sounds as the last degree does.
pub proof fn lemma_out_of_range_fallback(note: Note)
    requires
        note.scale@.steps.len() >= 1,
        note.note_index >= note.scale@.steps.len(),
    ensures
        note.pitch_offset() == (Note {
            note_index: (note.scale@.steps.len() - 1) as usize,
            ..note
        }).pitch_offset(),
        note.pitch() == (Note { note_index: (note.scale@.steps.len() - 1) as usize, ..note }).pitch(),
{
}

} // verus!
