use std::sync::Arc;
use vstd::prelude::*;

use crate::note::{
    decrement_tonality_of_note, increment_tonality_of_note, transposed_down, transposed_up, Note,
    Scale, ScaleView,
};

verus! {

/// What a sequence holds.
pub struct SequenceView {
    pub name: Seq<char>,
    pub scale: ScaleView,
    pub notes: Seq<Note>,
    /// Extra plays: the sequence plays `repeat + 1` times before the next one.
    pub repeat: nat,
}

/// A named, fixed-length, non-empty list of notes bound to a scale, with a repeat count.
#[derive(Debug)]
pub struct Sequence {
    name: String,
    scale: Arc<Scale>,
    notes: Vec<Note>,
    repeat: usize,
}

impl View for Sequence {
    type V = SequenceView;

    closed spec fn view(&self) -> SequenceView {
        SequenceView {
            name: self.name@,
            scale: self.scale@,
            notes: self.notes@,
            repeat: self.repeat as nat,
        }
    }
}

impl Clone for Sequence {
    fn clone(&self) -> (r: Self)
        ensures
            r@ == self@,
    {
        proof {
            use_type_invariant(self);
        }
        let notes = self.notes.clone();
        assert(notes@ =~= self.notes@);
        Sequence { name: self.name.clone(), scale: self.scale.clone(), notes, repeat: self.repeat }
    }
}

impl Sequence {
    #[verifier::type_invariant]
    closed spec fn has_notes(&self) -> bool {
        self.notes@.len() >= 1
    }

    /// A sequence that plays once; `notes` must not be empty.
    pub fn new(name: String, scale: Arc<Scale>, notes: Vec<Note>) -> (r: Self)
        requires
            notes@.len() >= 1,
        ensures
            r@ == (SequenceView { name: name@, scale: scale@, notes: notes@, repeat: 0 }),
    {
        Self { name, scale, notes, repeat: 0 }
    }

    /// Sets how many extra times the sequence plays.
    pub fn set_repeat(&mut self, repeat: usize)
        ensures
            final(self)@ == (SequenceView { repeat: repeat as nat, ..old(self)@ }),
    {
        proof {
            use_type_invariant(&*self);
        }
        self.repeat = repeat;
    }

    /// The sequence's name.
    pub fn name(&self) -> (r: String)
        ensures
            r@ == self@.name,
    {
        self.name.clone()
    }

    /// The name of the sequence's scale.
    pub fn scale_name(&self) -> (r: String)
        ensures
            r@ == self@.scale.name,
    {
        self.scale.name()
    }

    /// The sequence's notes.
    pub fn notes(&self) -> (r: &Vec<Note>)
        ensures
            r@ == self@.notes,
    {
        &self.notes
    }

    /// The number of notes, at least one.
    pub fn len(&self) -> (r: usize)
        ensures
            r == self@.notes.len(),
            r >= 1,
    {
        proof {
            use_type_invariant(self);
        }
        self.notes.len()
    }

    /// How many extra times the sequence plays.
    pub fn repeat(&self) -> (r: usize)
        ensures
            r == self@.repeat,
    {
        self.repeat
    }

    /// Moves note `index` one degree up (or down) its scale.
    pub fn transpose_note(&mut self, index: usize, up: bool)
        requires
            index < old(self)@.notes.len(),
        ensures
            final(self)@.name == old(self)@.name,
            final(self)@.scale == old(self)@.scale,
            final(self)@.repeat == old(self)@.repeat,
            final(self)@.notes.len() == old(self)@.notes.len(),
            forall|i: int|
                0 <= i < old(self)@.notes.len() && i != index ==> final(self)@.notes[i] == old(
                    self,
                )@.notes[i],
            final(self)@.notes[index as int] == if up {
                transposed_up(old(self)@.notes[index as int])
            } else {
                transposed_down(old(self)@.notes[index as int])
            },
    {
        proof {
            use_type_invariant(&*self);
        }
        let mut note = self.notes[index].clone();
        if up {
            increment_tonality_of_note(&mut note);
        } else {
            decrement_tonality_of_note(&mut note);
        }
        self.notes[index] = note;
    }
}

/// Where a sequencer stands: the sequence, the note in it, and how many times
/// the sequence has already played through.
pub struct Position {
    pub sequence: int,
    pub note: int,
    pub repeated: int,
}

/// The position a sequencer starts from.
pub open spec fn start_position() -> Position {
    Position { sequence: 0, note: 0, repeated: 0 }
}

/// One step of a playlist whose sequence `i` has `lengths[i]` notes and
/// `repeats[i]` extra plays. A playlist of one sequence just cycles through its
/// notes. Otherwise leaving the last note counts one play; once the plays
/// exceed the repeat count the next sequence starts from its first note.
pub open spec fn advance_position(lengths: Seq<int>, repeats: Seq<int>, p: Position) -> Position {
    if lengths.len() == 1 {
        Position { note: (p.note + 1) % lengths[0], ..p }
    } else {
        let repeated = if p.note == lengths[p.sequence] - 1 {
            p.repeated + 1
        } else {
            p.repeated
        };
        if repeated > repeats[p.sequence] {
            Position { sequence: (p.sequence + 1) % (lengths.len() as int), note: 0, repeated: 0 }
        } else {
            Position { sequence: p.sequence, note: (p.note + 1) % lengths[p.sequence], repeated }
        }
    }
}

/// What a sequencer holds.
pub struct SequencerView {
    pub sequences: Seq<SequenceView>,
    pub position: Position,
    pub previous_note: Option<Note>,
}

impl SequencerView {
    /// The number of notes of each sequence.
    pub open spec fn lengths(self) -> Seq<int> {
        self.sequences.map_values(|s: SequenceView| s.notes.len() as int)
    }

    /// The repeat count of each sequence.
    pub open spec fn repeats(self) -> Seq<int> {
        self.sequences.map_values(|s: SequenceView| s.repeat as int)
    }

    /// The note at the current position.
    pub open spec fn current_note(self) -> Note {
        self.sequences[self.position.sequence].notes[self.position.note]
    }

    /// The state after one `next_note`.
    pub open spec fn advanced(self) -> SequencerView {
        SequencerView {
            sequences: self.sequences,
            position: advance_position(self.lengths(), self.repeats(), self.position),
            previous_note: Some(self.current_note()),
        }
    }

    /// The state after `reset`.
    pub open spec fn rewound(self) -> SequencerView {
        SequencerView { sequences: self.sequences, position: start_position(), previous_note: None }
    }
}

/// Walks a playlist of sequences one note per dispatch, remembering the last
/// note played so that it can be turned off.
#[derive(Debug)]
pub struct Sequencer {
    sequences: Vec<Sequence>,
    current_sequence_index: usize,
    times_repeated: usize,
    current_note_index: usize,
    previous_note: Option<Note>,
}

impl View for Sequencer {
    type V = SequencerView;

    closed spec fn view(&self) -> SequencerView {
        SequencerView {
            sequences: self.sequences@.map_values(|s: Sequence| s@),
            position: Position {
                sequence: self.current_sequence_index as int,
                note: self.current_note_index as int,
                repeated: self.times_repeated as int,
            },
            previous_note: self.previous_note,
        }
    }
}

impl Sequencer {
    #[verifier::type_invariant]
    closed spec fn in_playlist(&self) -> bool {
        &&& self.sequences@.len() >= 1
        &&& self.current_sequence_index < self.sequences@.len()
        &&& self.current_note_index < self.sequences@[self.current_sequence_index as int]@.notes.len()
        &&& self.times_repeated <= self.sequences@[self.current_sequence_index as int]@.repeat
    }

    /// A sequencer at the first note of the first sequence; `sequences` must not be empty.
    pub fn new(sequences: Vec<Sequence>) -> (r: Self)
        requires
            sequences@.len() >= 1,
        ensures
            r@ == (SequencerView {
                sequences: sequences@.map_values(|s: Sequence| s@),
                position: start_position(),
                previous_note: None,
            }),
    {
        let first = &sequences[0];
        proof {
            use_type_invariant(first);
        }
        Self {
            sequences,
            current_sequence_index: 0,
            times_repeated: 0,
            current_note_index: 0,
            previous_note: None,
        }
    }

    /// Back to the first note of the first sequence, with no previous note.
    pub fn reset(&mut self)
        ensures
            final(self)@ == old(self)@.rewound(),
    {
        proof {
            use_type_invariant(&*self);
        }
        let first = &self.sequences[0];
        proof {
            use_type_invariant(first);
        }
        self.current_note_index = 0;
        self.times_repeated = 0;
        self.current_sequence_index = 0;
        self.previous_note = None;
    }

    /// Steps to the next note (see `advance_position`), keeping the current
    /// note as the previous one.
    pub fn next_note(&mut self)
        ensures
            final(self)@ == old(self)@.advanced(),
    {
        proof {
            use_type_invariant(&*self);
        }
        self.previous_note = Some(self.current_note());
        if self.sequences.len() == 1 {
            let len = self.sequences[0].len();
            self.current_note_index = (self.current_note_index + 1) % len;
            return;
        }
        let current = &self.sequences[self.current_sequence_index];
        let len = current.len();
        let repeat = current.repeat();
        let at_last_note = self.current_note_index == len - 1;
        if at_last_note && self.times_repeated >= repeat {
            let next = (self.current_sequence_index + 1) % self.sequences.len();
            let following = &self.sequences[next];
            proof {
                use_type_invariant(following);
            }
            self.current_note_index = 0;
            self.times_repeated = 0;
            self.current_sequence_index = next;
        } else {
            if at_last_note {
                self.times_repeated = self.times_repeated + 1;
            }
            self.current_note_index = (self.current_note_index + 1) % len;
        }
    }

    /// A copy of the note at the current position.
    pub fn current_note(&self) -> (r: Note)
        ensures
            r == self@.current_note(),
    {
        proof {
            use_type_invariant(self);
        }
        self.sequences[self.current_sequence_index].notes()[self.current_note_index].clone()
    }

    /// A copy of the note played before the current one, if any.
    pub fn previous_note(&self) -> (r: Option<Note>)
        ensures
            r == self@.previous_note,
    {
        match &self.previous_note {
            Some(n) => Some(n.clone()),
            None => None,
        }
    }

    /// A copy of the current sequence.
    pub fn current_sequence(&self) -> (r: Sequence)
        ensures
            r@ == self@.sequences[self@.position.sequence],
    {
        proof {
            use_type_invariant(self);
        }
        self.sequences[self.current_sequence_index].clone()
    }

    /// The name of the current sequence.
    pub fn current_sequence_name(&self) -> (r: String)
        ensures
            r@ == self@.sequences[self@.position.sequence].name,
    {
        proof {
            use_type_invariant(self);
        }
        self.sequences[self.current_sequence_index].name()
    }

    /// The name of the current sequence's scale.
    pub fn current_scale_name(&self) -> (r: String)
        ensures
            r@ == self@.sequences[self@.position.sequence].scale.name,
    {
        proof {
            use_type_invariant(self);
        }
        self.sequences[self.current_sequence_index].scale_name()
    }

    /// The number of notes of the current sequence.
    pub fn current_sequence_length(&self) -> (r: usize)
        ensures
            r == self@.sequences[self@.position.sequence].notes.len(),
            r >= 1,
    {
        proof {
            use_type_invariant(self);
        }
        self.sequences[self.current_sequence_index].len()
    }

    /// The index of the current note in its sequence.
    pub fn current_note_index(&self) -> (r: usize)
        ensures
            r == self@.position.note,
    {
        self.current_note_index
    }

    /// The index of the current sequence and how many times it has played through.
    pub fn current_sequence_index_and_repetition(&self) -> (r: (usize, usize))
        ensures
            r.0 == self@.position.sequence,
            r.1 == self@.position.repeated,
    {
        (self.current_sequence_index, self.times_repeated)
    }

    /// Whether the sequence index or the repetition differs from `sr_tuple`.
    pub fn has_changed_sequence_or_repetition(&self, sr_tuple: (usize, usize)) -> (r: bool)
        ensures
            r == (sr_tuple.0 != self@.position.sequence || sr_tuple.1 != self@.position.repeated),
    {
        sr_tuple.0 != self.current_sequence_index || sr_tuple.1 != self.times_repeated
    }

    /// The playlist.
    pub fn sequences(&self) -> (r: &Vec<Sequence>)
        ensures
            r@.map_values(|s: Sequence| s@) == self@.sequences,
    {
        &self.sequences
    }

    /// Moves note `note_index` of the current sequence one degree up (or down)
    /// its scale; an index past the end of the sequence changes nothing.
    pub fn transpose_note(&mut self, note_index: usize, up: bool)
        ensures
            final(self)@.position == old(self)@.position,
            final(self)@.previous_note == old(self)@.previous_note,
            ({
                let s = old(self)@.position.sequence;
                let old_seq = old(self)@.sequences[s];
                if note_index < old_seq.notes.len() {
                    final(self)@.sequences == old(self)@.sequences.update(
                        s,
                        SequenceView {
                            notes: old_seq.notes.update(
                                note_index as int,
                                if up {
                                    transposed_up(old_seq.notes[note_index as int])
                                } else {
                                    transposed_down(old_seq.notes[note_index as int])
                                },
                            ),
                            ..old_seq
                        },
                    )
                } else {
                    final(self)@.sequences == old(self)@.sequences
                }
            }),
    {
        proof {
            use_type_invariant(&*self);
        }
        let i = self.current_sequence_index;
        if note_index >= self.sequences[i].len() {
            return;
        }
        let mut edited = self.sequences[i].clone();
        edited.transpose_note(note_index, up);
        let ghost target = edited@;
        // the playlist is rebuilt around the edited sequence, so that it never
        // stands half-changed
        let mut sequences: Vec<Sequence> = Vec::new();
        let mut j: usize = 0;
        while j < self.sequences.len()
            invariant
                j <= self.sequences@.len(),
                sequences@.len() == j,
                edited@ == target,
                forall|k: int|
                    0 <= k < j ==> #[trigger] sequences@[k]@ == if k == i {
                        target
                    } else {
                        self.sequences@[k]@
                    },
            decreases self.sequences@.len() - j,
        {
            if j == i {
                sequences.push(edited.clone());
            } else {
                sequences.push(self.sequences[j].clone());
            }
            j = j + 1;
        }
        proof {
            let s = i as int;
            let old_seq = old(self)@.sequences[s];
            assert(target.notes =~= old_seq.notes.update(
                note_index as int,
                if up {
                    transposed_up(old_seq.notes[note_index as int])
                } else {
                    transposed_down(old_seq.notes[note_index as int])
                },
            ));
            assert(sequences@.map_values(|q: Sequence| q@) =~= old(self)@.sequences.update(s, target));
        }
        self.sequences = sequences;
    }
}

/// The position after `n` steps from `p`.
pub open spec fn position_after(lengths: Seq<int>, repeats: Seq<int>, p: Position, n: nat) -> Position
    decreases n,
{
    if n == 0 {
        p
    } else {
        advance_position(lengths, repeats, position_after(lengths, repeats, p, (n - 1) as nat))
    }
}

proof fn lemma_single_sequence_steps(lengths: Seq<int>, repeats: Seq<int>, p: Position, k: nat)
    requires
        lengths.len() == 1,
        lengths[0] >= 1,
        0 <= p.note < lengths[0],
    ensures
        position_after(lengths, repeats, p, k) == (Position { note: (p.note + k) % lengths[0], ..p }),
    decreases k,
{
    if k > 0 {
        lemma_single_sequence_steps(lengths, repeats, p, (k - 1) as nat);
        vstd::arithmetic::div_mod::lemma_add_mod_noop_right(1, p.note + k - 1, lengths[0]);
    } else {
        vstd::arithmetic::div_mod::lemma_small_mod(p.note as nat, lengths[0] as nat);
    }
}

/// With a single sequence of `N` notes, `N` steps bring the sequencer back to
/// the note it started from, whatever the repeat count.
pub proof fn lemma_single_sequence_cycles(lengths: Seq<int>, repeats: Seq<int>, p: Position)
    requires
        lengths.len() == 1,
        lengths[0] >= 1,
        0 <= p.note < lengths[0],
    ensures
        position_after(lengths, repeats, p, lengths[0] as nat) == p,
{
    lemma_single_sequence_steps(lengths, repeats, p, lengths[0] as nat);
    vstd::arithmetic::div_mod::lemma_mod_add_multiples_vanish(p.note, lengths[0]);
    vstd::arithmetic::div_mod::lemma_small_mod(p.note as nat, lengths[0] as nat);
}

proof fn lemma_plays_within_sequence(lengths: Seq<int>, repeats: Seq<int>, s: int, k: nat)
    requires
        lengths.len() >= 2,
        0 <= s < lengths.len(),
        lengths[s] >= 1,
        repeats[s] >= 0,
        k < (repeats[s] + 1) * lengths[s],
    ensures
        position_after(lengths, repeats, Position { sequence: s, note: 0, repeated: 0 }, k) == (
        Position { sequence: s, note: (k as int) % lengths[s], repeated: (k as int) / lengths[s] }),
    decreases k,
{
    let n = lengths[s];
    let r = repeats[s];
    if k == 0 {
        vstd::arithmetic::div_mod::lemma_small_mod(0, n as nat);
        vstd::arithmetic::div_mod::lemma_div_of0(n);
    } else {
        let jn = (k - 1) as nat;
        lemma_plays_within_sequence(lengths, repeats, s, jn);
        let j = jn as int;
        vstd::arithmetic::div_mod::lemma_fundamental_div_mod(j, n);
        vstd::arithmetic::div_mod::lemma_mod_bound(j, n);
        let q = j / n;
        let m = j % n;
        assert(q <= r) by (nonlinear_arith)
            requires
                j == n * q + m,
                0 <= m,
                n >= 1,
                j + 1 < (r + 1) * n,
        ;
        if m == n - 1 {
            assert(k == (q + 1) * n) by (nonlinear_arith)
                requires
                    j == n * q + m,
                    m == n - 1,
                    k == j + 1,
            ;
            assert(q + 1 <= r) by (nonlinear_arith)
                requires
                    k == (q + 1) * n,
                    k < (r + 1) * n,
                    n >= 1,
            ;
            vstd::arithmetic::div_mod::lemma_fundamental_div_mod_converse(k as int, n, q + 1, 0);
            vstd::arithmetic::div_mod::lemma_mod_self_0(n);
        } else {
            vstd::arithmetic::div_mod::lemma_fundamental_div_mod_converse(k as int, n, q, m + 1);
            vstd::arithmetic::div_mod::lemma_small_mod((m + 1) as nat, n as nat);
        }
    }
}

/// In a playlist of two or more sequences, a sequence entered at its first
/// note, with `N` notes and repeat count `r`, stays current for the first
/// `(r + 1) * N - 1` steps, and step `(r + 1) * N` hands over to the next
/// sequence at its first note.
pub proof fn lemma_repeat_then_advance(lengths: Seq<int>, repeats: Seq<int>, s: int, k: nat)
    requires
        lengths.len() >= 2,
        0 <= s < lengths.len(),
        lengths[s] >= 1,
        repeats[s] >= 0,
    ensures
        k < (repeats[s] + 1) * lengths[s] ==> position_after(
            lengths,
            repeats,
            Position { sequence: s, note: 0, repeated: 0 },
            k,
        ).sequence == s,
        position_after(
            lengths,
            repeats,
            Position { sequence: s, note: 0, repeated: 0 },
            ((repeats[s] + 1) * lengths[s]) as nat,
        ) == (Position { sequence: (s + 1) % (lengths.len() as int), note: 0, repeated: 0 }),
{
    let n = lengths[s];
    let r = repeats[s];
    if k < (r + 1) * n {
        lemma_plays_within_sequence(lengths, repeats, s, k);
    }
    assert((r + 1) * n >= 1) by (nonlinear_arith)
        requires
            r >= 0,
            n >= 1,
    ;
    let last = ((r + 1) * n - 1) as nat;
    lemma_plays_within_sequence(lengths, repeats, s, last);
    assert(last == n * r + (n - 1)) by (nonlinear_arith)
        requires
            last == (r + 1) * n - 1,
    ;
    vstd::arithmetic::div_mod::lemma_fundamental_div_mod_converse(last as int, n, r, n - 1);
}

} // verus!
