use vstd::prelude::*;

use crate::clock::{is_due, next_tick, Clock, ClockState};
use crate::note::{round_div, tick_length_of, Note};
use crate::sequencer::{Sequencer, SequencerView};

verus! {

/// Status of a note-on message, channel bits clear.
pub const NOTE_ON: u8 = 0x90;

/// Status of a note-off message, channel bits clear.
pub const NOTE_OFF: u8 = 0x80;

/// Status of a pitch-bend message, channel bits clear.
pub const PITCH_BEND: u8 = 0xE0;

/// Real-time byte: one clock pulse.
pub const CLOCK_TICK: u8 = 0xF8;

/// Real-time byte: transport start.
pub const START: u8 = 0xFA;

/// Real-time byte: transport stop.
pub const STOP: u8 = 0xFC;

/// The channel all notes go out on.
pub const CHANNEL: u8 = 0;

/// The velocity all notes go out with.
pub const VELOCITY: u8 = 100;

/// Semitones covered by a full pitch-bend swing either way.
pub const PITCH_BEND_RANGE: i16 = 2;

/// Pitch-bend steps per bend range; also the wire value of "no bend".
pub const PITCH_BEND_CENTER: i32 = 8192;

/// Largest 14-bit pitch-bend wire value.
pub const PITCH_BEND_MAX: i32 = 16383;

/// A three-byte channel message.
#[derive(Clone, Copy, PartialEq, Eq, Structural, Debug)]
pub struct MidiMessage {
    pub status: u8,
    pub data1: u8,
    pub data2: u8,
}

impl MidiMessage {
    /// The message as it goes on the wire.
    pub fn to_bytes(&self) -> (r: [u8; 3])
        ensures
            r@ == seq![self.status, self.data1, self.data2],
    {
        let r = [self.status, self.data1, self.data2];
        assert(r@ =~= seq![self.status, self.data1, self.data2]);
        r
    }
}

/// The bend for a shift of `shift_cents` above a note, with a bend range of
/// `range` semitones: `round(shift / range * 8192)`, held to the signed 14-bit range.
pub open spec fn bend_for(shift_cents: int, range: int) -> int {
    let b = round_div(shift_cents * PITCH_BEND_CENTER, 100 * range);
    if b > PITCH_BEND_CENTER - 1 {
        PITCH_BEND_CENTER - 1
    } else {
        b
    }
}

/// The 14-bit wire value of a signed bend.
pub open spec fn bend_wire_value(bend: int) -> int {
    let v = bend + PITCH_BEND_CENTER;
    if v < 0 {
        0
    } else if v > PITCH_BEND_MAX {
        PITCH_BEND_MAX as int
    } else {
        v
    }
}

/// The pitch-bend message for `bend` on `channel`: low seven bits first.
pub open spec fn pitch_bend_message_of(bend: int, channel: u8) -> MidiMessage {
    let v = bend_wire_value(bend);
    MidiMessage { status: PITCH_BEND | (channel & 0x0F), data1: (v % 128) as u8, data2: (v / 128) as u8 }
}

/// The key of a pitch in cents: its whole semitones, held to `0..=127`.
pub open spec fn note_number_of(pitch: int) -> int {
    let n = pitch / 100;
    if n < 0 {
        0
    } else if n > 127 {
        127
    } else {
        n
    }
}

/// What `note` goes out as: on, a pitch bend for its fraction of a semitone
/// followed by a note-on; off, a note-off alone.
pub open spec fn note_messages(note: Note, on: bool) -> Seq<MidiMessage> {
    let pitch = note.pitch();
    let key = note_number_of(pitch) as u8;
    if on {
        seq![
            pitch_bend_message_of(bend_for(pitch % 100, PITCH_BEND_RANGE as int), CHANNEL),
            MidiMessage { status: NOTE_ON | CHANNEL, data1: key, data2: VELOCITY },
        ]
    } else {
        seq![MidiMessage { status: NOTE_OFF | CHANNEL, data1: key, data2: VELOCITY }]
    }
}

/// The note-off for the note played before, if there is one.
pub open spec fn release_messages(previous: Option<Note>) -> Seq<MidiMessage> {
    match previous {
        Some(n) => note_messages(n, false),
        None => Seq::empty(),
    }
}

/// Whether the current note of `sequencer` is due on `clock`.
pub open spec fn note_is_due(clock: ClockState, sequencer: SequencerView) -> bool {
    is_due(
        clock.tick,
        clock.last_played_tick,
        tick_length_of(sequencer.current_note().duration.millibeats as int),
    )
}

/// The clock, the sequencer and the messages to send after one clock pulse:
/// when the current note is due, the previous note is released, the current one
/// played, the sequencer stepped and the dispatch recorded; in any case the
/// pulse is counted.
pub open spec fn pulse(clock: ClockState, sequencer: SequencerView) -> (
    ClockState,
    SequencerView,
    Seq<MidiMessage>,
) {
    if note_is_due(clock, sequencer) {
        (
            ClockState { tick: next_tick(clock.tick), last_played_tick: Some(clock.tick) },
            sequencer.advanced(),
            release_messages(sequencer.previous_note) + note_messages(sequencer.current_note(), true),
        )
    } else {
        (
            ClockState { tick: next_tick(clock.tick), last_played_tick: clock.last_played_tick },
            sequencer,
            Seq::empty(),
        )
    }
}

/// The state of a clock just started.
pub open spec fn started_clock() -> ClockState {
    ClockState { tick: 0, last_played_tick: None }
}

/// The bend for a shift of `shift_cents` with a bend range of `range` semitones.
pub fn pitch_bend_calculation(shift_cents: u32, range: i16) -> (r: i16)
    requires
        range > 0,
    ensures
        r == bend_for(shift_cents as int, range as int),
{
    let s = shift_cents as u64;
    let d = 100 * (range as u64);
    assert(2 * s * 8192 + d <= 2 * 0xffff_ffffu64 * 8192 + 100 * 0x7fffu64) by (nonlinear_arith)
        requires
            s <= 0xffff_ffffu64,
            d <= 100 * 0x7fffu64,
    ;
    let b: u64 = (2 * s * 8192 + d) / (2 * d);
    if b > 8191 {
        8191
    } else {
        b as i16
    }
}

/// The pitch-bend message for `bend` on `channel`.
pub fn pitch_bend_message(bend: i16, channel: u8) -> (r: MidiMessage)
    ensures
        r == pitch_bend_message_of(bend as int, channel),
{
    let raw = bend as i32 + PITCH_BEND_CENTER;
    let value: i32 = if raw < 0 {
        0
    } else if raw > PITCH_BEND_MAX {
        PITCH_BEND_MAX
    } else {
        raw
    };
    MidiMessage {
        status: PITCH_BEND | (channel & 0x0F),
        data1: (value % 128) as u8,
        data2: (value / 128) as u8,
    }
}

/// The key and the shift in cents above it of a pitch in cents.
fn split_pitch(pitch: i64) -> (r: (u8, u32))
    ensures
        r.0 == note_number_of(pitch as int),
        r.1 == pitch % 100,
{
    if pitch >= 0 {
        let p = pitch as u64;
        let whole = p / 100;
        let key: u8 = if whole > 127 {
            127
        } else {
            whole as u8
        };
        (key, (p % 100) as u32)
    } else {
        let m = (-(pitch as i128)) as u64;
        let q = m / 100;
        let rest = m % 100;
        proof {
            vstd::arithmetic::div_mod::lemma_fundamental_div_mod(m as int, 100);
            if rest == 0 {
                vstd::arithmetic::div_mod::lemma_fundamental_div_mod_converse(
                    pitch as int,
                    100,
                    -(q as int),
                    0,
                );
            } else {
                vstd::arithmetic::div_mod::lemma_fundamental_div_mod_converse(
                    pitch as int,
                    100,
                    -(q as int) - 1,
                    100 - rest,
                );
            }
        }
        let shift: u64 = if rest == 0 {
            0
        } else {
            100 - rest
        };
        (0, shift as u32)
    }
}

/// The messages that play (`on`) or release `note`.
pub fn encode_note(note: &Note, on: bool) -> (r: Vec<MidiMessage>)
    ensures
        r@ == note_messages(*note, on),
{
    let (key, shift) = split_pitch(note.get_midi_number());
    let mut out: Vec<MidiMessage> = Vec::new();
    if on {
        let bend = pitch_bend_calculation(shift, PITCH_BEND_RANGE);
        out.push(pitch_bend_message(bend, CHANNEL));
        out.push(MidiMessage { status: NOTE_ON | CHANNEL, data1: key, data2: VELOCITY });
    } else {
        out.push(MidiMessage { status: NOTE_OFF | CHANNEL, data1: key, data2: VELOCITY });
    }
    assert(out@ =~= note_messages(*note, on));
    out
}

/// Handles one clock pulse (see `pulse`). Returns the messages to send, in order.
pub fn on_clock_pulse(clock: &mut Clock, sequencer: &mut Sequencer) -> (r: Vec<MidiMessage>)
    ensures
        (final(clock)@, final(sequencer)@, r@) == pulse(old(clock)@, old(sequencer)@),
{
    let current = sequencer.current_note();
    let mut out: Vec<MidiMessage> = Vec::new();
    if clock.has_time_passed_note(current.duration.get_tick_length()) {
        match sequencer.previous_note() {
            Some(previous) => {
                let mut off = encode_note(&previous, false);
                out.append(&mut off);
            },
            None => {},
        }
        let mut on = encode_note(&current, true);
        out.append(&mut on);
        sequencer.next_note();
        clock.note_played();
    }
    clock.next();
    proof {
        let pre = old(sequencer)@;
        assert(out@ =~= pulse(old(clock)@, pre).2);
    }
    out
}

/// Handles a transport start: both the clock and the sequencer go back to the beginning.
pub fn on_start(clock: &mut Clock, sequencer: &mut Sequencer)
    ensures
        final(clock)@ == started_clock(),
        final(sequencer)@ == old(sequencer)@.rewound(),
{
    clock.reset_tick();
    sequencer.reset();
}

/// Handles one incoming message by its first byte: a clock pulse or a start as
/// above; a stop, any other byte, or an empty message, changes nothing.
/// Returns the messages to send, in order.
pub fn handle_midi_message(clock: &mut Clock, sequencer: &mut Sequencer, message: &[u8]) -> (r: Vec<
    MidiMessage,
>)
    ensures
        message@.len() > 0 && message@[0] == CLOCK_TICK ==> (final(clock)@, final(sequencer)@, r@)
            == pulse(old(clock)@, old(sequencer)@),
        message@.len() > 0 && message@[0] == START ==> {
            &&& final(clock)@ == started_clock()
            &&& final(sequencer)@ == old(sequencer)@.rewound()
            &&& r@ == Seq::<MidiMessage>::empty()
        },
        message@.len() == 0 || (message@[0] != CLOCK_TICK && message@[0] != START) ==> {
            &&& final(clock)@ == old(clock)@
            &&& final(sequencer)@ == old(sequencer)@
            &&& r@ == Seq::<MidiMessage>::empty()
        },
{
    if message.len() == 0 {
        return Vec::new();
    }
    let kind = message[0];
    if kind == CLOCK_TICK {
        on_clock_pulse(clock, sequencer)
    } else if kind == START {
        on_start(clock, sequencer);
        Vec::new()
    } else {
        Vec::new()
    }
}

} // verus!
