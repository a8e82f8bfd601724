use std::sync::Arc;

use microtonal_sequencer::clock::Clock;
use microtonal_sequencer::midi::{
    encode_note, handle_midi_message, on_clock_pulse, on_start, pitch_bend_calculation,
    pitch_bend_message, MidiMessage, CLOCK_TICK, START, STOP,
};
use microtonal_sequencer::note::{Note, NoteDuration, Scale};
use microtonal_sequencer::sequencer::{Sequence, Sequencer};

fn msg(status: u8, data1: u8, data2: u8) -> MidiMessage {
    MidiMessage { status, data1, data2 }
}

fn note_in(scale: &Arc<Scale>, degree: usize, octave: u8) -> Note {
    let mut n = Note::new(scale.clone());
    n.note_index = degree;
    n.octave = octave;
    n
}

fn two_note_sequencer() -> Sequencer {
    let scale = Arc::new(Scale::new_12_tet());
    let notes = vec![note_in(&scale, 0, 5), note_in(&scale, 7, 5)];
    Sequencer::new(vec![Sequence::new("s".to_string(), scale, notes)])
}

#[test]
fn message_bytes() {
    assert_eq!(msg(0x90, 60, 100).to_bytes(), [0x90, 60, 100]);
}

#[test]
fn pitch_bend_amounts() {
    assert_eq!(pitch_bend_calculation(0, 2), 0);
    assert_eq!(pitch_bend_calculation(50, 2), 2048);
    assert_eq!(pitch_bend_calculation(25, 2), 1024);
    assert_eq!(pitch_bend_calculation(99, 2), 4055);
    assert_eq!(pitch_bend_calculation(1, 2), 41);
    assert_eq!(pitch_bend_calculation(50, 1), 4096);
    // a shift past the range is held to the largest bend
    assert_eq!(pitch_bend_calculation(300, 2), 8191);
}

#[test]
fn pitch_bend_wire_bytes() {
    assert_eq!(pitch_bend_message(0, 0), msg(0xE0, 0, 64));
    assert_eq!(pitch_bend_message(2048, 0), msg(0xE0, 0, 80));
    assert_eq!(pitch_bend_message(1, 3), msg(0xE3, 1, 64));
    assert_eq!(pitch_bend_message(8191, 0), msg(0xE0, 127, 127));
    assert_eq!(pitch_bend_message(-8192, 0), msg(0xE0, 0, 0));
    assert_eq!(pitch_bend_message(i16::MAX, 0), msg(0xE0, 127, 127));
    assert_eq!(pitch_bend_message(i16::MIN, 0), msg(0xE0, 0, 0));
    assert_eq!(pitch_bend_message(0, 0x1F), msg(0xEF, 0, 64));
}

#[test]
fn note_on_and_off_encoding() {
    let scale = Arc::new(Scale::new_12_tet());
    let n = note_in(&scale, 7, 5);
    assert_eq!(encode_note(&n, true), vec![msg(0xE0, 0, 64), msg(0x90, 67, 100)]);
    assert_eq!(encode_note(&n, false), vec![msg(0x80, 67, 100)]);
}

#[test]
fn microtonal_note_gets_a_bend() {
    let s = Scale::new("q".to_string(), vec![0, 50], vec!["a".to_string(), "b".to_string()]).unwrap();
    let n = note_in(&Arc::new(s), 1, 5);
    assert_eq!(encode_note(&n, true), vec![msg(0xE0, 0, 80), msg(0x90, 60, 100)]);
    assert_eq!(encode_note(&n, false), vec![msg(0x80, 60, 100)]);
}

#[test]
fn note_numbers_are_held_to_seven_bits() {
    let s = Scale::new("w".to_string(), vec![-50, 800], vec!["lo".to_string(), "hi".to_string()])
        .unwrap();
    let s = Arc::new(s);
    let low = note_in(&s, 0, 0);
    assert_eq!(low.get_midi_number(), -50);
    assert_eq!(encode_note(&low, true), vec![msg(0xE0, 0, 80), msg(0x90, 0, 100)]);
    let high = note_in(&s, 1, 10);
    assert_eq!(high.get_midi_number(), 12800);
    assert_eq!(encode_note(&high, false), vec![msg(0x80, 127, 100)]);
}

#[test]
fn end_to_end_two_note_cycle() {
    let mut q = two_note_sequencer();
    let mut clock = Clock::new();
    let on_60 = vec![msg(0xE0, 0, 64), msg(0x90, 60, 100)];
    let on_67 = vec![msg(0xE0, 0, 64), msg(0x90, 67, 100)];
    let off_60 = msg(0x80, 60, 100);
    let off_67 = msg(0x80, 67, 100);
    for tick in 0..240u32 {
        assert_eq!(clock.tick() as u32, tick % 192);
        let out = handle_midi_message(&mut clock, &mut q, &[CLOCK_TICK]);
        if tick == 0 {
            assert_eq!(out, on_60);
        } else if tick % 24 == 12 {
            let mut expected = vec![off_60];
            expected.extend(on_67.iter().copied());
            assert_eq!(out, expected, "tick {}", tick);
        } else if tick % 24 == 0 {
            let mut expected = vec![off_67];
            expected.extend(on_60.iter().copied());
            assert_eq!(out, expected, "tick {}", tick);
        } else {
            assert!(out.is_empty(), "tick {}", tick);
        }
    }
}

#[test]
fn start_resets_clock_and_sequencer() {
    let mut q = two_note_sequencer();
    let mut clock = Clock::new();
    for _ in 0..13 {
        on_clock_pulse(&mut clock, &mut q);
    }
    assert_eq!(q.current_note_index(), 0);
    assert!(q.previous_note().is_some());
    let out = handle_midi_message(&mut clock, &mut q, &[START]);
    assert!(out.is_empty());
    assert_eq!(clock.tick(), 0);
    assert_eq!(clock.last_played_tick(), None);
    assert!(q.previous_note().is_none());
    assert_eq!(q.current_note_index(), 0);
    let out = on_clock_pulse(&mut clock, &mut q);
    assert_eq!(out, vec![msg(0xE0, 0, 64), msg(0x90, 60, 100)]);
}

#[test]
fn on_start_directly() {
    let mut q = two_note_sequencer();
    let mut clock = Clock::new();
    on_clock_pulse(&mut clock, &mut q);
    on_start(&mut clock, &mut q);
    assert_eq!(clock.tick(), 0);
    assert!(q.previous_note().is_none());
}

#[test]
fn stop_and_other_bytes_change_nothing() {
    let mut q = two_note_sequencer();
    let mut clock = Clock::new();
    on_clock_pulse(&mut clock, &mut q);
    for message in [&[STOP][..], &[0x90, 60, 100][..], &[][..], &[0xFE][..]] {
        let out = handle_midi_message(&mut clock, &mut q, message);
        assert!(out.is_empty());
        assert_eq!(clock.tick(), 1);
        assert_eq!(clock.last_played_tick(), Some(0));
        assert_eq!(q.current_note_index(), 1);
    }
}

#[test]
fn zero_length_notes_play_on_every_pulse() {
    let scale = Arc::new(Scale::new_12_tet());
    let mut a = note_in(&scale, 0, 5);
    a.duration = NoteDuration { millibeats: 0 };
    let mut b = note_in(&scale, 4, 5);
    b.duration = NoteDuration { millibeats: 0 };
    let mut q = Sequencer::new(vec![Sequence::new("z".to_string(), scale, vec![a, b])]);
    let mut clock = Clock::new();
    assert_eq!(on_clock_pulse(&mut clock, &mut q).len(), 2);
    for _ in 0..5 {
        assert_eq!(on_clock_pulse(&mut clock, &mut q).len(), 3);
    }
}
