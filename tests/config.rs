use microtonal_sequencer::config::{
    build_note_from_json_note, build_scale_from_json_scale, build_scales,
    build_sequence_from_json_sequence, build_sequencer, build_sequences, find_scale, JsonNote,
    JsonScale, JsonScaleFile, JsonSequence, JsonSequenceFile,
};
use microtonal_sequencer::error::ConfigError;
use microtonal_sequencer::note::Scale;
use std::sync::Arc;

fn names(n: usize) -> Vec<String> {
    (0..n).map(|i| format!("d{}", i)).collect()
}

fn json_scale(name: &str, steps: Vec<i32>) -> JsonScale {
    let n = steps.len();
    JsonScale { name: name.to_string(), steps, note_names: names(n) }
}

fn json_note(note_index: usize) -> JsonNote {
    JsonNote { note_index, octave: 4, duration: 250, velocity: 90 }
}

fn json_sequence(name: &str, scale: &str, repeat: u8, notes: Vec<JsonNote>) -> JsonSequence {
    JsonSequence { name: name.to_string(), scale: scale.to_string(), repeat, notes }
}

fn scale_file() -> JsonScaleFile {
    JsonScaleFile {
        scales: vec![json_scale("penta", vec![0, 200, 400, 700, 900]), json_scale("quarter", vec![0, 50])],
    }
}

#[test]
fn scale_from_record() {
    let s = build_scale_from_json_scale(json_scale("penta", vec![0, 200, 400])).unwrap();
    assert_eq!(s.name(), "penta");
    assert_eq!(s.len(), 3);
    assert_eq!(s.step(2), 400);
    assert_eq!(s.note_name(1), "d1");
}

#[test]
fn faulty_scale_records() {
    let empty = build_scale_from_json_scale(json_scale("e", vec![]));
    assert_eq!(empty.unwrap_err(), ConfigError::EmptyScale { scale: "e".to_string() });
    let odd = JsonScale { name: "o".to_string(), steps: vec![0, 1], note_names: names(3) };
    assert_eq!(
        build_scale_from_json_scale(odd).unwrap_err(),
        ConfigError::DegreeNamesMismatch { scale: "o".to_string() }
    );
}

#[test]
fn scales_fail_on_first_faulty_record() {
    let file = JsonScaleFile {
        scales: vec![json_scale("a", vec![0]), json_scale("b", vec![]), json_scale("c", vec![])],
    };
    assert_eq!(build_scales(file).unwrap_err(), ConfigError::EmptyScale { scale: "b".to_string() });
    let ok = build_scales(scale_file()).unwrap();
    assert_eq!(ok.len(), 2);
    assert_eq!(ok[1].name(), "quarter");
}

#[test]
fn note_from_record() {
    let scale = Arc::new(Scale::new_12_tet());
    let n = build_note_from_json_note(&json_note(3), scale);
    assert_eq!(n.note_index, 3);
    assert_eq!(n.octave, 4);
    assert_eq!(n.duration.millibeats, 250);
    assert_eq!(n.duration.get_tick_length(), 6);
    assert_eq!(n.velocity, 90);
    assert_eq!(n.panning, 64);
    assert_eq!(n.get_midi_number(), 5100);
}

#[test]
fn sequence_from_record_keeps_repeat() {
    let scale = Arc::new(Scale::new_12_tet());
    let s = build_sequence_from_json_sequence(
        json_sequence("intro", "12-TET", 3, vec![json_note(0), json_note(4)]),
        scale,
    )
    .unwrap();
    assert_eq!(s.name(), "intro");
    assert_eq!(s.repeat(), 3);
    assert_eq!(s.len(), 2);
    assert_eq!(s.notes()[1].note_index, 4);
    assert_eq!(s.scale_name(), "12-TET");
}

#[test]
fn sequence_without_notes_is_refused() {
    let scale = Arc::new(Scale::new_12_tet());
    let r = build_sequence_from_json_sequence(json_sequence("void", "12-TET", 0, vec![]), scale);
    assert_eq!(r.unwrap_err(), ConfigError::EmptySequence { sequence: "void".to_string() });
}

#[test]
fn find_scale_takes_the_first_match() {
    let scales = vec![
        Arc::new(Scale::new_12_tet()),
        Arc::new(build_scale_from_json_scale(json_scale("x", vec![0])).unwrap()),
        Arc::new(build_scale_from_json_scale(json_scale("x", vec![0, 1])).unwrap()),
    ];
    assert_eq!(find_scale(&scales, &"x".to_string()), Some(1));
    assert_eq!(find_scale(&scales, &"12-TET".to_string()), Some(0));
    assert_eq!(find_scale(&scales, &"y".to_string()), None);
}

#[test]
fn sequences_bind_their_scales() {
    let scales = build_scales(scale_file()).unwrap();
    let file = JsonSequenceFile {
        sequences: vec![
            json_sequence("one", "quarter", 0, vec![json_note(1)]),
            json_sequence("two", "penta", 2, vec![json_note(4), json_note(9)]),
        ],
    };
    let seqs = build_sequences(file, scales).unwrap();
    assert_eq!(seqs.len(), 2);
    assert_eq!(seqs[0].scale_name(), "quarter");
    assert_eq!(seqs[0].notes()[0].get_midi_number(), 4850);
    assert_eq!(seqs[1].scale_name(), "penta");
    assert_eq!(seqs[1].repeat(), 2);
    // degree 9 falls back to the last degree of the pentatonic scale
    assert_eq!(seqs[1].notes()[1].get_midi_number(), 4800 + 900);
}

#[test]
fn sequence_with_unknown_scale_is_refused() {
    let scales = build_scales(scale_file()).unwrap();
    let file = JsonSequenceFile {
        sequences: vec![
            json_sequence("ok", "penta", 0, vec![json_note(0)]),
            json_sequence("lost", "dorian", 0, vec![json_note(0)]),
            json_sequence("void", "penta", 0, vec![]),
        ],
    };
    assert_eq!(
        build_sequences(file, scales).unwrap_err(),
        ConfigError::MissingScale { sequence: "lost".to_string(), scale: "dorian".to_string() }
    );
}

#[test]
fn unknown_scale_is_reported_before_empty_notes() {
    let scales = build_scales(scale_file()).unwrap();
    let file = JsonSequenceFile { sequences: vec![json_sequence("both", "dorian", 0, vec![])] };
    assert_eq!(
        build_sequences(file, scales).unwrap_err(),
        ConfigError::MissingScale { sequence: "both".to_string(), scale: "dorian".to_string() }
    );
}

#[test]
fn sequencer_from_files() {
    let file = JsonSequenceFile {
        sequences: vec![
            json_sequence("one", "quarter", 1, vec![json_note(0), json_note(1)]),
            json_sequence("two", "penta", 0, vec![json_note(2)]),
        ],
    };
    let mut q = build_sequencer(scale_file(), file).unwrap();
    assert_eq!(q.current_sequence_name(), "one");
    assert_eq!(q.current_scale_name(), "quarter");
    assert_eq!(q.current_sequence_index_and_repetition(), (0, 0));
    for _ in 0..4 {
        q.next_note();
    }
    assert_eq!(q.current_sequence_name(), "two");
}

#[test]
fn sequencer_errors() {
    let empty = JsonSequenceFile { sequences: vec![] };
    assert_eq!(build_sequencer(scale_file(), empty).unwrap_err(), ConfigError::NoSequences);
    let bad_scales = JsonScaleFile { scales: vec![json_scale("e", vec![])] };
    let file = JsonSequenceFile { sequences: vec![json_sequence("s", "e", 0, vec![json_note(0)])] };
    assert_eq!(
        build_sequencer(bad_scales, file).unwrap_err(),
        ConfigError::EmptyScale { scale: "e".to_string() }
    );
    let file = JsonSequenceFile { sequences: vec![json_sequence("s", "penta", 0, vec![])] };
    assert_eq!(
        build_sequencer(scale_file(), file).unwrap_err(),
        ConfigError::EmptySequence { sequence: "s".to_string() }
    );
}
