use std::sync::Arc;
use vstd::prelude::*;

use crate::error::ConfigError;
use crate::note::{Note, NoteDuration, Scale, ScaleView, PANNING_CENTER};
use crate::sequencer::{start_position, Sequence, SequenceView, Sequencer};

verus! {

/// A scale as the configuration file gives it, steps in cents.
pub struct JsonScale {
    pub name: String,
    pub steps: Vec<i32>,
    pub note_names: Vec<String>,
}

/// The scale file: a list of scales.
pub struct JsonScaleFile {
    pub scales: Vec<JsonScale>,
}

/// The sequence file: a list of sequences.
pub struct JsonSequenceFile {
    pub sequences: Vec<JsonSequence>,
}

/// A note as the configuration file gives it, its duration in thousandths of a beat.
pub struct JsonNote {
    pub note_index: usize,
    pub octave: u8,
    pub duration: u32,
    pub velocity: u8,
}

/// A sequence as the configuration file gives it: its scale by name.
pub struct JsonSequence {
    pub name: String,
    pub scale: String,
    pub repeat: u8,
    pub notes: Vec<JsonNote>,
}

/// What is wrong with a scale record, if anything.
pub open spec fn json_scale_error(j: JsonScale) -> Option<ConfigError> {
    if j.steps@.len() == 0 {
        Some(ConfigError::EmptyScale { scale: j.name })
    } else if j.steps@.len() != j.note_names@.len() {
        Some(ConfigError::DegreeNamesMismatch { scale: j.name })
    } else {
        None
    }
}

/// The scale a valid scale record describes.
pub open spec fn json_scale_view(j: JsonScale) -> ScaleView {
    ScaleView { name: j.name@, steps: j.steps@, note_names: j.note_names@.map_values(|n: String| n@) }
}

/// `i` is the first of `scales` named `name`.
pub open spec fn is_first_named(scales: Seq<ScaleView>, name: Seq<char>, i: int) -> bool {
    &&& 0 <= i < scales.len()
    &&& scales[i].name == name
    &&& forall|j: int| 0 <= j < i ==> scales[j].name != name
}

/// Some scale of `scales` is named `name`.
pub open spec fn has_scale_named(scales: Seq<ScaleView>, name: Seq<char>) -> bool {
    exists|i: int| 0 <= i < scales.len() && #[trigger] scales[i].name == name
}

/// What is wrong with a sequence record, given the loaded scales, if anything:
/// first an unknown scale, then an empty note list.
pub open spec fn json_sequence_error(j: JsonSequence, scales: Seq<ScaleView>) -> Option<ConfigError> {
    if !has_scale_named(scales, j.scale@) {
        Some(ConfigError::MissingScale { sequence: j.name, scale: j.scale })
    } else if j.notes@.len() == 0 {
        Some(ConfigError::EmptySequence { sequence: j.name })
    } else {
        None
    }
}

/// `n` is the note that record `j` describes in `scale`, panned to the centre.
pub open spec fn note_matches_json(n: Note, j: JsonNote, scale: ScaleView) -> bool {
    &&& n.scale@ == scale
    &&& n.note_index == j.note_index
    &&& n.octave == j.octave
    &&& n.duration.millibeats == j.duration
    &&& n.velocity == j.velocity
    &&& n.panning == PANNING_CENTER
}

/// `s` is the sequence that record `j` describes in `scale`.
pub open spec fn sequence_matches_json(s: SequenceView, j: JsonSequence, scale: ScaleView) -> bool {
    &&& s.name == j.name@
    &&& s.scale == scale
    &&& s.repeat == j.repeat
    &&& s.notes.len() == j.notes@.len()
    &&& forall|k: int| 0 <= k < j.notes@.len() ==> note_matches_json(s.notes[k], j.notes@[k], scale)
}

/// `s` is the sequence that record `j` describes, in the first of `scales` that it names.
pub open spec fn sequence_built_from(s: SequenceView, j: JsonSequence, scales: Seq<ScaleView>) -> bool {
    exists|i: int| #[trigger] is_first_named(scales, j.scale@, i) && sequence_matches_json(s, j, scales[i])
}

/// Record `k` of `js` is the first faulty scale record, and `e` says why.
pub open spec fn first_scale_error_at(js: Seq<JsonScale>, k: int, e: ConfigError) -> bool {
    &&& 0 <= k < js.len()
    &&& forall|i: int| 0 <= i < k ==> json_scale_error(#[trigger] js[i]) is None
    &&& json_scale_error(js[k]) == Some(e)
}

/// Record `k` of `js` is the first faulty sequence record, and `e` says why.
pub open spec fn first_sequence_error_at(
    js: Seq<JsonSequence>,
    scales: Seq<ScaleView>,
    k: int,
    e: ConfigError,
) -> bool {
    &&& 0 <= k < js.len()
    &&& forall|i: int| 0 <= i < k ==> json_sequence_error(#[trigger] js[i], scales) is None
    &&& json_sequence_error(js[k], scales) == Some(e)
}

/// A scale from its record.
pub fn build_scale_from_json_scale(json_scale: JsonScale) -> (r: Result<Scale, ConfigError>)
    ensures
        json_scale_error(json_scale) matches Some(e) ==> r == Err::<Scale, ConfigError>(e),
        json_scale_error(json_scale) is None ==> (r matches Ok(s) && s@ == json_scale_view(json_scale)),
{
    Scale::new(json_scale.name, json_scale.steps, json_scale.note_names)
}

/// The scales of a scale file, in order; the first faulty record fails the whole.
pub fn build_scales(file: JsonScaleFile) -> (r: Result<Vec<Scale>, ConfigError>)
    ensures
        ({
            let js = file.scales@;
            match r {
                Ok(v) => {
                    &&& forall|i: int| 0 <= i < js.len() ==> json_scale_error(#[trigger] js[i]) is None
                    &&& v@.len() == js.len()
                    &&& forall|i: int| 0 <= i < js.len() ==> #[trigger] v@[i]@ == json_scale_view(js[i])
                },
                Err(e) => exists|k: int| #[trigger] first_scale_error_at(js, k, e),
            }
        }),
{
    let ghost js = file.scales@;
    let mut records = file.scales;
    let mut scales: Vec<Scale> = Vec::new();
    let mut i: usize = 0;
    let n = records.len();
    while i < n
        invariant
            n == js.len(),
            js == file.scales@,
            i <= n,
            records@ == js.subrange(i as int, n as int),
            scales@.len() == i,
            forall|k: int| 0 <= k < i ==> json_scale_error(#[trigger] js[k]) is None,
            forall|k: int| 0 <= k < i ==> #[trigger] scales@[k]@ == json_scale_view(js[k]),
        decreases n - i,
    {
        let record = records.remove(0);
        assert(record == js[i as int]);
        assert(records@ =~= js.subrange(i + 1, n as int));
        match build_scale_from_json_scale(record) {
            Ok(s) => scales.push(s),
            Err(e) => {
                assert(first_scale_error_at(js, i as int, e));
                return Err(e);
            },
        }
        i = i + 1;
    }
    Ok(scales)
}

/// The note a record describes, in `scale`, panned to the centre.
pub fn build_note_from_json_note(json_note: &JsonNote, scale: Arc<Scale>) -> (r: Note)
    ensures
        note_matches_json(r, *json_note, scale@),
        r.scale == scale,
{
    Note {
        scale,
        octave: json_note.octave,
        duration: NoteDuration { millibeats: json_note.duration },
        note_index: json_note.note_index,
        velocity: json_note.velocity,
        panning: PANNING_CENTER,
    }
}

/// The sequence a record describes, in `scale`; a record with no notes fails.
pub fn build_sequence_from_json_sequence(json_sequence: JsonSequence, scale: Arc<Scale>) -> (r: Result<
    Sequence,
    ConfigError,
>)
    ensures
        json_sequence.notes@.len() == 0 ==> r == Err::<Sequence, ConfigError>(
            ConfigError::EmptySequence { sequence: json_sequence.name },
        ),
        json_sequence.notes@.len() > 0 ==> (r matches Ok(s) && sequence_matches_json(
            s@,
            json_sequence,
            scale@,
        )),
{
    if json_sequence.notes.len() == 0 {
        return Err(ConfigError::EmptySequence { sequence: json_sequence.name });
    }
    let mut notes: Vec<Note> = Vec::new();
    let mut i: usize = 0;
    while i < json_sequence.notes.len()
        invariant
            i <= json_sequence.notes@.len(),
            notes@.len() == i,
            forall|k: int|
                0 <= k < i ==> note_matches_json(#[trigger] notes@[k], json_sequence.notes@[k], scale@),
        decreases json_sequence.notes@.len() - i,
    {
        notes.push(build_note_from_json_note(&json_sequence.notes[i], scale.clone()));
        i = i + 1;
    }
    let mut sequence = Sequence::new(json_sequence.name, scale, notes);
    sequence.set_repeat(json_sequence.repeat as usize);
    Ok(sequence)
}

/// The index of the first of `scales` named `name`, if any.
pub fn find_scale(scales: &Vec<Arc<Scale>>, name: &String) -> (r: Option<usize>)
    ensures
        ({
            let views = scales@.map_values(|s: Arc<Scale>| s@);
            &&& r matches Some(i) ==> is_first_named(views, name@, i as int)
            &&& r is None ==> !has_scale_named(views, name@)
        }),
{
    let ghost views = scales@.map_values(|s: Arc<Scale>| s@);
    let mut i: usize = 0;
    while i < scales.len()
        invariant
            i <= scales@.len(),
            views == scales@.map_values(|s: Arc<Scale>| s@),
            forall|j: int| 0 <= j < i ==> views[j].name != name@,
        decreases scales@.len() - i,
    {
        if scales[i].name() == *name {
            return Some(i);
        }
        i = i + 1;
    }
    None
}

/// The sequences of a sequence file, each bound to the first loaded scale
/// that it names; the first faulty record fails the whole.
pub fn build_sequences(file: JsonSequenceFile, scales: Vec<Scale>) -> (r: Result<Vec<Sequence>, ConfigError>)
    ensures
        ({
            let js = file.sequences@;
            let views = scales@.map_values(|s: Scale| s@);
            match r {
                Ok(v) => {
                    &&& forall|i: int| 0 <= i < js.len() ==> json_sequence_error(#[trigger] js[i], views) is None
                    &&& v@.len() == js.len()
                    &&& forall|i: int| 0 <= i < js.len() ==> sequence_built_from(#[trigger] v@[i]@, js[i], views)
                },
                Err(e) => exists|k: int| #[trigger] first_sequence_error_at(js, views, k, e),
            }
        }),
{
    let ghost views = scales@.map_values(|s: Scale| s@);
    let mut shared: Vec<Arc<Scale>> = Vec::new();
    let mut owned = scales;
    let ns = owned.len();
    while shared.len() < ns
        invariant
            owned@.len() + shared@.len() == ns,
            ns == views.len(),
            forall|k: int| 0 <= k < owned@.len() ==> #[trigger] owned@[k]@ == views[shared@.len() + k],
            forall|k: int| 0 <= k < shared@.len() ==> #[trigger] shared@[k]@ == views[k],
        decreases ns - shared@.len(),
    {
        let s = owned.remove(0);
        shared.push(Arc::new(s));
    }
    assert(shared@.map_values(|s: Arc<Scale>| s@) =~= views);
    let ghost js = file.sequences@;
    let mut records = file.sequences;
    let n = records.len();
    let mut sequences: Vec<Sequence> = Vec::new();
    let mut i: usize = 0;
    while i < n
        invariant
            n == js.len(),
            js == file.sequences@,
            views == scales@.map_values(|s: Scale| s@),
            i <= n,
            records@ == js.subrange(i as int, n as int),
            shared@.map_values(|s: Arc<Scale>| s@) == views,
            sequences@.len() == i,
            forall|k: int| 0 <= k < i ==> json_sequence_error(#[trigger] js[k], views) is None,
            forall|k: int| 0 <= k < i ==> sequence_built_from(#[trigger] sequences@[k]@, js[k], views),
        decreases n - i,
    {
        let record = records.remove(0);
        assert(record == js[i as int]);
        assert(records@ =~= js.subrange(i + 1, n as int));
        match find_scale(&shared, &record.scale) {
            None => {
                assert(first_sequence_error_at(
                    js,
                    views,
                    i as int,
                    ConfigError::MissingScale { sequence: record.name, scale: record.scale },
                ));
                return Err(ConfigError::MissingScale { sequence: record.name, scale: record.scale });
            },
            Some(index) => {
                let ghost at = index as int;
                assert(views[at].name == record.scale@);
                let scale = shared[index].clone();
                match build_sequence_from_json_sequence(record, scale) {
                    Ok(sequence) => {
                        assert(is_first_named(views, js[i as int].scale@, at));
                        sequences.push(sequence);
                    },
                    Err(e) => {
                        assert(first_sequence_error_at(js, views, i as int, e));
                        return Err(e);
                    },
                }
            },
        }
        i = i + 1;
    }
    Ok(sequences)
}

/// A sequencer seeded from a scale file and a sequence file. It fails on the
/// first faulty scale record, then on the first faulty sequence record, then
/// on an empty playlist.
pub fn build_sequencer(scale_file: JsonScaleFile, sequence_file: JsonSequenceFile) -> (r: Result<
    Sequencer,
    ConfigError,
>)
    ensures
        ({
            let scale_js = scale_file.scales@;
            let views = scale_js.map_values(|j: JsonScale| json_scale_view(j));
            let js = sequence_file.sequences@;
            let scales_ok = forall|i: int|
                0 <= i < scale_js.len() ==> json_scale_error(#[trigger] scale_js[i]) is None;
            let sequences_ok = forall|i: int|
                0 <= i < js.len() ==> json_sequence_error(#[trigger] js[i], views) is None;
            match r {
                Ok(s) => {
                    &&& scales_ok
                    &&& sequences_ok
                    &&& js.len() >= 1
                    &&& s@.position == start_position()
                    &&& s@.previous_note is None
                    &&& s@.sequences.len() == js.len()
                    &&& forall|i: int|
                        0 <= i < js.len() ==> sequence_built_from(#[trigger] s@.sequences[i], js[i], views)
                },
                Err(e) => {
                    ||| exists|k: int| #[trigger] first_scale_error_at(scale_js, k, e)
                    ||| scales_ok && exists|k: int| #[trigger] first_sequence_error_at(js, views, k, e)
                    ||| scales_ok && sequences_ok && js.len() == 0 && e == ConfigError::NoSequences
                },
            }
        }),
{
    let ghost scale_js = scale_file.scales@;
    let ghost views = scale_js.map_values(|j: JsonScale| json_scale_view(j));
    let scales = match build_scales(scale_file) {
        Ok(scales) => scales,
        Err(e) => return Err(e),
    };
    assert(scales@.map_values(|s: Scale| s@) =~= views);
    let sequences = match build_sequences(sequence_file, scales) {
        Ok(sequences) => sequences,
        Err(e) => return Err(e),
    };
    if sequences.len() == 0 {
        return Err(ConfigError::NoSequences);
    }
    let sequencer = Sequencer::new(sequences);
    proof {
        let js = sequence_file.sequences@;
        assert forall|i: int| 0 <= i < js.len() implies sequence_built_from(
            #[trigger] sequencer@.sequences[i],
            js[i],
            views,
        ) by {
            assert(sequencer@.sequences[i] == sequences@[i]@);
        }
    }
    Ok(sequencer)
}

} // verus!
