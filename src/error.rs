use vstd::prelude::*;

verus! {

/// Why a set of scales and sequences cannot seed a sequencer.
#[derive(Debug, PartialEq, Eq)]
pub enum ConfigError {
    /// A scale with no degrees.
    EmptyScale { scale: String },
    /// A scale whose degree names do not match its steps one for one.
    DegreeNamesMismatch { scale: String },
    /// A sequence names a scale that is not among the loaded ones.
    MissingScale { sequence: String, scale: String },
    /// A sequence with no notes.
    EmptySequence { sequence: String },
    /// A playlist with no sequences.
    NoSequences,
}

} // verus!
