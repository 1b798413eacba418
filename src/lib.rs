//! Proof-of-incompleteness puzzle engine: completion classification, the
//! resonance ledger, the evolution clock and one-shot vibe inscriptions.
use vstd::prelude::*;

pub mod bridge;
pub mod completion;
pub mod digest;
pub mod encoding;
pub mod inscription;
pub mod kernel;
pub mod ledger;

verus! {

/// Errors of the puzzle engine.
#[derive(Debug, Clone, Copy, PartialEq, Eq, Structural)]
pub enum MEMEkError {
    /// The completion's digest matches no reward pattern.
    CompletionLacksResonance,
    /// The record to be created exists already.
    DuplicateRecord,
    /// A counter would leave the range of its type.
    ArithmeticOverflow,
}

} // verus!
