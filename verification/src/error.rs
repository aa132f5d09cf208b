//! Error taxonomy of the storage core. All failures are returned as values;
//! no function of this crate panics on malformed external input.

use vstd::prelude::*;

verus! {

/// Failure of decoding an identifier from its canonical base62 text or from
/// its fixed-width storage bytes.
#[derive(Clone, Copy, PartialEq, Eq, Structural, Debug)]
pub enum DecodeError {
    /// The input does not have the fixed length of the encoding (or, for
    /// text, encodes a value too wide for the 160-bit identifier).
    InvalidLength,
    /// The text contains a character outside the base62 alphabet.
    InvalidAlphabet,
}

/// The raw numeric fields a record transform narrows into fixed-width
/// storage columns; named so a failed ingestion can report which field
/// was out of range.
#[derive(Clone, Copy, PartialEq, Eq, Structural, Debug)]
pub enum NumericField {
    PokedexId,
    Hp,
    Attack,
    Defense,
    SpecialAttack,
    SpecialDefense,
    Speed,
    Height,
    Weight,
    Generation,
    BaseExperience,
    CaptureRate,
    BaseHappiness,
}

/// A raw numeric field was outside the range of its storage column type:
/// a fatal error for that record's transform, never a silent truncation.
#[derive(Clone, Copy, PartialEq, Eq, Structural, Debug)]
pub struct CoercionError {
    pub field: NumericField,
    pub value: i64,
}

/// Category of a persistence failure, as reported by the database layer.
/// Surfaced unchanged to the caller; the core never retries.
#[derive(Clone, Copy, PartialEq, Eq, Structural, Debug)]
pub enum PersistError {
    /// A constraint violation, most notably a duplicate slug or identifier.
    Constraint,
    /// The store could not be reached.
    Connectivity,
    /// The store did not answer in time.
    Timeout,
    /// Any other failure of the underlying store.
    Other,
}

} // verus!
