//! What can go wrong while reading or rewriting a save.

use vstd::prelude::*;

verus! {

/// The metadata fields whose values are codes of a closed enumeration.
#[derive(Clone, Copy, Debug, PartialEq, Eq, Structural)]
pub enum CodedField {
    Faction,
    Lineage,
    Archetype,
    KeyBindingProfile,
    Difficulty,
    VoiceTone,
    Voice,
    Pronouns,
    Gender,
}

#[derive(Debug)]
pub enum SaveError {
    /// A read went past the end of the data.
    UnexpectedEof,
    /// The file does not start with `<!--DASC`.
    BadMagic,
    /// A chunk of block two does not start with its marker byte.
    BadChunkMarker,
    /// A metadata field name outside the known set.
    UnknownField(String),
    /// A code outside the table of the field's enumeration.
    UnknownCode(CodedField, u32),
    /// A save type tag outside the known set.
    UnknownSaveType(String),
    /// A boolean byte other than 0 and 1.
    InvalidBool(u8),
    /// A string whose bytes are not UTF-8.
    InvalidUtf8,
    /// A time field that is not an RFC 3339 timestamp.
    InvalidTimestamp(String),
    /// A block whose gzip stream is malformed or cut short.
    Decompress,
    /// A block that inflates to another length than its declared one.
    SizeMismatch,
    /// A block that could not be compressed.
    Compress,
    /// A size or offset of the rewritten block two that does not fit its field.
    OffsetOutOfRange,
}

/// `SaveError` with its strings as character sequences.
pub ghost enum ErrorView {
    UnexpectedEof,
    BadMagic,
    BadChunkMarker,
    UnknownField(Seq<char>),
    UnknownCode(CodedField, u32),
    UnknownSaveType(Seq<char>),
    InvalidBool(u8),
    InvalidUtf8,
    InvalidTimestamp(Seq<char>),
    Decompress,
    SizeMismatch,
    Compress,
    OffsetOutOfRange,
}

impl View for SaveError {
    type V = ErrorView;

    open spec fn view(&self) -> ErrorView {
        match self {
            SaveError::UnexpectedEof => ErrorView::UnexpectedEof,
            SaveError::BadMagic => ErrorView::BadMagic,
            SaveError::BadChunkMarker => ErrorView::BadChunkMarker,
            SaveError::UnknownField(s) => ErrorView::UnknownField(s@),
            SaveError::UnknownCode(f, c) => ErrorView::UnknownCode(*f, *c),
            SaveError::UnknownSaveType(s) => ErrorView::UnknownSaveType(s@),
            SaveError::InvalidBool(b) => ErrorView::InvalidBool(*b),
            SaveError::InvalidUtf8 => ErrorView::InvalidUtf8,
            SaveError::InvalidTimestamp(s) => ErrorView::InvalidTimestamp(s@),
            SaveError::Decompress => ErrorView::Decompress,
            SaveError::SizeMismatch => ErrorView::SizeMismatch,
            SaveError::Compress => ErrorView::Compress,
            SaveError::OffsetOutOfRange => ErrorView::OffsetOutOfRange,
        }
    }
}

/// An executable result agrees with a specified one: the same value on
/// success, the same error (as a view) on failure.
pub open spec fn result_agrees<T>(r: Result<T, SaveError>, s: Result<T, ErrorView>) -> bool {
    match s {
        Ok(v) => r == Ok::<T, SaveError>(v),
        Err(e) => r is Err && r->Err_0@ == e,
    }
}

} // verus!
