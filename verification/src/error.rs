//! The failures a store operation can report.

use vstd::prelude::*;

verus! {

/// Why a record could not be turned into bytes.
#[derive(Clone, Copy, Debug, PartialEq, Eq, Structural)]
pub enum EncodingError {
    /// The writer that takes the bytes refused them.
    Io,
    /// The encoded record would be longer than the codec allows.
    SizeLimit,
}

/// Why bytes could not be turned back into a record.
#[derive(Clone, Copy, Debug, PartialEq, Eq, Structural)]
pub enum DecodingError {
    /// The input ended before the record was complete.
    Io,
    /// The input holds something that is no encoding of a record.
    InvalidEncoding,
    /// The input announces more bytes than can be counted.
    SizeLimit,
}

/// Why a field could not be turned into an index entry.
#[derive(Clone, Copy, Debug, PartialEq, Eq, Structural)]
pub enum IndexBuildError {
    /// A numeric field lies outside the range in which every integer is an
    /// exact score.
    ScoreOutOfRange,
}

/// What `store` reports when no identifier can be returned.
#[derive(Clone, Debug, PartialEq, Eq)]
pub enum StorageError {
    /// The record could not be encoded; nothing was sent.
    Encoding(EncodingError),
    /// An index entry could not be built; nothing was sent.
    Indexing(IndexBuildError),
    /// The store refused the transaction or could not be reached.
    Backend(String),
}

impl EncodingError {
    /// A short description for messages.
    pub fn describe(&self) -> (text: &'static str)
        ensures
            text@ == match *self {
                EncodingError::Io => "the writer refused the encoded bytes"@,
                EncodingError::SizeLimit => "the encoded record exceeds the size limit"@,
            },
    {
        match self {
            EncodingError::Io => "the writer refused the encoded bytes",
            EncodingError::SizeLimit => "the encoded record exceeds the size limit",
        }
    }
}

impl DecodingError {
    /// A short description for messages.
    pub fn describe(&self) -> (text: &'static str)
        ensures
            text@ == match *self {
                DecodingError::Io => "the input ended before the record was complete"@,
                DecodingError::InvalidEncoding => "the input is no encoding of a record"@,
                DecodingError::SizeLimit => "the input announces more bytes than can be counted"@,
            },
    {
        match self {
            DecodingError::Io => "the input ended before the record was complete",
            DecodingError::InvalidEncoding => "the input is no encoding of a record",
            DecodingError::SizeLimit => "the input announces more bytes than can be counted",
        }
    }
}

impl IndexBuildError {
    /// A short description for messages.
    pub fn describe(&self) -> (text: &'static str)
        ensures
            text@ == match *self {
                IndexBuildError::ScoreOutOfRange => "a numeric field is outside the exact score range"@,
            },
    {
        match self {
            IndexBuildError::ScoreOutOfRange => "a numeric field is outside the exact score range",
        }
    }
}

} // verus!
