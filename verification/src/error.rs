//! Errors that the mapping arithmetic can report.

use vstd::prelude::*;

verus! {

/// The class of an error, in the terms of `std::io::ErrorKind`.
#[derive(Clone, Copy, Debug, PartialEq, Eq, Structural)]
pub enum MapErrorKind {
    /// A parameter of the request was not acceptable.
    InvalidInput,
    /// The file does not allow the request (its length, or a slice limit).
    InvalidData,
}

/// An error found before any system call is made.
#[derive(Clone, Copy, Debug, PartialEq, Eq, Structural)]
pub enum MapError {
    /// The view length plus the alignment prefix does not fit in `usize`.
    LengthOverflowsUsize,
    /// The aligned offset plus the mapped length does not fit in `u64`.
    OffsetLengthOverflowsU64,
    /// The mapped length does not fit in `isize`, the limit of a Rust slice.
    LengthOverflowsIsize,
    /// The offset lies beyond the end of the file.
    OffsetBeyondFile,
    /// The aligned offset does not fit in the platform's `off_t`.
    OffsetOverflowsOffT,
    /// A range does not lie inside the mapping.
    InvalidRange,
}

impl MapError {
    /// The kind that the error is reported with.
    pub open spec fn spec_kind(self) -> MapErrorKind {
        match self {
            MapError::LengthOverflowsIsize => MapErrorKind::InvalidData,
            MapError::OffsetBeyondFile => MapErrorKind::InvalidData,
            _ => MapErrorKind::InvalidInput,
        }
    }

    /// The kind that the error is reported with.
    pub fn kind(&self) -> (k: MapErrorKind)
        ensures
            k == self.spec_kind(),
    {
        match self {
            MapError::LengthOverflowsIsize => MapErrorKind::InvalidData,
            MapError::OffsetBeyondFile => MapErrorKind::InvalidData,
            _ => MapErrorKind::InvalidInput,
        }
    }

    /// The message that the error is reported with; empty where the error
    /// carries its kind alone.
    pub open spec fn spec_message(self) -> Seq<char> {
        match self {
            MapError::LengthOverflowsUsize => "memory map length overflows usize"@,
            MapError::OffsetLengthOverflowsU64 => "memory map offset + length overflows u64"@,
            MapError::LengthOverflowsIsize => "memory map length overflows isize"@,
            MapError::OffsetBeyondFile => "memory map offset is larger than length"@,
            MapError::OffsetOverflowsOffT => "memory map offset overflows off_t"@,
            MapError::InvalidRange => ""@,
        }
    }

    /// The message that the error is reported with; empty where the error
    /// carries its kind alone.
    pub fn message(&self) -> (m: &'static str)
        ensures
            m@ == self.spec_message(),
    {
        match self {
            MapError::LengthOverflowsUsize => "memory map length overflows usize",
            MapError::OffsetLengthOverflowsU64 => "memory map offset + length overflows u64",
            MapError::LengthOverflowsIsize => "memory map length overflows isize",
            MapError::OffsetBeyondFile => "memory map offset is larger than length",
            MapError::OffsetOverflowsOffT => "memory map offset overflows off_t",
            MapError::InvalidRange => "",
        }
    }
}

} // verus!
