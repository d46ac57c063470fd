//! Read-only, file-backed memory maps: the arithmetic and the decisions.
//!
//! This crate holds the verified core of a small memory-mapping library. It
//! decides how a requested byte range of a file is turned into the aligned
//! parameters that the operating system needs, checks every range that a
//! caller hands in, and recovers the exact parameters needed to release or
//! advise a mapping. The system calls themselves are made by the caller with
//! the values that the functions here return.

pub mod advice;
pub mod error;
pub mod shape;
pub mod option;
pub mod unix;
pub mod mm;
pub mod windows;

pub use advice::Advice;
pub use error::{MapError, MapErrorKind};
pub use mm::Mm;
pub use option::MmOption;
pub use shape::MappingShape;
