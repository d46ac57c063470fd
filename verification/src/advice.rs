//! Access-pattern hints for a mapping.

use vstd::prelude::*;

verus! {

/// The access pattern that the caller expects for a mapping, handed to the
/// operating system as a hint (`madvise(2)` on Unix). A hint guarantees
/// nothing about residency or caching.
#[derive(Clone, Copy, Debug, PartialEq, Eq, Structural)]
pub enum Advice {
    /// No special treatment: the default.
    Normal,
    /// Pages will be accessed in random order.
    Random,
    /// Pages will be accessed in sequential order.
    Sequential,
    /// Pages will be accessed soon; read-ahead is welcome.
    WillNeed,
    /// Pages will not be accessed soon (`MADV_DONTNEED` on Unix).
    DontNeed,
}

} // verus!
