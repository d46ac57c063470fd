//! The configuration of a mapping, in the builder style.

use vstd::prelude::*;
use crate::error::MapError;
use crate::unix::{MapRequest, MmInner, spec_prepare};

verus! {

/// What a configuration states: the file offset of the view, its length if
/// one was set (else the view runs to the end of the file), and whether the
/// pages are to be populated when the mapping is created.
#[derive(Clone, Copy, Debug, PartialEq, Eq, Structural)]
pub struct MmOptionView {
    pub offset: u64,
    pub length: Option<usize>,
    pub populate: bool,
}

/// The configuration of a mapping.
///
/// The setters only change the configuration; nothing reads the file or calls
/// the operating system until a mapping is made from it.
#[derive(Clone, Debug)]
pub struct MmOption {
    offset: u64,
    length: Option<usize>,
    populate: bool,
}

impl View for MmOption {
    type V = MmOptionView;

    closed spec fn view(&self) -> MmOptionView {
        MmOptionView { offset: self.offset, length: self.length, populate: self.populate }
    }
}

impl Default for MmOption {
    /// Offset 0, length up to the end of the file, no populating.
    fn default() -> (r: MmOption)
        ensures
            r@ == (MmOptionView { offset: 0, length: None, populate: false }),
    {
        MmOption { offset: 0, length: None, populate: false }
    }
}

/// Whether `len` bytes can be viewed as a Rust slice, whose size is at most
/// `isize::MAX`.
pub open spec fn fits_slice(len: int) -> bool {
    0 <= len <= isize::MAX
}

/// The length of the view that a configuration asks for, given the length of
/// the file, where it was needed.
pub open spec fn spec_view_length(o: MmOptionView, file_length: u64) -> Result<usize, MapError> {
    let len: int = match o.length {
        Some(v) => v as int,
        None => file_length - o.offset,
    };
    if o.length is None && file_length < o.offset {
        Err(MapError::OffsetBeyondFile)
    } else if !fits_slice(len) {
        Err(MapError::LengthOverflowsIsize)
    } else {
        Ok(len as usize)
    }
}

impl MmOption {
    /// The default configuration: offset 0, length up to the end of the file,
    /// no populating.
    pub fn new() -> (r: MmOption)
        ensures
            r@ == (MmOptionView { offset: 0, length: None, populate: false }),
    {
        MmOption::default()
    }

    /// Sets the file offset at which the view starts. It need not be aligned.
    pub fn offset(&mut self, offset: u64) -> (r: &mut Self)
        ensures
            r@ == (MmOptionView { offset, ..old(self)@ }),
            final(self)@ == final(r)@,
    {
        self.offset = offset;
        self
    }

    /// Sets the length of the view. The caller then answers for the range
    /// lying inside the file: it is not checked against the file's length.
    pub fn length(&mut self, length: usize) -> (r: &mut Self)
        ensures
            r@ == (MmOptionView { length: Some(length), ..old(self)@ }),
            final(self)@ == final(r)@,
    {
        self.length = Some(length);
        self
    }

    /// Asks for the pages to be populated when the mapping is created.
    pub fn populate(&mut self) -> (r: &mut Self)
        ensures
            r@ == (MmOptionView { populate: true, ..old(self)@ }),
            final(self)@ == final(r)@,
    {
        self.populate = true;
        self
    }
}

impl MmOption {
    /// Whether making a mapping from this configuration needs the length of
    /// the file: only where no length was set.
    pub fn needs_file_length(&self) -> (r: bool)
        ensures
            r == (self@.length is None),
    {
        self.length.is_none()
    }

    /// The file offset at which the view starts.
    pub fn get_offset(&self) -> (r: u64)
        ensures
            r == self@.offset,
    {
        self.offset
    }

    /// Whether the pages are to be populated when the mapping is created.
    pub fn get_populate(&self) -> (r: bool)
        ensures
            r == self@.populate,
    {
        self.populate
    }

    /// Checks that `len` bytes can be viewed as a Rust slice: its size cannot
    /// exceed `isize::MAX`, which matters on 32-bit targets.
    pub fn validate_length(len: u64) -> (res: Result<usize, MapError>)
        ensures
            res is Ok <==> fits_slice(len as int),
            res is Ok <==> len <= isize::MAX,
            res matches Ok(v) ==> v == len,
            res matches Err(e) ==> e == MapError::LengthOverflowsIsize,
    {
        if len > isize::MAX as u64 {
            return Err(MapError::LengthOverflowsIsize);
        }
        Ok(len as usize)
    }

    /// The length of the view: the length that was set, or else the bytes of
    /// the file from the offset to its end, `file_length` being the length of
    /// the file when the mapping is made.
    ///
    /// Fails with `OffsetBeyondFile` when no length was set and the offset
    /// lies beyond the end of the file, and with `LengthOverflowsIsize` when
    /// the length exceeds the limit of a slice.
    pub fn get_length(&self, file_length: Option<u64>) -> (res: Result<usize, MapError>)
        requires
            self@.length is None ==> file_length is Some,
        ensures
            res == spec_view_length(self@, file_length.unwrap_or(0)),
            self@.length matches Some(v) ==> res == (if v <= isize::MAX {
                Ok::<usize, MapError>(v)
            } else {
                Err(MapError::LengthOverflowsIsize)
            }),
            self@.length is None ==> res == (if file_length.unwrap() < self@.offset {
                Err(MapError::OffsetBeyondFile)
            } else if file_length.unwrap() - self@.offset <= isize::MAX {
                Ok::<usize, MapError>((file_length.unwrap() - self@.offset) as usize)
            } else {
                Err(MapError::LengthOverflowsIsize)
            }),
    {
        let length: u64 = match self.length {
            Some(v) => v as u64,
            None => {
                let file_length: u64 = match file_length {
                    Some(l) => l,
                    None => 0,
                };
                if file_length < self.offset {
                    return Err(MapError::OffsetBeyondFile);
                }
                file_length - self.offset
            },
        };
        Self::validate_length(length)
    }
}

impl MmOption {
    /// The `mmap(2)` request for a shared read-only mapping of the view that
    /// this configuration asks for, `file_length` being the length of the
    /// file (needed only where no length was set) and `page_size` the
    /// granularity to align to.
    pub fn map_request(&self, file_length: Option<u64>, page_size: usize) -> (res: Result<MapRequest, MapError>)
        requires
            self@.length is None ==> file_length is Some,
            page_size > 0,
        ensures
            res == (match spec_view_length(self@, file_length.unwrap_or(0)) {
                Ok(len) => spec_prepare(len, self@.offset, self@.populate, page_size),
                Err(e) => Err(e),
            }),
            res matches Ok(r) ==> r.wf(),
            res matches Ok(r) ==> spec_view_length(self@, file_length.unwrap_or(0)) == Ok::<usize, MapError>(r.view_length)
                && r.maps_view(r.view_length, self@.offset, self@.populate, page_size),
    {
        let length = match self.get_length(file_length) {
            Ok(l) => l,
            Err(e) => return Err(e),
        };
        MmInner::prepare(length, self.offset, self.populate, page_size)
    }
}

/// With a length set, the view does not depend on the length of the file:
/// the library never consults the file for it.
pub proof fn lemma_explicit_length_ignores_file(o: MmOptionView, f1: u64, f2: u64)
    requires
        o.length is Some,
    ensures
        spec_view_length(o, f1) == spec_view_length(o, f2),
{
}

/// Without a length, the view runs from the offset to the end of the file;
/// an offset past the end is refused.
pub proof fn lemma_inferred_length_runs_to_end(o: MmOptionView, f: u64)
    requires
        o.length is None,
    ensures
        f < o.offset ==> spec_view_length(o, f) == Err::<usize, MapError>(MapError::OffsetBeyondFile),
        o.offset <= f && f - o.offset <= isize::MAX ==> spec_view_length(o, f) == Ok::<usize, MapError>((f - o.offset) as usize),
{
}

/// With a length set, the view has exactly that length where it fits in a
/// slice (at most `isize::MAX` bytes), and is refused with
/// `LengthOverflowsIsize` where it does not.
pub proof fn lemma_explicit_length_is_view_length(o: MmOptionView, f: u64)
    requires
        o.length is Some,
    ensures
        o.length.unwrap() <= isize::MAX ==> spec_view_length(o, f) == Ok::<usize, MapError>(o.length.unwrap()),
        o.length.unwrap() > isize::MAX ==> spec_view_length(o, f) == Err::<usize, MapError>(MapError::LengthOverflowsIsize),
{
}

/// Without a length, a view that runs past the limit of a slice is refused
/// with `LengthOverflowsIsize`.
pub proof fn lemma_inferred_length_limited_to_slice(o: MmOptionView, f: u64)
    requires
        o.length is None,
        o.offset <= f,
        f - o.offset > isize::MAX,
    ensures
        spec_view_length(o, f) == Err::<usize, MapError>(MapError::LengthOverflowsIsize),
{
}

} // verus!
