//! A read-only file mapping as its users see it: a view of bytes.

use vstd::prelude::*;
use crate::advice::Advice;
use crate::error::MapError;
use crate::unix::{AdviseCall, MmInner, MmInnerView, spec_advise_call};

verus! {

/// The advice that a range of `length` bytes from `offset` asks of the
/// operating system in a view of `view` bytes: `InvalidRange` outside the
/// view, no call for an empty range, else the aligned `madvise(2)` call.
pub open spec fn spec_advise_range(v: MmInnerView, advice: Advice, offset: usize, length: usize) -> Result<Option<AdviseCall>, MapError> {
    if offset + length > v.length {
        Err(MapError::InvalidRange)
    } else if length == 0 {
        Ok(None)
    } else {
        Ok(Some(spec_advise_call(v, advice, offset, length)))
    }
}

/// A read-only file mapping.
#[derive(Debug)]
pub struct Mm {
    inner: MmInner,
}

impl View for Mm {
    type V = MmInnerView;

    closed spec fn view(&self) -> MmInnerView {
        self.inner@
    }
}

impl Mm {
    /// The mapping whose state is `inner`.
    pub fn from_inner(inner: MmInner) -> (r: Mm)
        ensures
            r@ == inner@,
    {
        Mm { inner }
    }

    /// The state of the mapping.
    pub fn inner(&self) -> (r: &MmInner)
        ensures
            r@ == self@,
    {
        &self.inner
    }

    /// The number of bytes in the view.
    pub fn len(&self) -> (r: usize)
        ensures
            r == self@.length,
    {
        self.inner.length()
    }

    /// Whether the view holds no bytes.
    pub fn is_empty(&self) -> (r: bool)
        ensures
            r == (self@.length == 0),
    {
        self.inner.length() == 0
    }

    /// The address of the first byte of the view.
    pub fn as_ptr(&self) -> (r: usize)
        ensures
            r == self@.pointer,
    {
        self.inner.pointer()
    }

    /// The hint for the whole mapping: the range `0..len()`, which always
    /// lies inside it.
    pub fn advise(&self, advice: Advice) -> (res: Result<Option<AdviseCall>, MapError>)
        ensures
            res == spec_advise_range(self@, advice, 0, self@.length),
            res is Ok,
            res matches Ok(c) ==> (c is None <==> self@.length == 0),
            res matches Ok(Some(c)) ==> c.covers(self@, advice, 0, self@.length),
    {
        let len = self.len();
        self.advise_range(advice, 0, len)
    }

    /// The hint for `length` bytes from `offset`: fails with `InvalidRange`
    /// unless `offset..offset + length` lies inside the mapping.
    pub fn advise_range(&self, advice: Advice, offset: usize, length: usize) -> (res: Result<Option<AdviseCall>, MapError>)
        ensures
            res == spec_advise_range(self@, advice, offset, length),
            res is Err <==> offset + length > self@.length,
            res matches Ok(c) ==> (c is None <==> length == 0),
            res matches Ok(Some(c)) ==> c.covers(self@, advice, offset, length),
    {
        let end: usize = match offset.checked_add(length) {
            Some(e) => e,
            None => return Err(MapError::InvalidRange),
        };
        if end > self.len() {
            return Err(MapError::InvalidRange);
        }
        self.inner.advise(advice, offset, length)
    }

    /// The `mlock(2)` call that locks the whole mapping; none when it is empty.
    pub fn lock(&self) -> (r: Option<(usize, usize)>)
        ensures
            r == (if self@.length == 0 { None } else { Some((self@.pointer, self@.length)) }),
    {
        self.inner.lock()
    }

    /// The `munlock(2)` call that unlocks the whole mapping; none when it is
    /// empty.
    pub fn unlock(&self) -> (r: Option<(usize, usize)>)
        ensures
            r == (if self@.length == 0 { None } else { Some((self@.pointer, self@.length)) }),
    {
        self.inner.unlock()
    }
}

} // verus!
