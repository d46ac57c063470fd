//! The Unix side of a mapping, `mmap(2)` based, in terms of addresses.
//!
//! A mapping shows `length` bytes from address `pointer` on. The operating
//! system maps from a page boundary, so the real mapping starts at `pointer`
//! rounded down to the page size, and its first bytes (the alignment prefix)
//! are mapped but not shown. A view of no bytes is backed by a one-byte
//! mapping, as `mmap(2)` refuses a length of zero.

use vstd::prelude::*;
use crate::advice::Advice;
use crate::error::MapError;
use crate::shape::{MappingShape, lemma_shape_covers, lemma_shape_fits_exactly, shape_fits, spec_shape, spec_shape_error};

verus! {

/// The parameters of the `mmap(2)` call that makes a mapping, and what is
/// needed to turn its result into a mapping.
#[derive(Clone, Copy, Debug, PartialEq, Eq, Structural)]
pub struct MapRequest {
    /// The file offset handed to `mmap(2)`: a multiple of the page size.
    pub map_offset: i64,
    /// The length handed to `mmap(2)`: never zero.
    pub mmap_length: usize,
    /// The bytes to skip from the start of the mapping to reach the view.
    pub view_offset: usize,
    /// The length of the view.
    pub view_length: usize,
    /// Whether the pages are to be populated (`MAP_POPULATE` where it exists).
    pub populate: bool,
    /// The page size the request was aligned to.
    pub page_size: usize,
}

impl MapRequest {
    /// The request maps the requested bytes: `mmap(2)` is asked for a file
    /// offset that is a multiple of the page size and less than one page
    /// before `offset`, the view starts `offset - map_offset` bytes into the
    /// mapping and holds `length` bytes, and the mapping ends where the view
    /// ends (one byte where both are empty).
    pub open spec fn maps_view(self, length: usize, offset: u64, populate: bool, page_size: usize) -> bool {
        &&& 0 <= self.map_offset
        &&& (self.map_offset as int) % (page_size as int) == 0
        &&& self.map_offset + self.view_offset == offset
        &&& self.view_offset < page_size
        &&& self.view_length == length
        &&& self.mmap_length == (if length + self.view_offset == 0 { 1 } else { length + self.view_offset })
        &&& self.populate == populate
        &&& self.page_size == page_size
    }

    /// The request holds together: the view lies inside the mapped bytes.
    pub open spec fn wf(self) -> bool {
        &&& self.page_size > 0
        &&& self.view_offset < self.page_size
        &&& self.mmap_length == spec_mmap_length(self.view_length + self.view_offset)
    }
}

/// The length handed to `mmap(2)` for `map_length` bytes: one byte stands in
/// for an empty mapping.
pub open spec fn spec_mmap_length(map_length: int) -> int {
    if map_length == 0 { 1 } else { map_length }
}

/// Whether the aligned offset of a shape fits in `off_t` (64 bits).
pub open spec fn offset_fits_off_t(shape: MappingShape) -> bool {
    shape.map_offset <= i64::MAX
}

/// The request for a view of `length` bytes from file offset `offset`.
pub open spec fn spec_request(length: usize, offset: u64, populate: bool, page_size: usize) -> MapRequest {
    let shape = spec_shape(offset, length, page_size);
    MapRequest {
        map_offset: shape.map_offset as i64,
        mmap_length: spec_mmap_length(shape.map_length as int) as usize,
        view_offset: shape.view_offset,
        view_length: length,
        populate,
        page_size,
    }
}

/// The outcome of preparing a view of `length` bytes from file offset
/// `offset`: the error of its shape, `OffsetOverflowsOffT` where the aligned
/// offset does not fit in `off_t`, else the request.
pub open spec fn spec_prepare(length: usize, offset: u64, populate: bool, page_size: usize) -> Result<MapRequest, MapError> {
    if !shape_fits(offset, length, page_size) {
        Err(spec_shape_error(offset, length, page_size))
    } else if !offset_fits_off_t(spec_shape(offset, length, page_size)) {
        Err(MapError::OffsetOverflowsOffT)
    } else {
        Ok(spec_request(length, offset, populate, page_size))
    }
}

/// What a mapping is: the address of the view, its length, and the page size
/// that its start was aligned to.
#[derive(Clone, Copy, Debug, PartialEq, Eq, Structural)]
pub struct MmInnerView {
    pub pointer: usize,
    pub length: usize,
    pub page_size: usize,
}

/// The `(base, mapped length, prefix)` of a mapping: the arguments of the
/// `munmap(2)` that releases it, and the length of its alignment prefix.
pub open spec fn spec_mm_parameter(v: MmInnerView) -> (usize, usize, usize) {
    let offset = v.pointer % v.page_size;
    if v.length + offset == 0 {
        (v.pointer, 1usize, 0usize)
    } else {
        ((v.pointer - offset) as usize, (v.length + offset) as usize, offset as usize)
    }
}

/// An `madvise(2)` call: a page-aligned start, a length and the hint.
#[derive(Clone, Copy, Debug, PartialEq, Eq, Structural)]
pub struct AdviseCall {
    pub start: usize,
    pub length: usize,
    pub advice: Advice,
}

impl AdviseCall {
    /// The call advises the requested range from the largest page boundary
    /// at or below its first byte, up to its end, inside the real mapping.
    pub open spec fn covers(self, v: MmInnerView, advice: Advice, offset: usize, length: usize) -> bool {
        &&& self.start % v.page_size == 0
        &&& v.pointer - v.pointer % v.page_size <= self.start <= v.pointer + offset < self.start + v.page_size
        &&& self.start + self.length == v.pointer + offset + length
        &&& self.advice == advice
    }
}

/// The `madvise(2)` call for `length` bytes from `offset` in the view: the
/// range moves down to a page boundary and grows by as much.
pub open spec fn spec_advise_call(v: MmInnerView, advice: Advice, offset: usize, length: usize) -> AdviseCall {
    let start = v.pointer + offset;
    let alignment = start % (v.page_size as int);
    AdviseCall { start: (start - alignment) as usize, length: (length + alignment) as usize, advice }
}

/// A remainder is at most the dividend, and below the divisor.
pub(crate) proof fn lemma_mod_le(x: usize, m: usize)
    requires
        m > 0,
    ensures
        x % m <= x,
        x % m < m,
{
    assert(x % m <= x && x % m < m) by (nonlinear_arith)
        requires
            m > 0,
    ;
}

/// The state of a Unix mapping.
#[derive(Debug)]
pub struct MmInner {
    pointer: usize,
    length: usize,
    page_size: usize,
}

impl View for MmInner {
    type V = MmInnerView;

    closed spec fn view(&self) -> MmInnerView {
        MmInnerView { pointer: self.pointer, length: self.length, page_size: self.page_size }
    }
}

impl MmInner {
    /// The view lies in the address space behind a page size that is not zero.
    #[verifier::type_invariant]
    closed spec fn inv(self) -> bool {
        &&& self.page_size > 0
        &&& self.pointer + self.length <= usize::MAX
    }

    /// The request for a shared read-only mapping of `length` bytes of a file
    /// from `offset` on, aligned down to `page_size`.
    ///
    /// Fails as `MappingShape::new` does, and with `OffsetOverflowsOffT` when
    /// the aligned offset does not fit in `off_t`.
    pub fn prepare(length: usize, offset: u64, populate: bool, page_size: usize) -> (res: Result<MapRequest, MapError>)
        requires
            page_size > 0,
        ensures
            res == spec_prepare(length, offset, populate, page_size),
            res matches Ok(r) ==> r.wf(),
            res is Ok <==> length + offset % (page_size as u64) <= usize::MAX && offset + length <= u64::MAX
                && offset - offset % (page_size as u64) <= i64::MAX,
            res matches Ok(r) ==> r.maps_view(length, offset, populate, page_size),
    {
        let shape = match MappingShape::new(offset, length, page_size) {
            Ok(s) => s,
            Err(e) => return Err(e),
        };
        if shape.map_offset > i64::MAX as u64 {
            return Err(MapError::OffsetOverflowsOffT);
        }
        let map_offset: i64 = shape.map_offset as i64;
        let mmap_length: usize = if shape.map_length == 0 { 1 } else { shape.map_length };
        Ok(MapRequest {
            map_offset,
            mmap_length,
            view_offset: shape.view_offset,
            view_length: length,
            populate,
            page_size,
        })
    }
}

impl MmInner {
    /// Builds a mapping from its raw parts: `pointer` is the start of a real
    /// mapping (a page boundary), `offset` the alignment prefix before the
    /// view and `length` the length of the view.
    pub fn from_raw_parts(pointer: usize, length: usize, offset: usize, page_size: usize) -> (r: MmInner)
        requires
            page_size > 0,
            pointer % page_size == 0,
            offset < page_size,
            pointer + offset + length <= usize::MAX,
        ensures
            r@ == (MmInnerView { pointer: (pointer + offset) as usize, length, page_size }),
    {
        MmInner { pointer: pointer + offset, length, page_size }
    }

    /// The mapping that `mmap(2)` made for `request`, the real mapping
    /// starting at `base`.
    pub fn from_mapping(request: &MapRequest, base: usize) -> (r: MmInner)
        requires
            request.wf(),
            base % request.page_size == 0,
            base + request.mmap_length <= usize::MAX,
        ensures
            r@ == (MmInnerView {
                pointer: (base + request.view_offset) as usize,
                length: request.view_length,
                page_size: request.page_size,
            }),
    {
        MmInner::from_raw_parts(base, request.view_length, request.view_offset, request.page_size)
    }

    /// The `(base, mapped length, prefix)` of the mapping: what `munmap(2)`
    /// needs to release it. A view of no bytes at a page boundary is backed by
    /// a one-byte mapping there.
    pub fn as_mm_parameter(&self) -> (r: (usize, usize, usize))
        ensures
            r == spec_mm_parameter(self@),
    {
        proof {
            use_type_invariant(self);
        }
        let offset: usize = self.pointer % self.page_size;
        proof {
            lemma_mod_le(self.pointer, self.page_size);
        }
        let length: usize = self.length + offset;
        if length == 0 {
            (self.pointer, 1, 0)
        } else {
            (self.pointer - offset, length, offset)
        }
    }

    /// The address of the view.
    pub fn pointer(&self) -> (r: usize)
        ensures
            r == self@.pointer,
            r + self@.length <= usize::MAX,
    {
        proof {
            use_type_invariant(self);
        }
        self.pointer
    }

    /// The length of the view.
    pub fn length(&self) -> (r: usize)
        ensures
            r == self@.length,
            self@.pointer + r <= usize::MAX,
            self@.page_size > 0,
    {
        proof {
            use_type_invariant(self);
        }
        self.length
    }

    /// The `madvise(2)` call that gives `advice` for `length` bytes from
    /// `offset` in the view, if one is needed.
    ///
    /// Fails with `InvalidRange` when the range does not lie inside the view.
    /// An empty range needs no call. Otherwise the range moves down from the
    /// address of its first byte to a page boundary, which lies in the
    /// mapping's alignment prefix or in the view.
    pub fn advise(&self, advice: Advice, offset: usize, length: usize) -> (res: Result<Option<AdviseCall>, MapError>)
        ensures
            res is Err <==> offset + length > self@.length,
            res matches Err(e) ==> e == MapError::InvalidRange,
            res matches Ok(c) ==> (c is None <==> length == 0),
            res matches Ok(Some(c)) ==> c == spec_advise_call(self@, advice, offset, length),
            res matches Ok(Some(c)) ==> c.covers(self@, advice, offset, length),
    {
        proof {
            use_type_invariant(self);
        }
        let end: usize = match offset.checked_add(length) {
            Some(e) => e,
            None => return Err(MapError::InvalidRange),
        };
        if end > self.length {
            return Err(MapError::InvalidRange);
        }
        if length == 0 {
            return Ok(None);
        }
        let start: usize = self.pointer + offset;
        let alignment: usize = start % self.page_size;
        proof {
            lemma_mod_le(start, self.page_size);
        }
        let aligned_start: usize = start - alignment;
        let aligned_length: usize = length + alignment;
        proof {
            lemma_advise_call_in_mapping(self@, advice, offset, length);
        }
        Ok(Some(AdviseCall { start: aligned_start, length: aligned_length, advice }))
    }

    /// The `(address, length)` of the `mlock(2)` call that locks the whole
    /// view; none for an empty view.
    pub fn lock(&self) -> (r: Option<(usize, usize)>)
        ensures
            r == (if self@.length == 0 { None } else { Some((self@.pointer, self@.length)) }),
    {
        if self.length == 0 {
            return None;
        }
        Some((self.pointer, self.length))
    }

    /// The `(address, length)` of the `munlock(2)` call that unlocks the whole
    /// view; none for an empty view.
    pub fn unlock(&self) -> (r: Option<(usize, usize)>)
        ensures
            r == (if self@.length == 0 { None } else { Some((self@.pointer, self@.length)) }),
    {
        if self.length == 0 {
            return None;
        }
        Some((self.pointer, self.length))
    }
}

/// The mapping built from what `mmap(2)` returned for a request is released
/// by `munmap(2)` with exactly the address that `mmap(2)` returned and the
/// length that was asked of it.
pub proof fn lemma_unmap_matches_map(request: MapRequest, base: usize)
    requires
        request.wf(),
        base % request.page_size == 0,
        base + request.mmap_length <= usize::MAX,
    ensures
        ({
            let v = MmInnerView {
                pointer: (base + request.view_offset) as usize,
                length: request.view_length,
                page_size: request.page_size,
            };
            &&& spec_mm_parameter(v).0 == base
            &&& spec_mm_parameter(v).1 == request.mmap_length
            &&& spec_mm_parameter(v).2 == (if request.view_length + request.view_offset == 0 { 0 } else { request.view_offset as int })
        }),
{
    let p = request.page_size as int;
    let off = request.view_offset as int;
    let b = base as int;
    assert((b + off) % p == off) by (nonlinear_arith)
        requires
            p > 0,
            b % p == 0,
            0 <= off < p,
            b >= 0,
    {
        vstd::arithmetic::div_mod::lemma_mod_adds(b, off, p);
        vstd::arithmetic::div_mod::lemma_small_mod(off as nat, p as nat);
    }
}

/// The `madvise(2)` call for a non-empty range inside the view starts at a
/// page boundary inside the real mapping (at or after its base), covers the
/// requested range and ends where it ends.
pub proof fn lemma_advise_call_in_mapping(v: MmInnerView, advice: Advice, offset: usize, length: usize)
    requires
        v.page_size > 0,
        v.pointer + v.length <= usize::MAX,
        offset + length <= v.length,
        length > 0,
    ensures
        ({
            let c = spec_advise_call(v, advice, offset, length);
            &&& c.start % v.page_size == 0
            &&& spec_mm_parameter(v).0 <= c.start <= v.pointer + offset
            &&& v.pointer + offset < c.start + v.page_size
            &&& c.length < length + v.page_size
            &&& c.start + c.length == v.pointer + offset + length
            &&& c.start + c.length <= v.pointer + v.length
            &&& c.advice == advice
        }),
{
    lemma_round_down_ordered(v.pointer as int, v.pointer + offset, v.page_size as int);
}

/// Rounding down to a multiple of `p` keeps the order of two naturals and
/// takes off less than the value itself.
proof fn lemma_round_down_ordered(x: int, y: int, p: int)
    requires
        p > 0,
        0 <= x <= y,
    ensures
        x - x % p <= y - y % p,
        (y - y % p) % p == 0,
        0 <= x % p <= x,
        0 <= y % p <= y,
        y % p < p,
{
    vstd::arithmetic::div_mod::lemma_fundamental_div_mod(x, p);
    vstd::arithmetic::div_mod::lemma_fundamental_div_mod(y, p);
    vstd::arithmetic::div_mod::lemma_div_is_ordered(x, y, p);
    vstd::arithmetic::div_mod::lemma_div_pos_is_pos(x, p);
    vstd::arithmetic::mul::lemma_mul_inequality(x / p, y / p, p);
    vstd::arithmetic::mul::lemma_mul_is_commutative(p, x / p);
    vstd::arithmetic::mul::lemma_mul_is_commutative(p, y / p);
    vstd::arithmetic::mul::lemma_mul_nonnegative(x / p, p);
    vstd::arithmetic::div_mod::lemma_mod_multiples_basic(y / p, p);
    vstd::arithmetic::div_mod::lemma_mod_pos_bound(x, p);
    vstd::arithmetic::div_mod::lemma_mod_pos_bound(y, p);
}

/// The request for a view maps exactly the view behind an alignment prefix:
/// `mmap(2)` is asked for a page-aligned file offset at most one page before
/// the requested offset, the view starts the prefix's length into the
/// mapping, holds the requested number of bytes and ends inside it.
pub proof fn lemma_request_maps_view(length: usize, offset: u64, populate: bool, page_size: usize)
    requires
        page_size > 0,
        spec_prepare(length, offset, populate, page_size) is Ok,
    ensures
        ({
            let r = spec_request(length, offset, populate, page_size);
            &&& r.wf()
            &&& r.map_offset >= 0
            &&& (r.map_offset as int) % (page_size as int) == 0
            &&& r.map_offset + r.view_offset == offset
            &&& r.view_length == length
            &&& r.view_offset + r.view_length <= r.mmap_length
            &&& r.mmap_length >= 1
            &&& r.populate == populate
        }),
{
    lemma_shape_covers(offset, length, page_size);
    let shape = spec_shape(offset, length, page_size);
    assert(spec_request(length, offset, populate, page_size).map_offset == shape.map_offset);
}

/// Preparing a view succeeds exactly when the view plus its alignment prefix
/// fits in `usize`, its end in the file fits in `u64` and the aligned offset
/// fits in `off_t`; the request it gives then maps the requested bytes.
pub proof fn lemma_prepare_maps_requested_bytes(length: usize, offset: u64, populate: bool, page_size: usize)
    requires
        page_size > 0,
    ensures
        spec_prepare(length, offset, populate, page_size) is Ok <==> length + offset % (page_size as u64) <= usize::MAX
            && offset + length <= u64::MAX && offset - offset % (page_size as u64) <= i64::MAX,
        spec_prepare(length, offset, populate, page_size) matches Ok(r) ==> r.maps_view(length, offset, populate, page_size),
{
    lemma_shape_fits_exactly(offset, length, page_size);
    if shape_fits(offset, length, page_size) {
        lemma_shape_covers(offset, length, page_size);
    }
}

} // verus!
