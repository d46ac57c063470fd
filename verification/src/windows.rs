//! The Windows side of a mapping, `CreateFileMappingW` and `MapViewOfFile`
//! based, in terms of addresses.
//!
//! A view starts at a multiple of the allocation granularity in the file; the
//! bytes between there and the requested offset are mapped but not shown. A
//! view of no bytes is not mapped at all: it sits at a non-null address that
//! is never read.

use vstd::prelude::*;
use crate::advice::Advice;
use crate::error::MapError;
use crate::shape::{MappingShape, lemma_shape_covers, lemma_shape_fits_exactly, shape_fits, spec_shape, spec_shape_error};
use crate::unix::lemma_mod_le;

verus! {

/// The high and low 32-bit halves of a 64-bit value, as the Windows calls take
/// sizes and offsets.
pub open spec fn spec_split(x: u64) -> (u32, u32) {
    ((x as int / 0x1_0000_0000) as u32, (x as int % 0x1_0000_0000) as u32)
}

/// Splits a 64-bit value into its high and low 32-bit halves.
pub fn split_u64(x: u64) -> (r: (u32, u32))
    ensures
        r == spec_split(x),
        r.0 as int * 0x1_0000_0000 + r.1 as int == x as int,
{
    let high: u32 = (x >> 32u64) as u32;
    let low: u32 = (x & 0xffff_ffffu64) as u32;
    assert((x >> 32u64) == x / 0x1_0000_0000u64 && (x & 0xffff_ffffu64) == x % 0x1_0000_0000u64) by (bit_vector);
    assert(x / 0x1_0000_0000u64 < 0x1_0000_0000u64);
    (high, low)
}

/// The parameters of the `CreateFileMappingW` and `MapViewOfFile` calls that
/// make a view, and what is needed to turn their result into a mapping.
#[derive(Clone, Copy, Debug, PartialEq, Eq, Structural)]
pub struct ViewRequest {
    /// The high half of the size of the mapping object (the end of the view
    /// in the file).
    pub size_high: u32,
    /// The low half of the size of the mapping object.
    pub size_low: u32,
    /// The high half of the aligned file offset of the view.
    pub offset_high: u32,
    /// The low half of the aligned file offset of the view.
    pub offset_low: u32,
    /// The number of bytes to map from the aligned offset.
    pub map_length: usize,
    /// The bytes to skip from the start of the view to reach the requested
    /// bytes.
    pub view_offset: usize,
    /// The number of requested bytes.
    pub view_length: usize,
    /// The allocation granularity the request was aligned to.
    pub granularity: usize,
}

/// A 64-bit value put back together from its high and low halves.
pub open spec fn join_halves(high: u32, low: u32) -> int {
    high as int * 0x1_0000_0000 + low as int
}

/// The halves of a 64-bit value put back together give the value.
pub proof fn lemma_split_recombines(x: u64)
    ensures
        join_halves(spec_split(x).0, spec_split(x).1) == x,
{
    let d = 0x1_0000_0000int;
    vstd::arithmetic::div_mod::lemma_fundamental_div_mod(x as int, d);
    vstd::arithmetic::div_mod::lemma_mod_pos_bound(x as int, d);
    vstd::arithmetic::div_mod::lemma_div_pos_is_pos(x as int, d);
    vstd::arithmetic::div_mod::lemma_div_by_multiple_is_strongly_ordered(x as int, 0x1_0000_0000_0000_0000int, d, d);
    assert(x as int / d < d) by (nonlinear_arith)
        requires
            0 <= x < 0x1_0000_0000_0000_0000int,
            d == 0x1_0000_0000int,
    ;
}

impl ViewRequest {
    /// The request maps the requested bytes: the mapping object ends where
    /// the view ends in the file (`offset + len`), the view starts at a
    /// multiple of the granularity less than one granule before `offset`, and
    /// holds the prefix and the `len` requested bytes.
    pub open spec fn maps_view(self, len: usize, offset: u64, granularity: usize) -> bool {
        &&& join_halves(self.size_high, self.size_low) == offset + len
        &&& join_halves(self.offset_high, self.offset_low) % (granularity as int) == 0
        &&& join_halves(self.offset_high, self.offset_low) + self.view_offset == offset
        &&& self.view_offset < granularity
        &&& self.map_length == len + self.view_offset
        &&& self.view_length == len
        &&& self.granularity == granularity
    }

    /// The request holds together: the requested bytes lie inside the view.
    pub open spec fn wf(self) -> bool {
        &&& self.granularity > 0
        &&& self.view_offset < self.granularity
        &&& self.map_length == self.view_length + self.view_offset
        &&& self.view_length > 0
    }
}

/// The request for `len` bytes from file offset `offset`, where `len` is not
/// zero and the shape fits.
pub open spec fn spec_view_request(len: usize, offset: u64, granularity: usize) -> ViewRequest {
    let shape = spec_shape(offset, len, granularity);
    let end = (shape.map_offset + shape.map_length) as u64;
    ViewRequest {
        size_high: spec_split(end).0,
        size_low: spec_split(end).1,
        offset_high: spec_split(shape.map_offset).0,
        offset_low: spec_split(shape.map_offset).1,
        map_length: shape.map_length,
        view_offset: shape.view_offset,
        view_length: len,
        granularity,
    }
}

/// What a Windows mapping is: the address of the requested bytes, their
/// number, and the allocation granularity.
#[derive(Clone, Copy, Debug, PartialEq, Eq, Structural)]
pub struct MmapInnerView {
    pub ptr: usize,
    pub len: usize,
    pub granularity: usize,
}

/// The state of a Windows mapping.
#[derive(Debug)]
pub struct MmapInner {
    ptr: usize,
    len: usize,
    granularity: usize,
}

impl View for MmapInner {
    type V = MmapInnerView;

    closed spec fn view(&self) -> MmapInnerView {
        MmapInnerView { ptr: self.ptr, len: self.len, granularity: self.granularity }
    }
}

impl MmapInner {
    /// The address is not null, the bytes lie in the address space, and the
    /// granularity is not zero.
    #[verifier::type_invariant]
    closed spec fn inv(self) -> bool {
        &&& self.granularity > 0
        &&& self.ptr != 0
        &&& self.ptr + self.len <= usize::MAX
    }

    /// The request for a read-only view of `len` bytes of a file from
    /// `offset` on; none for zero bytes, which are not mapped.
    ///
    /// Fails as `MappingShape::new` does.
    pub fn prepare(len: usize, offset: u64, granularity: usize) -> (res: Result<Option<ViewRequest>, MapError>)
        requires
            granularity > 0,
        ensures
            len == 0 ==> res == Ok::<Option<ViewRequest>, MapError>(None),
            len > 0 ==> (res is Ok <==> shape_fits(offset, len, granularity)),
            len > 0 ==> (res matches Ok(r) ==> r == Some(spec_view_request(len, offset, granularity)) && r.unwrap().wf()),
            res matches Err(e) ==> e == spec_shape_error(offset, len, granularity),
            len > 0 ==> (res is Ok <==> len + offset % (granularity as u64) <= usize::MAX && offset + len <= u64::MAX),
            res matches Ok(Some(r)) ==> r.maps_view(len, offset, granularity),
    {
        if len == 0 {
            return Ok(None);
        }
        let shape = match MappingShape::new(offset, len, granularity) {
            Ok(s) => s,
            Err(e) => return Err(e),
        };
        let max_size: u64 = shape.map_end();
        let (size_high, size_low) = split_u64(max_size);
        let (offset_high, offset_low) = split_u64(shape.map_offset);
        proof {
            lemma_view_request_maps_view(len, offset, granularity);
        }
        Ok(Some(ViewRequest {
            size_high,
            size_low,
            offset_high,
            offset_low,
            map_length: shape.map_length,
            view_offset: shape.view_offset,
            view_length: len,
            granularity,
        }))
    }

    /// The empty mapping, at a non-null address that is never read.
    pub fn empty(address: usize, granularity: usize) -> (r: MmapInner)
        requires
            address != 0,
            granularity > 0,
        ensures
            r@ == (MmapInnerView { ptr: address, len: 0, granularity }),
    {
        MmapInner { ptr: address, len: 0, granularity }
    }

    /// The mapping that `MapViewOfFile` made for `request`, the view starting
    /// at `view_base`.
    pub fn from_view(request: &ViewRequest, view_base: usize) -> (r: MmapInner)
        requires
            request.wf(),
            view_base != 0,
            view_base % request.granularity == 0,
            view_base + request.map_length <= usize::MAX,
        ensures
            r@ == (MmapInnerView {
                ptr: (view_base + request.view_offset) as usize,
                len: request.view_length,
                granularity: request.granularity,
            }),
    {
        MmapInner {
            ptr: view_base + request.view_offset,
            len: request.view_length,
            granularity: request.granularity,
        }
    }

    /// The address of the requested bytes.
    pub fn pointer(&self) -> (r: usize)
        ensures
            r == self@.ptr,
            r != 0,
    {
        proof {
            use_type_invariant(self);
        }
        self.ptr
    }

    /// The number of requested bytes.
    pub fn length(&self) -> (r: usize)
        ensures
            r == self@.len,
    {
        self.len
    }

    /// The `(address, length)` of the `PrefetchVirtualMemory` call for
    /// `advice` on `len` bytes from `offset`: only `WillNeed` on a non-empty
    /// range has one; every other hint is accepted and does nothing.
    pub fn advise(&self, advice: Advice, offset: usize, len: usize) -> (r: Option<(usize, usize)>)
        requires
            offset + len <= self@.len,
        ensures
            r == (if advice == Advice::WillNeed && len > 0 {
                Some(((self@.ptr + offset) as usize, len))
            } else {
                None
            }),
    {
        proof {
            use_type_invariant(self);
        }
        match advice {
            Advice::WillNeed => {
                if len > 0 {
                    Some((self.ptr + offset, len))
                } else {
                    None
                }
            },
            _ => None,
        }
    }

    /// The hint for `len` bytes from `offset`, as the public layer gives it:
    /// fails with `InvalidRange` unless `offset..offset + len` lies inside the
    /// mapping, and otherwise is the `PrefetchVirtualMemory` call, if any.
    pub fn advise_range(&self, advice: Advice, offset: usize, len: usize) -> (res: Result<Option<(usize, usize)>, MapError>)
        ensures
            res is Err <==> offset + len > self@.len,
            res matches Err(e) ==> e == MapError::InvalidRange,
            res matches Ok(r) ==> r == (if advice == Advice::WillNeed && len > 0 {
                Some(((self@.ptr + offset) as usize, len))
            } else {
                None
            }),
    {
        let end: usize = match offset.checked_add(len) {
            Some(e) => e,
            None => return Err(MapError::InvalidRange),
        };
        if end > self.len {
            return Err(MapError::InvalidRange);
        }
        Ok(self.advise(advice, offset, len))
    }

    /// The address that `UnmapViewOfFile` releases: the start of the view,
    /// aligned down to the granularity; none for the empty mapping.
    pub fn unmap_address(&self) -> (r: Option<usize>)
        ensures
            r == (if self@.len == 0 {
                None
            } else {
                Some((self@.ptr - self@.ptr % self@.granularity) as usize)
            }),
    {
        proof {
            use_type_invariant(self);
        }
        if self.len == 0 {
            return None;
        }
        proof {
            lemma_mod_le(self.ptr, self.granularity);
        }
        Some(self.ptr - self.ptr % self.granularity)
    }
}

/// The view built from what `MapViewOfFile` returned is released by
/// `UnmapViewOfFile` with exactly that address.
pub proof fn lemma_unmap_matches_view(request: ViewRequest, view_base: usize)
    requires
        request.wf(),
        view_base % request.granularity == 0,
        view_base + request.map_length <= usize::MAX,
    ensures
        ({
            let p = (view_base + request.view_offset) as usize;
            (p - p % request.granularity) == view_base
        }),
{
    let g = request.granularity as int;
    let off = request.view_offset as int;
    let b = view_base as int;
    assert((b + off) % g == off) by (nonlinear_arith)
        requires
            g > 0,
            b % g == 0,
            0 <= off < g,
            b >= 0,
    {
        vstd::arithmetic::div_mod::lemma_mod_adds(b, off, g);
        vstd::arithmetic::div_mod::lemma_small_mod(off as nat, g as nat);
    }
}

/// Preparing a non-empty view succeeds exactly when the view plus its
/// alignment prefix fits in `usize` and its end in the file fits in `u64`;
/// the request then maps the requested bytes, its mapping object ending at
/// `offset + len`.
pub proof fn lemma_view_request_maps_view(len: usize, offset: u64, granularity: usize)
    requires
        granularity > 0,
        len > 0,
    ensures
        shape_fits(offset, len, granularity) <==> len + offset % (granularity as u64) <= usize::MAX && offset + len <= u64::MAX,
        shape_fits(offset, len, granularity) ==> spec_view_request(len, offset, granularity).maps_view(len, offset, granularity),
{
    lemma_shape_fits_exactly(offset, len, granularity);
    if shape_fits(offset, len, granularity) {
        lemma_shape_covers(offset, len, granularity);
        let shape = spec_shape(offset, len, granularity);
        lemma_split_recombines(shape.map_offset);
        lemma_split_recombines((shape.map_offset + shape.map_length) as u64);
    }
}

} // verus!
