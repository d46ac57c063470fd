//! From a requested view to the aligned parameters of a mapping.

use vstd::prelude::*;
use crate::error::MapError;

verus! {

/// The aligned parameters of a mapping that shows `view_length` bytes of a
/// file from byte `offset` on.
///
/// `map_offset` is the file offset handed to the operating system (a
/// multiple of the granularity), `map_length` the number of bytes mapped from
/// there (the alignment prefix included) and `view_offset` the number of
/// bytes to skip from the start of the mapping to reach the view.
#[derive(Clone, Copy, Debug, PartialEq, Eq, Structural)]
pub struct MappingShape {
    pub map_offset: u64,
    pub map_length: usize,
    pub view_offset: usize,
}

/// The prefix that aligning `offset` down to `granularity` adds.
pub open spec fn spec_view_offset(offset: u64, granularity: usize) -> int {
    offset as int % granularity as int
}

/// Whether the shape of a view can be represented: the mapped length fits in
/// `usize` and the end of the mapping in the file fits in `u64`.
pub open spec fn shape_fits(offset: u64, view_length: usize, granularity: usize) -> bool {
    let view_offset = spec_view_offset(offset, granularity);
    &&& view_length + view_offset <= usize::MAX
    &&& (offset - view_offset) + (view_length + view_offset) <= u64::MAX
}

/// The shape of a view, where it fits.
pub open spec fn spec_shape(offset: u64, view_length: usize, granularity: usize) -> MappingShape {
    let view_offset = spec_view_offset(offset, granularity);
    MappingShape {
        map_offset: (offset - view_offset) as u64,
        map_length: (view_length + view_offset) as usize,
        view_offset: view_offset as usize,
    }
}

/// The error reported for a view whose shape does not fit.
pub open spec fn spec_shape_error(offset: u64, view_length: usize, granularity: usize) -> MapError {
    if view_length + spec_view_offset(offset, granularity) > usize::MAX {
        MapError::LengthOverflowsUsize
    } else {
        MapError::OffsetLengthOverflowsU64
    }
}

impl MappingShape {
    /// The shape maps the view: the mapping starts at a multiple of the
    /// granularity, the view starts `view_offset` bytes into it, less than one
    /// granule on, at the requested offset, and the mapping ends where the
    /// view ends, inside the range of `u64`.
    pub open spec fn covers(self, offset: u64, view_length: usize, granularity: usize) -> bool {
        &&& self.map_offset % (granularity as u64) == 0
        &&& self.view_offset < granularity
        &&& self.map_offset + self.view_offset == offset
        &&& self.map_length == view_length + self.view_offset
        &&& self.map_offset + self.map_length <= u64::MAX
    }

    /// Aligns a requested view down to `granularity`.
    ///
    /// Fails with `LengthOverflowsUsize` when the view plus its alignment
    /// prefix does not fit in `usize`, and with `OffsetLengthOverflowsU64`
    /// when the end of the mapping in the file does not fit in `u64`.
    pub fn new(offset: u64, view_length: usize, granularity: usize) -> (res: Result<MappingShape, MapError>)
        requires
            granularity > 0,
        ensures
            res is Ok <==> shape_fits(offset, view_length, granularity),
            res matches Ok(shape) ==> shape == spec_shape(offset, view_length, granularity),
            res matches Ok(shape) ==> shape.covers(offset, view_length, granularity),
            res matches Err(e) ==> e == spec_shape_error(offset, view_length, granularity),
            res is Ok <==> view_length + offset % (granularity as u64) <= usize::MAX && offset + view_length <= u64::MAX,
            res == Err::<MappingShape, MapError>(MapError::LengthOverflowsUsize) <==> view_length + offset % (granularity as u64) > usize::MAX,
    {
        let g: u64 = granularity as u64;
        assert(offset % g <= offset && offset % g < g) by (nonlinear_arith)
            requires
                g > 0,
        ;
        let view_offset: usize = (offset % g) as usize;
        let map_offset: u64 = offset - view_offset as u64;
        assert(map_offset % g == 0) by (nonlinear_arith)
            requires
                g > 0,
                map_offset == offset - offset % g,
        {
            vstd::arithmetic::div_mod::lemma_fundamental_div_mod(offset as int, g as int);
            vstd::arithmetic::div_mod::lemma_mod_multiples_basic(offset as int / g as int, g as int);
        }
        let map_length: usize = match view_length.checked_add(view_offset) {
            Some(v) => v,
            None => return Err(MapError::LengthOverflowsUsize),
        };
        let map_length_u64: u64 = map_length as u64;
        if map_offset.checked_add(map_length_u64).is_none() {
            return Err(MapError::OffsetLengthOverflowsU64);
        }
        Ok(MappingShape { map_offset, map_length, view_offset })
    }

    /// The file offset one past the end of the mapping.
    pub fn map_end(&self) -> (end: u64)
        requires
            self.map_offset + self.map_length <= u64::MAX,
        ensures
            end == self.map_offset + self.map_length,
    {
        self.map_offset + self.map_length as u64
    }
}

/// Where the shape of a view fits, it maps the view: it starts at a multiple
/// of the granularity, at most one granule before the requested offset, and
/// ends where the view ends.
pub proof fn lemma_shape_covers(offset: u64, view_length: usize, granularity: usize)
    requires
        granularity > 0,
        shape_fits(offset, view_length, granularity),
    ensures
        spec_shape(offset, view_length, granularity).covers(offset, view_length, granularity),
{
    let o = offset as int;
    let g = granularity as int;
    vstd::arithmetic::div_mod::lemma_fundamental_div_mod(o, g);
    vstd::arithmetic::div_mod::lemma_mod_pos_bound(o, g);
    vstd::arithmetic::div_mod::lemma_div_pos_is_pos(o, g);
    vstd::arithmetic::mul::lemma_mul_nonnegative(g, o / g);
    vstd::arithmetic::mul::lemma_mul_is_commutative(g, o / g);
    vstd::arithmetic::div_mod::lemma_mod_multiples_basic(o / g, g);
}

/// Aligning succeeds exactly when the view plus its alignment prefix fits in
/// `usize` and the end of the view in the file fits in `u64`; where the first
/// fails the error is `LengthOverflowsUsize`, else `OffsetLengthOverflowsU64`.
pub proof fn lemma_shape_fits_exactly(offset: u64, view_length: usize, granularity: usize)
    requires
        granularity > 0,
    ensures
        shape_fits(offset, view_length, granularity) <==> (view_length + offset % (granularity as u64) <= usize::MAX
            && offset + view_length <= u64::MAX),
        !shape_fits(offset, view_length, granularity) ==> (spec_shape_error(offset, view_length, granularity)
            == MapError::LengthOverflowsUsize <==> view_length + offset % (granularity as u64) > usize::MAX),
        !shape_fits(offset, view_length, granularity) ==> (spec_shape_error(offset, view_length, granularity)
            == MapError::OffsetLengthOverflowsU64 <==> view_length + offset % (granularity as u64) <= usize::MAX),
{
    vstd::arithmetic::div_mod::lemma_mod_pos_bound(offset as int, granularity as int);
}

} // verus!
