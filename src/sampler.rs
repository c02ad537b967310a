use vstd::prelude::*;

verus! {

/// `a` if it is below `b`, else `b`.
pub open spec fn min_spec(a: int, b: int) -> int {
    if a < b {
        a
    } else {
        b
    }
}

/// The texel index that nearest-neighbour sampling reads along an axis of
/// `extent` texels, from the sample position `raw` scaled to texels (and
/// truncated at zero): the position, kept below the extent.
pub fn nearest_index(raw: usize, extent: usize) -> (r: usize)
    requires
        extent > 0,
    ensures
        r == min_spec(raw as int, extent - 1),
        r < extent,
{
    if raw < extent - 1 {
        raw
    } else {
        extent - 1
    }
}

/// The two texel indices that linear sampling blends along an axis of
/// `extent` texels, from the truncated texel position `pos`: the texel at the
/// position and its successor, both kept below the extent.
pub fn linear_taps(pos: usize, extent: usize) -> (r: (usize, usize))
    requires
        extent > 0,
    ensures
        r.0 == min_spec(pos as int, extent - 1),
        r.1 == min_spec(pos + 1, extent - 1),
        r.0 < extent,
        r.1 < extent,
{
    let next = if pos < extent - 1 {
        pos + 1
    } else {
        extent - 1
    };
    (nearest_index(pos, extent), next)
}

} // verus!
