use core::cmp::Ordering;
use vstd::prelude::*;

verus! {

/// A rasterizer that produces filled triangles.
#[derive(Copy, Clone, Debug, Default)]
pub struct Triangles;

/// The face culling strategy used during rendering.
#[derive(Copy, Clone, Debug, PartialEq, Eq, Hash, Structural)]
pub enum CullMode {
    /// Do not cull triangles regardless of their winding order.
    Disabled,
    /// Cull clockwise triangles.
    Back,
    /// Cull counter-clockwise triangles.
    Front,
}

impl Default for CullMode {
    fn default() -> (r: Self)
        ensures
            r == CullMode::Back,
    {
        CullMode::Back
    }
}

/// What the rasterizer does with a triangle once its winding is known.
#[derive(Copy, Clone, Debug, PartialEq, Eq, Hash, Structural)]
pub enum FaceAction {
    /// The triangle is culled and produces no fragments.
    Cull,
    /// The triangle is rasterized with its vertices in the given order.
    Keep,
    /// The triangle is rasterized with its vertex order reversed, so that
    /// every rasterized triangle has the same orientation.
    Reverse,
}

/// The action for a triangle whose screen-space winding (the z component of
/// the cross product of two edges) compares with zero as `winding`; `None`
/// stands for a winding that is not a number.
///
/// Back-face culling removes triangles of negative winding, front-face
/// culling those of positive winding. A surviving triangle of winding zero
/// or above has its vertex order reversed.
pub open spec fn face_action_spec(cull: CullMode, winding: Option<Ordering>) -> FaceAction {
    let culled = match cull {
        CullMode::Disabled => false,
        CullMode::Back => winding == Some(Ordering::Less),
        CullMode::Front => winding == Some(Ordering::Greater),
    };
    if culled {
        FaceAction::Cull
    } else if winding == Some(Ordering::Equal) || winding == Some(Ordering::Greater) {
        FaceAction::Reverse
    } else {
        FaceAction::Keep
    }
}

/// Decide whether a triangle is culled, kept, or kept with its vertex order
/// reversed, from how its winding compares with zero.
pub fn face_action(cull: CullMode, winding: Option<Ordering>) -> (r: FaceAction)
    ensures
        r == face_action_spec(cull, winding),
{
    let culled = match cull {
        CullMode::Disabled => false,
        CullMode::Back => matches!(winding, Some(Ordering::Less)),
        CullMode::Front => matches!(winding, Some(Ordering::Greater)),
    };
    if culled {
        FaceAction::Cull
    } else if matches!(winding, Some(Ordering::Equal) | Some(Ordering::Greater)) {
        FaceAction::Reverse
    } else {
        FaceAction::Keep
    }
}

/// Reverse the order of three items.
pub fn rev<T>(items: [T; 3]) -> (r: [T; 3])
    ensures
        r@ == seq![items@[2], items@[1], items@[0]],
{
    let mut r = items;
    {
        let (head, tail) = r.split_at_mut(2);
        core::mem::swap(&mut head[0], &mut tail[0]);
    }
    assert(r@ =~= seq![items@[2], items@[1], items@[0]]);
    r
}

/// `v` clamped to `[lo, hi]`.
pub open spec fn clamp_spec(v: int, lo: int, hi: int) -> int {
    if v < lo {
        lo
    } else if v > hi {
        hi
    } else {
        v
    }
}

/// The pixel bounding box of a primitive, clamped to the tile `[tile_min,
/// tile_max)` that is being rasterized. `lo` and `hi` are the primitive's
/// screen-space minimum and one past its maximum, truncated to pixels.
pub fn clamp_bounds(lo: [usize; 2], hi: [usize; 2], tile_min: [usize; 2], tile_max: [usize; 2]) -> (r: (
    [usize; 2],
    [usize; 2],
))
    requires
        tile_min[0] <= tile_max[0],
        tile_min[1] <= tile_max[1],
    ensures
        forall|i: int|
            0 <= i < 2 ==> r.0[i] == clamp_spec(lo[i] as int, tile_min[i] as int, tile_max[i] as int)
                && r.1[i] == clamp_spec(hi[i] as int, tile_min[i] as int, tile_max[i] as int),
{
    let r = (
        [clamp(lo[0], tile_min[0], tile_max[0]), clamp(lo[1], tile_min[1], tile_max[1])],
        [clamp(hi[0], tile_min[0], tile_max[0]), clamp(hi[1], tile_min[1], tile_max[1])],
    );
    assert(forall|i: int| 0 <= i < 2 ==> r.0[i] == clamp_spec(lo[i] as int, tile_min[i] as int, tile_max[i] as int) && r.1[i] == clamp_spec(hi[i] as int, tile_min[i] as int, tile_max[i] as int)) by {
        assert(lo@[0] == lo[0] && lo@[1] == lo[1]);
    }
    r
}

fn clamp(v: usize, lo: usize, hi: usize) -> (r: usize)
    requires
        lo <= hi,
    ensures
        r == clamp_spec(v as int, lo as int, hi as int),
{
    if v < lo {
        lo
    } else if v > hi {
        hi
    } else {
        v
    }
}

/// The number of pixels of a bounding box from which rows are narrowed to the
/// triangle's own horizontal extent.
pub const ROW_BOUNDS_AREA: usize = 128;

/// Whether the rows of the bounding box `[min, max)` are narrowed to the
/// triangle's horizontal extent: only boxes of at least
/// `ROW_BOUNDS_AREA` pixels are.
pub fn uses_row_bounds(min: [usize; 2], max: [usize; 2]) -> (r: bool)
    requires
        min[0] <= max[0],
        min[1] <= max[1],
    ensures
        r == ((max[0] - min[0]) * (max[1] - min[1]) >= ROW_BOUNDS_AREA),
{
    let w = (max[0] - min[0]) as u128;
    let h = (max[1] - min[1]) as u128;
    proof {
        assert(w * h <= 0xffff_ffff_ffff_ffff * 0xffff_ffff_ffff_ffffu128) by (nonlinear_arith)
            requires
                w <= 0xffff_ffff_ffff_ffff,
                h <= 0xffff_ffff_ffff_ffff,
        ;
    }
    w * h >= ROW_BOUNDS_AREA as u128
}

/// The start of a row's pixel span: the row's left edge when it lies inside
/// `[min_x, max_x)`, and `min_x` otherwise.
pub open spec fn span_start_spec(left: Option<usize>, min_x: usize, max_x: usize) -> usize {
    match left {
        Some(e) if min_x <= e < max_x => e,
        _ => min_x,
    }
}

/// The end of a row's pixel span: the row's right edge when it lies inside
/// `[min_x, max_x)`, and `max_x` otherwise.
pub open spec fn span_end_spec(right: Option<usize>, min_x: usize, max_x: usize) -> usize {
    match right {
        Some(e) if min_x <= e < max_x => e,
        _ => max_x,
    }
}

/// The pixels `[start, end)` of a row that are tested against a triangle,
/// given the bounding box columns `[min_x, max_x)` and, where rows are
/// narrowed, the columns of the row's left and right triangle edges (rounded
/// down and up; `None` where an edge is not a non-negative number).
pub fn row_span(min_x: usize, max_x: usize, left: Option<usize>, right: Option<usize>) -> (r: (
    usize,
    usize,
))
    requires
        min_x <= max_x,
    ensures
        r.0 == span_start_spec(left, min_x, max_x),
        r.1 == span_end_spec(right, min_x, max_x),
        min_x <= r.0 <= max_x,
        min_x <= r.1 <= max_x,
{
    let start = match left {
        Some(e) => if min_x <= e && e < max_x {
            e
        } else {
            min_x
        },
        None => min_x,
    };
    let end = match right {
        Some(e) => if min_x <= e && e < max_x {
            e
        } else {
            max_x
        },
        None => max_x,
    };
    (start, end)
}

/// The ordering of the negated value: the winding of a triangle whose vertex
/// order is reversed.
pub open spec fn negated(o: Ordering) -> Ordering {
    match o {
        Ordering::Less => Ordering::Greater,
        Ordering::Equal => Ordering::Equal,
        Ordering::Greater => Ordering::Less,
    }
}

/// With back-face culling, of a triangle of non-zero winding and the same
/// triangle with its vertex order reversed, exactly one is culled: the one of
/// negative winding. The survivor is rasterized with its vertex order
/// reversed, so both submissions draw the front face in the same orientation.
pub proof fn lemma_back_face_culling(winding: Ordering)
    requires
        winding != Ordering::Equal,
    ensures
        (face_action_spec(CullMode::Back, Some(winding)) == FaceAction::Cull) != (face_action_spec(
            CullMode::Back,
            Some(negated(winding)),
        ) == FaceAction::Cull),
        face_action_spec(CullMode::Back, Some(winding)) == FaceAction::Cull <==> winding
            == Ordering::Less,
        face_action_spec(CullMode::Back, Some(winding)) != FaceAction::Cull ==> face_action_spec(
            CullMode::Back,
            Some(winding),
        ) == FaceAction::Reverse,
{
}

/// Every pixel that the triangle rasterizer tests lies inside the tile being
/// rasterized and inside the triangle's screen-space bounding box. Along each
/// axis the box is `[lo, hi)` and the tile `[tile_min, tile_max)`; the row `y`
/// is one of the clamped box, and the column `x` one of the row's span, which
/// is either the whole clamped box row or the span narrowed to the row's
/// edges `left` and `right`.
pub proof fn lemma_fragments_in_bounds(
    lo: [usize; 2],
    hi: [usize; 2],
    tile_min: [usize; 2],
    tile_max: [usize; 2],
    narrowed: bool,
    left: Option<usize>,
    right: Option<usize>,
    x: int,
    y: int,
)
    requires
        tile_min[0] <= tile_max[0],
        tile_min[1] <= tile_max[1],
        clamp_spec(lo[1] as int, tile_min[1] as int, tile_max[1] as int) <= y < clamp_spec(
            hi[1] as int,
            tile_min[1] as int,
            tile_max[1] as int,
        ),
        ({
            let min_x = clamp_spec(lo[0] as int, tile_min[0] as int, tile_max[0] as int) as usize;
            let max_x = clamp_spec(hi[0] as int, tile_min[0] as int, tile_max[0] as int) as usize;
            if narrowed {
                span_start_spec(left, min_x, max_x) <= x < span_end_spec(right, min_x, max_x)
            } else {
                min_x <= x < max_x
            }
        }),
    ensures
        tile_min[0] <= x < tile_max[0],
        tile_min[1] <= y < tile_max[1],
        lo[0] <= x < hi[0],
        lo[1] <= y < hi[1],
{
}

} // verus!
