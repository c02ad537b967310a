use vstd::prelude::*;

verus! {

/// A rasterizer that produces lines.
#[derive(Copy, Clone, Debug, Default)]
pub struct Lines;

/// The points, in order, of the Bresenham line segment from `(x0, y0)`
/// towards `(x1, y1)` (the end point excluded) that lie in the closed window
/// `[x_min, x_max] x [y_min, y_max]`.
pub uninterp spec fn clipped_line(
    x0: isize,
    y0: isize,
    x1: isize,
    y1: isize,
    x_min: isize,
    y_min: isize,
    x_max: isize,
    y_max: isize,
) -> Seq<(isize, isize)>;

/// Relies on clipline's `Viewport::from_min_max` and `Viewport::line_b`: the
/// points of the Bresenham line segment from `(x0, y0)` towards `(x1, y1)`
/// (the end point excluded) that lie in the closed window `[x_min, x_max] x
/// [y_min, y_max]`, in order; none when the window is empty or the segment
/// misses it.
#[verifier::external_body]
fn clipped_segment(
    x0: isize,
    y0: isize,
    x1: isize,
    y1: isize,
    x_min: isize,
    y_min: isize,
    x_max: isize,
    y_max: isize,
) -> (r: Vec<(isize, isize)>)
    ensures
        r@ == clipped_line(x0, y0, x1, y1, x_min, y_min, x_max, y_max),
        forall|i: int|
            0 <= i < r@.len() ==> x_min <= (#[trigger] r@[i]).0 <= x_max && y_min <= r@[i].1 <= y_max,
{
    match clipline::Viewport::<isize>::from_min_max(x_min, y_min, x_max, y_max) {
        Some(window) => match window.line_b(x0, y0, x1, y1) {
            Some(line) => line.collect(),
            None => Vec::new(),
        },
        None => Vec::new(),
    }
}

/// Points with non-negative coordinates as pixel positions.
pub open spec fn as_pixels(points: Seq<(isize, isize)>) -> Seq<[usize; 2]> {
    points.map_values(|p: (isize, isize)| [p.0 as usize, p.1 as usize])
}

/// Points with non-negative coordinates as pixel positions, in the same order.
pub fn to_pixels(points: &Vec<(isize, isize)>) -> (r: Vec<[usize; 2]>)
    requires
        forall|i: int| 0 <= i < points@.len() ==> 0 <= (#[trigger] points@[i]).0 && 0 <= points@[i].1,
    ensures
        r@ == as_pixels(points@),
{
    let mut out: Vec<[usize; 2]> = Vec::new();
    let mut k: usize = 0;
    while k < points.len()
        invariant
            k <= points@.len(),
            out@ == as_pixels(points@.take(k as int)),
        decreases points@.len() - k,
    {
        let (x, y) = points[k];
        out.push([x as usize, y as usize]);
        k = k + 1;
        assert(points@.take(k as int) =~= points@.take(k - 1).push(points@[k - 1]));
        assert(as_pixels(points@.take(k as int)) =~= as_pixels(points@.take(k - 1)).push([x as usize, y as usize]));
    }
    assert(points@.take(points@.len() as int) =~= points@);
    out
}

/// Whether a line from `from` to `to` advances further along x than along y,
/// so that interpolation along it follows x.
pub fn major_axis_is_x(from: [isize; 2], to: [isize; 2]) -> (r: bool)
    ensures
        r == (abs_spec(from[0] - to[0]) > abs_spec(from[1] - to[1])),
{
    let dx = from[0] as i128 - to[0] as i128;
    let dy = from[1] as i128 - to[1] as i128;
    let ax = if dx < 0 {
        -dx
    } else {
        dx
    };
    let ay = if dy < 0 {
        -dy
    } else {
        dy
    };
    ax > ay
}

/// The absolute value of `v`.
pub open spec fn abs_spec(v: int) -> int {
    if v < 0 {
        -v
    } else {
        v
    }
}

/// The clip window of a line: its box `[lo, hi)` intersected with the tile
/// `[tile_min, tile_max)`, as inclusive bounds `(x_min, y_min, x_max, y_max)`.
pub open spec fn line_window(lo: [isize; 2], hi: [isize; 2], tile_min: [usize; 2], tile_max: [usize; 2]) -> (
    int,
    int,
    int,
    int,
) {
    let x_min = if lo[0] > tile_min[0] { lo[0] as int } else { tile_min[0] as int };
    let y_min = if lo[1] > tile_min[1] { lo[1] as int } else { tile_min[1] as int };
    let x_end = if hi[0] < tile_max[0] { hi[0] as int } else { tile_max[0] as int };
    let y_end = if hi[1] < tile_max[1] { hi[1] as int } else { tile_max[1] as int };
    (x_min, y_min, x_end - 1, y_end - 1)
}

/// The pixels that a line from `from` to `to` covers inside the window `[lo,
/// hi)` (the line's bounding box) and inside the tile `[tile_min, tile_max)`
/// being rasterized, in order along the line: the clipped Bresenham segment.
pub fn line_pixels(
    from: [isize; 2],
    to: [isize; 2],
    lo: [isize; 2],
    hi: [isize; 2],
    tile_min: [usize; 2],
    tile_max: [usize; 2],
) -> (r: Vec<[usize; 2]>)
    requires
        tile_min[0] <= tile_max[0] <= isize::MAX,
        tile_min[1] <= tile_max[1] <= isize::MAX,
    ensures
        ({
            let (x_min, y_min, x_max, y_max) = line_window(lo, hi, tile_min, tile_max);
            if x_min <= x_max && y_min <= y_max {
                r@ == as_pixels(
                    clipped_line(
                        from[0],
                        from[1],
                        to[0],
                        to[1],
                        x_min as isize,
                        y_min as isize,
                        x_max as isize,
                        y_max as isize,
                    ),
                )
            } else {
                r@.len() == 0
            }
        }),
        forall|i: int|
            0 <= i < r@.len() ==> {
                &&& tile_min[0] <= (#[trigger] r@[i])[0] < tile_max[0]
                &&& tile_min[1] <= r@[i][1] < tile_max[1]
                &&& lo[0] <= r@[i][0] < hi[0]
                &&& lo[1] <= r@[i][1] < hi[1]
            },
{
    let x_min = if lo[0] > tile_min[0] as isize {
        lo[0]
    } else {
        tile_min[0] as isize
    };
    let y_min = if lo[1] > tile_min[1] as isize {
        lo[1]
    } else {
        tile_min[1] as isize
    };
    let x_end = if hi[0] < tile_max[0] as isize {
        hi[0]
    } else {
        tile_max[0] as isize
    };
    let y_end = if hi[1] < tile_max[1] as isize {
        hi[1]
    } else {
        tile_max[1] as isize
    };
    if x_end <= x_min || y_end <= y_min {
        return Vec::new();
    }
    let points = clipped_segment(from[0], from[1], to[0], to[1], x_min, y_min, x_end - 1, y_end - 1);
    let r = to_pixels(&points);
    assert forall|i: int| 0 <= i < r@.len() implies {
        &&& tile_min[0] <= (#[trigger] r@[i])[0] < tile_max[0]
        &&& tile_min[1] <= r@[i][1] < tile_max[1]
        &&& lo[0] <= r@[i][0] < hi[0]
        &&& lo[1] <= r@[i][1] < hi[1]
    } by {
        assert(x_min <= points@[i].0 <= x_end - 1 && y_min <= points@[i].1 <= y_end - 1);
    }
    r
}

} // verus!
