use crate::buffer::{extent_product, extents_fit, texel_count, Buffer2d};
use crate::dispatch::pow2_usize;
use vstd::arithmetic::power2::pow2;
use vstd::prelude::*;

verus! {

/// A per-primitive cache of fragments evaluated on the multi-sampling grid of
/// a tile: the tile is divided into cells of `2^level` pixels per axis, a
/// fragment is evaluated at most once per grid point and primitive, and a
/// pixel blends the fragments of the four grid points around it.
pub struct MsaaCache<F> {
    cells: Buffer2d<(u64, Option<F>)>,
    primitive: u64,
    level: usize,
    scale: usize,
    tile_min: [usize; 2],
    tile_max: [usize; 2],
}

/// The number of grid points along an axis of `extent` pixels in cells of
/// `scale` pixels, with a margin around them.
pub open spec fn grid_extent(extent: nat, scale: nat) -> nat
    recommends
        scale >= 1,
{
    extent / scale + 3
}

/// How much room the positions of a tile leave below `usize::MAX`.
pub const POSITION_HEADROOM: usize = 128;

impl<F> MsaaCache<F> {
    /// The cache's fields agree: the grid covers the tile with a margin.
    pub closed spec fn well_formed(&self) -> bool {
        &&& self.cells.well_formed()
        &&& self.cells.dims().len() == 2
        &&& self.level <= 6
        &&& self.scale == pow2(self.level as nat)
        &&& self.axis_fits(0)
        &&& self.axis_fits(1)
    }

    /// Along axis `i` the tile is ordered, leaves room for positions, and the
    /// grid covers it with a margin.
    closed spec fn axis_fits(&self, i: int) -> bool {
        &&& self.tile_min[i] <= self.tile_max[i]
        &&& self.tile_max[i] <= usize::MAX - POSITION_HEADROOM
        &&& self.cells.dims()[i] == grid_extent(
            (self.tile_max[i] - self.tile_min[i]) as nat,
            self.scale as nat,
        )
    }

    /// The primitive whose fragments the cache currently holds.
    pub closed spec fn primitive(&self) -> u64 {
        self.primitive
    }

    /// The side of a grid cell in pixels.
    pub closed spec fn scale(&self) -> nat {
        self.scale as nat
    }

    /// The tile that the cache covers.
    pub closed spec fn tile(&self) -> ([usize; 2], [usize; 2]) {
        (self.tile_min, self.tile_max)
    }

    /// The number of grid points along each axis.
    pub closed spec fn grid(&self) -> Seq<usize> {
        self.cells.dims()
    }

    /// The fragment cached for the current primitive at grid point `(cx, cy)`.
    pub closed spec fn cached(&self, cx: int, cy: int) -> Option<F> {
        let cell = self.cells.texels()[(cx + 1) + (cy + 1) * self.cells.dims()[0]];
        if cell.0 == self.primitive {
            cell.1
        } else {
            None
        }
    }

    /// Create an empty cache for the tile `[tile_min, tile_max)` at the given
    /// multi-sampling level, or `None` when its grid would not fit in memory.
    pub fn new(tile_min: [usize; 2], tile_max: [usize; 2], level: usize) -> (r: Option<Self>)
        requires
            1 <= level <= 6,
            tile_min[0] <= tile_max[0] <= usize::MAX - POSITION_HEADROOM,
            tile_min[1] <= tile_max[1] <= usize::MAX - POSITION_HEADROOM,
        ensures
            r is None <==> grid_extent((tile_max[0] - tile_min[0]) as nat, pow2(level as nat))
                * grid_extent((tile_max[1] - tile_min[1]) as nat, pow2(level as nat)) > usize::MAX,
            r matches Some(c) ==> {
                &&& c.well_formed()
                &&& c.scale() == pow2(level as nat)
                &&& c.tile() == (tile_min, tile_max)
                &&& forall|cx: int, cy: int|
                    0 <= cx + 1 < c.grid()[0] && 0 <= cy + 1 < c.grid()[1] ==> #[trigger] c.cached(
                        cx,
                        cy,
                    ) is None
            },
    {
        let scale = pow2_usize(level);
        let gw = (tile_max[0] - tile_min[0]) / scale + 3;
        let gh = (tile_max[1] - tile_min[1]) / scale + 3;
        proof {
            assert(gw * gh <= 0xffff_ffff_ffff_ffff * 0xffff_ffff_ffff_ffffu128) by (nonlinear_arith)
                requires
                    gw <= 0xffff_ffff_ffff_ffff,
                    gh <= 0xffff_ffff_ffff_ffff,
            ;
        }
        if gw as u128 * gh as u128 > usize::MAX as u128 {
            return None;
        }
        let size = [gw, gh];
        proof {
            reveal_with_fuel(extent_product, 3);
            assert(gw <= gw * gh) by (nonlinear_arith)
                requires
                    gh >= 3,
            ;
            assert(extent_product(size@, 1) == gw) by {
                assert(extent_product(size@, 0) == 1);
                assert(extent_product(size@, 1) == extent_product(size@, 0) * (gw as nat));
                assert(1 * (gw as nat) == gw) by (nonlinear_arith);
            }
            assert(extent_product(size@, 2) == extent_product(size@, 1) * (gh as nat));
            assert(extents_fit(size@));
        }
        let empty = || -> (c: (u64, Option<F>))
            ensures
                c == (u64::MAX, None::<F>),
        { (u64::MAX, None) };
        let cells = Buffer2d::fill_with(size, empty);
        let r = MsaaCache { cells, primitive: 0, level, scale, tile_min, tile_max };
        proof {
            assert(texel_count(size@) == gw * gh);
            assert forall|cx: int, cy: int|
                0 <= cx + 1 < r.grid()[0] && 0 <= cy + 1 < r.grid()[1] implies #[trigger] r.cached(
                    cx,
                    cy,
                ) is None by {
                assert((cx + 1) + (cy + 1) * gw < gw * gh) by (nonlinear_arith)
                    requires
                        0 <= cx + 1 < gw,
                        0 <= cy + 1 < gh,
                ;
            }
        }
        Some(r)
    }

    /// Indicate that a new primitive is now being rasterized: fragments cached
    /// for earlier primitives are no longer used.
    pub fn begin_primitive(&mut self)
        requires
            old(self).well_formed(),
        ensures
            final(self).well_formed(),
            final(self).primitive() == old(self).primitive().wrapping_add(1),
            final(self).scale() == old(self).scale(),
            final(self).tile() == old(self).tile(),
            final(self).grid() == old(self).grid(),
    {
        self.primitive = self.primitive.wrapping_add(1);
    }

    /// The grid cell of the pixel `(x, y)` of the tile and the pixel's offset
    /// inside it, per axis: `(cx, cy, ox, oy)` with `x = tile_min + cx * scale
    /// + ox`. The four grid points `(cx..=cx+1, cy..=cy+1)` around the pixel
    /// can all be fetched.
    pub fn cell_of(&self, x: usize, y: usize) -> (r: (usize, usize, usize, usize))
        requires
            self.well_formed(),
            self.tile().0[0] <= x < self.tile().1[0],
            self.tile().0[1] <= y < self.tile().1[1],
        ensures
            r.0 == (x - self.tile().0[0]) as nat / self.scale(),
            r.1 == (y - self.tile().0[1]) as nat / self.scale(),
            r.2 == (x - self.tile().0[0]) as nat % self.scale(),
            r.3 == (y - self.tile().0[1]) as nat % self.scale(),
            r.0 + 2 < self.grid()[0],
            r.1 + 2 < self.grid()[1],
    {
        proof {
            vstd::arithmetic::power2::lemma_pow2_pos(self.level as nat);
            assert(self.axis_fits(0) && self.axis_fits(1));
        }
        let dx = x - self.tile_min[0];
        let dy = y - self.tile_min[1];
        let s = self.scale;
        let w = self.tile_max[0] - self.tile_min[0];
        let h = self.tile_max[1] - self.tile_min[1];
        proof {
            assert(dx / s <= w / s) by (nonlinear_arith)
                requires
                    dx < w,
                    s >= 1,
            ;
            assert(dy / s <= h / s) by (nonlinear_arith)
                requires
                    dy < h,
                    s >= 1,
            ;
        }
        (dx / s, dy / s, dx % s, dy % s)
    }

    /// The pixel position of grid point `(cx, cy)`: `tile_min + c * scale` per axis.
    pub fn sample_position(&self, cx: usize, cy: usize) -> (r: [usize; 2])
        requires
            self.well_formed(),
            cx + 1 < self.grid()[0],
            cy + 1 < self.grid()[1],
        ensures
            r[0] == self.tile().0[0] + cx * self.scale(),
            r[1] == self.tile().0[1] + cy * self.scale(),
    {
        proof {
            vstd::arithmetic::power2::lemma2_to64();
            assert(self.axis_fits(0) && self.axis_fits(1));
            assert(self.scale <= 64) by {
                assert(self.level <= 6);
                if self.level < 6 {
                    vstd::arithmetic::power2::lemma_pow2_strictly_increases(self.level as nat, 6);
                }
            }
            let s = self.scale as int;
            let w = (self.tile_max[0] - self.tile_min[0]) as int;
            let h = (self.tile_max[1] - self.tile_min[1]) as int;
            assert(cx * s <= w + 64) by (nonlinear_arith)
                requires
                    cx < w / s + 2,
                    1 <= s <= 64,
                    w >= 0,
            ;
            assert(cy * s <= h + 64) by (nonlinear_arith)
                requires
                    cy < h / s + 2,
                    1 <= s <= 64,
                    h >= 0,
            ;
        }
        [self.tile_min[0] + cx * self.scale, self.tile_min[1] + cy * self.scale]
    }
}

impl<F: Clone> MsaaCache<F> {
    /// The fragment of the current primitive at grid point `(cx, cy)`: the
    /// cached one when there is one, else the one that `compute` evaluates,
    /// which is then cached. Other grid points keep their fragments.
    pub fn fetch<C: FnOnce() -> F>(&mut self, cx: usize, cy: usize, compute: C) -> (r: F)
        requires
            old(self).well_formed(),
            cx + 1 < old(self).grid()[0],
            cy + 1 < old(self).grid()[1],
            compute.requires(()),
        ensures
            final(self).well_formed(),
            final(self).primitive() == old(self).primitive(),
            final(self).scale() == old(self).scale(),
            final(self).tile() == old(self).tile(),
            final(self).grid() == old(self).grid(),
            match old(self).cached(cx as int, cy as int) {
                Some(f) => cloned(f, r) && final(self).cached(cx as int, cy as int) == Some(f),
                None => exists|f: F|
                    compute.ensures((), f) && cloned(f, r) && final(self).cached(cx as int, cy as int)
                        == Some(f),
            },
            forall|i: int, j: int|
                0 <= i + 1 < old(self).grid()[0] && 0 <= j + 1 < old(self).grid()[1] && !(i == cx
                    && j == cy) ==> #[trigger] final(self).cached(i, j) == old(self).cached(i, j),
    {
        let primitive = self.primitive;
        let ghost w = self.cells.dims()[0] as int;
        let ghost h = self.cells.dims()[1] as int;
        let ghost old_texels = self.cells.texels();
        proof {
            self.cells.lemma_layout();
            assert(texel_count(self.cells.dims()) == w * h) by {
                reveal_with_fuel(extent_product, 3);
                assert(extent_product(self.cells.dims(), 1) == extent_product(self.cells.dims(), 0) * (w as nat));
                assert(1 * w == w) by (nonlinear_arith);
            }
            assert((cx + 1) + (cy + 1) * w < w * h) by (nonlinear_arith)
                requires
                    0 <= cx + 1 < w,
                    0 <= cy + 1 < h,
            ;
            crate::buffer::lemma_index2_of((cx + 1) as usize, (cy + 1) as usize, self.cells.dims());
        }
        let cell = self.cells.get_mut([cx + 1, cy + 1]);
        let ghost before = *cell;
        assert(before == old_texels[(cx + 1) + (cy + 1) * w]);
        let hit = cell.0 == primitive && cell.1.is_some();
        let ghost mut computed: Option<F> = None;
        if !hit {
            let f = compute();
            proof {
                computed = Some(f);
            }
            *cell = (primitive, Some(f));
        }
        let r = match &cell.1 {
            Some(f) => f.clone(),
            None => vstd::pervasive::unreached(),
        };
        let ghost c = *cell;
        proof {
            let k = (cx + 1) + (cy + 1) * w;
            assert(self.cells.texels() == old_texels.update(k, c));
            assert(self.cells.dims() == old(self).cells.dims());
            assert(self.cached(cx as int, cy as int) == c.1);
            assert(cloned(c.1.unwrap(), r));
            assert(hit <==> old(self).cached(cx as int, cy as int) is Some);
            if !hit {
                assert(compute.ensures((), computed.unwrap()));
                assert(c.1 == computed);
            }
            assert forall|i: int, j: int|
                0 <= i + 1 < w && 0 <= j + 1 < h && !(i == cx && j == cy) implies #[trigger] self.cached(
                i,
                j,
            ) == old(self).cached(i, j) by {
                assert((i + 1) + (j + 1) * w < w * h) by (nonlinear_arith)
                    requires
                        0 <= i + 1 < w,
                        0 <= j + 1 < h,
                ;
                assert((i + 1) + (j + 1) * w == k ==> i == cx && j == cy) by (nonlinear_arith)
                    requires
                        0 <= i + 1 < w,
                        0 <= cx + 1 < w,
                        0 <= j + 1,
                        0 <= cy + 1,
                        k == (cx + 1) + (cy + 1) * w,
                ;
            }
        }
        r
    }
}

} // verus!
