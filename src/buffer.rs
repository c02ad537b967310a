use crate::texture::{within2, Target, Texture};
use vstd::prelude::*;

verus! {

/// Product of the first `n` extents of `size`.
pub open spec fn extent_product(size: Seq<usize>, n: int) -> nat
    decreases n,
{
    if n <= 0 {
        1
    } else {
        extent_product(size, n - 1) * (size[n - 1] as nat)
    }
}

/// Row-major offset of the first `n` coordinates of `index`: the sum of
/// `index[i] * size[0] * ... * size[i - 1]` for `i < n`.
pub open spec fn linear_offset(index: Seq<usize>, size: Seq<usize>, n: int) -> nat
    decreases n,
{
    if n <= 0 {
        0
    } else {
        linear_offset(index, size, n - 1) + (index[n - 1] as nat) * extent_product(size, n - 1)
    }
}

/// Number of texels of a buffer with the given extents.
pub open spec fn texel_count(size: Seq<usize>) -> nat {
    extent_product(size, size.len() as int)
}

/// Row-major linear index of `index` in a buffer with the given extents.
pub open spec fn linear_index_of(index: Seq<usize>, size: Seq<usize>) -> nat {
    linear_offset(index, size, size.len() as int)
}

/// Every coordinate of `index` lies below the matching extent.
pub open spec fn index_in_bounds(index: Seq<usize>, size: Seq<usize>) -> bool {
    &&& index.len() == size.len()
    &&& forall|i: int| 0 <= i < size.len() ==> #[trigger] index[i] < size[i]
}

/// Every running product of the extents fits in a `usize`, so that the texel
/// count can be computed without overflow.
pub open spec fn extents_fit(size: Seq<usize>) -> bool {
    forall|k: int| 0 <= k <= size.len() ==> #[trigger] extent_product(size, k) <= usize::MAX
}

/// An in-bounds index has a linear offset below the product of the extents.
pub proof fn lemma_offset_below_product(index: Seq<usize>, size: Seq<usize>, n: int)
    requires
        0 <= n <= size.len(),
        index.len() == size.len(),
        forall|i: int| 0 <= i < n ==> #[trigger] index[i] < size[i],
    ensures
        linear_offset(index, size, n) < extent_product(size, n),
    decreases n,
{
    if n > 0 {
        lemma_offset_below_product(index, size, n - 1);
        let p = extent_product(size, n - 1);
        let lo = linear_offset(index, size, n - 1);
        let x = index[n - 1] as nat;
        let s = size[n - 1] as nat;
        assert(x < s);
        assert(lo + x * p < p * s) by (nonlinear_arith)
            requires
                lo < p,
                x < s,
        ;
    }
}

/// Offsets of longer prefixes are never smaller.
pub proof fn lemma_offset_monotone(index: Seq<usize>, size: Seq<usize>, k: int, n: int)
    requires
        0 <= k <= n,
    ensures
        linear_offset(index, size, k) <= linear_offset(index, size, n),
    decreases n - k,
{
    if k < n {
        lemma_offset_monotone(index, size, k, n - 1);
    }
}

/// A generic 1-dimensional buffer that may be used as a texture.
pub type Buffer1d<T> = Buffer<T, 1>;

/// A generic 2-dimensional buffer that may be used both as a texture and as a render target.
pub type Buffer2d<T> = Buffer<T, 2>;

/// A generic 3-dimensional buffer that may be used as a texture.
pub type Buffer3d<T> = Buffer<T, 3>;

/// A generic 4-dimensional buffer that may be used as a texture.
pub type Buffer4d<T> = Buffer<T, 4>;

/// A generic N-dimensional buffer, stored densely in row-major order, that may
/// be used both as a texture and as a render target.
#[derive(Debug)]
pub struct Buffer<T, const N: usize> {
    items: Vec<T>,
    size: [usize; N],
}

impl<T, const N: usize> Buffer<T, N> {
    /// The buffer holds exactly one texel for each index, and its texel count
    /// fits in a `usize`.
    pub closed spec fn well_formed(&self) -> bool {
        &&& extents_fit(self.size@)
        &&& self.items@.len() == texel_count(self.size@)
    }

    /// The extent of the buffer along each axis.
    pub closed spec fn dims(&self) -> Seq<usize> {
        self.size@
    }

    /// The texels of the buffer, in row-major order.
    pub closed spec fn texels(&self) -> Seq<T> {
        self.items@
    }

    /// A well-formed buffer has one texel per index, and a texel count that
    /// fits in a `usize`.
    pub proof fn lemma_layout(&self)
        requires
            self.well_formed(),
        ensures
            self.dims().len() == N,
            extents_fit(self.dims()),
            self.texels().len() == texel_count(self.dims()),
            texel_count(self.dims()) <= usize::MAX,
    {
    }

    /// The texel at the given in-bounds index.
    pub open spec fn texel_at(&self, index: Seq<usize>) -> T {
        self.texels()[linear_index_of(index, self.dims()) as int]
    }

    /// Create a new buffer with the given size, filled with duplicates of the given element.
    pub fn fill(size: [usize; N], item: T) -> (r: Self)
        where
            T: Clone,
        requires
            extents_fit(size@),
        ensures
            r.well_formed(),
            r.dims() == size@,
            r.texels().len() == texel_count(size@),
            forall|i: int| 0 <= i < r.texels().len() ==> cloned(item, #[trigger] r.texels()[i]),
    {
        let source = &item;
        let f = move || -> (c: T)
            ensures
                cloned(*source, c),
        { source.clone() };
        Self::fill_with(size, f)
    }

    /// The extent of the buffer along each axis.
    pub fn size(&self) -> (r: [usize; N])
        ensures
            r@ == self.dims(),
    {
        self.size
    }

    /// Convert the given index into a linear index that can be used to index
    /// into the raw data of this buffer.
    pub fn linear_index(&self, index: [usize; N]) -> (r: usize)
        requires
            self.well_formed(),
            linear_index_of(index@, self.dims()) <= usize::MAX,
        ensures
            r == linear_index_of(index@, self.dims()),
    {
        let mut idx: usize = 0;
        let mut factor: usize = 1;
        let mut i: usize = 0;
        while i < N
            invariant
                i <= N,
                self.size@.len() == N,
                index@.len() == N,
                extents_fit(self.size@),
                linear_index_of(index@, self.size@) <= usize::MAX,
                idx == linear_offset(index@, self.size@, i as int),
                factor == extent_product(self.size@, i as int),
            decreases N - i,
        {
            proof {
                lemma_offset_monotone(index@, self.size@, i + 1, N as int);
                assert(extent_product(self.size@, i + 1) <= usize::MAX);
            }
            idx = idx + index[i] * factor;
            factor = factor * self.size[i];
            i = i + 1;
        }
        idx
    }

    /// The linear index of an in-bounds index, which always addresses a texel.
    fn checked_linear_index(&self, index: [usize; N]) -> (r: usize)
        requires
            self.well_formed(),
            index_in_bounds(index@, self.dims()),
        ensures
            r == linear_index_of(index@, self.dims()),
            r < self.texels().len(),
    {
        proof {
                        lemma_offset_below_product(index@, self.size@, N as int);
        }
        self.linear_index(index)
    }

    /// View this buffer as a linear slice of elements.
    pub fn raw(&self) -> (r: &[T])
        requires
            self.well_formed(),
        ensures
            r@ == self.texels(),
            r@.len() == texel_count(self.dims()),
    {
        self.items.as_slice()
    }

    /// View this buffer as a linear mutable slice of elements.
    pub fn raw_mut(&mut self) -> (r: &mut [T])
        requires
            old(self).well_formed(),
        ensures
            r@ == old(self).texels(),
            final(self).dims() == old(self).dims(),
            final(self).texels() == final(r)@,
            final(self).well_formed() <==> final(r)@.len() == r@.len(),
    {
        self.items.as_mut_slice()
    }

    /// Get a mutable reference to the item at the given index.
    pub fn get_mut(&mut self, index: [usize; N]) -> (r: &mut T)
        requires
            old(self).well_formed(),
            index_in_bounds(index@, old(self).dims()),
        ensures
            final(self).well_formed(),
            *r == old(self).texel_at(index@),
            final(self).dims() == old(self).dims(),
            final(self).texels() == old(self).texels().update(
                linear_index_of(index@, old(self).dims()) as int,
                *final(r),
            ),
    {
        let idx = self.checked_linear_index(index);
        &mut self.items[idx]
    }

    /// Get a mutable reference to the item at the given in-bounds index,
    /// without any further check.
    pub fn get_unchecked_mut(&mut self, index: [usize; N]) -> (r: &mut T)
        requires
            old(self).well_formed(),
            index_in_bounds(index@, old(self).dims()),
        ensures
            *r == old(self).texel_at(index@),
            final(self).well_formed(),
            final(self).dims() == old(self).dims(),
            final(self).texels() == old(self).texels().update(
                linear_index_of(index@, old(self).dims()) as int,
                *final(r),
            ),
    {
        self.get_mut(index)
    }

    /// Create a new buffer with the given size, filled by calling the function for each element.
    pub fn fill_with<F: FnMut() -> T>(size: [usize; N], f: F) -> (r: Self)
        requires
            extents_fit(size@),
            f.requires(()),
        ensures
            r.well_formed(),
            r.dims() == size@,
            r.texels().len() == texel_count(size@),
            forall|i: int| 0 <= i < r.texels().len() ==> f.ensures((), #[trigger] r.texels()[i]),
    {
        let mut f = f;
        let mut len: usize = 1;
        let mut i: usize = 0;
        while i < N
            invariant
                i <= N,
                size@.len() == N,
                extents_fit(size@),
                len == extent_product(size@, i as int),
            decreases N - i,
        {
            assert(extent_product(size@, i + 1) <= usize::MAX);
            len = len * size[i];
            i = i + 1;
        }
        let ghost f0 = f;
        let mut items: Vec<T> = Vec::new();
        let mut k: usize = 0;
        while k < len
            invariant
                k <= len,
                items@.len() == k,
                f == f0,
                f0.requires(()),
                forall|j: int| 0 <= j < k ==> f0.ensures((), #[trigger] items@[j]),
            decreases len - k,
        {
            let item = f();
            items.push(item);
            k = k + 1;
        }
        Buffer { items, size }
    }
}

/// Row-major positions inside a `w` by `h` grid are distinct and below `w * h`.
proof fn lemma_grid_index(x: int, y: int, i: int, j: int, w: int, h: int)
    requires
        0 <= x < w,
        0 <= y < h,
        0 <= i < w,
        0 <= j < h,
    ensures
        0 <= x + y * w < w * h,
        x + y * w == i + j * w ==> x == i && y == j,
{
    assert(0 <= x + y * w < w * h) by (nonlinear_arith)
        requires
            0 <= x < w,
            0 <= y < h,
    ;
    assert(x + y * w == i + j * w ==> x == i && y == j) by (nonlinear_arith)
        requires
            0 <= x < w,
            0 <= i < w,
            0 <= y,
            0 <= j,
    ;
}

/// In two dimensions the linear index of `(x, y)` is `x + y * width`.
pub proof fn lemma_index2_of(x: usize, y: usize, size: Seq<usize>)
    requires
        size.len() == 2,
    ensures
        linear_index_of([x, y]@, size) == x + y * size[0],
{
    lemma_layout2([x, y]@, size);
}

/// In two dimensions the linear index of `(x, y)` is `x + y * width`, and the
/// texel count is `width * height`.
proof fn lemma_layout2(index: Seq<usize>, size: Seq<usize>)
    requires
        index.len() == 2,
        size.len() == 2,
    ensures
        linear_index_of(index, size) == index[0] + index[1] * size[0],
        texel_count(size) == size[0] * size[1],
{
    reveal_with_fuel(linear_offset, 3);
    reveal_with_fuel(extent_product, 3);
    assert(extent_product(size, 0) == 1);
    assert(linear_offset(index, size, 0) == 0);
    let empty_product = extent_product(size, 0);
    let width_product = extent_product(size, 1);
    assert(width_product == empty_product * (size[0] as nat));
    assert(width_product == size[0]) by (nonlinear_arith)
        requires
            empty_product == 1,
            width_product == empty_product * (size[0] as nat),
    ;
    let offset_x = linear_offset(index, size, 1);
    assert(offset_x == 0 + (index[0] as nat) * empty_product);
    assert(offset_x == index[0]) by (nonlinear_arith)
        requires
            empty_product == 1,
            offset_x == 0 + (index[0] as nat) * empty_product,
    ;
    assert(texel_count(size) == width_product * (size[1] as nat));
}

impl<T> Buffer<T, 2> {
    /// Create a new 2-dimensional buffer of the given width and height, filled
    /// with duplicates of the given element.
    pub fn new(size: [usize; 2], fill: T) -> (r: Self)
        where
            T: Clone,
        requires
            size[0] * size[1] <= usize::MAX,
        ensures
            r.well_formed(),
            r.dims() == size@,
            r.texels().len() == size[0] * size[1],
            forall|i: int| 0 <= i < r.texels().len() ==> cloned(fill, #[trigger] r.texels()[i]),
    {
        proof {
            reveal_with_fuel(extent_product, 3);
            assert(size[0] * size[1] <= usize::MAX ==> 1 * size[0] <= usize::MAX);
            assert(extents_fit(size@)) by {
                assert forall|k: int| 0 <= k <= size@.len() implies #[trigger] extent_product(size@, k)
                    <= usize::MAX by {
                    if k == 1 {
                        assert(size[0] * size[1] == 0 || size[0] <= size[0] * size[1]) by (nonlinear_arith);
                    }
                }
            }
        }
        Self::fill(size, fill)
    }

    /// The linear index of the in-bounds position `(x, y)`.
    pub fn linear_index2(&self, x: usize, y: usize) -> (r: usize)
        requires
            self.well_formed(),
            within2(x as int, y as int, self.dims()),
        ensures
            r == x + y * self.dims()[0],
            r < self.texels().len(),
    {
        proof {
                        lemma_layout2(seq![x, y], self.size@);
            lemma_grid_index(x as int, y as int, x as int, y as int, self.size[0] as int, self.size[1] as int);
        }
        y * self.size[0] + x
    }
}

impl<T: Clone, const N: usize> Texture<N> for Buffer<T, N> {
    type Texel = T;

    open spec fn extent(&self) -> Seq<usize> {
        self.dims()
    }

    open spec fn valid(&self) -> bool {
        self.well_formed()
    }

    open spec fn reads_as(&self, index: [usize; N], t: T) -> bool {
        cloned(self.texel_at(index@), t)
    }

    fn size(&self) -> (r: [usize; N]) {
        self.size
    }

    fn read(&self, index: [usize; N]) -> (r: T) {
        let idx = self.checked_linear_index(index);
        self.items[idx].clone()
    }
}

impl<T: Clone> Target for Buffer<T, 2> {
    open spec fn texel(&self, x: int, y: int) -> T {
        self.texels()[x + y * self.dims()[0]]
    }

    fn read_exclusive_unchecked(&self, x: usize, y: usize) -> (r: T) {
        proof {
            lemma_layout2([x, y]@, self.dims());
        }
        let idx = self.linear_index2(x, y);
        self.items[idx].clone()
    }

    fn write_unchecked(&mut self, x: usize, y: usize, texel: T) {
        proof {
                        lemma_layout2([x, y]@, self.size@);
        }
        let idx = self.linear_index2(x, y);
        let ghost w = self.size[0] as int;
        let ghost h = self.size[1] as int;
        self.items[idx] = texel;
        proof {
            assert forall|i: int, j: int|
                within2(i, j, old(self).extent()) && !(i == x && j == y) implies #[trigger] self.texel(i, j)
                == old(self).texel(i, j) by {
                lemma_grid_index(i, j, x as int, y as int, w, h);
            }
        }
    }
}

} // verus!
