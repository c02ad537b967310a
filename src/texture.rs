use crate::buffer::index_in_bounds;
use core::marker::PhantomData;
use vstd::prelude::*;

verus! {

/// Whether `index` addresses a texel of a texture with the given extents.
pub open spec fn within(index: Seq<usize>, extent: Seq<usize>) -> bool {
    index_in_bounds(index, extent)
}

/// A trait implemented by types that may be treated as textures: read-only,
/// randomly accessible N-dimensional grids of texels indexed by `usize`.
pub trait Texture<const N: usize> {
    /// The type of texture elements.
    type Texel: Clone;

    /// The extent of the texture along each axis.
    spec fn extent(&self) -> Seq<usize>;

    /// Whether the texture is in a usable state: its reads are defined at
    /// every in-bounds index.
    spec fn valid(&self) -> bool;

    /// Whether `t` is a value that reading the texel at `index` may give.
    spec fn reads_as(&self, index: [usize; N], t: Self::Texel) -> bool;

    /// Get the size of the texture in texels.
    fn size(&self) -> (r: [usize; N])
        ensures
            r@ == self.extent(),
    ;

    /// Get the texture's preferred access order, if it has one.
    fn preferred_axes(&self) -> (r: Option<[usize; N]>) {
        None
    }

    /// Read a texel at the given in-bounds index.
    fn read(&self, index: [usize; N]) -> (r: Self::Texel)
        requires
            self.valid(),
            within(index@, self.extent()),
        ensures
            self.reads_as(index, r),
    ;

    /// Read a texel at the given in-bounds index, skipping any check that an
    /// implementation may make.
    fn read_unchecked(&self, index: [usize; N]) -> (r: Self::Texel)
        requires
            self.valid(),
            within(index@, self.extent()),
        ensures
            self.reads_as(index, r),
    {
        self.read(index)
    }

    /// Map the texels of this texture to another type using a mapping function.
    fn map<F, U>(self, f: F) -> (r: Mapped<Self, F, U>)
        where
            F: Fn(Self::Texel) -> U,
            Self: Sized,
        requires
            forall|t: Self::Texel| f.requires((t,)),
        ensures
            r.inner() == self,
            r.mapping() == f,
    {
        Mapped { tex: self, f, phantom: PhantomData }
    }
}

/// A texture whose texels are those of another texture passed through a
/// mapping function.
#[derive(Debug)]
pub struct Mapped<T, F, U> {
    tex: T,
    f: F,
    phantom: PhantomData<U>,
}

impl<T, F, U> Mapped<T, F, U> {
    /// The texture whose texels are mapped.
    pub closed spec fn inner(&self) -> T {
        self.tex
    }

    /// The mapping function.
    pub closed spec fn mapping(&self) -> F {
        self.f
    }
}

impl<T: Texture<N>, U: Clone, F: Fn(T::Texel) -> U, const N: usize> Texture<N> for Mapped<T, F, U> {
    type Texel = U;

    open spec fn extent(&self) -> Seq<usize> {
        self.inner().extent()
    }

    open spec fn valid(&self) -> bool {
        self.inner().valid() && forall|t: T::Texel| self.mapping().requires((t,))
    }

    open spec fn reads_as(&self, index: [usize; N], t: U) -> bool {
        exists|s: T::Texel| self.inner().reads_as(index, s) && self.mapping().ensures((s,), t)
    }

    fn size(&self) -> (r: [usize; N]) {
        self.tex.size()
    }

    fn preferred_axes(&self) -> (r: Option<[usize; N]>) {
        self.tex.preferred_axes()
    }

    fn read(&self, index: [usize; N]) -> (r: U) {
        let s = self.tex.read(index);
        assert(self.mapping() == self.f);
        assert(self.f.requires((s,)));
        (self.f)(s)
    }
}

/// Whether `(x, y)` lies inside a 2-dimensional extent.
pub open spec fn within2(x: int, y: int, extent: Seq<usize>) -> bool {
    &&& extent.len() == 2
    &&& 0 <= x < extent[0]
    &&& 0 <= y < extent[1]
}

/// A 2-dimensional texture that may be treated as a render target.
pub trait Target: Texture<2> {
    /// The texel currently stored at `(x, y)`.
    spec fn texel(&self, x: int, y: int) -> Self::Texel;

    /// Read the texel at the given in-bounds position.
    fn read_exclusive_unchecked(&self, x: usize, y: usize) -> (r: Self::Texel)
        requires
            self.valid(),
            within2(x as int, y as int, self.extent()),
        ensures
            self.reads_as([x, y], r),
    ;

    /// Write a texel at the given in-bounds position.
    fn write_unchecked(&mut self, x: usize, y: usize, texel: Self::Texel)
        requires
            old(self).valid(),
            within2(x as int, y as int, old(self).extent()),
        ensures
            final(self).extent() == old(self).extent(),
            final(self).valid(),
            final(self).texel(x as int, y as int) == texel,
            forall|i: int, j: int|
                within2(i, j, old(self).extent()) && !(i == x && j == y) ==> #[trigger] final(self).texel(i, j)
                    == old(self).texel(i, j),
    ;

    /// Write a texel at the given position; a position outside the target
    /// leaves it unchanged.
    fn write(&mut self, x: usize, y: usize, texel: Self::Texel)
        requires
            old(self).valid(),
        ensures
            final(self).extent() == old(self).extent(),
            final(self).valid(),
            within2(x as int, y as int, old(self).extent()) ==> final(self).texel(x as int, y as int)
                == texel,
            forall|i: int, j: int|
                within2(i, j, old(self).extent()) && !(i == x && j == y) ==> #[trigger] final(self).texel(i, j)
                    == old(self).texel(i, j),
    {
        let size = self.size();
        if x < size[0] && y < size[1] {
            self.write_unchecked(x, y, texel);
        }
    }

    /// Clears the entire target with the given texel.
    fn clear(&mut self, texel: Self::Texel)
        requires
            old(self).valid(),
        ensures
            final(self).extent() == old(self).extent(),
            final(self).valid(),
            forall|i: int, j: int|
                within2(i, j, old(self).extent()) ==> cloned(texel, #[trigger] final(self).texel(i, j)),
    {
        let size = self.size();
        let ghost extent = self.extent();
        let mut y: usize = 0;
        while y < size[1]
            invariant
                size@ == extent,
                self.extent() == extent,
                self.valid(),
                y <= size[1],
                forall|i: int, j: int|
                    within2(i, j, extent) && j < y ==> cloned(texel, #[trigger] self.texel(i, j)),
            decreases size[1] - y,
        {
            let mut x: usize = 0;
            while x < size[0]
                invariant
                    size@ == extent,
                    self.extent() == extent,
                    self.valid(),
                    y < size[1],
                    x <= size[0],
                    forall|i: int, j: int|
                        within2(i, j, extent) && (j < y || (j == y && i < x)) ==> cloned(
                            texel,
                            #[trigger] self.texel(i, j),
                        ),
                decreases size[0] - x,
            {
                let t = texel.clone();
                self.write_unchecked(x, y, t);
                x = x + 1;
            }
            y = y + 1;
        }
    }
}

/// An always-empty texture. Useful as a placeholder for an unused target.
#[derive(Debug)]
pub struct Empty<T>(PhantomData<T>);

impl<T> Empty<T> {
    /// Create an empty texture.
    pub fn new() -> Self {
        Empty(PhantomData)
    }
}

impl<T> Default for Empty<T> {
    fn default() -> Self {
        Self::new()
    }
}

impl<T: Clone, const N: usize> Texture<N> for Empty<T> {
    type Texel = T;

    open spec fn extent(&self) -> Seq<usize> {
        Seq::new(N as nat, |i: int| 0usize)
    }

    open spec fn valid(&self) -> bool {
        N > 0
    }

    open spec fn reads_as(&self, index: [usize; N], t: T) -> bool {
        false
    }

    fn size(&self) -> (r: [usize; N]) {
        let r: [usize; N] = [0usize; N];
        assert(r@ =~= Seq::new(N as nat, |i: int| 0usize));
        r
    }

    fn read(&self, index: [usize; N]) -> (r: T) {
        assert(index@[0] < 0usize);
        vstd::pervasive::unreached()
    }
}

impl<T: Clone> Target for Empty<T> {
    open spec fn texel(&self, x: int, y: int) -> T {
        vstd::pervasive::arbitrary()
    }

    fn read_exclusive_unchecked(&self, x: usize, y: usize) -> (r: T) {
        vstd::pervasive::unreached()
    }

    fn write_unchecked(&mut self, x: usize, y: usize, texel: T) {
    }
}

} // verus!
