use vstd::prelude::*;

verus! {

/// A helper type that makes indexed vertex access easier: a list of indices
/// into a slice of vertices, read as the vertices they point at.
pub struct IndexedVertices<'a, V> {
    indices: &'a [usize],
    verts: &'a [V],
}

impl<'a, V> IndexedVertices<'a, V> {
    /// The indices, in order.
    pub closed spec fn indices(&self) -> Seq<usize> {
        self.indices@
    }

    /// The vertices that the indices point into.
    pub closed spec fn verts(&self) -> Seq<V> {
        self.verts@
    }

    /// Pair a list of indices with the vertices they point into.
    pub fn new(indices: &'a [usize], verts: &'a [V]) -> (r: Self)
        ensures
            r.indices() == indices@,
            r.verts() == verts@,
    {
        IndexedVertices { indices, verts }
    }

    /// Whether every index points at a vertex.
    pub fn indices_in_range(&self) -> (r: bool)
        ensures
            r == forall|i: int| 0 <= i < self.indices().len() ==> #[trigger] self.indices()[i] < self.verts().len(),
    {
        let mut k: usize = 0;
        while k < self.indices.len()
            invariant
                k <= self.indices@.len(),
                forall|i: int| 0 <= i < k ==> #[trigger] self.indices@[i] < self.verts@.len(),
            decreases self.indices@.len() - k,
        {
            if self.indices[k] >= self.verts.len() {
                assert(!(self.indices()[k as int] < self.verts().len()));
                return false;
            }
            k = k + 1;
        }
        true
    }

    /// Walk the vertices that the indices point at, in order.
    pub fn into_iter(self) -> (r: IndexedVerticesIter<'a, V>)
        ensures
            r.well_formed(),
            r.pending() == self.indices(),
            r.verts() == self.verts(),
    {
        let r = IndexedVerticesIter { indices: self.indices, verts: self.verts, pos: 0 };
        assert(r.pending() =~= self.indices());
        r
    }
}

/// The walk over an `IndexedVertices`.
pub struct IndexedVerticesIter<'a, V> {
    indices: &'a [usize],
    verts: &'a [V],
    pos: usize,
}

impl<'a, V> IndexedVerticesIter<'a, V> {
    /// The position of the walk lies within the indices.
    pub closed spec fn well_formed(&self) -> bool {
        self.pos <= self.indices@.len()
    }

    /// The indices not yet visited, in order.
    pub closed spec fn pending(&self) -> Seq<usize> {
        self.indices@.subrange(self.pos as int, self.indices@.len() as int)
    }

    /// The vertices that the indices point into.
    pub closed spec fn verts(&self) -> Seq<V> {
        self.verts@
    }

    /// The vertex that the next index points at, or `None` when all indices
    /// have been visited.
    pub fn next(&mut self) -> (r: Option<&'a V>)
        requires
            forall|i: int| 0 <= i < old(self).pending().len() ==> #[trigger] old(self).pending()[i] < old(self).verts().len(),
            old(self).well_formed(),
        ensures
            final(self).verts() == old(self).verts(),
            final(self).well_formed(),
            old(self).pending().len() == 0 ==> r is None && final(self).pending() == old(self).pending(),
            old(self).pending().len() > 0 ==> {
                &&& r matches Some(v) && *v == old(self).verts()[old(self).pending()[0] as int]
                &&& final(self).pending() == old(self).pending().drop_first()
            },
    {
        if self.pos >= self.indices.len() {
            return None;
        }
        let i = self.indices[self.pos];
        proof {
            assert(old(self).pending()[0] == i);
        }
        self.pos = self.pos + 1;
        assert(self.pending() =~= old(self).pending().drop_first());
        Some(&self.verts[i])
    }
}

} // verus!
