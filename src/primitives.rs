use vstd::prelude::*;
use vstd::std_specs::iter::IteratorSpec;

verus! {

/// A way of grouping a stream of vertices into primitives, and of emitting a
/// primitive again as the vertices its rasterizer consumes.
pub trait PrimitiveKind<V> {
    /// One primitive: a fixed number of vertices.
    type Primitive;

    /// The number of consecutive vertices that make up one primitive.
    spec fn group_size() -> nat;

    /// The vertices of a primitive, in the order they were collected.
    spec fn vertices(p: Self::Primitive) -> Seq<V>;

    /// Whether `out` is what the primitive is emitted as.
    spec fn emits(p: Self::Primitive, out: Seq<V>) -> bool;

    /// Collect a single primitive from the next vertices of an iterator, or
    /// `None` when fewer than a primitive's worth remain.
    fn collect_primitive<I: Iterator<Item = V>>(iter: &mut I) -> (r: Option<Self::Primitive>)
        ensures
            (*old(iter)).obeys_prophetic_iter_laws() ==> {
                &&& r is Some <==> (*old(iter)).remaining().len() >= Self::group_size()
                &&& r matches Some(p) ==> Self::vertices(p) == (*old(iter)).remaining().take(
                    Self::group_size() as int,
                )
            },
    ;

    /// Emit a primitive as the series of vertices its rasterizer consumes.
    fn primitive_vertices(primitive: Self::Primitive) -> (r: Vec<V>)
        ensures
            Self::emits(primitive, r@),
    ;
}

/// A list of triangles: `0 1 2 3 4 5` produces triangles `0 1 2` and `3 4 5`.
pub struct TriangleList(());

/// A list of triangles, rasterised as lines: `0 1 2 3 4 5` produces lines
/// `0 1`, `1 2`, `2 0`, `3 4`, `4 5`, and `5 3`.
pub struct LineTriangleList(());

/// A list of lines: `0 1 2 3 4 5` produces lines `0 1`, `2 3`, and `4 5`.
pub struct LineList(());

fn next_item<V, I: Iterator<Item = V>>(iter: &mut I) -> (r: Option<V>)
    ensures
        (*old(iter)).obeys_prophetic_iter_laws() ==> {
            &&& (*final(iter)).obeys_prophetic_iter_laws()
            &&& r is Some <==> (*old(iter)).remaining().len() > 0
            &&& r matches Some(v) ==> v == (*old(iter)).remaining()[0] && (*final(iter)).remaining()
                == (*old(iter)).remaining().drop_first()
        },
{
    iter.next()
}

fn collect_three<V, I: Iterator<Item = V>>(iter: &mut I) -> (r: Option<(V, V, V)>)
    ensures
        (*old(iter)).obeys_prophetic_iter_laws() ==> {
            &&& r is Some <==> (*old(iter)).remaining().len() >= 3
            &&& r matches Some(p) ==> seq![p.0, p.1, p.2] == (*old(iter)).remaining().take(3)
        },
{
    let ghost rem = (*iter).remaining();
    let a = match next_item(iter) {
        Some(v) => v,
        None => return None,
    };
    let b = match next_item(iter) {
        Some(v) => v,
        None => return None,
    };
    let c = match next_item(iter) {
        Some(v) => v,
        None => return None,
    };
    let r = (a, b, c);
    proof {
        if (*old(iter)).obeys_prophetic_iter_laws() {
            assert(a == rem[0]);
            assert(b == rem.drop_first()[0]);
            assert(c == rem.drop_first().drop_first()[0]);
            assert(seq![r.0, r.1, r.2] =~= rem.take(3));
        }
    }
    Some(r)
}

fn collect_two<V, I: Iterator<Item = V>>(iter: &mut I) -> (r: Option<(V, V)>)
    ensures
        (*old(iter)).obeys_prophetic_iter_laws() ==> {
            &&& r is Some <==> (*old(iter)).remaining().len() >= 2
            &&& r matches Some(p) ==> seq![p.0, p.1] == (*old(iter)).remaining().take(2)
        },
{
    let ghost rem = (*iter).remaining();
    let a = match next_item(iter) {
        Some(v) => v,
        None => return None,
    };
    let b = match next_item(iter) {
        Some(v) => v,
        None => return None,
    };
    let r = (a, b);
    proof {
        if (*old(iter)).obeys_prophetic_iter_laws() {
            assert(a == rem[0]);
            assert(b == rem.drop_first()[0]);
            assert(seq![r.0, r.1] =~= rem.take(2));
        }
    }
    Some(r)
}

impl<V> PrimitiveKind<V> for TriangleList {
    type Primitive = (V, V, V);

    open spec fn group_size() -> nat {
        3
    }

    open spec fn vertices(p: (V, V, V)) -> Seq<V> {
        seq![p.0, p.1, p.2]
    }

    open spec fn emits(p: (V, V, V), out: Seq<V>) -> bool {
        out == seq![p.0, p.1, p.2]
    }

    fn collect_primitive<I: Iterator<Item = V>>(iter: &mut I) -> (r: Option<(V, V, V)>) {
        collect_three(iter)
    }

    fn primitive_vertices(primitive: (V, V, V)) -> (r: Vec<V>) {
        let (a, b, c) = primitive;
        let mut out: Vec<V> = Vec::new();
        out.push(a);
        out.push(b);
        out.push(c);
        assert(out@ =~= seq![primitive.0, primitive.1, primitive.2]);
        out
    }
}

impl<V: Clone> PrimitiveKind<V> for LineTriangleList {
    type Primitive = (V, V, V);

    open spec fn group_size() -> nat {
        3
    }

    open spec fn vertices(p: (V, V, V)) -> Seq<V> {
        seq![p.0, p.1, p.2]
    }

    /// The three edges `a b`, `b c` and `c a`, each vertex's first use being a clone.
    open spec fn emits(p: (V, V, V), out: Seq<V>) -> bool {
        &&& out.len() == 6
        &&& cloned(p.0, out[0])
        &&& cloned(p.1, out[1])
        &&& out[2] == p.1
        &&& cloned(p.2, out[3])
        &&& out[4] == p.2
        &&& out[5] == p.0
    }

    fn collect_primitive<I: Iterator<Item = V>>(iter: &mut I) -> (r: Option<(V, V, V)>) {
        collect_three(iter)
    }

    fn primitive_vertices(primitive: (V, V, V)) -> (r: Vec<V>) {
        let (a, b, c) = primitive;
        let mut out: Vec<V> = Vec::new();
        out.push(a.clone());
        out.push(b.clone());
        out.push(b);
        out.push(c.clone());
        out.push(c);
        out.push(a);
        out
    }
}

impl<V> PrimitiveKind<V> for LineList {
    type Primitive = (V, V);

    open spec fn group_size() -> nat {
        2
    }

    open spec fn vertices(p: (V, V)) -> Seq<V> {
        seq![p.0, p.1]
    }

    open spec fn emits(p: (V, V), out: Seq<V>) -> bool {
        out == seq![p.0, p.1]
    }

    fn collect_primitive<I: Iterator<Item = V>>(iter: &mut I) -> (r: Option<(V, V)>) {
        collect_two(iter)
    }

    fn primitive_vertices(primitive: (V, V)) -> (r: Vec<V>) {
        let (a, b) = primitive;
        let mut out: Vec<V> = Vec::new();
        out.push(a);
        out.push(b);
        assert(out@ =~= seq![primitive.0, primitive.1]);
        out
    }
}

} // verus!
