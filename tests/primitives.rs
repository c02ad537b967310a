use euc::{IndexedVertices, LineList, LineTriangleList, PrimitiveKind, TriangleList};

#[test]
fn triangle_list_groups_by_three() {
    let mut it = vec![0, 1, 2, 3, 4, 5, 6].into_iter();
    let first = <TriangleList as PrimitiveKind<i32>>::collect_primitive(&mut it);
    assert_eq!(first, Some((0, 1, 2)));
    let second = <TriangleList as PrimitiveKind<i32>>::collect_primitive(&mut it).unwrap();
    assert_eq!(<TriangleList as PrimitiveKind<i32>>::primitive_vertices(second), vec![3, 4, 5]);
    assert_eq!(<TriangleList as PrimitiveKind<i32>>::collect_primitive(&mut it), None);
}

#[test]
fn line_triangle_list_emits_three_edges() {
    let mut it = vec![0, 1, 2].into_iter();
    let tri = <LineTriangleList as PrimitiveKind<i32>>::collect_primitive(&mut it).unwrap();
    assert_eq!(<LineTriangleList as PrimitiveKind<i32>>::primitive_vertices(tri), vec![0, 1, 1, 2, 2, 0]);
}

#[test]
fn line_list_groups_by_two() {
    let mut it = vec![0, 1, 2, 3, 4].into_iter();
    let a = <LineList as PrimitiveKind<i32>>::collect_primitive(&mut it).unwrap();
    assert_eq!(<LineList as PrimitiveKind<i32>>::primitive_vertices(a), vec![0, 1]);
    assert_eq!(<LineList as PrimitiveKind<i32>>::collect_primitive(&mut it), Some((2, 3)));
    assert_eq!(<LineList as PrimitiveKind<i32>>::collect_primitive(&mut it), None);
}

#[test]
fn indexed_vertices_follow_the_indices() {
    let verts = ['a', 'b', 'c'];
    let indices = [2, 0, 0, 1];
    let iv = IndexedVertices::new(&indices, &verts);
    assert!(iv.indices_in_range());
    let mut it = iv.into_iter();
    let mut out = Vec::new();
    while let Some(v) = it.next() {
        out.push(*v);
    }
    assert_eq!(out, vec!['c', 'a', 'a', 'b']);
    let bad = [3];
    assert!(!IndexedVertices::new(&bad, &verts).indices_in_range());
}
