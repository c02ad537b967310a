use euc::{Buffer, Buffer2d, Empty, Target, Texture};

#[test]
fn clear_then_raw_gives_cleared_texels() {
    let mut buf = Buffer2d::<u32>::fill([4, 4], 0x11223344);
    buf.clear(0xAABBCCDD);
    assert_eq!(buf.raw(), &[0xAABBCCDDu32; 16][..]);
}

#[test]
fn fill_gives_product_of_extents_copies() {
    let buf = Buffer::<u8, 3>::fill([2, 3, 4], 7);
    assert_eq!(buf.raw().len(), 24);
    assert!(buf.raw().iter().all(|&t| t == 7));
    let empty = Buffer::<u8, 2>::fill([0, 5], 1);
    assert!(empty.raw().is_empty());
}

#[test]
fn fill_with_calls_function_for_each_texel() {
    let buf = Buffer::<u16, 2>::fill_with([3, 2], || 9);
    assert_eq!(buf.raw(), &[9u16; 6][..]);
    assert_eq!(buf.size(), [3, 2]);
}

#[test]
fn linear_index_is_row_major() {
    let buf = Buffer::<u8, 3>::fill([2, 3, 4], 0);
    assert_eq!(buf.linear_index([0, 0, 0]), 0);
    assert_eq!(buf.linear_index([1, 0, 0]), 1);
    assert_eq!(buf.linear_index([0, 1, 0]), 2);
    assert_eq!(buf.linear_index([1, 2, 3]), 1 + 2 * 2 + 3 * 6);
    let flat = Buffer2d::<u8>::new([5, 4], 0);
    assert_eq!(flat.linear_index2(3, 2), 13);
}

#[test]
fn get_mut_changes_one_texel() {
    let mut buf = Buffer2d::<u32>::new([3, 2], 0);
    *buf.get_mut([2, 1]) = 5;
    assert_eq!(buf.raw(), &[0, 0, 0, 0, 0, 5][..]);
    *buf.get_unchecked_mut([0, 1]) = 4;
    assert_eq!(buf.read([0, 1]), 4);
    assert_eq!(buf.read([2, 1]), 5);
}

#[test]
fn raw_mut_writes_through() {
    let mut buf = Buffer2d::<u32>::new([2, 2], 1);
    buf.raw_mut()[3] = 8;
    assert_eq!(buf.read([1, 1]), 8);
}

#[test]
fn write_ignores_out_of_bounds() {
    let mut buf = Buffer2d::<u32>::new([2, 2], 0);
    buf.write(1, 0, 3);
    buf.write(2, 0, 9);
    buf.write(0, 7, 9);
    assert_eq!(buf.raw(), &[0, 3, 0, 0][..]);
    assert_eq!(buf.read_exclusive_unchecked(1, 0), 3);
}

#[test]
fn mapped_texture_maps_texels() {
    let buf = Buffer2d::<u32>::new([2, 1], 3);
    let doubled = buf.map(|t: u32| t * 2);
    assert_eq!(doubled.read([1, 0]), 6);
    assert_eq!(doubled.size(), [2, 1]);
}

#[test]
fn empty_texture_has_no_texels() {
    let mut empty = Empty::<u32>::new();
    assert_eq!(<Empty<u32> as Texture<2>>::size(&empty), [0, 0]);
    empty.write(0, 0, 1);
    empty.clear(2);
}
