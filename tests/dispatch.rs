use euc::dispatch::{band, band_rows, pow2_usize, render_workers, worker_count};
use euc::msaa::MsaaCache;
use euc::sampler::{linear_taps, nearest_index};

#[test]
fn band_height_follows_the_fragment_budget() {
    assert_eq!(band_rows(640, 0), 31);
    assert_eq!(band_rows(640, 1), 62);
    assert_eq!(band_rows(0, 0), 20_000);
    assert_eq!(band_rows(1_000_000, 0), 1);
    assert_eq!(pow2_usize(6), 64);
}

#[test]
fn workers_cover_every_band_up_to_the_thread_count() {
    assert_eq!(worker_count(480, 31, 64), 16);
    assert_eq!(worker_count(480, 31, 4), 4);
    assert_eq!(worker_count(100, 200, 8), 1);
    assert_eq!(worker_count(0, 10, 8), 0);
    assert_eq!(worker_count(10, 10, 0), 1);
    let n = render_workers(480, 31);
    assert!(n >= 1 && n <= 16);
}

#[test]
fn bands_partition_the_rows() {
    assert_eq!(band(0, 31, 480), Some((0, 31)));
    assert_eq!(band(465, 31, 480), Some((465, 480)));
    assert_eq!(band(480, 31, 480), None);
    assert_eq!(band(usize::MAX, 31, 480), None);
    let mut covered = vec![0u32; 480];
    let mut start = 0;
    while let Some((s, e)) = band(start, 31, 480) {
        for row in &mut covered[s..e] {
            *row += 1;
        }
        start += 31;
    }
    assert!(covered.iter().all(|&c| c == 1));
}

#[test]
fn msaa_cache_evaluates_each_grid_point_once_per_primitive() {
    let mut cache = MsaaCache::<u32>::new([0, 0], [16, 16], 2).unwrap();
    let mut calls = 0;
    let a = cache.fetch(1, 1, || {
        calls += 1;
        10
    });
    let b = cache.fetch(1, 1, || {
        calls += 1;
        20
    });
    assert_eq!((a, b, calls), (10, 10, 1));
    cache.begin_primitive();
    let c = cache.fetch(1, 1, || 30);
    assert_eq!(c, 30);
}

#[test]
fn msaa_cache_refuses_a_grid_that_does_not_fit() {
    let huge = usize::MAX - 200;
    assert!(MsaaCache::<u32>::new([0, 0], [huge, huge], 1).is_none());
    assert!(MsaaCache::<u32>::new([0, 0], [1000, 0], 6).is_some());
}

#[test]
fn msaa_cells_and_positions() {
    let cache = MsaaCache::<u32>::new([0, 8], [64, 24], 2).unwrap();
    assert_eq!(cache.cell_of(5, 8), (1, 0, 1, 0));
    assert_eq!(cache.cell_of(63, 23), (15, 3, 3, 3));
    assert_eq!(cache.sample_position(2, 3), [8, 20]);
}

#[test]
fn sampler_indices_stay_in_the_texture() {
    assert_eq!(nearest_index(3, 8), 3);
    assert_eq!(nearest_index(9, 8), 7);
    assert_eq!(linear_taps(0, 2), (0, 1));
    assert_eq!(linear_taps(1, 2), (1, 1));
    assert_eq!(linear_taps(usize::MAX, 4), (3, 3));
}
