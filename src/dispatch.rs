use vstd::arithmetic::power2::{lemma2_to64, pow2};
use vstd::prelude::*;

verus! {

/// The number of fragments that one row band of a parallel render aims to hold.
pub const FRAGMENTS_PER_GROUP: usize = 20_000;

/// `2^e`, for the exponents of multi-sampling levels.
pub fn pow2_usize(e: usize) -> (r: usize)
    requires
        e <= 6,
    ensures
        r == pow2(e as nat),
        1 <= r <= 64,
{
    proof {
        lemma2_to64();
    }
    match e {
        0 => 1,
        1 => 2,
        2 => 4,
        3 => 8,
        4 => 16,
        5 => 32,
        _ => 64,
    }
}

/// The height in rows of one band: enough rows of `width` pixels to hold
/// `FRAGMENTS_PER_GROUP` fragments, scaled by the multi-sampling grid size,
/// and at least one row.
pub open spec fn band_rows_spec(width: nat, msaa_level: nat) -> nat {
    let w: nat = if width == 0 {
        1
    } else {
        width
    };
    let rows: nat = (FRAGMENTS_PER_GROUP as nat * pow2(msaa_level)) / w;
    if rows == 0 {
        1
    } else {
        rows
    }
}

/// The height in rows of one band of a parallel render.
pub fn band_rows(width: usize, msaa_level: usize) -> (r: usize)
    requires
        msaa_level <= 6,
    ensures
        r == band_rows_spec(width as nat, msaa_level as nat),
        r >= 1,
{
    let scale = pow2_usize(msaa_level);
    let w = if width == 0 {
        1
    } else {
        width
    };
    let rows = FRAGMENTS_PER_GROUP * scale / w;
    if rows == 0 {
        1
    } else {
        rows
    }
}

/// The number of bands of `rows` rows that cover `height` rows.
pub open spec fn band_count_spec(height: nat, rows: nat) -> nat
    recommends
        rows >= 1,
{
    if height % rows == 0 {
        height / rows
    } else {
        height / rows + 1
    }
}

/// The number of worker threads for a render of `height` rows in bands of
/// `rows` rows when `threads` threads are available: one per band, at most
/// `threads`, and at least one while there is a band.
pub open spec fn worker_count_spec(height: nat, rows: nat, threads: nat) -> nat {
    let bands = band_count_spec(height, rows);
    let threads = if threads == 0 {
        1
    } else {
        threads
    };
    if bands < threads {
        bands
    } else {
        threads
    }
}

/// The number of worker threads for a render of `height` rows in bands of
/// `rows` rows when `threads` threads are available.
pub fn worker_count(height: usize, rows: usize, threads: usize) -> (r: usize)
    requires
        rows >= 1,
    ensures
        r == worker_count_spec(height as nat, rows as nat, threads as nat),
        height > 0 ==> r >= 1,
{
    let bands = if height % rows == 0 {
        height / rows
    } else {
        proof {
            assert(height / rows < height) by (nonlinear_arith)
                requires
                    rows >= 1,
                    height % rows != 0,
            ;
        }
        height / rows + 1
    };
    let threads = if threads == 0 {
        1
    } else {
        threads
    };
    proof {
        if height > 0 {
            if height % rows == 0 {
                assert(height / rows >= 1) by (nonlinear_arith)
                    requires
                        height > 0,
                        rows >= 1,
                        height % rows == 0,
                ;
            }
        }
    }
    if bands < threads {
        bands
    } else {
        threads
    }
}

/// Relies on num_cpus::get: the number of logical CPUs that this process may
/// use, read from the machine; nothing is promised of it.
#[verifier::external_body]
fn available_threads() -> usize {
    num_cpus::get()
}

/// The number of worker threads for a parallel render of `height` rows in
/// bands of `rows` rows on this machine: at most one per band, and at least
/// one while there is a band.
pub fn render_workers(height: usize, rows: usize) -> (r: usize)
    requires
        rows >= 1,
    ensures
        r <= band_count_spec(height as nat, rows as nat),
        height > 0 ==> r >= 1,
{
    let threads = available_threads();
    worker_count(height, rows, threads)
}

/// The rows `[start, end)` of the band that starts at row `start`, or `None`
/// when `start` is past the last row.
pub open spec fn band_spec(start: nat, rows: nat, height: nat) -> Option<(nat, nat)> {
    if start >= height {
        None
    } else if start + rows < height {
        Some((start, start + rows))
    } else {
        Some((start, height))
    }
}

/// The rows `[start, end)` of the band of `rows` rows that starts at row
/// `start` of a target `height` rows high, or `None` when `start` is past the
/// last row.
pub fn band(start: usize, rows: usize, height: usize) -> (r: Option<(usize, usize)>)
    ensures
        r matches Some(b) ==> band_spec(start as nat, rows as nat, height as nat) == Some(
            (b.0 as nat, b.1 as nat),
        ),
        r is None <==> band_spec(start as nat, rows as nat, height as nat) is None,
{
    if start >= height {
        None
    } else if rows < height - start {
        Some((start, start + rows))
    } else {
        Some((start, height))
    }
}

/// Bands that start at the multiples of `rows` partition the rows of the
/// target: row `y` lies in the band that starts at `(y / rows) * rows`, and a
/// band starting at `k * rows` holds `y` only for that `k`. So each pixel is
/// written by exactly one band, whichever worker renders it.
pub proof fn lemma_bands_partition(rows: nat, height: nat, y: nat, k: nat)
    requires
        rows >= 1,
        y < height,
    ensures
        band_spec((y / rows) * rows, rows, height) matches Some(b) && b.0 <= y < b.1,
        (band_spec(k * rows, rows, height) matches Some(b) && b.0 <= y < b.1) ==> k == y / rows,
{
    let s = (y / rows) * rows;
    assert(s <= y < s + rows) by (nonlinear_arith)
        requires
            rows >= 1,
            s == (y / rows) * rows,
    ;
    if band_spec(k * rows, rows, height) matches Some(b) && b.0 <= y < b.1 {
        assert(k * rows <= y < k * rows + rows);
        assert(k == y / rows) by (nonlinear_arith)
            requires
                rows >= 1,
                k * rows <= y,
                y < k * rows + rows,
        ;
    }
}

} // verus!
