use crate::texture::{within2, Target};
use core::cmp::Ordering;
use vstd::prelude::*;

verus! {

/// Defines how a pipeline interacts with the depth target.
#[derive(Copy, Clone, Debug, PartialEq, Eq, Hash)]
pub struct DepthMode {
    /// The test, if any, that occurs when comparing the depth of the new
    /// fragment with that of the current depth: the fragment passes when its
    /// depth compares with the stored depth as this ordering.
    pub test: Option<Ordering>,
    /// Whether the fragment's depth is written to the depth target if the
    /// test was passed.
    pub write: bool,
}

impl DepthMode {
    /// No depth test and no depth writes.
    pub fn none() -> (r: Self)
        ensures
            r.test is None,
            !r.write,
    {
        DepthMode { test: None, write: false }
    }

    /// Pass fragments nearer (smaller depth) than the stored depth, and write their depth.
    pub fn less_write() -> (r: Self)
        ensures
            r.test == Some(Ordering::Less),
            r.write,
    {
        DepthMode { test: Some(Ordering::Less), write: true }
    }

    /// Pass fragments farther (greater depth) than the stored depth, and write their depth.
    pub fn greater_write() -> (r: Self)
        ensures
            r.test == Some(Ordering::Greater),
            r.write,
    {
        DepthMode { test: Some(Ordering::Greater), write: true }
    }

    /// Pass fragments nearer than the stored depth, without writing depth.
    pub fn less_pass() -> (r: Self)
        ensures
            r.test == Some(Ordering::Less),
            !r.write,
    {
        DepthMode { test: Some(Ordering::Less), write: false }
    }

    /// Pass fragments farther than the stored depth, without writing depth.
    pub fn greater_pass() -> (r: Self)
        ensures
            r.test == Some(Ordering::Greater),
            !r.write,
    {
        DepthMode { test: Some(Ordering::Greater), write: false }
    }

    /// Whether the depth mode interacts with the depth target at all.
    pub open spec fn uses_depth_spec(&self) -> bool {
        self.test is Some || self.write
    }

    /// Determine whether the depth mode needs to interact with the depth target at all.
    pub fn uses_depth(&self) -> (r: bool)
        ensures
            r == self.uses_depth_spec(),
    {
        self.test.is_some() || self.write
    }

    /// Whether a fragment whose depth compares with the stored depth as
    /// `cmp` passes the test (`None`: the depths are unordered).
    pub open spec fn passes_spec(&self, cmp: Option<Ordering>) -> bool {
        match self.test {
            None => true,
            Some(t) => cmp == Some(t),
        }
    }

    /// The depth test: a fragment passes when no test is set, or when its
    /// depth compares with the stored depth as the test's ordering.
    pub fn passes(&self, cmp: Option<Ordering>) -> (r: bool)
        ensures
            r == self.passes_spec(cmp),
    {
        match self.test {
            None => true,
            Some(t) => match cmp {
                Some(c) => ordering_eq(c, t),
                None => false,
            },
        }
    }
}

fn ordering_eq(a: Ordering, b: Ordering) -> (r: bool)
    ensures
        r == (a == b),
{
    match (a, b) {
        (Ordering::Less, Ordering::Less) => true,
        (Ordering::Equal, Ordering::Equal) => true,
        (Ordering::Greater, Ordering::Greater) => true,
        _ => false,
    }
}

/// Defines how a pipeline interacts with the pixel target.
#[derive(Copy, Clone, Debug, PartialEq, Eq, Hash, Structural)]
pub struct PixelMode {
    /// Whether the fragment's pixel is written to the pixel target.
    pub write: bool,
}

impl PixelMode {
    /// Write fragments to the pixel target.
    pub fn write() -> (r: Self)
        ensures
            r.write,
    {
        PixelMode { write: true }
    }

    /// Leave the pixel target untouched: the pipeline runs only for its depth.
    pub fn pass() -> (r: Self)
        ensures
            !r.write,
    {
        PixelMode { write: false }
    }
}

impl Default for PixelMode {
    fn default() -> (r: Self)
        ensures
            r.write,
    {
        PixelMode::write()
    }
}

/// The handedness of the coordinate space used by a pipeline.
#[derive(Copy, Clone, Debug, PartialEq, Eq, Hash, Structural)]
pub enum Handedness {
    /// Left-handed coordinate space (used by Vulkan and DirectX).
    Left,
    /// Right-handed coordinate space (used by OpenGL and Metal).
    Right,
}

/// The direction represented by +y in screen space.
#[derive(Copy, Clone, Debug, PartialEq, Eq, Hash, Structural)]
pub enum YAxisDirection {
    /// +y points down towards the bottom of the screen.
    Down,
    /// +y points up towards the top of the screen.
    Up,
}

impl YAxisDirection {
    /// Whether clip-space y is negated before rasterization: it is when +y points up.
    pub fn flips_y(&self) -> (r: bool)
        ensures
            r == (*self == YAxisDirection::Up),
    {
        match self {
            YAxisDirection::Down => false,
            YAxisDirection::Up => true,
        }
    }
}

/// The anti-aliasing mode used by a pipeline.
#[derive(Copy, Clone, Debug, PartialEq, Eq, Hash, Structural)]
pub enum AaMode {
    /// No anti-aliasing.
    Disabled,
    /// Multi-sampling anti-aliasing: fragments are evaluated on a grid of
    /// `2^level` pixel cells per axis and blended between the grid points.
    /// Levels above 6 are treated as 6.
    Msaa { level: u32 },
}

/// The greatest multi-sampling level.
pub const MAX_MSAA_LEVEL: u32 = 6;

impl AaMode {
    /// The multi-sampling level in effect: 0 without anti-aliasing, else the
    /// requested level capped at `MAX_MSAA_LEVEL`.
    pub open spec fn msaa_level_spec(&self) -> nat {
        match *self {
            AaMode::Disabled => 0,
            AaMode::Msaa { level } => if level > MAX_MSAA_LEVEL {
                MAX_MSAA_LEVEL as nat
            } else {
                level as nat
            },
        }
    }

    /// The multi-sampling level in effect.
    pub fn msaa_level(&self) -> (r: usize)
        ensures
            r == self.msaa_level_spec(),
            r <= MAX_MSAA_LEVEL,
    {
        match *self {
            AaMode::Disabled => 0,
            AaMode::Msaa { level } => if level > MAX_MSAA_LEVEL {
                MAX_MSAA_LEVEL as usize
            } else {
                level as usize
            },
        }
    }
}

/// Multi-sampling at level 0 is the same as no anti-aliasing: both run at
/// level 0, on which fragments are evaluated at each pixel directly.
pub proof fn lemma_msaa_zero_is_disabled()
    ensures
        (AaMode::Msaa { level: 0 }).msaa_level_spec() == AaMode::Disabled.msaa_level_spec(),
        AaMode::Disabled.msaa_level_spec() == 0,
{
}

/// The size of the area a render works on, or `None` when it writes neither
/// pixels nor depth: the pixel target's size when pixels are written, else the
/// depth target's.
pub open spec fn render_size_spec(
    write_pixels: bool,
    depth_mode: DepthMode,
    pixel_size: [usize; 2],
    depth_size: [usize; 2],
) -> Option<[usize; 2]> {
    if write_pixels {
        Some(pixel_size)
    } else if depth_mode.uses_depth_spec() {
        Some(depth_size)
    } else {
        None
    }
}

/// The size of the area a render works on, or `None` when the render has
/// nothing to write. When both targets are used their sizes must match.
pub fn render_size(
    write_pixels: bool,
    depth_mode: DepthMode,
    pixel_size: [usize; 2],
    depth_size: [usize; 2],
) -> (r: Option<[usize; 2]>)
    requires
        write_pixels && depth_mode.uses_depth_spec() ==> pixel_size == depth_size,
    ensures
        r == render_size_spec(write_pixels, depth_mode, pixel_size, depth_size),
{
    if write_pixels {
        Some(pixel_size)
    } else if depth_mode.uses_depth() {
        Some(depth_size)
    } else {
        None
    }
}

/// One fragment arriving at a pixel position whose stored depth and pixel are
/// `state`: when the fragment's depth `z` passes the depth test against the
/// stored depth (as compared by `cmp`), the depth is replaced if the mode
/// writes depth, and the pixel by `color` if pixels are written.
pub open spec fn fragment_step<Z, P>(
    depth_mode: DepthMode,
    write_pixels: bool,
    state: (Z, P),
    z: Z,
    color: P,
    cmp: spec_fn(Z, Z) -> Option<Ordering>,
) -> (Z, P) {
    if depth_mode.passes_spec(cmp(z, state.0)) {
        (if depth_mode.write { z } else { state.0 }, if write_pixels { color } else { state.1 })
    } else {
        state
    }
}

/// The state of a pixel position after the fragments `frags` arrive in order.
pub open spec fn fragments_result<Z, P>(
    depth_mode: DepthMode,
    write_pixels: bool,
    state: (Z, P),
    frags: Seq<(Z, P)>,
    cmp: spec_fn(Z, Z) -> Option<Ordering>,
) -> (Z, P)
    decreases frags.len(),
{
    if frags.len() == 0 {
        state
    } else {
        fragments_result(
            depth_mode,
            write_pixels,
            fragment_step(depth_mode, write_pixels, state, frags[0].0, frags[0].1, cmp),
            frags.drop_first(),
            cmp,
        )
    }
}

/// With a strict depth test that writes depth, drawing the same fragment any
/// number of times leaves a pixel as drawing it once: a depth never compares
/// strictly with itself, so each copy after the first fails the test against
/// the depth that the first stored (or against the depth that already
/// rejected the first).
pub proof fn lemma_repeated_fragment<Z, P>(
    depth_mode: DepthMode,
    write_pixels: bool,
    state: (Z, P),
    z: Z,
    color: P,
    cmp: spec_fn(Z, Z) -> Option<Ordering>,
    n: nat,
)
    requires
        depth_mode.test == Some(Ordering::Less) || depth_mode.test == Some(Ordering::Greater),
        depth_mode.write,
        cmp(z, z) != Some(Ordering::Less),
        cmp(z, z) != Some(Ordering::Greater),
        n >= 1,
    ensures
        fragments_result(depth_mode, write_pixels, state, Seq::new(n, |i: int| (z, color)), cmp)
            == fragment_step(depth_mode, write_pixels, state, z, color, cmp),
    decreases n,
{
    let once = fragment_step(depth_mode, write_pixels, state, z, color, cmp);
    assert(fragment_step(depth_mode, write_pixels, once, z, color, cmp) == once);
    lemma_repeat_from(depth_mode, write_pixels, once, z, color, cmp, (n - 1) as nat);
    let frags = Seq::new(n, |i: int| (z, color));
    assert(frags.drop_first() =~= Seq::new((n - 1) as nat, |i: int| (z, color)));
}

proof fn lemma_repeat_from<Z, P>(
    depth_mode: DepthMode,
    write_pixels: bool,
    state: (Z, P),
    z: Z,
    color: P,
    cmp: spec_fn(Z, Z) -> Option<Ordering>,
    n: nat,
)
    requires
        fragment_step(depth_mode, write_pixels, state, z, color, cmp) == state,
    ensures
        fragments_result(depth_mode, write_pixels, state, Seq::new(n, |i: int| (z, color)), cmp)
            == state,
    decreases n,
{
    if n > 0 {
        let frags = Seq::new(n, |i: int| (z, color));
        assert(frags.drop_first() =~= Seq::new((n - 1) as nat, |i: int| (z, color)));
        lemma_repeat_from(depth_mode, write_pixels, state, z, color, cmp, (n - 1) as nat);
    }
}

/// Apply a fragment at `(x, y)`: run the depth test on `cmp`, how the
/// fragment's depth `z` compares with the stored depth, and when it passes,
/// store `z` if the mode writes depth and `color` if it is given (pixels are
/// written). Returns whether the fragment passed. Nothing else changes.
pub fn blit_fragment<P: Target, D: Target>(
    pixel: &mut P,
    depth: &mut D,
    x: usize,
    y: usize,
    depth_mode: DepthMode,
    cmp: Option<Ordering>,
    z: D::Texel,
    color: Option<P::Texel>,
) -> (r: bool)
    requires
        old(pixel).valid(),
        old(depth).valid(),
        depth_mode.write ==> within2(x as int, y as int, old(depth).extent()),
        color is Some ==> within2(x as int, y as int, old(pixel).extent()),
    ensures
        r == depth_mode.passes_spec(cmp),
        final(depth).valid(),
        final(pixel).valid(),
        final(depth).extent() == old(depth).extent(),
        final(pixel).extent() == old(pixel).extent(),
        r && depth_mode.write ==> final(depth).texel(x as int, y as int) == z,
        forall|i: int, j: int|
            within2(i, j, old(depth).extent()) && !(r && depth_mode.write && i == x && j == y)
                ==> #[trigger] final(depth).texel(i, j) == old(depth).texel(i, j),
        r && color is Some ==> final(pixel).texel(x as int, y as int) == color.unwrap(),
        forall|i: int, j: int|
            within2(i, j, old(pixel).extent()) && !(r && color is Some && i == x && j == y)
                ==> #[trigger] final(pixel).texel(i, j) == old(pixel).texel(i, j),
        within2(x as int, y as int, old(depth).extent()) && within2(
            x as int,
            y as int,
            old(pixel).extent(),
        ) ==> (final(depth).texel(x as int, y as int), final(pixel).texel(x as int, y as int))
            == fragment_step(
            depth_mode,
            color is Some,
            (old(depth).texel(x as int, y as int), old(pixel).texel(x as int, y as int)),
            z,
            color.unwrap(),
            |a: D::Texel, b: D::Texel| cmp,
        ),
{
    if !depth_mode.passes(cmp) {
        return false;
    }
    if depth_mode.write {
        depth.write_unchecked(x, y, z);
    }
    match color {
        Some(c) => pixel.write_unchecked(x, y, c),
        None => {},
    }
    true
}

} // verus!
