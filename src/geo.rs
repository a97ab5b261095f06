//! Positions on the web-Mercator world square, their projection to the
//! pixel space of a zoom level, and the grid of tiles that covers a box.

use itertools::Itertools;
use vstd::arithmetic::div_mod::{
    lemma_div_is_ordered, lemma_fundamental_div_mod,
    lemma_fundamental_div_mod_converse, lemma_multiply_divide_lt,
};
use crate::text::SUBPIXELS;
use vstd::prelude::*;

verus! {

/// The deepest zoom level whose pixels world coordinates resolve.
pub const MAX_ZOOM: u8 = 24;

/// Side of a tile, in pixels, at every zoom level.
pub const TILE_SIZE: u64 = 256;

/// Side of the world square in world units: the number of pixels across
/// the world at `MAX_ZOOM`. The north-west corner is (0, 0); y grows southward.
pub const WORLD_SIZE: u64 = 4294967296;

/// Two to the power `e`.
pub open spec fn two_pow(e: nat) -> nat
    decreases e,
{
    if e == 0 {
        1
    } else {
        2 * two_pow((e - 1) as nat)
    }
}

/// Powers of two are positive.
pub proof fn lemma_two_pow_positive(e: nat)
    ensures
        two_pow(e) >= 1,
    decreases e,
{
    if e > 0 {
        lemma_two_pow_positive((e - 1) as nat);
    }
}

/// Exponents add when powers of two multiply.
pub proof fn lemma_two_pow_adds(a: nat, b: nat)
    ensures
        two_pow(a + b) == two_pow(a) * two_pow(b),
    decreases a,
{
    if a > 0 {
        lemma_two_pow_adds((a - 1) as nat, b);
        let p = two_pow((a - 1) as nat);
        let q = two_pow(b);
        assert(two_pow(a + b) == 2 * two_pow((a - 1 + b) as nat));
        assert(two_pow(a) == 2 * p);
        assert(2 * (p * q) == (2 * p) * q) by (nonlinear_arith);
    } else {
        assert(two_pow(a) == 1);
        assert(a + b == b);
    }
}

/// A larger exponent gives a power of two no smaller.
pub proof fn lemma_two_pow_monotone(a: nat, b: nat)
    requires
        a <= b,
    ensures
        two_pow(a) <= two_pow(b),
    decreases b,
{
    if a < b {
        lemma_two_pow_monotone(a, (b - 1) as nat);
        lemma_two_pow_positive((b - 1) as nat);
    }
}

/// The powers of two behind the world's and a tile's sides.
pub proof fn lemma_world_size()
    ensures
        two_pow(32) == WORLD_SIZE,
        two_pow(24) == 16777216,
        two_pow(8) == TILE_SIZE,
{
    reveal_with_fuel(two_pow, 33);
}

/// A position on the web-Mercator world square, in world units.
#[derive(Clone, Copy, Debug, PartialEq, Eq, Structural)]
pub struct WorldPoint {
    pub x: u64,
    pub y: u64,
}

impl WorldPoint {
    /// Both coordinates lie on the world square, edges included.
    pub open spec fn wf(self) -> bool {
        self.x <= WORLD_SIZE && self.y <= WORLD_SIZE
    }

    pub fn new(x: u64, y: u64) -> (r: WorldPoint)
        requires
            x <= WORLD_SIZE,
            y <= WORLD_SIZE,
        ensures
            r == (WorldPoint { x, y }),
            r.wf(),
    {
        WorldPoint { x, y }
    }
}

/// A position in the pixel space of one zoom level, exact to the sub-pixel:
/// the world is a square of `TILE_SIZE * 2^zoom` pixels, with (0, 0) at its
/// north-west corner, and coordinates count `1 / SUBPIXELS` of a pixel.
#[derive(Clone, Copy, Debug, PartialEq, Eq, Structural)]
pub struct PixelPoint {
    pub x: u128,
    pub y: u128,
}

/// Two opposite corners of a box, in no particular order.
#[derive(Clone, Copy, Debug, PartialEq, Eq, Structural)]
pub struct BoundingBox {
    pub p1: WorldPoint,
    pub p2: WorldPoint,
}

impl BoundingBox {
    pub open spec fn wf(self) -> bool {
        self.p1.wf() && self.p2.wf()
    }

    pub fn new(p1: WorldPoint, p2: WorldPoint) -> (r: BoundingBox)
        ensures
            r == (BoundingBox { p1, p2 }),
    {
        BoundingBox { p1, p2 }
    }
}

/// World units per pixel at `zoom`.
pub open spec fn units_per_pixel(zoom: nat) -> nat {
    two_pow((MAX_ZOOM - zoom) as nat)
}

/// World units across one tile at `zoom`.
pub open spec fn tile_span(zoom: nat) -> nat {
    two_pow((MAX_ZOOM + 8 - zoom) as nat)
}

/// Tiles across the world at `zoom`.
pub open spec fn tiles_across(zoom: nat) -> nat {
    two_pow(zoom)
}

/// A world coordinate in the pixel space of `zoom`: a world unit is
/// `2^zoom` sub-pixels, since it is a pixel at `MAX_ZOOM` and a pixel is
/// `2^MAX_ZOOM` sub-pixels.
pub open spec fn project_coord(w: u64, zoom: nat) -> u128 {
    (w * two_pow(zoom)) as u128
}

/// Where `p` lies in the pixel space of `zoom`.
pub open spec fn project_spec(p: WorldPoint, zoom: nat) -> PixelPoint {
    PixelPoint { x: project_coord(p.x, zoom), y: project_coord(p.y, zoom) }
}

/// Two to the power `e`.
pub fn two_pow_at(e: u8) -> (r: u64)
    requires
        e <= 32,
    ensures
        r as nat == two_pow(e as nat),
        r >= 1,
{
    let mut r: u64 = 1;
    let mut i: u8 = 0;
    while i < e
        invariant
            e <= 32,
            i <= e,
            r as nat == two_pow(i as nat),
        decreases e - i,
    {
        proof {
            lemma_two_pow_monotone((i + 1) as nat, 32);
            lemma_world_size();
        }
        r = r * 2;
        i = i + 1;
    }
    proof {
        lemma_two_pow_positive(e as nat);
    }
    r
}

/// World units per pixel at `zoom`.
pub fn units_per_pixel_at(zoom: u8) -> (r: u64)
    requires
        zoom <= MAX_ZOOM,
    ensures
        r as nat == units_per_pixel(zoom as nat),
        r >= 1,
{
    two_pow_at(MAX_ZOOM - zoom)
}

/// Projects a world position into the pixel space of `zoom`.
pub fn project(p: WorldPoint, zoom: u8) -> (r: PixelPoint)
    requires
        zoom <= MAX_ZOOM,
    ensures
        r == project_spec(p, zoom as nat),
{
    let s = two_pow_at(zoom) as u128;
    proof {
        lemma_two_pow_monotone(zoom as nat, MAX_ZOOM as nat);
        lemma_world_size();
        assert(p.x * s <= 18446744073709551615 * 16777216 && p.y * s <= 18446744073709551615
            * 16777216) by (nonlinear_arith)
            requires
                s <= 16777216,
                p.x <= 18446744073709551615,
                p.y <= 18446744073709551615,
        ;
    }
    PixelPoint { x: p.x as u128 * s, y: p.y as u128 * s }
}

pub open spec fn min_nat(a: nat, b: nat) -> nat {
    if a <= b {
        a
    } else {
        b
    }
}

pub open spec fn max_nat(a: nat, b: nat) -> nat {
    if a <= b {
        b
    } else {
        a
    }
}

/// The first tile, along one axis, of the span between `a` and `b`.
pub open spec fn axis_first(a: nat, b: nat, zoom: nat) -> nat {
    let q = min_nat(a, b) / tile_span(zoom);
    if q < tiles_across(zoom) {
        q
    } else {
        (tiles_across(zoom) - 1) as nat
    }
}

/// The last tile, along one axis, of the span between `a` and `b`. The span
/// is half-open: a far edge that falls on a tile border does not reach into
/// the next tile.
pub open spec fn axis_last(a: nat, b: nat, zoom: nat) -> nat {
    if max_nat(a, b) > min_nat(a, b) {
        ((max_nat(a, b) - 1) as nat / tile_span(zoom)) as nat
    } else {
        axis_first(a, b, zoom)
    }
}

/// First and last column, first and last row of the tiles that cover `b`.
pub open spec fn grid_bounds(b: BoundingBox, zoom: nat) -> (nat, nat, nat, nat) {
    (
        axis_first(b.p1.x as nat, b.p2.x as nat, zoom),
        axis_last(b.p1.x as nat, b.p2.x as nat, zoom),
        axis_first(b.p1.y as nat, b.p2.y as nat, zoom),
        axis_last(b.p1.y as nat, b.p2.y as nat, zoom),
    )
}

/// The tiles of a rectangle of columns `c0..=c1` and rows `r0..=r1`, column
/// by column, each column from north to south.
pub open spec fn tile_rect(c0: nat, c1: nat, r0: nat, r1: nat) -> Seq<(u32, u32)> {
    let h = r1 + 1 - r0;
    Seq::new(
        ((c1 + 1 - c0) * h) as nat,
        |i: int| ((c0 + i / h) as u32, (r0 + i % h) as u32),
    )
}

/// The (column, row) indices of the tiles that cover `b` at `zoom`.
pub open spec fn tile_grid_spec(b: BoundingBox, zoom: nat) -> Seq<(u32, u32)> {
    let (c0, c1, r0, r1) = grid_bounds(b, zoom);
    tile_rect(c0, c1, r0, r1)
}

/// The tile range along one axis is ordered and lies within the world.
proof fn lemma_axis_bounds(a: nat, b: nat, zoom: nat)
    requires
        a <= WORLD_SIZE,
        b <= WORLD_SIZE,
        zoom <= MAX_ZOOM,
    ensures
        axis_first(a, b, zoom) <= axis_last(a, b, zoom),
        axis_last(a, b, zoom) < tiles_across(zoom),
        tiles_across(zoom) <= two_pow(MAX_ZOOM as nat),
        tile_span(zoom) == TILE_SIZE * units_per_pixel(zoom),
        tile_span(zoom) * tiles_across(zoom) == WORLD_SIZE,
        tile_span(zoom) >= 1,
{
    let s = tile_span(zoom);
    let n = tiles_across(zoom);
    lemma_world_size();
    lemma_two_pow_adds((MAX_ZOOM + 8 - zoom) as nat, zoom);
    lemma_two_pow_adds(8, (MAX_ZOOM - zoom) as nat);
    lemma_two_pow_positive((MAX_ZOOM + 8 - zoom) as nat);
    lemma_two_pow_positive(zoom);
    lemma_two_pow_monotone(zoom, MAX_ZOOM as nat);
    assert((MAX_ZOOM + 8 - zoom) as nat + zoom == 32);
    assert(8 + (MAX_ZOOM - zoom) as nat == (MAX_ZOOM + 8 - zoom) as nat);
    let lo = min_nat(a, b);
    let hi = max_nat(a, b);
    if hi > lo {
        lemma_multiply_divide_lt((hi - 1) as int, s as int, n as int);
        lemma_div_is_ordered(lo as int, (hi - 1) as int, s as int);
    }
}

/// Relies on itertools' `cartesian_product`: every pair of the two inclusive
/// ranges, the first range varying slowest.
#[verifier::external_body]
fn cartesian(c0: u32, c1: u32, r0: u32, r1: u32) -> (r: Vec<(u32, u32)>)
    requires
        c0 <= c1,
        r0 <= r1,
        (c1 + 1 - c0) * (r1 + 1 - r0) <= usize::MAX,
    ensures
        r@ == tile_rect(c0 as nat, c1 as nat, r0 as nat, r1 as nat),
{
    (c0..=c1).cartesian_product(r0..=r1).collect()
}

/// The first and last tile, along one axis, of the span between `a` and `b`.
fn axis_range(a: u64, b: u64, zoom: u8) -> (r: (u32, u32))
    requires
        a <= WORLD_SIZE,
        b <= WORLD_SIZE,
        zoom <= MAX_ZOOM,
    ensures
        r.0 as nat == axis_first(a as nat, b as nat, zoom as nat),
        r.1 as nat == axis_last(a as nat, b as nat, zoom as nat),
        r.0 <= r.1,
        r.1 < tiles_across(zoom as nat),
{
    proof {
        lemma_axis_bounds(a as nat, b as nat, zoom as nat);
        lemma_world_size();
        lemma_two_pow_monotone((MAX_ZOOM - zoom) as nat, MAX_ZOOM as nat);
        reveal_with_fuel(two_pow, 25);
    }
    let span = TILE_SIZE * units_per_pixel_at(zoom);
    let n: u64 = WORLD_SIZE / span;
    proof {
        assert(span as nat == tile_span(zoom as nat));
        assert(span * tiles_across(zoom as nat) == WORLD_SIZE);
        assert(WORLD_SIZE == tiles_across(zoom as nat) * span + 0) by (nonlinear_arith)
            requires
                span * tiles_across(zoom as nat) == WORLD_SIZE,
        ;
        lemma_fundamental_div_mod_converse(
            WORLD_SIZE as int,
            span as int,
            tiles_across(zoom as nat) as int,
            0,
        );
    }
    let lo = if a <= b { a } else { b };
    let hi = if a <= b { b } else { a };
    let q = lo / span;
    let first = if q < n { q } else { n - 1 };
    let last = if hi > lo { (hi - 1) / span } else { first };
    (first as u32, last as u32)
}

/// The (column, row) indices of the tiles that cover `bbox` at `zoom`: the
/// inclusive ranges between the corners' tiles, whichever corner comes first,
/// each tile once, column by column.
pub fn tile_grid(bbox: BoundingBox, zoom: u8) -> (r: Vec<(u32, u32)>)
    requires
        bbox.wf(),
        zoom <= MAX_ZOOM,
        tile_grid_spec(bbox, zoom as nat).len() <= usize::MAX,
    ensures
        r@ == tile_grid_spec(bbox, zoom as nat),
        r@.no_duplicates(),
        forall|c: u32, w: u32|
            #![trigger r@.contains((c, w))]
            r@.contains((c, w)) <==> {
                let (c0, c1, r0, r1) = grid_bounds(bbox, zoom as nat);
                c0 <= c <= c1 && r0 <= w <= r1
            },
{
    let (c0, c1) = axis_range(bbox.p1.x, bbox.p2.x, zoom);
    let (r0, r1) = axis_range(bbox.p1.y, bbox.p2.y, zoom);
    proof {
        lemma_tile_rect_exact(c0 as nat, c1 as nat, r0 as nat, r1 as nat);
    }
    cartesian(c0, c1, r0, r1)
}

/// How many tiles cover `bbox` at `zoom`.
pub fn tile_count(bbox: BoundingBox, zoom: u8) -> (r: u64)
    requires
        bbox.wf(),
        zoom <= MAX_ZOOM,
    ensures
        r as nat == tile_grid_spec(bbox, zoom as nat).len(),
{
    let (c0, c1) = axis_range(bbox.p1.x, bbox.p2.x, zoom);
    let (r0, r1) = axis_range(bbox.p1.y, bbox.p2.y, zoom);
    let w = (c1 - c0) as u64 + 1;
    let h = (r1 - r0) as u64 + 1;
    proof {
        lemma_two_pow_monotone(zoom as nat, MAX_ZOOM as nat);
        lemma_world_size();
        assert(w * h <= 16777216 * 16777216) by (nonlinear_arith)
            requires
                0 <= w <= 16777216,
                0 <= h <= 16777216,
        ;
    }
    w * h
}

/// The tiles of a rectangle are pairwise distinct, and every tile whose
/// column and row fall in the rectangle's ranges is among them.
pub proof fn lemma_tile_rect_exact(c0: nat, c1: nat, r0: nat, r1: nat)
    requires
        c0 <= c1 <= u32::MAX,
        r0 <= r1 <= u32::MAX,
    ensures
        tile_rect(c0, c1, r0, r1).no_duplicates(),
        forall|c: u32, r: u32|
            #![trigger tile_rect(c0, c1, r0, r1).contains((c, r))]
            c0 <= c <= c1 && r0 <= r <= r1 <==> tile_rect(c0, c1, r0, r1).contains((c, r)),
{
    let t = tile_rect(c0, c1, r0, r1);
    let h = r1 + 1 - r0;
    let w = c1 + 1 - c0;
    assert forall|i: int, j: int| 0 <= i < t.len() && 0 <= j < t.len() && i != j implies #[trigger] t[i]
        != #[trigger] t[j] by {
        assert(t.len() == w * h);
        lemma_multiply_divide_lt(i, h as int, w as int);
        lemma_multiply_divide_lt(j, h as int, w as int);
        lemma_fundamental_div_mod(i, h as int);
        lemma_fundamental_div_mod(j, h as int);
        assert(i / h >= 0 && j / h >= 0) by (nonlinear_arith)
            requires
                i >= 0,
                j >= 0,
                h > 0,
        ;
    }
    assert forall|c: u32, r: u32| c0 <= c <= c1 && r0 <= r <= r1 implies t.contains((c, r)) by {
        let i = (c - c0) * h + (r - r0);
        lemma_fundamental_div_mod_converse(i, h as int, (c - c0) as int, (r - r0) as int);
        assert(0 <= i < w * h) by (nonlinear_arith)
            requires
                i == (c - c0) * h + (r - r0),
                0 <= c - c0 < w,
                0 <= r - r0 < h,
        ;
        assert(t[i] == (c, r));
    }
    assert forall|c: u32, r: u32| t.contains((c, r)) implies c0 <= c <= c1 && r0 <= r <= r1 by {
        let i = choose|i: int| 0 <= i < t.len() && t[i] == (c, r);
        assert(t.len() == w * h);
        lemma_multiply_divide_lt(i, h as int, w as int);
        lemma_fundamental_div_mod(i, h as int);
        assert(i / h >= 0) by (nonlinear_arith)
            requires
                i >= 0,
                h > 0,
        ;
    }
}

/// A box that spans exactly one tile's extent, from the tile's north-west
/// corner to the north-west corner of the tile diagonally after it, is
/// covered by that tile alone.
pub proof fn lemma_single_tile_extent(col: nat, row: nat, zoom: nat)
    requires
        zoom <= MAX_ZOOM,
        col < tiles_across(zoom),
        row < tiles_across(zoom),
    ensures
        ({
            let s = tile_span(zoom);
            let b = BoundingBox {
                p1: WorldPoint { x: (col * s) as u64, y: (row * s) as u64 },
                p2: WorldPoint { x: ((col + 1) * s) as u64, y: ((row + 1) * s) as u64 },
            };
            b.wf() && tile_grid_spec(b, zoom) == seq![(col as u32, row as u32)]
        }),
{
    let s = tile_span(zoom);
    let n = tiles_across(zoom);
    lemma_axis_bounds(0, 0, zoom);
    lemma_two_pow_monotone(zoom, MAX_ZOOM as nat);
    lemma_world_size();
    assert((col + 1) * s <= n * s && (row + 1) * s <= n * s && col * s < (col + 1) * s
        && row * s < (row + 1) * s) by (nonlinear_arith)
        requires
            col < n,
            row < n,
            s >= 1,
    ;
    lemma_fundamental_div_mod_converse((col * s) as int, s as int, col as int, 0);
    lemma_fundamental_div_mod_converse((row * s) as int, s as int, row as int, 0);
    assert((col + 1) * s - 1 == col * s + (s - 1) && (row + 1) * s - 1 == row * s + (s - 1))
        by (nonlinear_arith);
    lemma_fundamental_div_mod_converse(((col + 1) * s - 1) as int, s as int, col as int, s - 1);
    lemma_fundamental_div_mod_converse(((row + 1) * s - 1) as int, s as int, row as int, s - 1);
    let b = BoundingBox {
        p1: WorldPoint { x: (col * s) as u64, y: (row * s) as u64 },
        p2: WorldPoint { x: ((col + 1) * s) as u64, y: ((row + 1) * s) as u64 },
    };
    assert(grid_bounds(b, zoom) == (col, col, row, row));
    let t = tile_rect(col, col, row, row);
    assert((col + 1 - col) * (row + 1 - row) == 1) by (nonlinear_arith);
    assert(t.len() == 1);
    assert(0int / 1int == 0 && 0int % 1int == 0);
    assert(t[0] == (col as u32, row as u32));
    assert(tile_grid_spec(b, zoom) =~= seq![(col as u32, row as u32)]);
}

/// Swapping a box's corners leaves the tiles that cover it, and their order,
/// unchanged.
pub proof fn lemma_tile_grid_symmetric(p1: WorldPoint, p2: WorldPoint, zoom: nat)
    ensures
        tile_grid_spec(BoundingBox { p1, p2 }, zoom) == tile_grid_spec(
            BoundingBox { p1: p2, p2: p1 },
            zoom,
        ),
{
    let a = BoundingBox { p1, p2 };
    let b = BoundingBox { p1: p2, p2: p1 };
    assert(grid_bounds(a, zoom) == grid_bounds(b, zoom));
}

/// Each zoom level doubles the world: a position at `zoom + 1` is exactly
/// twice the position at `zoom`.
pub proof fn lemma_project_doubles(p: WorldPoint, zoom: nat)
    requires
        zoom < MAX_ZOOM,
    ensures
        project_spec(p, zoom + 1).x == 2 * project_spec(p, zoom).x,
        project_spec(p, zoom + 1).y == 2 * project_spec(p, zoom).y,
{
    let s = two_pow(zoom);
    lemma_two_pow_monotone(zoom + 1, MAX_ZOOM as nat);
    lemma_world_size();
    assert(two_pow(zoom + 1) == 2 * s);
    assert(p.x * (2 * s) == 2 * (p.x * s) && p.y * (2 * s) == 2 * (p.y * s)) by (nonlinear_arith);
    assert(p.x * (2 * s) <= 18446744073709551615 * 16777216 && p.y * (2 * s)
        <= 18446744073709551615 * 16777216) by (nonlinear_arith)
        requires
            2 * s <= 16777216,
            p.x <= 18446744073709551615,
            p.y <= 18446744073709551615,
    ;
}

/// The centre of the world square.
pub open spec fn world_centre() -> WorldPoint {
    WorldPoint { x: (WORLD_SIZE / 2) as u64, y: (WORLD_SIZE / 2) as u64 }
}

/// The centre of the world, where the equator meets the prime meridian, lies
/// exactly at half a tile times `2^zoom` pixels on both axes.
pub proof fn lemma_world_centre(zoom: nat)
    requires
        zoom <= MAX_ZOOM,
    ensures
        project_spec(world_centre(), zoom) == (PixelPoint {
            x: (TILE_SIZE / 2 * two_pow(zoom) * SUBPIXELS) as u128,
            y: (TILE_SIZE / 2 * two_pow(zoom) * SUBPIXELS) as u128,
        }),
{
    lemma_world_size();
    lemma_two_pow_monotone(zoom, MAX_ZOOM as nat);
    let s = two_pow(zoom);
    assert((WORLD_SIZE / 2) * s == (TILE_SIZE / 2) * s * SUBPIXELS) by (nonlinear_arith)
        requires
            WORLD_SIZE == 4294967296,
            TILE_SIZE == 256,
            SUBPIXELS == 16777216,
    ;
}

} // verus!
