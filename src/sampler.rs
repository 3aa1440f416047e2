//! The point sampler: a random number of colour anchors scattered over the
//! unit square, and the choice of the canvas's base colour among them.

use crate::random::{choose_from, draw_in_range, draw_u64};
use vstd::prelude::*;

verus! {

/// The sampler aims for at least this many anchors when the palette allows it.
pub const MIN_POINTS: usize = 3;

/// The usual exclusive upper bound on the number of anchors.
pub const MAX_POINTS: usize = 10;

/// A coordinate of the unit square is held as a numerator over this
/// denominator (two to the 53rd), which is exactly how a uniform `f64` in
/// `[0, 1)` is drawn from 53 random bits.
pub const COORD_DENOM: u64 = 9007199254740992;

/// A colour anchor: a point `(u / COORD_DENOM, v / COORD_DENOM)` of the unit
/// square carrying the colour at index `color` of the palette.
#[derive(Debug, Clone, Copy, PartialEq, Eq)]
pub struct ColorPoint {
    pub u: u64,
    pub v: u64,
    pub color: usize,
}

/// Why no anchors could be sampled.
#[derive(Debug, Clone, Copy, PartialEq, Eq)]
pub enum SampleError {
    /// There is no colour to choose from.
    EmptyPalette,
}

/// The least number of anchors the sampler aims for, given the palette size.
pub open spec fn count_floor(palette_len: nat) -> nat {
    if palette_len < MIN_POINTS as nat {
        palette_len
    } else {
        MIN_POINTS as nat
    }
}

/// The anchor counts that may be drawn: `[floor, max_points)`, or the floor
/// alone where that range is empty.
pub open spec fn count_allowed(n: nat, palette_len: nat, max_points: nat) -> bool {
    let lo = count_floor(palette_len);
    if lo < max_points {
        lo <= n < max_points
    } else {
        n == lo
    }
}

/// An anchor inside the unit square whose colour is in the palette.
pub open spec fn point_fits(p: ColorPoint, palette_len: nat) -> bool {
    &&& p.u < COORD_DENOM
    &&& p.v < COORD_DENOM
    &&& p.color < palette_len
}

/// Every anchor of `points` fits the unit square and the palette.
pub open spec fn points_fit(points: Seq<ColorPoint>, palette_len: nat) -> bool {
    forall|i: int| 0 <= i < points.len() ==> #[trigger] point_fits(points[i], palette_len)
}

/// `base` is what the base colour selector may return for `points`: the
/// palette index of one of the anchors, or `None` (black) when there is none.
pub open spec fn base_drawn_from(points: Seq<ColorPoint>, base: Option<usize>) -> bool {
    &&& base.is_none() <==> points.len() == 0
    &&& base matches Some(c) ==> exists|j: int| 0 <= j < points.len() && points[j].color == c
}

/// The numerator of a unit coordinate made from 64 random bits: their top 53.
pub fn coord_from_bits(bits: u64) -> (r: u64)
    ensures
        r == bits / 2048,
        r < COORD_DENOM,
{
    let r = bits >> 11u64;
    assert(bits >> 11u64 == bits / 2048) by (bit_vector);
    r
}

/// The indices `0 .. n`, in order.
fn index_range(n: usize) -> (r: Vec<usize>)
    ensures
        r@.len() == n,
        forall|i: int| 0 <= i < n ==> r@[i] == i,
{
    let mut r: Vec<usize> = Vec::new();
    let mut i: usize = 0;
    while i < n
        invariant
            i <= n,
            r@.len() == i,
            forall|k: int| 0 <= k < i ==> r@[k] == k,
        decreases n - i,
    {
        r.push(i);
        i = i + 1;
    }
    r
}

/// Draws the number of anchors: uniform in `[min(palette_len, MIN_POINTS),
/// max_points)`, or that minimum itself when the range is empty.
pub fn anchor_count(rng: &mut rand::rngs::SmallRng, palette_len: usize, max_points: usize) -> (r:
    usize)
    ensures
        count_allowed(r as nat, palette_len as nat, max_points as nat),
{
    let lo = if palette_len < MIN_POINTS {
        palette_len
    } else {
        MIN_POINTS
    };
    if lo < max_points {
        draw_in_range(rng, lo, max_points)
    } else {
        lo
    }
}

/// One anchor: a colour drawn from the palette, then `u`, then `v`.
fn sample_point(rng: &mut rand::rngs::SmallRng, palette: &Vec<usize>) -> (r: ColorPoint)
    requires
        palette@.len() > 0,
    ensures
        r.u < COORD_DENOM,
        r.v < COORD_DENOM,
        palette@.contains(r.color),
{
    let picked = choose_from(rng, palette);
    let color = match picked {
        Some(c) => c,
        None => 0,
    };
    let u = coord_from_bits(draw_u64(rng));
    let v = coord_from_bits(draw_u64(rng));
    ColorPoint { u, v, color }
}

/// Samples the anchors for a palette of `palette_len` colours: first their
/// number (see `anchor_count`), then each anchor in turn, with its colour
/// drawn uniformly with replacement and its coordinates uniformly in the unit
/// square.
pub fn rng_color_points(rng: &mut rand::rngs::SmallRng, max_points: usize, palette_len: usize) -> (r:
    Result<Vec<ColorPoint>, SampleError>)
    ensures
        r is Err <==> palette_len == 0,
        palette_len == 0 ==> *final(rng) == *old(rng),
        r matches Err(e) ==> e == SampleError::EmptyPalette,
        r matches Ok(points) ==> count_allowed(points@.len(), palette_len as nat, max_points as nat)
            && points_fit(points@, palette_len as nat),
{
    if palette_len == 0 {
        return Err(SampleError::EmptyPalette);
    }
    let n = anchor_count(rng, palette_len, max_points);
    let palette = index_range(palette_len);
    let mut points: Vec<ColorPoint> = Vec::new();
    let mut i: usize = 0;
    while i < n
        invariant
            i <= n,
            points@.len() == i,
            palette@.len() == palette_len,
            palette_len > 0,
            forall|k: int| 0 <= k < palette_len ==> palette@[k] == k,
            points_fit(points@, palette_len as nat),
        decreases n - i,
    {
        let p = sample_point(rng, &palette);
        let ghost before = points@;
        points.push(p);
        proof {
            assert(point_fits(p, palette_len as nat));
            assert forall|k: int| 0 <= k < points@.len() implies #[trigger] point_fits(
                points@[k],
                palette_len as nat,
            ) by {
                if k < i {
                    assert(points@[k] == before[k]);
                }
            }
        }
        i = i + 1;
    }
    Ok(points)
}

/// The base colour of the canvas: the palette index of an anchor drawn
/// uniformly from `points`, or `None` (black) when there is no anchor.
pub fn select_base(rng: &mut rand::rngs::SmallRng, points: &Vec<ColorPoint>) -> (r: Option<usize>)
    ensures
        base_drawn_from(points@, r),
{
    let slots = index_range(points.len());
    match choose_from(rng, &slots) {
        Some(k) => Some(points[k].color),
        None => None,
    }
}

/// For a non-empty palette and the usual upper bound, the number of anchors
/// is at least the smaller of the palette size and `MIN_POINTS`, and below
/// `MAX_POINTS`.
pub proof fn anchor_count_bound(palette_len: nat, n: nat)
    requires
        palette_len > 0,
        count_allowed(n, palette_len, MAX_POINTS as nat),
    ensures
        palette_len < MIN_POINTS ==> palette_len <= n,
        palette_len >= MIN_POINTS ==> MIN_POINTS <= n,
        n < MAX_POINTS,
{
}

/// With a palette of one colour, every anchor and the base colour carry that
/// colour, and there is at least one anchor, so the base is never the black
/// fallback: every blend step mixes the colour with itself.
pub proof fn single_color_palette(points: Seq<ColorPoint>, max_points: nat, base: Option<usize>)
    requires
        count_allowed(points.len(), 1, max_points),
        points_fit(points, 1),
        base_drawn_from(points, base),
    ensures
        points.len() >= 1,
        forall|i: int| 0 <= i < points.len() ==> #[trigger] points[i].color == 0,
        base == Some(0usize),
{
    assert forall|i: int| 0 <= i < points.len() implies #[trigger] points[i].color == 0 by {
        assert(point_fits(points[i], 1));
    }
    let c = base->Some_0;
    let j = choose|j: int| 0 <= j < points.len() && points[j].color == c;
    assert(points[j].color == 0);
}

} // verus!
