//! The layout of the rendered buffer: row-major pixels, three interleaved
//! channels each, and the sequential renderer that fills it slot by slot.

use vstd::arithmetic::div_mod::lemma_fundamental_div_mod_converse;
use vstd::prelude::*;

verus! {

/// Why no buffer could be laid out.
#[derive(Debug, Clone, Copy, PartialEq, Eq)]
pub enum RenderError {
    /// `width * height * 3` does not fit in an index.
    DimensionOverflow,
}

/// What one byte of the buffer stands for: column `x`, row `y`, and the
/// channel (0 red, 1 green, 2 blue).
#[derive(Debug, Clone, Copy, PartialEq, Eq)]
pub struct PixelSite {
    pub x: u32,
    pub y: u32,
    pub channel: usize,
}

/// The number of bytes of a `width` by `height` RGB buffer.
pub open spec fn buffer_size(width: nat, height: nat) -> nat {
    width * height * 3
}

/// The site of byte `i` in a buffer `width` pixels wide.
pub open spec fn site_of(i: int, width: int) -> PixelSite {
    PixelSite {
        x: ((i / 3) % width) as u32,
        y: ((i / 3) / width) as u32,
        channel: (i % 3) as usize,
    }
}

/// The byte that holds channel `channel` of pixel `(x, y)`.
pub open spec fn index_of(x: int, y: int, channel: int, width: int) -> int {
    (y * width + x) * 3 + channel
}

/// Every byte of a `width` by `height` buffer stands for one pixel channel
/// inside the image, and that channel is stored at that byte.
pub proof fn site_round_trip(i: int, width: int, height: int)
    requires
        width > 0,
        height > 0,
        0 <= i < width * height * 3,
    ensures
        0 <= (i / 3) % width < width,
        0 <= (i / 3) / width < height,
        0 <= i % 3 < 3,
        index_of((i / 3) % width, (i / 3) / width, i % 3, width) == i,
{
    let q = i / 3;
    let c = i % 3;
    let y = q / width;
    let x = q % width;
    assert(i == q * 3 + c);
    assert(q >= 0);
    assert(q == y * width + x) by (nonlinear_arith)
        requires
            width > 0,
            q >= 0,
            y == q / width,
            x == q % width,
    ;
    assert(0 <= x < width) by (nonlinear_arith)
        requires
            width > 0,
            q >= 0,
            x == q % width,
    ;
    assert(q < width * height) by (nonlinear_arith)
        requires
            i == q * 3 + c,
            0 <= c,
            i < width * height * 3,
    ;
    assert(0 <= y < height) by (nonlinear_arith)
        requires
            width > 0,
            q >= 0,
            q == y * width + x,
            0 <= x < width,
            q < width * height,
    ;
}

/// Every pixel channel of a `width` by `height` image has a byte inside the
/// buffer, and that byte stands for it.
pub proof fn index_round_trip(x: int, y: int, channel: int, width: int, height: int)
    requires
        0 <= x < width,
        0 <= y < height,
        0 <= channel < 3,
    ensures
        0 <= index_of(x, y, channel, width) < width * height * 3,
        (index_of(x, y, channel, width) / 3) % width == x,
        (index_of(x, y, channel, width) / 3) / width == y,
        index_of(x, y, channel, width) % 3 == channel,
{
    let q = y * width + x;
    let i = index_of(x, y, channel, width);
    assert(0 <= q < width * height) by (nonlinear_arith)
        requires
            q == y * width + x,
            0 <= x < width,
            0 <= y < height,
    ;
    lemma_fundamental_div_mod_converse(i, 3, q, channel);
    lemma_fundamental_div_mod_converse(q, width, y, x);
}

/// The length of a `width` by `height` RGB buffer, or `DimensionOverflow`
/// when it does not fit in an index.
pub fn buffer_len(width: u32, height: u32) -> (r: Result<usize, RenderError>)
    ensures
        r is Ok <==> buffer_size(width as nat, height as nat) <= usize::MAX,
        r matches Ok(n) ==> n == buffer_size(width as nat, height as nat),
        r matches Err(e) ==> e == RenderError::DimensionOverflow,
{
    match (width as usize).checked_mul(height as usize) {
        Some(pixels) => match pixels.checked_mul(3) {
            Some(n) => Ok(n),
            None => Err(RenderError::DimensionOverflow),
        },
        None => {
            assert(width * height * 3 >= width * height) by (nonlinear_arith);
            Err(RenderError::DimensionOverflow)
        },
    }
}

/// The site of byte `i` of a `width` by `height` buffer.
pub fn pixel_site(i: usize, width: u32, height: u32) -> (r: PixelSite)
    requires
        i < buffer_size(width as nat, height as nat),
    ensures
        r == site_of(i as int, width as int),
        r.x < width,
        r.y < height,
        r.channel < 3,
{
    proof {
        assert(width > 0 && height > 0) by (nonlinear_arith)
            requires
                i < width * height * 3,
        ;
        site_round_trip(i as int, width as int, height as int);
    }
    let p = i / 3;
    PixelSite { x: (p % (width as usize)) as u32, y: (p / (width as usize)) as u32, channel: i % 3 }
}

/// `buf` is a `width` by `height` buffer whose every byte is a result of
/// `shade` at that byte's site.
pub open spec fn filled_by<F: Fn(PixelSite) -> u8>(
    shade: F,
    width: nat,
    height: nat,
    buf: Seq<u8>,
) -> bool {
    &&& buf.len() == buffer_size(width, height)
    &&& forall|i: int| 0 <= i < buf.len() ==> shade.ensures((site_of(i, width as int),), #[trigger] buf[i])
}

/// `shade` gives one byte per site: a pure function of the site.
pub open spec fn shade_is_pure<F: Fn(PixelSite) -> u8>(shade: F) -> bool {
    forall|s: PixelSite, a: u8, b: u8|
        shade.ensures((s,), a) && shade.ensures((s,), b) ==> a == b
}

/// Renders a `width` by `height` RGB buffer: byte `i` is `shade` applied to
/// the site of `i`. Fails with `DimensionOverflow` exactly when the buffer's
/// length does not fit in an index; an empty image gives an empty buffer.
pub fn render<F: Fn(PixelSite) -> u8>(width: u32, height: u32, shade: F) -> (r: Result<
    Vec<u8>,
    RenderError,
>)
    requires
        forall|s: PixelSite| shade.requires((s,)),
    ensures
        r is Ok <==> buffer_size(width as nat, height as nat) <= usize::MAX,
        r matches Ok(buf) ==> filled_by(shade, width as nat, height as nat, buf@),
        r matches Err(e) ==> e == RenderError::DimensionOverflow,
{
    let n = match buffer_len(width, height) {
        Ok(n) => n,
        Err(e) => return Err(e),
    };
    let mut buf: Vec<u8> = Vec::new();
    let mut i: usize = 0;
    while i < n
        invariant
            i <= n,
            n == buffer_size(width as nat, height as nat),
            forall|s: PixelSite| shade.requires((s,)),
            buf@.len() == i,
            forall|k: int| 0 <= k < i ==> shade.ensures((site_of(k, width as int),), #[trigger] buf@[k]),
        decreases n - i,
    {
        let b = shade(pixel_site(i, width, height));
        buf.push(b);
        i = i + 1;
    }
    Ok(buf)
}

/// However the bytes of a buffer are computed (in index order, or spread over
/// any number of workers in any order), a pure shading function fills it with
/// the same bytes: two buffers filled by it are equal.
pub proof fn filled_buffers_agree<F: Fn(PixelSite) -> u8>(
    shade: F,
    width: nat,
    height: nat,
    a: Seq<u8>,
    b: Seq<u8>,
)
    requires
        shade_is_pure(shade),
        filled_by(shade, width, height, a),
        filled_by(shade, width, height, b),
    ensures
        a == b,
{
    assert forall|i: int| 0 <= i < a.len() implies a[i] == b[i] by {
        assert(shade.ensures((site_of(i, width as int),), a[i]));
        assert(shade.ensures((site_of(i, width as int),), b[i]));
    }
    assert(a =~= b);
}

} // verus!
