//! Cue-strip logic: tile states, thumbnail cache keys, and the bilinear
//! downsample that turns a projector frame into a cue thumbnail.

use vstd::prelude::*;
use vstd::string::*;

verus! {

/// Thumbnail width in pixels.
pub const THUMB_W: u32 = 192;
/// Thumbnail height in pixels.
pub const THUMB_H: u32 = 108;

/// A tightly packed RGBA8 image.
pub struct ThumbnailRgba {
    pub width: u32,
    pub height: u32,
    pub data: Vec<u8>,
}

/// State of a cue tile, derived from the transport.
#[derive(Debug, Clone, Copy, PartialEq, Eq, Structural)]
pub enum TileState {
    /// Cue is neither live nor armed.
    Idle,
    /// Cue is next in line to fire (amber ring).
    ArmedNext,
    /// Cue is currently live on the projector (LIVE badge + bottom bar).
    Live,
}

pub open spec fn spec_tile_state(idx: usize, current_cue: Option<usize>, armed_cue: Option<usize>) -> TileState {
    if current_cue == Some(idx) {
        TileState::Live
    } else if armed_cue == Some(idx) {
        TileState::ArmedNext
    } else {
        TileState::Idle
    }
}

/// The state of tile `idx` given the transport's live and armed cues; a
/// cue that is both live and armed shows as live.
pub fn tile_state_for(idx: usize, current_cue: Option<usize>, armed_cue: Option<usize>) -> (r: TileState)
    ensures
        r == spec_tile_state(idx, current_cue, armed_cue),
{
    if current_cue == Some(idx) {
        TileState::Live
    } else if armed_cue == Some(idx) {
        TileState::ArmedNext
    } else {
        TileState::Idle
    }
}

/// At most one tile is live and at most one is armed at any time.
pub proof fn lemma_single_live_and_armed_tile(
    a: usize,
    b: usize,
    current_cue: Option<usize>,
    armed_cue: Option<usize>,
)
    requires
        a != b,
    ensures
        !(spec_tile_state(a, current_cue, armed_cue) == TileState::Live && spec_tile_state(
            b,
            current_cue,
            armed_cue,
        ) == TileState::Live),
        !(spec_tile_state(a, current_cue, armed_cue) == TileState::ArmedNext && spec_tile_state(
            b,
            current_cue,
            armed_cue,
        ) == TileState::ArmedNext),
{
}

pub const CACHE_KEY_OFFSET: u64 = 14695981039346656037;
pub const CACHE_KEY_PRIME: u64 = 1099511628211;

/// FNV-1a hash of a byte string, 64-bit: from the offset basis, each byte
/// is xored in and the result multiplied by the FNV prime.
pub open spec fn cache_key_of(data: Seq<u8>) -> u64
    decreases data.len(),
{
    if data.len() == 0 {
        CACHE_KEY_OFFSET
    } else {
        vstd::wrapping::u64_specs::wrapping_mul(
            cache_key_of(data.drop_last()) ^ (data.last() as u64),
            CACHE_KEY_PRIME,
        )
    }
}

/// Stable key of a thumbnail's raw bytes for the texture cache (FNV-1a,
/// 64-bit).
pub fn thumb_cache_key(data: &[u8]) -> (r: u64)
    ensures
        r == cache_key_of(data@),
{
    let mut acc: u64 = CACHE_KEY_OFFSET;
    let mut i: usize = 0;
    while i < data.len()
        invariant
            0 <= i <= data@.len(),
            acc == cache_key_of(data@.take(i as int)),
        decreases data.len() - i,
    {
        proof {
            assert(data@.take(i + 1).drop_last() =~= data@.take(i as int));
        }
        acc = (acc ^ (data[i] as u64)).wrapping_mul(CACHE_KEY_PRIME);
        i = i + 1;
    }
    assert(data@.take(data.len() as int) =~= data@);
    acc
}

pub const NAME_HASH_OFFSET: u32 = 2166136261;
pub const NAME_HASH_PRIME: u32 = 16777619;

/// Multiply-then-xor hash of a byte string, 32-bit (the FNV-1 order), from
/// the FNV offset basis.
pub open spec fn name_hash_of(bytes: Seq<u8>) -> u32
    decreases bytes.len(),
{
    if bytes.len() == 0 {
        NAME_HASH_OFFSET
    } else {
        vstd::wrapping::u32_specs::wrapping_mul(name_hash_of(bytes.drop_last()), NAME_HASH_PRIME)
            ^ (bytes.last() as u32)
    }
}

/// Stable 32-bit hash of a cue name's UTF-8 bytes; it seeds the
/// placeholder thumbnail's colours.
pub fn name_hash(name: &str) -> (r: u32)
    ensures
        r == name_hash_of(name.spec_bytes()),
{
    let bytes = name.as_bytes();
    let mut acc: u32 = NAME_HASH_OFFSET;
    let mut i: usize = 0;
    while i < bytes.len()
        invariant
            0 <= i <= bytes@.len(),
            bytes@ == name.spec_bytes(),
            acc == name_hash_of(bytes@.take(i as int)),
        decreases bytes.len() - i,
    {
        proof {
            assert(bytes@.take(i + 1).drop_last() =~= bytes@.take(i as int));
        }
        acc = acc.wrapping_mul(NAME_HASH_PRIME) ^ (bytes[i] as u32);
        i = i + 1;
    }
    assert(bytes@.take(bytes.len() as int) =~= bytes@);
    acc
}

} // verus!

verus! {

/// `floor(n / d)` clamped to `0..=hi`, for `d > 0`. A negative `n` has a
/// negative floor and so clamps to 0.
pub open spec fn floor_clamped(n: int, d: int, hi: int) -> int {
    if n < 0 {
        0
    } else if n / d > hi {
        hi
    } else {
        n / d
    }
}

/// Numerator over `d` of the fraction `n / d - base`, clamped to `[0, 1]`.
pub open spec fn frac_clamped(n: int, d: int, base: int) -> int {
    let f = n - base * d;
    if f < 0 {
        0
    } else if f > d {
        d
    } else {
        f
    }
}

pub open spec fn min_int(a: int, b: int) -> int {
    if a < b {
        a
    } else {
        b
    }
}

/// Channel `ch` of source pixel `(x, y)`.
pub open spec fn src_px(src: Seq<u8>, src_w: int, x: int, y: int, ch: int) -> int {
    src[(y * src_w + x) * 4 + ch] as int
}

/// Bilinear sample of channel `ch` at destination pixel `(dx, dy)`.
///
/// The destination texel centre `(dx + 1/2)` maps to source coordinate
/// `sx = (dx + 1/2) * src_w / dst_w - 1/2`, written over the denominator
/// `2 * dst_w`; likewise `sy`. The four neighbours around `(sx, sy)` —
/// clamped to the image — are blended with the fractional offsets, and
/// the result is rounded half-up to a byte.
pub open spec fn bilinear_value(
    src: Seq<u8>,
    src_w: int,
    src_h: int,
    dst_w: int,
    dst_h: int,
    dx: int,
    dy: int,
    ch: int,
) -> int {
    let d = 2 * dst_w;
    let e = 2 * dst_h;
    let nx = (2 * dx + 1) * src_w - dst_w;
    let ny = (2 * dy + 1) * src_h - dst_h;
    let x0 = floor_clamped(nx, d, src_w - 1);
    let y0 = floor_clamped(ny, e, src_h - 1);
    let x1 = min_int(x0 + 1, src_w - 1);
    let y1 = min_int(y0 + 1, src_h - 1);
    let fx = frac_clamped(nx, d, x0);
    let fy = frac_clamped(ny, e, y0);
    let top = src_px(src, src_w, x0, y0, ch) * (d - fx) + src_px(src, src_w, x1, y0, ch) * fx;
    let bottom = src_px(src, src_w, x0, y1, ch) * (d - fx) + src_px(src, src_w, x1, y1, ch) * fx;
    let num = top * (e - fy) + bottom * fy;
    (2 * num + d * e) / (2 * d * e)
}

/// Byte `k` of the downsampled image: channel `k % 4` of pixel `k / 4`,
/// which sits at column `(k / 4) % dst_w` of row `(k / 4) / dst_w`.
pub open spec fn downsampled_byte(
    src: Seq<u8>,
    src_w: int,
    src_h: int,
    dst_w: int,
    dst_h: int,
    k: int,
) -> u8 {
    let p = k / 4;
    bilinear_value(src, src_w, src_h, dst_w, dst_h, p % dst_w, p / dst_w, k % 4) as u8
}

/// The whole downsampled image, row-major RGBA8.
pub open spec fn downsampled(src: Seq<u8>, src_w: int, src_h: int, dst_w: int, dst_h: int) -> Seq<u8> {
    Seq::new(
        (dst_w * dst_h * 4) as nat,
        |k: int| downsampled_byte(src, src_w, src_h, dst_w, dst_h, k),
    )
}

proof fn lemma_blend_bounds(a: int, b: int, c: int, dd: int, d: int, e: int, fx: int, fy: int)
    by (nonlinear_arith)
    requires
        0 <= a <= 255,
        0 <= b <= 255,
        0 <= c <= 255,
        0 <= dd <= 255,
        d > 0,
        e > 0,
        0 <= fx <= d,
        0 <= fy <= e,
    ensures
        0 <= (a * (d - fx) + b * fx) * (e - fy) + (c * (d - fx) + dd * fx) * fy <= 255 * d * e,
{
    assert(0 <= a * (d - fx) + b * fx <= 255 * d);
    assert(0 <= c * (d - fx) + dd * fx <= 255 * d);
}

proof fn lemma_round_bounds(num: int, de: int)
    by (nonlinear_arith)
    requires
        de > 0,
        0 <= num <= 255 * de,
    ensures
        0 <= (2 * num + de) / (2 * de) <= 255,
{
}

proof fn lemma_pixel_index(x: int, y: int, w: int, h: int, ch: int)
    by (nonlinear_arith)
    requires
        0 <= x < w,
        0 <= y < h,
        0 <= ch < 4,
    ensures
        0 <= (y * w + x) * 4 + ch < w * h * 4,
{
    assert(y * w + x <= (h - 1) * w + (w - 1));
}

proof fn lemma_row_bound(p: int, w: int, h: int)
    by (nonlinear_arith)
    requires
        0 <= p < w * h,
        w > 0,
    ensures
        0 <= p / w < h,
        0 <= p % w < w,
{
}

proof fn lemma_byte_decode(p: int, ch: int)
    requires
        0 <= p,
        0 <= ch < 4,
    ensures
        (p * 4 + ch) / 4 == p,
        (p * 4 + ch) % 4 == ch,
{
    vstd::arithmetic::div_mod::lemma_fundamental_div_mod_converse(p * 4 + ch, 4, p, ch);
}

/// Floor of `n / d` clamped to `0..=hi`.
fn floor_clamped_exec(n: i128, d: u128, hi: u128) -> (r: u128)
    requires
        d > 0,
        d < 0x1_0000_0000_0000_0000,
        -0x1_0000_0000_0000_0000_0000 < n < 0x1_0000_0000_0000_0000_0000,
    ensures
        r == floor_clamped(n as int, d as int, hi as int),
{
    if n < 0 {
        0
    } else {
        let q = (n as u128) / d;
        if q > hi {
            hi
        } else {
            q
        }
    }
}

/// Clamped fractional numerator, see [`frac_clamped`].
fn frac_clamped_exec(n: i128, d: u128, base: u128) -> (r: u128)
    requires
        d < 0x1_0000_0000_0000_0000,
        base < 0x1_0000_0000,
        -0x1_0000_0000_0000_0000_0000 < n < 0x1_0000_0000_0000_0000_0000,
    ensures
        r == frac_clamped(n as int, d as int, base as int),
        r <= d,
{
    proof {
        assert(base * d < 0x1_0000_0000 * 0x1_0000_0000_0000_0000) by (nonlinear_arith)
            requires
                base < 0x1_0000_0000,
                d < 0x1_0000_0000_0000_0000,
        ;
    }
    let f: i128 = n - (base as i128) * (d as i128);
    if f < 0 {
        0
    } else if f > d as i128 {
        d
    } else {
        f as u128
    }
}

/// Bilinear downsample of a tightly packed `src_w × src_h` RGBA8 image to
/// `dst_w × dst_h`, sampling at destination texel centres. Exact integer
/// arithmetic: every output byte is the rounded bilinear blend defined by
/// [`bilinear_value`]. A blend computed in `f32` can round differently
/// where the exact value lies within float error of a half; such a byte
/// may then differ by one from an `f32` implementation's.
pub fn bilinear_downsample_rgba8(src: &[u8], src_w: u32, src_h: u32, dst_w: u32, dst_h: u32) -> (out:
    Vec<u8>)
    requires
        dst_w * dst_h * 4 <= u32::MAX,
        dst_w * dst_h > 0 ==> {
            &&& src_w >= 1
            &&& src_h >= 1
            &&& src_w * src_h * 4 <= u32::MAX
            &&& src@.len() >= src_w * src_h * 4
        },
    ensures
        out@ == downsampled(src@, src_w as int, src_h as int, dst_w as int, dst_h as int),
        out@.len() == dst_w * dst_h * 4,
{
    let mut out: Vec<u8> = Vec::new();
    let ghost spec_out = downsampled(src@, src_w as int, src_h as int, dst_w as int, dst_h as int);
    if dst_w == 0 || dst_h == 0 {
        assert(dst_w * dst_h == 0) by (nonlinear_arith)
            requires
                dst_w == 0 || dst_h == 0,
        ;
        assert(out@ =~= spec_out);
        return out;
    }
    assert(dst_w * dst_h > 0) by (nonlinear_arith)
        requires
            dst_w > 0,
            dst_h > 0,
    ;
    let n_pixels: u64 = (dst_w as u64) * (dst_h as u64);
    let d: u128 = 2 * (dst_w as u128);
    let e: u128 = 2 * (dst_h as u128);
    assert(d * e <= 0x2_0000_0000 * 0x2_0000_0000) by (nonlinear_arith)
        requires
            d <= 0x2_0000_0000,
            e <= 0x2_0000_0000,
    ;
    let de: u128 = d * e;
    assert(de > 0) by (nonlinear_arith)
        requires
            de == d * e,
            d > 0,
            e > 0,
    ;
    let x_hi: u128 = (src_w - 1) as u128;
    let y_hi: u128 = (src_h - 1) as u128;
    let mut p: u64 = 0;
    while p < n_pixels
        invariant
            0 <= p <= n_pixels,
            n_pixels == dst_w * dst_h,
            dst_w > 0,
            dst_h > 0,
            dst_w * dst_h * 4 <= u32::MAX,
            src_w >= 1,
            src_h >= 1,
            src_w * src_h * 4 <= u32::MAX,
            src@.len() >= src_w * src_h * 4,
            d == 2 * dst_w,
            e == 2 * dst_h,
            de == d * e,
            de > 0,
            x_hi == src_w - 1,
            y_hi == src_h - 1,
            spec_out == downsampled(src@, src_w as int, src_h as int, dst_w as int, dst_h as int),
            out@.len() == p * 4,
            forall|k: int| 0 <= k < p * 4 ==> out@[k] == spec_out[k],
        decreases n_pixels - p,
    {
        proof {
            lemma_row_bound(p as int, dst_w as int, dst_h as int);
        }
        let dx: u64 = p % (dst_w as u64);
        let dy: u64 = p / (dst_w as u64);
        proof {
            assert((2 * (dx as int) + 1) * (src_w as int) <= 0x2_0000_0000 * 0x1_0000_0000)
                by (nonlinear_arith)
                requires
                    dx < 0x1_0000_0000,
                    src_w < 0x1_0000_0000,
            ;
            assert((2 * (dy as int) + 1) * (src_h as int) <= 0x2_0000_0000 * 0x1_0000_0000)
                by (nonlinear_arith)
                requires
                    dy < 0x1_0000_0000,
                    src_h < 0x1_0000_0000,
            ;
        }
        let nx: i128 = (2 * (dx as i128) + 1) * (src_w as i128) - (dst_w as i128);
        let ny: i128 = (2 * (dy as i128) + 1) * (src_h as i128) - (dst_h as i128);
        let x0 = floor_clamped_exec(nx, d, x_hi);
        let y0 = floor_clamped_exec(ny, e, y_hi);
        let x1: u128 = if x0 + 1 < x_hi { x0 + 1 } else { x_hi };
        let y1: u128 = if y0 + 1 < y_hi { y0 + 1 } else { y_hi };
        let fx = frac_clamped_exec(nx, d, x0);
        let fy = frac_clamped_exec(ny, e, y0);
        let w = src_w as u128;
        let mut ch: u128 = 0;
        while ch < 4
            invariant
                0 <= ch <= 4,
                p < n_pixels,
                n_pixels == dst_w * dst_h,
                dst_w > 0,
                src_w >= 1,
                src_h >= 1,
                src_w * src_h * 4 <= u32::MAX,
                src@.len() >= src_w * src_h * 4,
                d == 2 * dst_w,
                e == 2 * dst_h,
                de == d * e,
                de > 0,
                w == src_w,
                dx == (p as int) % (dst_w as int),
                dy == (p as int) / (dst_w as int),
                dy < dst_h,
                x0 == floor_clamped(nx as int, d as int, src_w - 1),
                y0 == floor_clamped(ny as int, e as int, src_h - 1),
                x1 == min_int(x0 + 1, src_w - 1),
                y1 == min_int(y0 + 1, src_h - 1),
                fx == frac_clamped(nx as int, d as int, x0 as int),
                fy == frac_clamped(ny as int, e as int, y0 as int),
                nx == (2 * dx + 1) * src_w - dst_w,
                ny == (2 * dy + 1) * src_h - dst_h,
                x0 < src_w,
                y0 < src_h,
                fx <= d,
                fy <= e,
                spec_out == downsampled(src@, src_w as int, src_h as int, dst_w as int, dst_h as int),
                out@.len() == p * 4 + ch,
                forall|k: int| 0 <= k < p * 4 + ch ==> out@[k] == spec_out[k],
            decreases 4 - ch,
        {
            proof {
                lemma_pixel_index(x0 as int, y0 as int, src_w as int, src_h as int, ch as int);
                lemma_pixel_index(x1 as int, y0 as int, src_w as int, src_h as int, ch as int);
                lemma_pixel_index(x0 as int, y1 as int, src_w as int, src_h as int, ch as int);
                lemma_pixel_index(x1 as int, y1 as int, src_w as int, src_h as int, ch as int);
            }
            let v00 = src[((y0 * w + x0) * 4 + ch) as usize] as u128;
            let v10 = src[((y0 * w + x1) * 4 + ch) as usize] as u128;
            let v01 = src[((y1 * w + x0) * 4 + ch) as usize] as u128;
            let v11 = src[((y1 * w + x1) * 4 + ch) as usize] as u128;
            assert(v00 == src_px(src@, src_w as int, x0 as int, y0 as int, ch as int));
            assert(v10 == src_px(src@, src_w as int, x1 as int, y0 as int, ch as int));
            assert(v01 == src_px(src@, src_w as int, x0 as int, y1 as int, ch as int));
            assert(v11 == src_px(src@, src_w as int, x1 as int, y1 as int, ch as int));
            proof {
                lemma_blend_bounds(
                    v00 as int,
                    v10 as int,
                    v01 as int,
                    v11 as int,
                    d as int,
                    e as int,
                    fx as int,
                    fy as int,
                );
                assert(de <= 0x4_0000_0000 * 0x4_0000_0000) by (nonlinear_arith)
                    requires
                        de == d * e,
                        d <= 0x2_0000_0000,
                        e <= 0x2_0000_0000,
                ;
                assert(v00 * (d - fx) + v10 * fx <= 255 * d) by (nonlinear_arith)
                    requires
                        v00 <= 255,
                        v10 <= 255,
                        fx <= d,
                ;
                assert(v01 * (d - fx) + v11 * fx <= 255 * d) by (nonlinear_arith)
                    requires
                        v01 <= 255,
                        v11 <= 255,
                        fx <= d,
                ;
                assert(d <= 0x2_0000_0000);
            }
            let top: u128 = v00 * (d - fx) + v10 * fx;
            let bottom: u128 = v01 * (d - fx) + v11 * fx;
            proof {
                assert(top * (e - fy) <= 255 * d * e) by (nonlinear_arith)
                    requires
                        top <= 255 * d,
                        fy <= e,
                ;
                assert(bottom * fy <= 255 * d * e) by (nonlinear_arith)
                    requires
                        bottom <= 255 * d,
                        fy <= e,
                ;
                assert(255 * d * e <= 255 * 0x2_0000_0000 * 0x2_0000_0000) by (nonlinear_arith)
                    requires
                        d <= 0x2_0000_0000,
                        e <= 0x2_0000_0000,
                ;
            }
            let num: u128 = top * (e - fy) + bottom * fy;
            proof {
                assert(255 * d * e == 255 * de) by (nonlinear_arith)
                    requires
                        de == d * e,
                ;
                lemma_round_bounds(num as int, de as int);
            }
            let val: u128 = (2 * num + de) / (2 * de);
            out.push(val as u8);
            proof {
                let k = p * 4 + ch;
                lemma_byte_decode(p as int, ch as int);
                assert(k / 4 == p);
                assert(k % 4 == ch);
                assert(k < dst_w * dst_h * 4) by (nonlinear_arith)
                    requires
                        k == p * 4 + ch,
                        p < dst_w * dst_h,
                        ch < 4,
                ;
                assert(spec_out[k] == downsampled_byte(
                    src@,
                    src_w as int,
                    src_h as int,
                    dst_w as int,
                    dst_h as int,
                    k,
                ));
                assert(2 * de == 2 * d * e) by (nonlinear_arith)
                    requires
                        de == d * e,
                ;
                assert(val == (2 * num + d * e) / (2 * d * e));
                assert(val == bilinear_value(
                    src@,
                    src_w as int,
                    src_h as int,
                    dst_w as int,
                    dst_h as int,
                    dx as int,
                    dy as int,
                    ch as int,
                ));
            }
            ch = ch + 1;
        }
        p = p + 1;
    }
    assert(out@ =~= spec_out);
    out
}

} // verus!

verus! {

proof fn lemma_flat_blend(c: int, d: int, e: int, fx: int, fy: int)
    by (nonlinear_arith)
    requires
        0 <= c <= 255,
        d > 0,
        e > 0,
        0 <= fx <= d,
        0 <= fy <= e,
    ensures
        (2 * ((c * (d - fx) + c * fx) * (e - fy) + (c * (d - fx) + c * fx) * fy) + d * e) / (2 * d
            * e) == c,
{
    assert(c * (d - fx) + c * fx == c * d);
    assert((c * d) * (e - fy) + (c * d) * fy == c * d * e);
    assert(2 * (c * d * e) + d * e == c * (2 * d * e) + d * e);
    assert(0 <= d * e < 2 * d * e);
}

/// A flat source channel stays flat: if channel `ch` has the same value `c`
/// at every source pixel, every downsampled pixel has value `c` in that
/// channel, whatever the sizes.
pub proof fn lemma_flat_colour_preserved(
    src: Seq<u8>,
    src_w: int,
    src_h: int,
    dst_w: int,
    dst_h: int,
    dx: int,
    dy: int,
    ch: int,
    c: u8,
)
    requires
        src_w >= 1,
        src_h >= 1,
        dst_w >= 1,
        dst_h >= 1,
        0 <= dx < dst_w,
        0 <= dy < dst_h,
        0 <= ch < 4,
        forall|x: int, y: int|
            0 <= x < src_w && 0 <= y < src_h ==> #[trigger] src_px(src, src_w, x, y, ch) == c,
    ensures
        bilinear_value(src, src_w, src_h, dst_w, dst_h, dx, dy, ch) == c,
{
    let d = 2 * dst_w;
    let e = 2 * dst_h;
    let nx = (2 * dx + 1) * src_w - dst_w;
    let ny = (2 * dy + 1) * src_h - dst_h;
    let x0 = floor_clamped(nx, d, src_w - 1);
    let y0 = floor_clamped(ny, e, src_h - 1);
    let x1 = min_int(x0 + 1, src_w - 1);
    let y1 = min_int(y0 + 1, src_h - 1);
    if nx >= 0 {
        vstd::arithmetic::div_mod::lemma_div_pos_is_pos(nx, d);
    }
    if ny >= 0 {
        vstd::arithmetic::div_mod::lemma_div_pos_is_pos(ny, e);
    }
    assert(src_px(src, src_w, x0, y0, ch) == c);
    assert(src_px(src, src_w, x1, y0, ch) == c);
    assert(src_px(src, src_w, x0, y1, ch) == c);
    assert(src_px(src, src_w, x1, y1, ch) == c);
    lemma_flat_blend(
        c as int,
        d,
        e,
        frac_clamped(nx, d, x0),
        frac_clamped(ny, e, y0),
    );
}

proof fn lemma_range_blend(
    a: int,
    b: int,
    c: int,
    dd: int,
    lo: int,
    hi: int,
    d: int,
    e: int,
    fx: int,
    fy: int,
)
    by (nonlinear_arith)
    requires
        lo <= a <= hi,
        lo <= b <= hi,
        lo <= c <= hi,
        lo <= dd <= hi,
        d > 0,
        e > 0,
        0 <= fx <= d,
        0 <= fy <= e,
    ensures
        lo * d * e <= (a * (d - fx) + b * fx) * (e - fy) + (c * (d - fx) + dd * fx) * fy <= hi * d
            * e,
{
    assert(lo * d <= a * (d - fx) + b * fx <= hi * d);
    assert(lo * d <= c * (d - fx) + dd * fx <= hi * d);
}

proof fn lemma_range_round(num: int, lo: int, hi: int, de: int)
    by (nonlinear_arith)
    requires
        de > 0,
        lo * de <= num <= hi * de,
    ensures
        lo <= (2 * num + de) / (2 * de) <= hi,
{
    assert(lo * (2 * de) <= 2 * num + de);
    assert(2 * num + de < (hi + 1) * (2 * de));
}

/// Downsampling never leaves a channel's range: when channel `ch` lies in
/// `lo..=hi` at every source pixel (for instance between its smallest and
/// largest source value), every downsampled value of that channel does too.
pub proof fn lemma_downsample_stays_in_channel_range(
    src: Seq<u8>,
    src_w: int,
    src_h: int,
    dst_w: int,
    dst_h: int,
    dx: int,
    dy: int,
    ch: int,
    lo: int,
    hi: int,
)
    requires
        src_w >= 1,
        src_h >= 1,
        dst_w >= 1,
        dst_h >= 1,
        0 <= dx < dst_w,
        0 <= dy < dst_h,
        0 <= ch < 4,
        forall|x: int, y: int|
            0 <= x < src_w && 0 <= y < src_h ==> lo <= #[trigger] src_px(src, src_w, x, y, ch)
                <= hi,
    ensures
        lo <= bilinear_value(src, src_w, src_h, dst_w, dst_h, dx, dy, ch) <= hi,
{
    let d = 2 * dst_w;
    let e = 2 * dst_h;
    let nx = (2 * dx + 1) * src_w - dst_w;
    let ny = (2 * dy + 1) * src_h - dst_h;
    let x0 = floor_clamped(nx, d, src_w - 1);
    let y0 = floor_clamped(ny, e, src_h - 1);
    let x1 = min_int(x0 + 1, src_w - 1);
    let y1 = min_int(y0 + 1, src_h - 1);
    if nx >= 0 {
        vstd::arithmetic::div_mod::lemma_div_pos_is_pos(nx, d);
    }
    if ny >= 0 {
        vstd::arithmetic::div_mod::lemma_div_pos_is_pos(ny, e);
    }
    let a = src_px(src, src_w, x0, y0, ch);
    let b = src_px(src, src_w, x1, y0, ch);
    let c = src_px(src, src_w, x0, y1, ch);
    let dd = src_px(src, src_w, x1, y1, ch);
    let fx = frac_clamped(nx, d, x0);
    let fy = frac_clamped(ny, e, y0);
    lemma_range_blend(a, b, c, dd, lo, hi, d, e, fx, fy);
    let num = (a * (d - fx) + b * fx) * (e - fy) + (c * (d - fx) + dd * fx) * fy;
    assert(lo * d * e == lo * (d * e) && hi * d * e == hi * (d * e)) by (nonlinear_arith);
    assert(d * e > 0) by (nonlinear_arith)
        requires
            d > 0,
            e > 0,
    ;
    lemma_range_round(num, lo, hi, d * e);
    assert(2 * d * e == 2 * (d * e)) by (nonlinear_arith);
}

proof fn lemma_identity_axis(i: int, w: int)
    by (nonlinear_arith)
    requires
        0 <= i < w,
    ensures
        ((2 * i + 1) * w - w) / (2 * w) == i,
        (2 * i + 1) * w - w - i * (2 * w) == 0,
        (2 * i + 1) * w - w >= 0,
{
    assert((2 * i + 1) * w - w == i * (2 * w));
}

proof fn lemma_identity_blend(v: int, d: int, e: int)
    by (nonlinear_arith)
    requires
        0 <= v <= 255,
        d > 0,
        e > 0,
    ensures
        (2 * ((v * (d - 0) + v * 0) * (e - 0) + (v * (d - 0) + v * 0) * 0) + d * e) / (2 * d * e)
            == v,
{
    assert(2 * (v * d * e) + d * e == v * (2 * d * e) + d * e);
    assert(0 <= d * e < 2 * d * e);
}

/// Downsampling to the source's own size gives back the source bytes
/// exactly: the destination texel centres fall on the source texel
/// centres, so no blending happens.
pub proof fn lemma_identity_size_is_passthrough(src: Seq<u8>, w: int, h: int)
    requires
        w >= 1,
        h >= 1,
        src.len() == w * h * 4,
    ensures
        downsampled(src, w, h, w, h) == src,
{
    let out = downsampled(src, w, h, w, h);
    assert(w * h * 4 >= 0) by (nonlinear_arith)
        requires
            w >= 1,
            h >= 1,
    ;
    assert forall|k: int| 0 <= k < src.len() implies #[trigger] out[k] == src[k] by {
        let p = k / 4;
        let ch = k % 4;
        let dx = p % w;
        let dy = p / w;
        assert(0 <= p < w * h) by (nonlinear_arith)
            requires
                0 <= k < w * h * 4,
                p == k / 4,
        ;
        lemma_row_bound(p, w, h);
        lemma_identity_axis(dx, w);
        lemma_identity_axis(dy, h);
        assert(floor_clamped((2 * dx + 1) * w - w, 2 * w, w - 1) == dx);
        assert(floor_clamped((2 * dy + 1) * h - h, 2 * h, h - 1) == dy);
        assert(frac_clamped((2 * dx + 1) * w - w, 2 * w, dx) == 0);
        assert(frac_clamped((2 * dy + 1) * h - h, 2 * h, dy) == 0);
        assert((dy * w + dx) * 4 + ch == k) by (nonlinear_arith)
            requires
                dx == p % w,
                dy == p / w,
                p == k / 4,
                ch == k % 4,
                w >= 1,
                k >= 0,
        {
            vstd::arithmetic::div_mod::lemma_fundamental_div_mod(p, w);
            vstd::arithmetic::div_mod::lemma_fundamental_div_mod(k, 4);
        }
        let v = src_px(src, w, dx, dy, ch);
        lemma_identity_blend(v, 2 * w, 2 * h);
    }
    assert(out =~= src);
}

} // verus!

verus! {

/// Hue denominators: hues are carried as exact fractions of a degree.
/// `360 / 65535 == 24 / 4369`, and the gradient parameter `t` runs over
/// `(108 * col + 192 * row) / 41472` for a 192 × 108 thumbnail.
pub const HUE_UNIT: u64 = 4369;
pub const GRADIENT_DEN: u64 = 41472;

/// First gradient hue, in `1/HUE_UNIT` degrees: the low half of the name
/// hash spread over `0..=360`.
pub open spec fn hue_a(h: u32) -> int {
    24 * (h as int % 65536)
}

/// Second gradient hue, in `1/HUE_UNIT` degrees: the high half of the name
/// hash spread over `0..=360`, shifted by 40° and wrapped into `0..360`.
pub open spec fn hue_b(h: u32) -> int {
    (24 * (h as int / 65536) + 40 * HUE_UNIT) % (360 * HUE_UNIT)
}

/// Hue of pixel `(col, row)` in `1/(HUE_UNIT * GRADIENT_DEN)` degrees: a
/// diagonal sweep from `hue_a` at the top-left towards `hue_b`, with
/// `t = (col / 192 + row / 108) / 2`.
pub open spec fn pixel_hue(h: u32, col: int, row: int) -> int {
    let t = 108 * col + 192 * row;
    hue_a(h) * (GRADIENT_DEN - t) + hue_b(h) * t
}

/// Byte of a fully saturated HSL component (`C + m`) at saturation 0.55 and
/// lightness 0.28: `round((0.308 + 0.126) * 255)`.
pub const CHROMA_BYTE: u8 = 111;
/// Byte of a zero HSL component (`0 + m`): `round(0.126 * 255)`.
pub const FLOOR_BYTE: u8 = 32;

/// Byte of the intermediate HSL component `X + m`, where
/// `X = C * (1 - |(hue / 60) mod 2 - 1|)`, for a hue `hn` over `den`.
pub open spec fn ramp_byte(hn: int, den: int) -> int {
    let w = 60 * den;
    let r = hn % (2 * w);
    let g = if r >= w { 2 * w - r } else { r };
    (510 * (154 * g + 63 * w) + 500 * w) / (1000 * w)
}

/// Channel `ch` (0 = R, 1 = G, 2 = B) of the HSL colour at hue `hn / den`
/// degrees, saturation 0.55, lightness 0.28.
pub open spec fn hsl_channel(hn: int, den: int, ch: int) -> u8 {
    let sector = hn / (60 * den);
    let x = ramp_byte(hn, den) as u8;
    let c = CHROMA_BYTE;
    let z = FLOOR_BYTE;
    let rgb = if sector == 0 {
        (c, x, z)
    } else if sector == 1 {
        (x, c, z)
    } else if sector == 2 {
        (z, c, x)
    } else if sector == 3 {
        (z, x, c)
    } else if sector == 4 {
        (x, z, c)
    } else {
        (c, z, x)
    };
    if ch == 0 {
        rgb.0
    } else if ch == 1 {
        rgb.1
    } else {
        rgb.2
    }
}

/// Byte `k` of the placeholder thumbnail for a name with hash `h`: channel
/// `k % 4` of pixel `k / 4` (row-major, 192 wide); alpha is always opaque.
pub open spec fn placeholder_byte(h: u32, k: int) -> u8 {
    let p = k / 4;
    let ch = k % 4;
    if ch == 3 {
        255
    } else {
        hsl_channel(pixel_hue(h, p % 192, p / 192), (HUE_UNIT * GRADIENT_DEN) as int, ch)
    }
}

proof fn lemma_mix_range(a: int, b: int, t: int, u: int, g: int)
    by (nonlinear_arith)
    requires
        0 <= a <= u,
        0 <= b <= u,
        0 <= t <= g,
    ensures
        0 <= a * (g - t) + b * t <= u * g,
{
    assert(a * (g - t) <= u * (g - t));
    assert(b * t <= u * t);
}

proof fn lemma_hue_range(h: u32, col: int, row: int)
    requires
        0 <= col < 192,
        0 <= row < 108,
    ensures
        0 <= pixel_hue(h, col, row) <= 360 * (HUE_UNIT * GRADIENT_DEN),
{
    let t = 108 * col + 192 * row;
    assert(0 <= t < GRADIENT_DEN);
    assert(0 <= hue_a(h) <= 360 * HUE_UNIT);
    assert(0 <= hue_b(h) < 360 * HUE_UNIT);
    lemma_mix_range(hue_a(h), hue_b(h), t, 360 * HUE_UNIT as int, GRADIENT_DEN as int);
}

proof fn lemma_ramp_range(hn: int, den: int)
    by (nonlinear_arith)
    requires
        den > 0,
        0 <= hn,
    ensures
        0 <= ramp_byte(hn, den) <= 255,
{
    let w = 60 * den;
    let r = hn % (2 * w);
    let g = if r >= w { 2 * w - r } else { r };
    assert(0 <= r < 2 * w);
    assert(0 <= g <= w);
    assert(510 * (154 * g + 63 * w) + 500 * w <= 510 * 217 * w + 500 * w);
    assert(510 * 217 * w + 500 * w < 256 * (1000 * w));
}

/// One RGB channel of the placeholder colour at hue `hn / den`.
fn hsl_channel_exec(hn: u64, den: u64, ch: u64) -> (r: u8)
    requires
        den == HUE_UNIT * GRADIENT_DEN,
        hn <= 360 * den,
        ch < 3,
    ensures
        r == hsl_channel(hn as int, den as int, ch as int),
{
    let w: u64 = 60 * den;
    let rem: u64 = hn % (2 * w);
    let g: u64 = if rem >= w { 2 * w - rem } else { rem };
    proof {
        lemma_ramp_range(hn as int, den as int);
    }
    let x: u8 = ((510 * (154 * g + 63 * w) + 500 * w) / (1000 * w)) as u8;
    let sector: u64 = hn / w;
    let c = CHROMA_BYTE;
    let z = FLOOR_BYTE;
    let rgb: (u8, u8, u8) = if sector == 0 {
        (c, x, z)
    } else if sector == 1 {
        (x, c, z)
    } else if sector == 2 {
        (z, c, x)
    } else if sector == 3 {
        (z, x, c)
    } else if sector == 4 {
        (x, z, c)
    } else {
        (c, z, x)
    };
    if ch == 0 {
        rgb.0
    } else if ch == 1 {
        rgb.1
    } else {
        rgb.2
    }
}

/// A 192 × 108 RGBA8 placeholder thumbnail derived from the cue name's
/// hash: a diagonal sweep between two hash-chosen hues, so each cue gets a
/// distinct colour field without a GPU readback. Hues and colours are
/// computed exactly as fractions.
pub fn placeholder_thumbnail_for_name(name: &str) -> (t: ThumbnailRgba)
    ensures
        t.width == THUMB_W,
        t.height == THUMB_H,
        t.data@ == Seq::new(
            (THUMB_W * THUMB_H * 4) as nat,
            |k: int| placeholder_byte(name_hash_of(name.spec_bytes()), k),
        ),
{
    let h = name_hash(name);
    let ghost spec_data = Seq::new(
        (THUMB_W * THUMB_H * 4) as nat,
        |k: int| placeholder_byte(h, k),
    );
    let den: u64 = HUE_UNIT * GRADIENT_DEN;
    let a: u64 = 24 * ((h % 65536) as u64);
    let b: u64 = (24 * ((h / 65536) as u64) + 40 * HUE_UNIT) % (360 * HUE_UNIT);
    let mut data: Vec<u8> = Vec::new();
    let mut p: u64 = 0;
    while p < (THUMB_W as u64) * (THUMB_H as u64)
        invariant
            0 <= p <= THUMB_W * THUMB_H,
            den == HUE_UNIT * GRADIENT_DEN,
            a == hue_a(h),
            b == hue_b(h),
            spec_data == Seq::new((THUMB_W * THUMB_H * 4) as nat, |k: int| placeholder_byte(h, k)),
            data@.len() == p * 4,
            forall|k: int| 0 <= k < p * 4 ==> data@[k] == spec_data[k],
        decreases (THUMB_W * THUMB_H) - p,
    {
        let col: u64 = p % 192;
        let row: u64 = p / 192;
        assert(row < 108);
        let t: u64 = 108 * col + 192 * row;
        proof {
            lemma_hue_range(h, col as int, row as int);
            assert(a * (GRADIENT_DEN - t) <= 24 * 65535 * GRADIENT_DEN) by (nonlinear_arith)
                requires
                    a <= 24 * 65535,
                    t <= GRADIENT_DEN,
            ;
            assert(b * t <= 360 * HUE_UNIT * GRADIENT_DEN) by (nonlinear_arith)
                requires
                    b < 360 * HUE_UNIT,
                    t <= GRADIENT_DEN,
            ;
        }
        let hn: u64 = a * (GRADIENT_DEN - t) + b * t;
        assert(hn == pixel_hue(h, col as int, row as int));
        let mut ch: u64 = 0;
        while ch < 4
            invariant
                0 <= ch <= 4,
                p < THUMB_W * THUMB_H,
                col == p % 192,
                row == p / 192,
                den == HUE_UNIT * GRADIENT_DEN,
                hn == pixel_hue(h, col as int, row as int),
                hn <= 360 * den,
                spec_data == Seq::new(
                    (THUMB_W * THUMB_H * 4) as nat,
                    |k: int| placeholder_byte(h, k),
                ),
                data@.len() == p * 4 + ch,
                forall|k: int| 0 <= k < p * 4 + ch ==> data@[k] == spec_data[k],
            decreases 4 - ch,
        {
            let v: u8 = if ch == 3 {
                255
            } else {
                hsl_channel_exec(hn, den, ch)
            };
            data.push(v);
            proof {
                lemma_byte_decode(p as int, ch as int);
                let k = p * 4 + ch;
                assert(spec_data[k as int] == placeholder_byte(h, k as int));
            }
            ch = ch + 1;
        }
        p = p + 1;
    }
    assert(data@ =~= spec_data);
    ThumbnailRgba { width: THUMB_W, height: THUMB_H, data }
}

/// Every placeholder pixel is fully opaque.
pub proof fn lemma_placeholder_opaque(h: u32, k: int)
    requires
        k % 4 == 3,
    ensures
        placeholder_byte(h, k) == 255,
{
}

} // verus!

verus! {

/// Whether tile `idx` gets the accent ring: it is the target of the running
/// crossfade, or the cue waiting for the next quantize boundary.
pub fn tile_highlighted(idx: usize, crossfade_target: Option<usize>, pending_cue: Option<usize>) -> (r:
    bool)
    ensures
        r == (crossfade_target == Some(idx) || pending_cue == Some(idx)),
{
    crossfade_target == Some(idx) || pending_cue == Some(idx)
}

} // verus!

verus! {

/// The outline colour role of a cue tile.
#[derive(Debug, Clone, Copy, PartialEq, Eq, Structural)]
pub enum TileBorder {
    /// The accent colour: the live cue, or an idle tile that is being
    /// crossfaded to or waits for the next quantize boundary.
    Accent,
    /// Amber: the cue armed to go next.
    Armed,
    /// The secondary text colour of a hovered idle tile.
    Hover,
    Plain,
}

/// The outline of a cue tile. Transport state decides first; an idle tile
/// shows the accent when highlighted, and the hover colour only when it is
/// neither highlighted nor live nor armed.
pub open spec fn spec_tile_border(state: TileState, highlighted: bool, hovered: bool) -> TileBorder {
    match state {
        TileState::Live => TileBorder::Accent,
        TileState::ArmedNext => TileBorder::Armed,
        TileState::Idle => if highlighted {
            TileBorder::Accent
        } else if hovered {
            TileBorder::Hover
        } else {
            TileBorder::Plain
        },
    }
}

/// Outline of a cue tile for its transport state, highlight and hover.
pub fn tile_border(state: TileState, highlighted: bool, hovered: bool) -> (r: TileBorder)
    ensures
        r == spec_tile_border(state, highlighted, hovered),
{
    match state {
        TileState::Live => TileBorder::Accent,
        TileState::ArmedNext => TileBorder::Armed,
        TileState::Idle => {
            if highlighted {
                TileBorder::Accent
            } else if hovered {
                TileBorder::Hover
            } else {
                TileBorder::Plain
            }
        },
    }
}

/// The number printed in a tile's corner: its position counted from 1, the
/// digit of its recall hotkey.
pub fn tile_number_label(idx: usize) -> (r: String)
    requires
        idx < u64::MAX,
    ensures
        r@ == crate::text::dec((idx + 1) as nat),
{
    let mut s = String::new();
    crate::text::push_decimal(&mut s, (idx as u64) + 1);
    s
}

} // verus!
