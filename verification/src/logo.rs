use vstd::prelude::*;

verus! {

/// Largest side the logo can be prepared at: its `side * side * 4` byte count must fit a `u32`.
pub const MAX_LOGO_SIDE: i32 = 32767;

/// Whether `data` holds an image that `image::load_from_memory` decodes.
pub uninterp spec fn image_decodes(data: Seq<u8>) -> bool;

/// Decodes an image with `image::load_from_memory`, resizes it with
/// `DynamicImage::resize_exact` (Lanczos3) to `side` by `side`, and takes its RGBA8 bytes
/// (`to_rgba8().into_raw()`). Claimed: a result comes back exactly when the bytes decode, and,
/// as `resize_exact` builds a `side` by `side` buffer, it holds four bytes per pixel. The pixel
/// values are left unsaid: the Lanczos weights come from floating-point `sin`, whose precision
/// Rust does not fix, so they may differ from one machine or build to another.
#[verifier::external_body]
fn decode_resized_rgba(data: &[u8], side: u32) -> (res: Option<Vec<u8>>)
    requires
        1 <= side <= MAX_LOGO_SIDE,
    ensures
        res is Some <==> image_decodes(data@),
        res matches Some(v) ==> v@.len() == 4 * side * side,
{
    match image::load_from_memory(data) {
        Ok(img) => Some(
            img.resize_exact(side, side, image::imageops::FilterType::Lanczos3).to_rgba8().into_raw(),
        ),
        Err(_) => None,
    }
}

/// A colour channel scaled by the pixel's alpha.
pub open spec fn premultiplied(channel: u8, alpha: u8) -> u8 {
    ((channel as int * alpha as int) / 255) as u8
}

/// `out` holds the pixels of `rgba` as premultiplied BGRA, pixel by pixel.
pub open spec fn is_premultiplied_bgra(rgba: Seq<u8>, out: Seq<u8>) -> bool {
    &&& out.len() == 4 * (rgba.len() / 4)
    &&& forall|p: int|
        #![trigger out[4 * p]]
        0 <= p < rgba.len() / 4 ==> {
            &&& out[4 * p] == premultiplied(rgba[4 * p + 2], rgba[4 * p + 3])
            &&& out[4 * p + 1] == premultiplied(rgba[4 * p + 1], rgba[4 * p + 3])
            &&& out[4 * p + 2] == premultiplied(rgba[4 * p], rgba[4 * p + 3])
            &&& out[4 * p + 3] == rgba[4 * p + 3]
        }
}

fn premultiply(channel: u8, alpha: u8) -> (res: u8)
    ensures
        res == premultiplied(channel, alpha),
{
    let c = channel as u32;
    let a = alpha as u32;
    assert(c * a <= 255 * 255) by (nonlinear_arith)
        requires
            c <= 255,
            a <= 255,
    ;
    let v = (c * a) / 255;
    assert(v <= 255);
    v as u8
}

/// Turns RGBA pixels into the premultiplied BGRA that GDI+ draws as 32-bit ARGB; trailing
/// bytes that make no whole pixel are dropped.
pub fn premultiply_to_bgra(rgba: &[u8]) -> (res: Vec<u8>)
    ensures
        is_premultiplied_bgra(rgba@, res@),
{
    let len = rgba.len();
    let n = len / 4;
    let mut out: Vec<u8> = Vec::new();
    let mut p: usize = 0;
    while p < n
        invariant
            n == rgba@.len() / 4,
            len == rgba@.len(),
            4 * n <= len,
            p <= n,
            out@.len() == 4 * p,
            forall|q: int|
                #![trigger out@[4 * q]]
                0 <= q < p ==> {
                    &&& out@[4 * q] == premultiplied(rgba@[4 * q + 2], rgba@[4 * q + 3])
                    &&& out@[4 * q + 1] == premultiplied(rgba@[4 * q + 1], rgba@[4 * q + 3])
                    &&& out@[4 * q + 2] == premultiplied(rgba@[4 * q], rgba@[4 * q + 3])
                    &&& out@[4 * q + 3] == rgba@[4 * q + 3]
                },
        decreases n - p,
    {
        let base = 4 * p;
        let a = rgba[base + 3];
        let r = premultiply(rgba[base], a);
        let g = premultiply(rgba[base + 1], a);
        let b = premultiply(rgba[base + 2], a);
        let ghost prev = out@;
        out.push(b);
        out.push(g);
        out.push(r);
        out.push(a);
        proof {
            assert forall|q: int|
                #![trigger out@[4 * q]]
                0 <= q < p + 1 implies {
                &&& out@[4 * q] == premultiplied(rgba@[4 * q + 2], rgba@[4 * q + 3])
                &&& out@[4 * q + 1] == premultiplied(rgba@[4 * q + 1], rgba@[4 * q + 3])
                &&& out@[4 * q + 2] == premultiplied(rgba@[4 * q], rgba@[4 * q + 3])
                &&& out@[4 * q + 3] == rgba@[4 * q + 3]
            } by {
                if q < p {
                    assert(out@[4 * q] == prev[4 * q]);
                    assert(out@[4 * q + 1] == prev[4 * q + 1]);
                    assert(out@[4 * q + 2] == prev[4 * q + 2]);
                    assert(out@[4 * q + 3] == prev[4 * q + 3]);
                }
            }
        }
        p = p + 1;
    }
    out
}

/// The side the logo is prepared at: the requested one, at least 1.
pub open spec fn logo_side(target_size: i32) -> u32 {
    if target_size >= 1 {
        target_size as u32
    } else {
        1
    }
}

/// Decodes the logo image, resizes it to a square of `target_size` (at least 1) pixels and
/// converts it to premultiplied BGRA; `None` when the bytes hold no image. The pixels are the
/// premultiplied BGRA of the resized RGBA image, whatever values the resizing gave.
pub fn load_logo_data(target_size: i32, image_data: &[u8]) -> (res: Option<(i32, i32, Vec<u8>)>)
    requires
        target_size <= MAX_LOGO_SIDE,
    ensures
        res is Some <==> image_decodes(image_data@),
        res matches Some((w, h, px)) ==> {
            &&& w == logo_side(target_size)
            &&& h == logo_side(target_size)
            &&& px@.len() == 4 * logo_side(target_size) * logo_side(target_size)
            &&& exists|rgba: Seq<u8>|
                #![trigger is_premultiplied_bgra(rgba, px@)]
                rgba.len() == 4 * logo_side(target_size) * logo_side(target_size)
                    && is_premultiplied_bgra(rgba, px@)
        },
{
    let side: u32 = if target_size >= 1 {
        target_size as u32
    } else {
        1
    };
    match decode_resized_rgba(image_data, side) {
        Some(rgba) => {
            let bgra = premultiply_to_bgra(rgba.as_slice());
            proof {
                let n = 4 * side * side;
                assert((n as int) / 4 == side * side && 4 * ((n as int) / 4) == n) by (nonlinear_arith)
                    requires
                        n == 4 * side * side,
                ;
                assert(is_premultiplied_bgra(rgba@, bgra@));
            }
            Some((side as i32, side as i32, bgra))
        },
        None => None,
    }
}

/// Premultiplied colour channels never exceed the pixel's alpha.
pub proof fn lemma_premultiplied_at_most_alpha(channel: u8, alpha: u8)
    ensures
        premultiplied(channel, alpha) <= alpha,
{
    let c = channel as int;
    let a = alpha as int;
    assert((c * a) / 255 <= a) by (nonlinear_arith)
        requires
            0 <= c <= 255,
            0 <= a <= 255,
    ;
    assert(0 <= (c * a) / 255) by (nonlinear_arith)
        requires
            0 <= c <= 255,
            0 <= a <= 255,
    ;
}

} // verus!
