use crate::errors::TransformError;
use crate::raster::{Raster, RasterView};
use vstd::arithmetic::div_mod::lemma_fundamental_div_mod_converse;
use vstd::prelude::*;

verus! {

/// The raster that cropping `src` at offset `(x, y)` with size `w * h` yields:
/// sample `k` of the result is the source sample of row `y + k / (w * 4)` at
/// byte offset `x * 4 + k % (w * 4)` within that row.
pub open spec fn crop_model(src: RasterView, x: int, y: int, w: int, h: int) -> RasterView {
    RasterView {
        width: w as nat,
        height: h as nat,
        data: Seq::new(
            (w * h * 4) as nat,
            |k: int| src.data[((y + k / (w * 4)) * src.width + x) * 4 + k % (w * 4)],
        ),
    }
}

/// A sample index computed from in-range pixel coordinates stays inside a
/// row-major RGBA buffer of `wd * ht` pixels.
proof fn lemma_sample_index_bound(wd: int, ht: int, xx: int, yy: int)
    requires
        0 <= xx < wd,
        0 <= yy < ht,
    ensures
        0 <= yy * wd + xx < wd * ht,
        (yy * wd + xx) * 4 + 3 < wd * ht * 4,
{
    assert(0 <= yy * wd + xx < wd * ht && (yy * wd + xx) * 4 + 3 < wd * ht * 4)
        by (nonlinear_arith)
        requires
            0 <= xx < wd,
            0 <= yy < ht,
    ;
}

/// Whether the pixel buffers of a resize to `w * h` fit the address space: the
/// resampler allocates an intermediate float raster of `src_width * h` pixels
/// and an output raster of `w * h` pixels, at up to 16 bytes per pixel, and
/// panics on a buffer beyond `isize::MAX` bytes.
pub open spec fn resize_fits(src_width: nat, w: int, h: int) -> bool {
    &&& w * h * 16 <= isize::MAX as int
    &&& src_width * h * 16 <= isize::MAX as int
}

/// Relies on `DynamicImage::resize_exact` (via `imageops::resize`) with the
/// Lanczos3 filter: the output has exactly the requested dimensions, whatever
/// the aspect ratio, with an RGBA buffer of exactly `nwidth * nheight * 4`
/// bytes. Nothing is stated of the output samples: the resampling kernel goes
/// through floating-point `sin`, whose rounding the platform's libm decides.
/// `RgbaImage::from_raw` accepts any buffer of exactly `width * height * 4`
/// bytes, which the well-formedness precondition grants.
#[verifier::external_body]
fn resample_lanczos3(src: &Raster, nwidth: u32, nheight: u32) -> (r: Raster)
    requires
        src.wf(),
        1 <= nwidth,
        1 <= nheight,
        resize_fits(src@.width, nwidth as int, nheight as int),
    ensures
        r.width == nwidth,
        r.height == nheight,
        r.pixels@.len() == nwidth as int * nheight as int * 4,
{
    let buf = image::RgbaImage::from_raw(src.width, src.height, src.pixels.clone()).unwrap();
    let img = image::DynamicImage::ImageRgba8(buf);
    let out = img.resize_exact(nwidth, nheight, image::imageops::FilterType::Lanczos3);
    let rgba = out.into_rgba8();
    Raster { width: rgba.width(), height: rgba.height(), pixels: rgba.into_raw() }
}

/// Produce a raster of exactly the requested dimensions, whatever the source's
/// aspect ratio, resampled with the Lanczos3 filter. A zero target dimension
/// is rejected as an invalid parameter, never a panic or a zero-sized buffer;
/// so is a target too large for this machine's address space.
pub fn resize_exact(src: &Raster, width: u32, height: u32) -> (res: Result<
    Raster,
    TransformError,
>)
    requires
        src.wf(),
    ensures
        width == 0 || height == 0 ==> (res matches Err(e) && e
            == TransformError::InvalidParameter),
        1 <= width && 1 <= height && !resize_fits(src@.width, width as int, height as int) ==> (
        res matches Err(e) && e == TransformError::InvalidParameter),
        1 <= width && 1 <= height && resize_fits(src@.width, width as int, height as int) ==> (
        res matches Ok(r) && r.wf() && r.width == width && r.height == height),
        res matches Ok(r) ==> r.wf() && r.width == width && r.height == height,
{
    if width == 0 || height == 0 {
        return Err(TransformError::InvalidParameter);
    }
    let wl: u128 = width as u128;
    let hl: u128 = height as u128;
    let swl: u128 = src.width as u128;
    let limit: u128 = isize::MAX as u128;
    proof {
        assert(wl as int * hl as int * 16 <= u128::MAX as int && swl as int * hl as int * 16
            <= u128::MAX as int) by (nonlinear_arith)
            requires
                0 <= wl as int <= 0xffff_ffff,
                0 <= hl as int <= 0xffff_ffff,
                0 <= swl as int <= 0xffff_ffff,
        ;
    }
    if wl * hl * 16 > limit || swl * hl * 16 > limit {
        return Err(TransformError::InvalidParameter);
    }
    let r = resample_lanczos3(src, width, height);
    Ok(r)
}

/// Sample `i * (w * 4) + j * 4 + kk` of a cropped raster is sample `kk` of the
/// source pixel in column `x + j` of row `y + i`.
proof fn lemma_crop_cell(src: RasterView, x: int, y: int, w: int, h: int, i: int, j: int, kk: int)
    requires
        0 <= kk < 4,
        0 <= i < h,
        0 <= j < w,
        1 <= w,
    ensures
        crop_model(src, x, y, w, h).data[i * (w * 4) + j * 4 + kk] == src.data[((y + i)
            * src.width + x + j) * 4 + kk],
{
    let w4 = w * 4;
    let k = i * w4 + j * 4 + kk;
    assert(0 <= k && k < w * h * 4) by (nonlinear_arith)
        requires
            k == i * (w * 4) + j * 4 + kk,
            0 <= kk < 4,
            0 <= i && i < h,
            0 <= j && j < w,
    ;
    lemma_fundamental_div_mod_converse(k, w4, i, j * 4 + kk);
    assert(((y + i) * src.width + x) * 4 + (j * 4 + kk) == ((y + i) * src.width + x + j) * 4
        + kk);
}

/// Extract the rectangular sub-raster at offset `(x, y)` with the given
/// dimensions, pixel for pixel, without resampling and without clamping:
/// a rectangle that reaches outside the source is rejected, never clipped,
/// and the source raster is left unmodified.
pub fn crop(src: &Raster, x: u32, y: u32, width: u32, height: u32) -> (res: Result<
    Raster,
    TransformError,
>)
    requires
        src.wf(),
    ensures
        width == 0 || height == 0 ==> (res matches Err(e) && e
            == TransformError::InvalidParameter),
        1 <= width && 1 <= height && (x + width > src@.width || y + height > src@.height) ==> (
        res matches Err(e) && e == TransformError::OutOfBounds),
        1 <= width && 1 <= height && x + width <= src@.width && y + height <= src@.height ==> (
        res matches Ok(r) && r.wf() && r@ == crop_model(
            src@,
            x as int,
            y as int,
            width as int,
            height as int,
        )),
        res matches Ok(r) ==> r.width == width && r.height == height && forall|
            i: int,
            j: int,
            c: int,
        |
            0 <= i < height && 0 <= j < width && 0 <= c < 4 ==> r@.pixel(j, i, c) == src@.pixel(
                x + j,
                y + i,
                c,
            ),
{
    if width == 0 || height == 0 {
        return Err(TransformError::InvalidParameter);
    }
    if x as u64 + width as u64 > src.width as u64 || y as u64 + height as u64
        > src.height as u64 {
        return Err(TransformError::OutOfBounds);
    }
    let ghost model = crop_model(src@, x as int, y as int, width as int, height as int);
    let n: usize = src.pixels.len();
    let sw: usize = src.width as usize;
    let mut data: Vec<u8> = Vec::new();
    let mut i: u32 = 0;
    while i < height
        invariant
            src.wf(),
            1 <= width,
            1 <= height,
            x + width <= src@.width,
            y + height <= src@.height,
            n == src@.data.len(),
            sw == src@.width,
            model == crop_model(src@, x as int, y as int, width as int, height as int),
            i <= height,
            data@.len() == i as int * (width as int * 4),
            forall|k: int| 0 <= k < data@.len() ==> data@[k] == model.data[k],
        decreases height - i,
    {
        let mut j: u32 = 0;
        while j < width
            invariant
                src.wf(),
                1 <= width,
                1 <= height,
                x + width <= src@.width,
                y + height <= src@.height,
                n == src@.data.len(),
                sw == src@.width,
                model == crop_model(src@, x as int, y as int, width as int, height as int),
                i < height,
                j <= width,
                data@.len() == i as int * (width as int * 4) + j as int * 4,
                forall|k: int| 0 <= k < data@.len() ==> data@[k] == model.data[k],
            decreases width - j,
        {
            let px: u32 = x + j;
            let py: u32 = y + i;
            proof {
                lemma_sample_index_bound(
                    src@.width as int,
                    src@.height as int,
                    px as int,
                    py as int,
                );
            }
            let base: usize = (py as usize * sw + px as usize) * 4;
            data.push(src.pixels[base]);
            data.push(src.pixels[base + 1]);
            data.push(src.pixels[base + 2]);
            data.push(src.pixels[base + 3]);
            proof {
                let w4 = width as int * 4;
                let k0 = i as int * w4 + j as int * 4;
                lemma_crop_cell(src@, x as int, y as int, width as int, height as int, i as int, j as int, 0);
                lemma_crop_cell(src@, x as int, y as int, width as int, height as int, i as int, j as int, 1);
                lemma_crop_cell(src@, x as int, y as int, width as int, height as int, i as int, j as int, 2);
                lemma_crop_cell(src@, x as int, y as int, width as int, height as int, i as int, j as int, 3);
                assert(base as int == ((y as int + i as int) * src@.width + x as int + j as int)
                    * 4);
                assert(data@[k0 + 0] == model.data[k0 + 0]);
                assert(data@[k0 + 1] == model.data[k0 + 1]);
                assert(data@[k0 + 2] == model.data[k0 + 2]);
                assert(data@[k0 + 3] == model.data[k0 + 3]);
            }
            j = j + 1;
        }
        proof {
            assert((i as int + 1) * (width as int * 4) == i as int * (width as int * 4)
                + width as int * 4) by (nonlinear_arith);
        }
        i = i + 1;
    }
    proof {
        assert(width as int * height as int * 4 == height as int * (width as int * 4))
            by (nonlinear_arith);
        assert(data@ =~= model.data);
    }
    let r = Raster { width, height, pixels: data };
    proof {
        assert(r@ =~= model);
        assert forall|pi: int, pj: int, pc: int|
            0 <= pi < height && 0 <= pj < width && 0 <= pc < 4 implies r@.pixel(pj, pi, pc)
            == src@.pixel(x + pj, y + pi, pc) by {
            lemma_crop_cell(src@, x as int, y as int, width as int, height as int, pi, pj, pc);
            assert((pi * width as int + pj) * 4 + pc == pi * (width as int * 4) + pj * 4 + pc)
                by (nonlinear_arith);
        };
    }
    Ok(r)
}

} // verus!
