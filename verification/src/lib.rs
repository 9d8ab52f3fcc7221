pub mod codec;
pub mod errors;
pub mod raster;
pub mod transform;

use vstd::prelude::*;

verus! {

use crate::codec::{decode, decode_of, encode, fits_decode_limit, png_bytes_of, png_signature};
use crate::errors::{decode_error_text, transform_error_text, DecodeError, TransformError};
use crate::raster::RasterView;
use crate::transform::{crop, crop_model, resize_exact, resize_fits};

/// The raster the decoding stage yields for the given file contents, if any:
/// `None` covers an unreadable file, bytes that decode to no raster, and
/// degenerate rasters with a zero dimension.
pub open spec fn decoded_view(data: Option<Vec<u8>>) -> Option<RasterView> {
    match data {
        None => None,
        Some(d) => match decode_of(d@) {
            Some(v) => if 1 <= v.width && 1 <= v.height {
                Some(v)
            } else {
                None
            },
            None => None,
        },
    }
}

/// Whether `b` is the PNG encoding of some raster with exactly the given
/// dimensions, decoding back to that raster wherever it is within the
/// decoder's allocation limit. The resampled samples themselves carry no
/// stronger specification, so this is all that can be pinned of a resize's
/// output.
pub open spec fn is_png_of_size(b: Seq<u8>, width: int, height: int) -> bool {
    exists|p: Seq<u8>|
        #![trigger p.len()]
        {
            let v = (RasterView { width: width as nat, height: height as nat, data: p });
            &&& p.len() == width * height * 4
            &&& b == png_bytes_of(v)
            &&& fits_decode_limit(v) ==> decode_of(b) == Some(v)
        }
}

/// Decode the source file contents, resample to exactly `width * height` with
/// the Lanczos3 filter, and return the PNG encoding of the result. `data` is
/// the file's contents, `None` where the file could not be read. Any stage
/// failure is surfaced as a message naming the stage and the cause.
pub fn resize_image(data: Option<Vec<u8>>, width: u32, height: u32) -> (res: Result<
    Vec<u8>,
    String,
>)
    ensures
        data is None ==> (res matches Err(m) && m@ == decode_error_text(DecodeError::NotFound)),
        data matches Some(d) ==> match decode_of(d@) {
            Some(v) => if 1 <= v.width && 1 <= v.height {
                true
            } else {
                res matches Err(m) && m@ == decode_error_text(DecodeError::Corrupt)
            },
            None => res matches Err(m) && (m@ == decode_error_text(DecodeError::UnsupportedFormat)
                || m@ == decode_error_text(DecodeError::Corrupt)),
        },
        decoded_view(data) matches Some(v) ==> if width == 0 || height == 0 || !resize_fits(
            v.width,
            width as int,
            height as int,
        ) {
            res matches Err(m) && m@ == transform_error_text(TransformError::InvalidParameter)
        } else {
            res matches Ok(b) && png_signature(b@) && is_png_of_size(
                b@,
                width as int,
                height as int,
            )
        },
{
    let img = match decode(&data) {
        Ok(r) => r,
        Err(e) => {
            return Err(e.message());
        },
    };
    let resized = match resize_exact(&img, width, height) {
        Ok(r) => r,
        Err(e) => {
            return Err(e.message());
        },
    };
    match encode(&resized) {
        Ok(b) => {
            proof {
                let v = (RasterView {
                    width: width as nat,
                    height: height as nat,
                    data: resized@.data,
                });
                assert(resized@ =~= v);
                assert(v.data.len() == width as int * height as int * 4);
                assert(b@ == png_bytes_of(v));
                assert(fits_decode_limit(v) ==> decode_of(b@) == Some(v));
                assert(is_png_of_size(b@, width as int, height as int));
            }
            Ok(b)
        },
        Err(e) => Err(e.message()),
    }
}

/// Decode the source file contents, extract the rectangle at `(x, y)` of size
/// `width * height` pixel for pixel, and return the PNG encoding of the
/// result. `data` is the file's contents, `None` where the file could not be
/// read. A rectangle that reaches outside the source is rejected, never
/// clamped; any stage failure is surfaced as a message naming the stage and
/// the cause.
pub fn crop_image(data: Option<Vec<u8>>, x: u32, y: u32, width: u32, height: u32) -> (res: Result<
    Vec<u8>,
    String,
>)
    ensures
        data is None ==> (res matches Err(m) && m@ == decode_error_text(DecodeError::NotFound)),
        data matches Some(d) ==> match decode_of(d@) {
            Some(v) => if 1 <= v.width && 1 <= v.height {
                true
            } else {
                res matches Err(m) && m@ == decode_error_text(DecodeError::Corrupt)
            },
            None => res matches Err(m) && (m@ == decode_error_text(DecodeError::UnsupportedFormat)
                || m@ == decode_error_text(DecodeError::Corrupt)),
        },
        decoded_view(data) matches Some(v) ==> if width == 0 || height == 0 {
            res matches Err(m) && m@ == transform_error_text(TransformError::InvalidParameter)
        } else if x + width > v.width || y + height > v.height {
            res matches Err(m) && m@ == transform_error_text(TransformError::OutOfBounds)
        } else {
            let cm = crop_model(v, x as int, y as int, width as int, height as int);
            res matches Ok(b) && b@ == png_bytes_of(cm) && png_signature(b@) && (
            fits_decode_limit(cm) ==> decode_of(b@) == Some(cm))
        },
{
    let img = match decode(&data) {
        Ok(r) => r,
        Err(e) => {
            return Err(e.message());
        },
    };
    let cropped = match crop(&img, x, y, width, height) {
        Ok(r) => r,
        Err(e) => {
            return Err(e.message());
        },
    };
    match encode(&cropped) {
        Ok(b) => Ok(b),
        Err(e) => Err(e.message()),
    }
}

} // verus!
