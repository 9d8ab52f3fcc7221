use crate::errors::{DecodeError, EncodeError};
use crate::raster::{Raster, RasterView};
use image::ImageEncoder;
use vstd::prelude::*;

verus! {

/// The raster, if any, that decoding a byte sequence yields: the abstract
/// result of `image::load_from_memory` followed by conversion to 8-bit RGBA.
/// Decoding is a pure function of the bytes (format sniffing and all decoders
/// are deterministic integer code), so the result can be given a name; stating
/// it in full would mean writing out every supported image format.
pub uninterp spec fn decode_of(data: Seq<u8>) -> Option<RasterView>;

/// The byte sequence that PNG-encoding a raster yields: the abstract result of
/// `image`'s PNG encoder on an RGBA raster. Encoding (filtering plus deflate)
/// is deterministic integer code, a pure function of the raster.
pub uninterp spec fn png_bytes_of(img: RasterView) -> Seq<u8>;

/// Rasters at most this large (in RGBA bytes) stay comfortably inside the
/// decoder's default allocation limit of 512 MiB, so re-decoding their PNG
/// encoding cannot fail for want of resources.
pub open spec fn fits_decode_limit(img: RasterView) -> bool {
    img.width * img.height * 4 <= 0x1000_0000
}

/// Relies on `image::load_from_memory` and `DynamicImage::into_rgba8`:
/// sniffs the format from the bytes alone, decodes without panicking on
/// malformed input, and yields an RGBA buffer of exactly
/// `width * height * 4` bytes with `u32` dimensions. An
/// `ImageError::Unsupported` means no supported format matched; every other
/// error means the bytes would not decode cleanly.
#[verifier::external_body]
fn decode_bytes(data: &Vec<u8>) -> (res: Result<Raster, DecodeError>)
    ensures
        match decode_of(data@) {
            Some(v) => res matches Ok(r) && r@ == v && v.width <= u32::MAX && v.height <= u32::MAX
                && v.data.len() == v.width * v.height * 4,
            None => res matches Err(e) && (e == DecodeError::UnsupportedFormat || e
                == DecodeError::Corrupt),
        },
{
    match image::load_from_memory(data.as_slice()) {
        Ok(img) => {
            let buf = img.into_rgba8();
            let width = buf.width();
            let height = buf.height();
            Ok(Raster { width, height, pixels: buf.into_raw() })
        },
        Err(image::ImageError::Unsupported(_)) => Err(DecodeError::UnsupportedFormat),
        Err(_) => Err(DecodeError::Corrupt),
    }
}

/// The eight-byte signature that opens every PNG stream.
pub open spec fn png_signature(b: Seq<u8>) -> bool {
    &&& b.len() >= 8
    &&& b[0] == 0x89u8
    &&& b[1] == 0x50u8
    &&& b[2] == 0x4eu8
    &&& b[3] == 0x47u8
    &&& b[4] == 0x0du8
    &&& b[5] == 0x0au8
    &&& b[6] == 0x1au8
    &&& b[7] == 0x0au8
}

/// Relies on `image::codecs::png::PngEncoder`: writes the RGBA samples of a
/// well-formed raster to an in-memory PNG, a stream that opens with the PNG
/// signature and decodes back to the same dimensions and the same samples
/// (conditioned on the raster staying inside the decoder's default allocation
/// limit). The call cannot fail here: the color type is the supported
/// `Rgba8`, the dimensions are nonzero, and writing to a `Vec` raises no I/O
/// error, which leaves no error path in the encoder; `write_image` asserts
/// that the buffer length equals `width * height * 4`, hence the
/// precondition.
#[verifier::external_body]
fn encode_bytes(img: &Raster) -> (res: Result<Vec<u8>, EncodeError>)
    requires
        img.wf(),
    ensures
        res is Ok,
        res matches Ok(b) ==> b@ == png_bytes_of(img@) && png_signature(b@),
        res matches Ok(b) ==> (fits_decode_limit(img@) ==> decode_of(b@) == Some(img@)),
{
    let mut out: Vec<u8> = Vec::new();
    let encoder = image::codecs::png::PngEncoder::new(&mut out);
    match encoder.write_image(
        img.pixels.as_slice(),
        img.width,
        img.height,
        image::ExtendedColorType::Rgba8,
    ) {
        Ok(()) => Ok(out),
        Err(_) => Err(EncodeError::EncodingFailed),
    }
}

/// Decode the contents of the source file into a raster image. `None` stands
/// for a file that could not be read at all.
pub fn decode(data: &Option<Vec<u8>>) -> (res: Result<Raster, DecodeError>)
    ensures
        data is None ==> (res matches Err(e) && e == DecodeError::NotFound),
        data matches Some(d) ==> match decode_of(d@) {
            Some(v) => if 1 <= v.width && 1 <= v.height {
                res matches Ok(r) && r@ == v && r.wf()
            } else {
                res matches Err(e) && e == DecodeError::Corrupt
            },
            None => res matches Err(e) && (e == DecodeError::UnsupportedFormat || e
                == DecodeError::Corrupt),
        },
        res matches Ok(r) ==> r.wf(),
{
    match data {
        None => Err(DecodeError::NotFound),
        Some(d) => match decode_bytes(d) {
            Ok(r) => if r.width >= 1 && r.height >= 1 {
                Ok(r)
            } else {
                Err(DecodeError::Corrupt)
            },
            Err(e) => Err(e),
        },
    }
}

/// Serialize a raster into PNG bytes. Encoding a well-formed raster into
/// memory always succeeds; the stream opens with the PNG signature, and it
/// decodes back to exactly the raster that was encoded (for rasters inside
/// the decoder's allocation limit), so a round trip preserves dimensions and
/// every sample.
pub fn encode(img: &Raster) -> (res: Result<Vec<u8>, EncodeError>)
    requires
        img.wf(),
    ensures
        res matches Ok(b) && b@ == png_bytes_of(img@) && png_signature(b@),
        res matches Ok(b) ==> (fits_decode_limit(img@) ==> decode_of(b@) == Some(img@)),
{
    encode_bytes(img)
}

} // verus!
