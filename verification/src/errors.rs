use vstd::prelude::*;

verus! {

/// Failure of the decoding stage.
#[derive(Clone, Copy, Debug, PartialEq, Eq, Structural)]
pub enum DecodeError {
    /// The source file could not be read at all.
    NotFound,
    /// The bytes match no supported image format.
    UnsupportedFormat,
    /// The bytes look like an image but do not decode cleanly.
    Corrupt,
}

/// Failure of the transforming stage.
#[derive(Clone, Copy, Debug, PartialEq, Eq, Structural)]
pub enum TransformError {
    /// A geometric parameter is unusable (for instance a zero target dimension).
    InvalidParameter,
    /// A crop rectangle reaches outside the source raster.
    OutOfBounds,
}

/// Failure of the encoding stage.
#[derive(Clone, Copy, Debug, PartialEq, Eq, Structural)]
pub enum EncodeError {
    /// Internal serialization failure.
    EncodingFailed,
}

/// The message `DecodeError::message` returns for each variant.
pub open spec fn decode_error_text(e: DecodeError) -> Seq<char> {
    match e {
        DecodeError::NotFound => "decode failed: file not found"@,
        DecodeError::UnsupportedFormat => "decode failed: unsupported image format"@,
        DecodeError::Corrupt => "decode failed: corrupt image data"@,
    }
}

/// The message `TransformError::message` returns for each variant.
pub open spec fn transform_error_text(e: TransformError) -> Seq<char> {
    match e {
        TransformError::InvalidParameter => "transform failed: invalid parameter"@,
        TransformError::OutOfBounds => "transform failed: crop rectangle out of bounds"@,
    }
}

/// The message `EncodeError::message` returns for each variant.
pub open spec fn encode_error_text(e: EncodeError) -> Seq<char> {
    match e {
        EncodeError::EncodingFailed => "encode failed: could not serialize image"@,
    }
}

impl DecodeError {
    /// A human-readable message naming the failing stage and the cause.
    pub fn message(&self) -> (m: String)
        ensures
            m@ == decode_error_text(*self),
    {
        match self {
            DecodeError::NotFound => "decode failed: file not found".to_owned(),
            DecodeError::UnsupportedFormat => "decode failed: unsupported image format".to_owned(),
            DecodeError::Corrupt => "decode failed: corrupt image data".to_owned(),
        }
    }
}

impl TransformError {
    /// A human-readable message naming the failing stage and the cause.
    pub fn message(&self) -> (m: String)
        ensures
            m@ == transform_error_text(*self),
    {
        match self {
            TransformError::InvalidParameter => "transform failed: invalid parameter".to_owned(),
            TransformError::OutOfBounds => {
                "transform failed: crop rectangle out of bounds".to_owned()
            },
        }
    }
}

impl EncodeError {
    /// A human-readable message naming the failing stage and the cause.
    pub fn message(&self) -> (m: String)
        ensures
            m@ == encode_error_text(*self),
    {
        match self {
            EncodeError::EncodingFailed => "encode failed: could not serialize image".to_owned(),
        }
    }
}

} // verus!
