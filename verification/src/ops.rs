//! The three operations of the boundary adapter. Each call is stateless:
//! it validates its descriptor, invokes one codec operation, and returns a
//! fresh caller-owned buffer or one of the error kinds.

use vstd::prelude::*;
use crate::descriptors::CodecError;
use crate::descriptors::ImageBoxData;
use crate::descriptors::ImageData;
use crate::formats::LibImageFormat;
use crate::imaging::decode_bytes;
use crate::imaging::decoded_image;
use crate::imaging::encode_rgba;
use crate::imaging::encoded_bytes;
use crate::imaging::resampled_pixels;
use crate::imaging::resize_rgba;

verus! {

/// Every buffer a resample of these dimensions builds is addressable on this
/// machine: the target RGBA8 buffer, and the resampling pipeline's
/// intermediate buffer of source width by target height.
pub open spec fn resample_fits(source_width: u32, new_width: u32, new_height: u32) -> bool {
    new_width * new_height * 4 <= usize::MAX && source_width * new_height * 4 <= usize::MAX
}

/// The source descriptor of a resize is usable: it holds RGBA8 pixels of its
/// declared dimensions and neither dimension is zero.
pub open spec fn resizable_source(image_data: ImageData) -> bool {
    image_data.is_rgba8() && image_data.width > 0 && image_data.height > 0
}

/// Decides whether the buffer holds exactly `width * height * 4` bytes, the
/// byte count of an RGBA8 image of the declared dimensions.
fn rgba8_len_matches(image_data: &ImageData) -> (r: bool)
    ensures
        r == image_data.is_rgba8(),
{
    proof {
        assert((image_data.width as int) * (image_data.height as int) * 4
            < 0x1_0000_0000_0000_0000_0000 as int) by (nonlinear_arith)
            requires
                image_data.width <= u32::MAX,
                image_data.height <= u32::MAX,
        ;
    }
    let expected: u128 = (image_data.width as u128) * (image_data.height as u128) * 4;
    let actual: u128 = image_data.data.len() as u128;
    expected == actual
}

/// Serializes raw RGBA8 pixels into the selected container format.
///
/// The returned descriptor carries the input dimensions unchanged and a fresh
/// buffer holding the encoded file bytes; decoding that buffer with the same
/// selector recovers the input pixels exactly (both containers are lossless).
pub fn rust_encode_image(image_data: ImageData, format: LibImageFormat) -> (r: Result<
    ImageBoxData,
    CodecError,
>)
    ensures
        !image_data.is_rgba8() <==> r == Err::<ImageBoxData, CodecError>(
            CodecError::InvalidDimensions,
        ),
        image_data.is_rgba8() ==> (r is Ok <==> encoded_bytes(
            format.is_png(),
            image_data.width as nat,
            image_data.height as nat,
            image_data.data@,
        ) is Some),
        image_data.is_rgba8() && encoded_bytes(
            format.is_png(),
            image_data.width as nat,
            image_data.height as nat,
            image_data.data@,
        ) is None ==> r == Err::<ImageBoxData, CodecError>(CodecError::UnsupportedOrCorruptFormat),
        r matches Ok(out) ==> out.width == image_data.width && out.height == image_data.height
            && encoded_bytes(
            format.is_png(),
            image_data.width as nat,
            image_data.height as nat,
            image_data.data@,
        ) == Some(out.data@),
        r matches Ok(out) ==> image_data.width > 0 && image_data.height > 0 ==> decoded_image(
            format.is_png(),
            out.data@,
        ) == Some((image_data.width as nat, image_data.height as nat, image_data.data@)),
        r matches Ok(out) ==> out.data@.len() > 0 && out.data@[0] == (if format.is_png() {
            137u8
        } else {
            0u8
        }),
        r is Ok && format.is_png() ==> image_data.width > 0 && image_data.height > 0,
{
    if !rgba8_len_matches(&image_data) {
        return Err(CodecError::InvalidDimensions);
    }
    let width = image_data.width;
    let height = image_data.height;
    match encode_rgba(width, height, image_data.data, format) {
        Ok(bytes) => Ok(ImageBoxData { width, height, data: bytes }),
        Err(_) => Err(CodecError::UnsupportedOrCorruptFormat),
    }
}

/// Parses an encoded file blob as the selected container format and returns
/// its raw RGBA8 pixels.
///
/// The declared dimensions of the input are ignored: the true geometry is
/// recovered from the encoded bytes themselves and reported in the returned
/// descriptor, whose buffer holds exactly four bytes per recovered pixel.
pub fn rust_decode_image(image_data: ImageData, format: LibImageFormat) -> (r: Result<
    ImageBoxData,
    CodecError,
>)
    ensures
        r is Ok <==> decoded_image(format.is_png(), image_data.data@) is Some,
        r is Err ==> r == Err::<ImageBoxData, CodecError>(CodecError::UnsupportedOrCorruptFormat),
        r matches Ok(out) ==> decoded_image(format.is_png(), image_data.data@) == Some(
            (out.width as nat, out.height as nat, out.data@),
        ),
        r matches Ok(out) ==> out.is_rgba8(),
{
    match decode_bytes(&image_data.data, format) {
        Ok(decoded) => Ok(ImageBoxData { width: decoded.0, height: decoded.1, data: decoded.2 }),
        Err(_) => Err(CodecError::UnsupportedOrCorruptFormat),
    }
}

/// Resamples raw RGBA8 pixels to the target dimensions with the Catmull-Rom
/// filter.
///
/// The returned descriptor declares exactly the target dimensions and its
/// buffer holds four bytes per target pixel; a resize to the source's own
/// dimensions returns the pixels unchanged.
pub fn rust_resize_image(image_data: ImageData, width: u32, height: u32) -> (r: Result<
    ImageBoxData,
    CodecError,
>)
    ensures
        !(resizable_source(image_data) && width > 0 && height > 0) <==> r == Err::<
            ImageBoxData,
            CodecError,
        >(CodecError::InvalidDimensions),
        resizable_source(image_data) && width > 0 && height > 0 && !resample_fits(
            image_data.width,
            width,
            height,
        ) <==> r == Err::<ImageBoxData, CodecError>(CodecError::AllocationFailure),
        resizable_source(image_data) && width > 0 && height > 0 && resample_fits(
            image_data.width,
            width,
            height,
        ) <==> r is Ok,
        r matches Ok(out) ==> out.width == width && out.height == height && out.data@.len()
            == width * height * 4 && out.data@ == resampled_pixels(
            image_data.width as nat,
            image_data.height as nat,
            image_data.data@,
            width as nat,
            height as nat,
        ),
        r matches Ok(out) ==> width == image_data.width && height == image_data.height
            ==> out.data@ == image_data.data@,
{
    if !rgba8_len_matches(&image_data) || image_data.width == 0 || image_data.height == 0 || width
        == 0 || height == 0 {
        return Err(CodecError::InvalidDimensions);
    }
    let source_width = image_data.width;
    let source_height = image_data.height;
    proof {
        assert((width as int) * (height as int) * 4 < 0x1_0000_0000_0000_0000_0000 as int)
            by (nonlinear_arith)
            requires
                width <= u32::MAX,
                height <= u32::MAX,
        ;
        assert((source_width as int) * (height as int) * 4 < 0x1_0000_0000_0000_0000_0000 as int)
            by (nonlinear_arith)
            requires
                source_width <= u32::MAX,
                height <= u32::MAX,
        ;
    }
    let requested: u128 = (width as u128) * (height as u128) * 4;
    let intermediate: u128 = (source_width as u128) * (height as u128) * 4;
    if requested > usize::MAX as u128 || intermediate > usize::MAX as u128 {
        return Err(CodecError::AllocationFailure);
    }
    let pixels = resize_rgba(source_width, source_height, image_data.data, width, height);
    Ok(ImageBoxData { width, height, data: pixels })
}

} // verus!
