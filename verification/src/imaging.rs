//! The trusted boundary to the imaging codec. Each function here wraps one
//! call into the `image` crate; its contract states what that crate's source
//! and documentation show, and nothing in this module is verified.

use vstd::prelude::*;
use crate::formats::LibImageFormat;

verus! {

#[verifier::external_type_specification]
#[verifier::external_body]
pub struct ExImageError(image::ImageError);

/// The bytes that serializing an RGBA8 buffer of the given dimensions into
/// the given container format produces, or `None` where the codec refuses the
/// image (for instance a zero-dimension PNG, or a TGA wider than 65535).
pub uninterp spec fn encoded_bytes(png: bool, width: nat, height: nat, pixels: Seq<u8>) -> Option<Seq<u8>>;

/// The dimensions and RGBA8 pixels that parsing the bytes as the given
/// container format recovers, or `None` where the bytes are not a valid image
/// of that format.
pub uninterp spec fn decoded_image(png: bool, bytes: Seq<u8>) -> Option<(nat, nat, Seq<u8>)>;

/// The RGBA8 pixels that resampling the given image to the new dimensions
/// with the Catmull-Rom filter produces.
pub uninterp spec fn resampled_pixels(
    width: nat,
    height: nat,
    pixels: Seq<u8>,
    new_width: nat,
    new_height: nat,
) -> Seq<u8>;

/// Relies on `image::RgbaImage::from_vec` and `ImageBuffer::write_to`:
/// serializing an RGBA8 buffer into PNG or TGA depends on the pixels,
/// dimensions and format alone and returns `Err` rather than panicking; both
/// containers are lossless for RGBA8 (PNG by format, TGA through exact
/// run-length packets), so decoding the produced bytes with the same format
/// selector recovers the dimensions and pixels unchanged. A PNG stream opens
/// with the fixed signature byte 137, a TGA stream with its id-length byte,
/// which this encoder always leaves 0, so the two containers never coincide.
/// The PNG encoder refuses a zero width or height with an error.
#[verifier::external_body]
pub(crate) fn encode_rgba(
    width: u32,
    height: u32,
    pixels: Vec<u8>,
    format: LibImageFormat,
) -> (r: Result<Vec<u8>, image::ImageError>)
    requires
        pixels@.len() == width * height * 4,
    ensures
        r is Ok <==> encoded_bytes(format.is_png(), width as nat, height as nat, pixels@) is Some,
        r matches Ok(bytes) ==> encoded_bytes(
            format.is_png(),
            width as nat,
            height as nat,
            pixels@,
        ) == Some(bytes@),
        r matches Ok(bytes) ==> width > 0 && height > 0 ==> decoded_image(
            format.is_png(),
            bytes@,
        ) == Some((width as nat, height as nat, pixels@)),
        r matches Ok(bytes) ==> bytes@.len() > 0 && bytes@[0] == (if format.is_png() {
            137u8
        } else {
            0u8
        }),
        format.is_png() && (width == 0 || height == 0) ==> r is Err,
{
    let img = image::RgbaImage::from_vec(width, height, pixels).unwrap();
    let mut cursor = std::io::Cursor::new(Vec::new());
    let out_format = match format {
        LibImageFormat::TGA => image::ImageOutputFormat::Tga,
        LibImageFormat::PNG => image::ImageOutputFormat::Png,
    };
    match img.write_to(&mut cursor, out_format) {
        Ok(()) => Ok(cursor.into_inner()),
        Err(e) => Err(e),
    }
}

/// Relies on `image::io::Reader::decode` with the codec's optional resource
/// caps disabled (`no_limits`), and on `DynamicImage::to_rgba8`: parsing then
/// depends on the bytes and the declared format alone, fails with `Err` on
/// bytes that are not a valid image of that format, and the RGBA8 conversion
/// yields exactly four bytes per pixel of the recovered dimensions. With the
/// caps off, decoding attempts to allocate the full recovered pixel buffer
/// whatever its size; a machine without that much memory aborts, as any
/// allocation here may.
#[verifier::external_body]
pub(crate) fn decode_bytes(
    bytes: &Vec<u8>,
    format: LibImageFormat,
) -> (r: Result<(u32, u32, Vec<u8>), image::ImageError>)
    ensures
        r is Ok <==> decoded_image(format.is_png(), bytes@) is Some,
        r matches Ok(t) ==> decoded_image(format.is_png(), bytes@) == Some(
            (t.0 as nat, t.1 as nat, t.2@),
        ),
        r matches Ok(t) ==> t.2@.len() == t.0 * t.1 * 4,
{
    let in_format = match format {
        LibImageFormat::TGA => image::ImageFormat::Tga,
        LibImageFormat::PNG => image::ImageFormat::Png,
    };
    let cursor = std::io::Cursor::new(bytes.as_slice());
    let mut reader = image::io::Reader::with_format(cursor, in_format);
    reader.no_limits();
    match reader.decode() {
        Ok(img) => Ok((img.width(), img.height(), img.to_rgba8().into_raw())),
        Err(e) => Err(e),
    }
}

/// Relies on `image::imageops::resize` with `FilterType::CatmullRom`: the
/// result depends on the pixels and the four dimensions alone, holds exactly
/// four bytes per pixel of the target dimensions, and when the target equals
/// the source dimensions the crate copies the buffer unchanged instead of
/// resampling. The resampling pipeline first builds an intermediate buffer
/// of source width by target height, and buffer construction panics when a
/// four-channel subpixel count overflows `usize`, so both the target's and
/// the intermediate's counts must fit.
#[verifier::external_body]
pub(crate) fn resize_rgba(
    width: u32,
    height: u32,
    pixels: Vec<u8>,
    new_width: u32,
    new_height: u32,
) -> (r: Vec<u8>)
    requires
        pixels@.len() == width * height * 4,
        width > 0,
        height > 0,
        new_width > 0,
        new_height > 0,
        new_width * new_height * 4 <= usize::MAX,
        width * new_height * 4 <= usize::MAX,
    ensures
        r@ == resampled_pixels(
            width as nat,
            height as nat,
            pixels@,
            new_width as nat,
            new_height as nat,
        ),
        r@.len() == new_width * new_height * 4,
        new_width == width && new_height == height ==> r@ == pixels@,
{
    let img = image::RgbaImage::from_vec(width, height, pixels).unwrap();
    let resized = image::imageops::resize(
        &img,
        new_width,
        new_height,
        image::imageops::FilterType::CatmullRom,
    );
    resized.into_raw()
}

} // verus!
