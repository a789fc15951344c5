//! The trusted interface to the image codec.
//!
//! Each function here wraps one call into the `image` crate; Verus believes
//! the contracts and the library's verified logic supplies every argument.
//! A decoded bitmap is opaque, so each wrapper hands out as plain values
//! exactly what the verified logic reads of its result: the dimensions and
//! whether the PNG encoder takes the color layout.

use vstd::prelude::*;

verus! {

#[verifier::external_type_specification]
#[verifier::external_body]
pub struct ExDynamicImage(image::DynamicImage);

#[verifier::external_type_specification]
#[verifier::external_body]
pub struct ExImageError(image::ImageError);

// What decoding a byte string yields, as far as the verified logic reads
// it: nothing when the bytes are malformed, else the bitmap's width, its
// height, and whether its color layout is one the PNG encoder takes (8- or
// 16-bit integer channels). Decoding is a function of the bytes alone.
pub uninterp spec fn decoded_image(bytes: Seq<u8>) -> Option<(u32, u32, bool)>;

/// A decoded bitmap together with what the verified logic reads of it. The
/// trusted wrappers below are the only constructors, and they keep the
/// plain fields true of the opaque image.
pub struct Bitmap {
    pub(crate) img: image::DynamicImage,
    /// The bitmap's width in pixels.
    pub(crate) width: u32,
    /// The bitmap's height in pixels.
    pub(crate) height: u32,
    /// Whether the PNG encoder takes the bitmap's color layout.
    pub(crate) png_encodable: bool,
}

/// Relies on image::load_from_memory, reading `width`, `height` and `color`
/// off the result: guesses the format of the byte slice and decodes it,
/// returning an error on malformed input. The result is a function of the
/// bytes alone, named `decoded_image`.
#[verifier::external_body]
pub(crate) fn decode_image(bytes: &[u8]) -> (r: Result<Bitmap, image::ImageError>)
    ensures
        r is Ok <==> decoded_image(bytes@) is Some,
        r is Ok ==> decoded_image(bytes@) == Some(
            (r->Ok_0.width, r->Ok_0.height, r->Ok_0.png_encodable),
        ),
{
    let img = image::load_from_memory(bytes)?;
    let png_encodable = matches!(
        img.color(),
        image::ColorType::L8 | image::ColorType::La8 | image::ColorType::Rgb8
            | image::ColorType::Rgba8 | image::ColorType::L16 | image::ColorType::La16
            | image::ColorType::Rgb16 | image::ColorType::Rgba16
    );
    Ok(Bitmap { width: img.width(), height: img.height(), png_encodable, img })
}

/// What `crop_imm` makes of one requested extent: the origin is clamped to
/// the image, and the extent to what remains beyond the clamped origin.
pub open spec fn crop_clip(image_extent: u32, origin: u32, requested: u32) -> int {
    let clamped = vstd::math::min(origin as int, image_extent as int);
    vstd::math::min(requested as int, image_extent - clamped)
}

/// Relies on image::DynamicImage::crop_imm, reading `width` and `height`
/// off the result: cuts out the given rectangle, first clipping it to the
/// image bounds exactly as `crop_clip` states, preserving the color layout,
/// and never panics.
#[verifier::external_body]
pub(crate) fn crop_image(b: &Bitmap, x: u32, y: u32, width: u32, height: u32) -> (r: Bitmap)
    ensures
        r.width as int == crop_clip(b.width, x, width),
        r.height as int == crop_clip(b.height, y, height),
        r.png_encodable == b.png_encodable,
{
    let img = b.img.crop_imm(x, y, width, height);
    Bitmap { width: img.width(), height: img.height(), png_encodable: b.png_encodable, img }
}

/// Relies on image::DynamicImage::resize with the Lanczos3 filter, reading
/// `width` and `height` off the result: scales to the largest size that
/// fits within the given bounds, preserving the aspect ratio and the color
/// layout. Bounds equal to the bitmap's own size return it unscaled; any
/// other bounds give dimensions of at least one pixel each.
#[verifier::external_body]
pub(crate) fn resize_image(b: &Bitmap, nwidth: u32, nheight: u32) -> (r: Bitmap)
    ensures
        nwidth == b.width && nheight == b.height ==> r.width == b.width && r.height == b.height,
        !(nwidth == b.width && nheight == b.height) ==> 1 <= r.width && 1 <= r.height,
        r.png_encodable == b.png_encodable,
{
    let img = b.img.resize(nwidth, nheight, image::imageops::FilterType::Lanczos3);
    Bitmap { width: img.width(), height: img.height(), png_encodable: b.png_encodable, img }
}

/// Relies on image::DynamicImage::write_to with the PNG format: encodes the
/// bitmap into an in-memory byte buffer. Writing to the buffer cannot fail,
/// and the png encoder rejects only zero dimensions and color layouts it
/// does not take, so on positive, encodable bitmaps the call succeeds.
#[verifier::external_body]
pub(crate) fn encode_png(b: &Bitmap) -> (r: Result<Vec<u8>, image::ImageError>)
    ensures
        1 <= b.width && 1 <= b.height && b.png_encodable ==> r is Ok,
{
    let mut buf = std::io::Cursor::new(Vec::new());
    match b.img.write_to(&mut buf, image::ImageFormat::Png) {
        Ok(()) => Ok(buf.into_inner()),
        Err(e) => Err(e),
    }
}

} // verus!
