//! The two icon pipelines, from plain bytes to encoded PNG outputs.
//!
//! Both pipelines decode a bitmap, pick a square crop region with the
//! verified geometry, cut it out, and encode the result at 512, 1024 and
//! native resolution. All file and network I/O stays with the caller: the
//! pipelines take bytes and return bytes, and their contracts say exactly
//! on which inputs each succeeds and which error each input earns.

use vstd::prelude::*;

use crate::errors::IconError;
use crate::geometry::center_square_crop;
use crate::geometry::lemma_square_origin_at_most_corner;
use crate::geometry::rect_is_degenerate;
use crate::geometry::rect_intersects_image;
use crate::geometry::square_crop_region;
use crate::geometry::square_origin_x;
use crate::geometry::square_origin_y;
use crate::geometry::square_side;
use crate::geometry::ImageDimensions;
use crate::geometry::SquareCropRegion;
use crate::image_ops::crop_image;
use crate::image_ops::decode_image;
use crate::image_ops::decoded_image;
use crate::image_ops::encode_png;
use crate::image_ops::resize_image;
use crate::image_ops::Bitmap;
use crate::parse::parse_bounding_box;
use crate::parse::parsed_coordinates;
use crate::parse::rect_of_coordinates;

verus! {

/// The three encoded PNG outputs of one icon run: the crop resized to fit
/// 512x512 and 1024x1024, and the crop at its native size.
#[derive(Debug)]
pub struct IconOutputs {
    /// The crop resized to fit within 512x512.
    pub icon_512: Vec<u8>,
    /// The crop resized to fit within 1024x1024.
    pub icon_1024: Vec<u8>,
    /// The crop at its native resolution.
    pub icon_full: Vec<u8>,
}

/// The dimensions the bytes decode to (zero by zero when they do not).
pub open spec fn decoded_dims(bytes: Seq<u8>) -> ImageDimensions {
    match decoded_image(bytes) {
        Some(d) => ImageDimensions { width: d.0, height: d.1 },
        None => ImageDimensions { width: 0, height: 0 },
    }
}

/// The decoded bitmap is usable by the pipelines: the bytes decode, both
/// dimensions are positive, and the color layout can be written back as
/// PNG.
pub open spec fn decodes_usably(bytes: Seq<u8>) -> bool {
    match decoded_image(bytes) {
        Some(d) => 1 <= d.0 && 1 <= d.1 && d.2,
        None => false,
    }
}

/// The rectangle read out of the response text, meaningful when the text
/// yields exactly four integers.
pub open spec fn response_rect(text: Seq<u8>) -> crate::geometry::Rectangle {
    rect_of_coordinates(parsed_coordinates(text))
}

/// Encode the cropped bitmap at the two fixed target sizes and at its
/// native size. A positive, PNG-encodable bitmap always succeeds; every
/// failure is a codec failure.
fn encode_outputs(cropped: &Bitmap) -> (res: Result<IconOutputs, IconError>)
    ensures
        1 <= cropped.width && 1 <= cropped.height && cropped.png_encodable ==> res is Ok,
        res is Err ==> res->Err_0 == IconError::IOError,
{
    let small = resize_image(cropped, 512, 512);
    let icon_512 = match encode_png(&small) {
        Ok(b) => b,
        Err(_) => return Err(IconError::IOError),
    };
    let large = resize_image(cropped, 1024, 1024);
    let icon_1024 = match encode_png(&large) {
        Ok(b) => b,
        Err(_) => return Err(IconError::IOError),
    };
    let icon_full = match encode_png(cropped) {
        Ok(b) => b,
        Err(_) => return Err(IconError::IOError),
    };
    Ok(IconOutputs { icon_512, icon_1024, icon_full })
}

/// Square a freshly generated bitmap by its largest centered square and
/// encode it at the fixed output sizes. Succeeds exactly when the bytes
/// decode to a positive, PNG-encodable bitmap; every failure is a codec
/// failure.
pub fn generate_icon_outputs(image_bytes: &[u8]) -> (res: Result<IconOutputs, IconError>)
    ensures
        res is Ok <==> decodes_usably(image_bytes@),
        res is Err ==> res->Err_0 == IconError::IOError,
{
    let bitmap = match decode_image(image_bytes) {
        Ok(b) => b,
        Err(_) => return Err(IconError::IOError),
    };
    if bitmap.width == 0 || bitmap.height == 0 || !bitmap.png_encodable {
        // the encoder would reject such a bitmap at the final step anyway
        return Err(IconError::IOError);
    }
    let dims = ImageDimensions { width: bitmap.width, height: bitmap.height };
    let region: SquareCropRegion = center_square_crop(&dims);
    let cropped = crop_image(&bitmap, region.x, region.y, region.size, region.size);
    encode_outputs(&cropped)
}

/// Crop an existing bitmap to the square region around the bounding box
/// found in a free-form text response, and encode it at the fixed output
/// sizes.
///
/// `ParseError` exactly when the text does not yield four integers;
/// `InvalidInput` exactly when it does but the rectangle is degenerate, or
/// misses the decoded image entirely; success exactly when, additionally,
/// the bytes decode to a usable bitmap; anything else is a codec failure.
pub fn smart_crop_outputs(icon_bytes: &[u8], response_text: &[u8]) -> (res: Result<
    IconOutputs,
    IconError,
>)
    ensures
        (res is Err && res->Err_0 == IconError::ParseError) <==> parsed_coordinates(
            response_text@,
        ).len() != 4,
        (res is Err && res->Err_0 == IconError::InvalidInput) <==> (parsed_coordinates(
            response_text@,
        ).len() == 4 && (rect_is_degenerate(response_rect(response_text@)) || (decoded_image(
            icon_bytes@,
        ) is Some && !rect_intersects_image(
            response_rect(response_text@),
            decoded_dims(icon_bytes@),
        )))),
        res is Ok <==> (parsed_coordinates(response_text@).len() == 4 && !rect_is_degenerate(
            response_rect(response_text@),
        ) && decodes_usably(icon_bytes@) && rect_intersects_image(
            response_rect(response_text@),
            decoded_dims(icon_bytes@),
        )),
        res is Err ==> (res->Err_0 == IconError::ParseError || res->Err_0
            == IconError::InvalidInput || res->Err_0 == IconError::IOError),
{
    let rect = match parse_bounding_box(response_text) {
        Ok(r) => r,
        Err(e) => return Err(e),
    };
    if rect.right <= rect.left || rect.bottom <= rect.top {
        return Err(IconError::InvalidInput);
    }
    let bitmap = match decode_image(icon_bytes) {
        Ok(b) => b,
        Err(_) => return Err(IconError::IOError),
    };
    let dims = ImageDimensions { width: bitmap.width, height: bitmap.height };
    let region = match square_crop_region(&rect, &dims) {
        Ok(c) => c,
        Err(e) => return Err(e),
    };
    if !bitmap.png_encodable {
        // the encoder would reject this color layout at the final step
        return Err(IconError::IOError);
    }
    proof {
        lemma_square_origin_at_most_corner(rect);
        assert(region.x as int == square_origin_x(rect));
        assert(region.y as int == square_origin_y(rect));
        assert(region.size as int == square_side(rect));
        assert(region.x < bitmap.width);
        assert(region.y < bitmap.height);
    }
    let cropped = crop_image(&bitmap, region.x, region.y, region.size, region.size);
    encode_outputs(&cropped)
}

} // verus!
