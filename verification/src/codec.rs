//! The image codec, as far as the engine relies on it.
//!
//! Tiles are stored and transferred as PNG files. Decoding and encoding are
//! done by the `image` crate; nothing in this module is proved.

use vstd::prelude::*;

verus! {

/// A decoded tile image. Its contents are never inspected by the engine.
#[verifier::external_type_specification]
#[verifier::external_body]
pub struct ExDynamicImage(image::DynamicImage);

/// What decoding `bytes` as a PNG file yields: the image, or nothing where
/// the bytes are not a PNG file that the decoder accepts.
pub uninterp spec fn decoded_tile(bytes: Seq<u8>) -> Option<image::DynamicImage>;

/// What encoding `img` as a PNG file yields: the contents of the file, or
/// nothing where the encoder reports an error.
pub uninterp spec fn encoded_tile(img: image::DynamicImage) -> Option<Seq<u8>>;

/// `Clone::clone` of `image::DynamicImage` copies the pixel buffer: the copy
/// is the same image.
pub assume_specification[ <image::DynamicImage as Clone>::clone ](
    img: &image::DynamicImage,
) -> (copy: image::DynamicImage)
    ensures
        copy == *img,
;

/// Calls `image::load_from_memory_with_format` with the PNG format. The
/// decoder reads nothing but the bytes it is given, so the outcome is a
/// function of them; a decoding error of any kind becomes `None`.
#[verifier::external_body]
pub(crate) fn decode_png(bytes: &[u8]) -> (img: Option<image::DynamicImage>)
    ensures
        img == decoded_tile(bytes@),
{
    image::load_from_memory_with_format(bytes, image::ImageFormat::Png).ok()
}

/// Calls `image::DynamicImage::write_to` with the PNG format on a buffer in
/// memory, and hands out the buffer; `None` where the encoder reports an
/// error. The encoder reads nothing but the image, so the outcome is a
/// function of it. The PNG encoder panics on an image whose pixel buffer is
/// longer than its width, height and colour type ask for: only images that
/// came from the decoder are admitted, whose buffers the decoder sizes
/// exactly.
#[verifier::external_body]
pub(crate) fn encode_png(img: &image::DynamicImage) -> (bytes: Option<Vec<u8>>)
    requires
        exists|source: Seq<u8>| #[trigger] decoded_tile(source) == Some(*img),
    ensures
        match bytes {
            Some(file) => encoded_tile(*img) == Some(file@),
            None => encoded_tile(*img) is None,
        },
{
    let mut out = std::io::Cursor::new(Vec::new());
    match img.write_to(&mut out, image::ImageFormat::Png) {
        Ok(()) => Some(out.into_inner()),
        Err(_) => None,
    }
}

} // verus!
