//! The tray icon: from the bytes of a PNG file to pixels a tray can show.

use vstd::prelude::*;

verus! {

/// What decoding a file gave.
#[derive(Debug)]
pub enum Decoded {
    /// An image of four 8-bit channels per pixel, row by row.
    Rgba8 { width: u32, height: u32, pixels: Vec<u8> },
    /// An image in any other pixel layout.
    OtherLayout,
    /// Not an image.
    Invalid,
}

/// The mathematical content of a [`Decoded`].
pub enum DecodedView {
    Rgba8 { width: u32, height: u32, pixels: Seq<u8> },
    OtherLayout,
    Invalid,
}

impl View for Decoded {
    type V = DecodedView;

    open spec fn view(&self) -> DecodedView {
        match self {
            Decoded::Rgba8 { width, height, pixels } => DecodedView::Rgba8 {
                width: *width,
                height: *height,
                pixels: pixels@,
            },
            Decoded::OtherLayout => DecodedView::OtherLayout,
            Decoded::Invalid => DecodedView::Invalid,
        }
    }
}

/// Why a file cannot serve as the icon.
#[derive(Debug, PartialEq, Eq, Clone, Copy)]
pub enum IconError {
    /// The bytes are not a PNG image.
    Undecodable,
    /// The image does not have four 8-bit channels.
    NotRgba8,
    /// The pixel data does not fill `width * height` pixels exactly.
    BadDimensions,
}

/// An icon ready to be shown: `width * height` pixels of four bytes each.
#[derive(Debug)]
pub struct IconImage {
    rgba: Vec<u8>,
    width: u32,
    height: u32,
}

/// The mathematical content of an [`IconImage`].
pub struct IconImageView {
    pub rgba: Seq<u8>,
    pub width: u32,
    pub height: u32,
}

impl View for IconImage {
    type V = IconImageView;

    closed spec fn view(&self) -> IconImageView {
        IconImageView { rgba: self.rgba@, width: self.width, height: self.height }
    }
}

/// The image that the `image` crate decodes from the bytes of a PNG file.
pub uninterp spec fn png_decoding(bytes: Seq<u8>) -> DecodedView;

/// Whether pixel data fills an image of the given size exactly.
pub open spec fn fills(width: u32, height: u32, pixels: Seq<u8>) -> bool {
    pixels.len() == 4 * (width * height)
}

/// The icon, or the error, that a decoding result leads to.
pub open spec fn icon_of(decoded: DecodedView) -> Result<IconImageView, IconError> {
    match decoded {
        DecodedView::Invalid => Err(IconError::Undecodable),
        DecodedView::OtherLayout => Err(IconError::NotRgba8),
        DecodedView::Rgba8 { width, height, pixels } => if fills(width, height, pixels) {
            Ok(IconImageView { rgba: pixels, width, height })
        } else {
            Err(IconError::BadDimensions)
        },
    }
}

/// The view of a result of [`load_icon`].
pub open spec fn result_view(
    result: Result<IconImage, IconError>,
) -> Result<IconImageView, IconError> {
    match result {
        Ok(icon) => Ok(icon@),
        Err(error) => Err(error),
    }
}

/// Decodes a PNG file held in memory.
///
/// Trusted: calls `image::io::Reader::with_format` with `ImageFormat::Png`
/// and `Reader::decode`, and takes the `ImageRgba8` variant of the
/// `DynamicImage` apart with `ImageBuffer::width`, `height` and `into_raw`.
/// The contract only claims that the outcome is a function of the bytes.
#[verifier::external_body]
pub(crate) fn decode_png(bytes: &[u8]) -> (decoded: Decoded)
    ensures
        decoded@ == png_decoding(bytes@),
{
    let reader = image::io::Reader::with_format(std::io::Cursor::new(bytes), image::ImageFormat::Png);
    match reader.decode() {
        Ok(image::DynamicImage::ImageRgba8(buffer)) => Decoded::Rgba8 {
            width: buffer.width(),
            height: buffer.height(),
            pixels: buffer.into_raw(),
        },
        Ok(_) => Decoded::OtherLayout,
        Err(_) => Decoded::Invalid,
    }
}

impl IconImage {
    #[verifier::type_invariant]
    spec fn sized(&self) -> bool {
        fills(self.width, self.height, self.rgba@)
    }

    /// The pixels, four bytes each, row by row.
    pub fn rgba(&self) -> (rgba: &Vec<u8>)
        ensures
            rgba@ == self@.rgba,
            fills(self@.width, self@.height, rgba@),
    {
        proof {
            use_type_invariant(self);
        }
        &self.rgba
    }

    /// Width in pixels.
    pub fn width(&self) -> (width: u32)
        ensures
            width == self@.width,
    {
        self.width
    }

    /// Height in pixels.
    pub fn height(&self) -> (height: u32)
        ensures
            height == self@.height,
    {
        self.height
    }
}

/// Turns a decoding result into an icon: only an image of four 8-bit
/// channels whose data fills its size exactly is accepted.
pub fn icon_from_decoded(decoded: Decoded) -> (result: Result<IconImage, IconError>)
    ensures
        result_view(result) == icon_of(decoded@),
{
    match decoded {
        Decoded::Invalid => Err(IconError::Undecodable),
        Decoded::OtherLayout => Err(IconError::NotRgba8),
        Decoded::Rgba8 { width, height, pixels } => {
            assert(width * height <= 0xffff_ffff * 0xffff_ffff) by (nonlinear_arith)
                requires
                    0 <= width <= 0xffff_ffff,
                    0 <= height <= 0xffff_ffff,
            ;
            let count: u64 = (width as u64) * (height as u64);
            let length: u64 = pixels.len() as u64;
            if length % 4 == 0 && length / 4 == count {
                Ok(IconImage { rgba: pixels, width, height })
            } else {
                Err(IconError::BadDimensions)
            }
        },
    }
}

/// Reads the icon from the bytes of a PNG file.
pub fn load_icon(bytes: &[u8]) -> (result: Result<IconImage, IconError>)
    ensures
        result_view(result) == icon_of(png_decoding(bytes@)),
{
    icon_from_decoded(decode_png(bytes))
}

} // verus!
