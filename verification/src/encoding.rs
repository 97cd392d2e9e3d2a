//! Text and image encodings that the snapshot builder relies on: the
//! hyphenated form of an identifier, PNG compression of a raster image and
//! base64 text of the compressed bytes.

use vstd::arithmetic::power::pow;
use vstd::prelude::*;

verus! {

/// How the bytes of a raster image are grouped into pixels, eight bits per
/// channel.
#[derive(Clone, Copy, Debug, PartialEq, Eq, Structural)]
pub enum PixelLayout {
    /// One gray channel.
    Luma8,
    /// Gray and alpha.
    LumaA8,
    /// Red, green, blue and alpha.
    Rgba8,
}

impl PixelLayout {
    /// Bytes per pixel.
    pub open spec fn spec_channels(self) -> u8 {
        match self {
            PixelLayout::Luma8 => 1,
            PixelLayout::LumaA8 => 2,
            PixelLayout::Rgba8 => 4,
        }
    }

    /// Bytes per pixel.
    #[verifier::when_used_as_spec(spec_channels)]
    pub fn channels(self) -> (r: u8)
        ensures
            r == self.spec_channels(),
    {
        match self {
            PixelLayout::Luma8 => 1,
            PixelLayout::LumaA8 => 2,
            PixelLayout::Rgba8 => 4,
        }
    }
}

/// An uncompressed image: rows of pixels from the top, each pixel
/// `layout.channels()` bytes.
#[derive(Debug)]
pub struct RasterImage {
    pub layout: PixelLayout,
    pub width: u32,
    pub height: u32,
    pub data: Vec<u8>,
}

impl RasterImage {
    /// The number of bytes that the pixels of the image take.
    pub open spec fn pixel_bytes(&self) -> int {
        self.layout.channels() as int * self.width as int * self.height as int
    }

    /// Whether `data` is long enough to hold every pixel.
    pub open spec fn spec_holds_all_pixels(&self) -> bool {
        self.pixel_bytes() <= self.data@.len()
    }

    /// Whether `data` is long enough to hold every pixel.
    #[verifier::when_used_as_spec(spec_holds_all_pixels)]
    pub fn holds_all_pixels(&self) -> (r: bool)
        ensures
            r == self.spec_holds_all_pixels(),
    {
        let per_row: u64 = self.layout.channels() as u64 * self.width as u64;
        assert(per_row as int * self.height as int <= 0x4_0000_0000 * 0x1_0000_0000)
            by (nonlinear_arith)
            requires
                per_row <= 0x4_0000_0000,
                self.height <= 0x1_0000_0000,
        ;
        let needed: u128 = per_row as u128 * self.height as u128;
        assert(needed == self.pixel_bytes()) by (nonlinear_arith)
            requires
                needed == per_row as int * self.height as int,
                per_row == self.layout.channels() as int * self.width as int,
        ;
        needed <= self.data.len() as u128
    }
}

/// The sixteen lower-case hexadecimal digits.
pub open spec fn hex_digit(n: int) -> char {
    seq!['0', '1', '2', '3', '4', '5', '6', '7', '8', '9', 'a', 'b', 'c', 'd', 'e', 'f'][n]
}

/// The `k`-th hexadecimal digit of a 128-bit identifier, counted from the
/// most significant one.
pub open spec fn id_nibble(id: u128, k: int) -> int {
    (id as int / pow(16, (31 - k) as nat)) % 16
}

/// How many hyphens stand before position `p` of the hyphenated form.
pub open spec fn hyphens_before(p: int) -> int {
    if p < 8 {
        0
    } else if p < 13 {
        1
    } else if p < 18 {
        2
    } else if p < 23 {
        3
    } else {
        4
    }
}

/// The hyphenated lower-case form of an identifier: 32 hexadecimal digits in
/// groups of 8, 4, 4, 4 and 12.
pub open spec fn id_text(id: u128) -> Seq<char> {
    Seq::new(
        36,
        |p: int|
            if p == 8 || p == 13 || p == 18 || p == 23 {
                '-'
            } else {
                hex_digit(id_nibble(id, p - hyphens_before(p)))
            },
    )
}

/// Calls `uuid::Uuid::from_u128` and the `Display` formatting of the
/// resulting `Uuid`. Trusted: the text is the hyphenated lower-case form,
/// most significant digit first.
#[verifier::external_body]
pub(crate) fn format_id(id: u128) -> (r: String)
    ensures
        r@ == id_text(id),
{
    uuid::Uuid::from_u128(id).to_string()
}

/// The PNG file that the `image` crate writes for an image of the given
/// channel count, size and pixel bytes, or `None` where it writes none.
pub uninterp spec fn png_encoding(channels: u8, width: u32, height: u32, data: Seq<u8>) -> Option<
    Seq<u8>,
>;

/// Calls `image::ImageBuffer::from_raw` and `image::DynamicImage::write_to`
/// with the PNG output format. Trusted: the bytes written are a function of
/// the layout, the size and the pixel bytes alone; nothing is claimed of what
/// they hold.
#[verifier::external_body]
pub(crate) fn encode_png(image: &RasterImage) -> (r: Option<Vec<u8>>)
    ensures
        r.is_some() == png_encoding(
            image.layout.channels(),
            image.width,
            image.height,
            image.data@,
        ).is_some(),
        r.is_some() ==> r.unwrap()@ == png_encoding(
            image.layout.channels(),
            image.width,
            image.height,
            image.data@,
        ).unwrap(),
{
    let (w, h, buf) = (image.width, image.height, image.data.clone());
    let picture = match image.layout {
        PixelLayout::Luma8 => image::DynamicImage::ImageLuma8(image::ImageBuffer::from_raw(w, h, buf)?),
        PixelLayout::LumaA8 => image::DynamicImage::ImageLumaA8(image::ImageBuffer::from_raw(w, h, buf)?),
        PixelLayout::Rgba8 => image::DynamicImage::ImageRgba8(image::ImageBuffer::from_raw(w, h, buf)?),
    };
    let mut out: Vec<u8> = Vec::new();
    picture.write_to(&mut std::io::Cursor::new(&mut out), image::ImageOutputFormat::Png).ok()?;
    Some(out)
}

/// The base64 text of a byte string in the standard alphabet with padding.
pub uninterp spec fn base64_text(bytes: Seq<u8>) -> Seq<char>;

/// The longest byte string whose base64 text can be allocated.
pub open spec fn max_base64_input() -> int {
    isize::MAX as int / 4 * 3
}

/// Calls `base64::Engine::encode` on `base64::engine::general_purpose::STANDARD`.
/// Trusted: the text is a function of the bytes alone. The bound keeps the
/// length of the text within what one allocation can hold.
#[verifier::external_body]
pub(crate) fn encode_base64(bytes: &Vec<u8>) -> (r: String)
    requires
        bytes@.len() <= max_base64_input(),
    ensures
        r@ == base64_text(bytes@),
{
    base64::Engine::encode(&base64::engine::general_purpose::STANDARD, bytes)
}

/// What becomes of a background image in a snapshot.
pub enum ImageText {
    /// The image has fewer bytes than its size asks for and is left out.
    Skipped,
    /// The base64 text of the image's PNG file.
    Encoded(Seq<char>),
    /// The image cannot be written as PNG, or the file is too long to encode.
    Failed,
}

/// What [`encode_image`] gives for an image, from the PNG file that the
/// encoder writes for it.
pub open spec fn image_text_from(image: RasterImage, png: Option<Seq<u8>>) -> ImageText {
    if !image.holds_all_pixels() {
        ImageText::Skipped
    } else {
        match png {
            None => ImageText::Failed,
            Some(bytes) => if bytes.len() <= max_base64_input() {
                ImageText::Encoded(base64_text(bytes))
            } else {
                ImageText::Failed
            },
        }
    }
}

/// What becomes of `image` in a snapshot.
pub open spec fn image_text(image: RasterImage) -> ImageText {
    image_text_from(
        image,
        png_encoding(image.layout.channels(), image.width, image.height, image.data@),
    )
}

/// Turns a PNG file into the text that a snapshot holds for the image:
/// `Ok(Some(text))` with its base64 text, `Ok(None)` where the image is left
/// out, `Err(())` where it cannot be encoded.
pub fn text_of_png(image: &RasterImage, png: Option<Vec<u8>>) -> (r: Result<Option<String>, ()>)
    ensures
        match image_text_from(
            *image,
            match png {
                Some(bytes) => Some(bytes@),
                None => None,
            },
        ) {
            ImageText::Skipped => r == Ok::<Option<String>, ()>(None),
            ImageText::Encoded(text) => r.is_ok() && r.unwrap().is_some() && r.unwrap().unwrap()@
                == text,
            ImageText::Failed => r.is_err(),
        },
{
    if !image.holds_all_pixels() {
        return Ok(None);
    }
    match png {
        None => Err(()),
        Some(bytes) => {
            if bytes.len() <= (isize::MAX as usize) / 4 * 3 {
                Ok(Some(encode_base64(&bytes)))
            } else {
                Err(())
            }
        },
    }
}

/// Compresses `image` to PNG and encodes the file as base64 text.
pub fn encode_image(image: &RasterImage) -> (r: Result<Option<String>, ()>)
    ensures
        match image_text(*image) {
            ImageText::Skipped => r == Ok::<Option<String>, ()>(None),
            ImageText::Encoded(text) => r.is_ok() && r.unwrap().is_some() && r.unwrap().unwrap()@
                == text,
            ImageText::Failed => r.is_err(),
        },
{
    if !image.holds_all_pixels() {
        return Ok(None);
    }
    let png = encode_png(image);
    text_of_png(image, png)
}

} // verus!
