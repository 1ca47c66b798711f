use vstd::prelude::*;
use base64::engine::general_purpose::STANDARD;
use base64::Engine;
use clipboard_rs::common::RustImage;
use clipboard_rs::RustImageData;
use image::codecs::png::PngEncoder;
use image::{DynamicImage, ExtendedColorType, ImageEncoder, RgbaImage};
use std::io::{BufWriter, Cursor};

verus! {

/// An image as raw pixels: `width * height` of them, row by row, each as four
/// bytes for red, green, blue and alpha.
#[derive(Debug, Clone, PartialEq, Eq)]
pub struct ImageData {
    pub width: usize,
    pub height: usize,
    pub bytes: Vec<u8>,
}

/// Mathematical model of an [`ImageData`].
pub struct ImageView {
    pub width: nat,
    pub height: nat,
    pub pixels: Seq<u8>,
}

impl View for ImageData {
    type V = ImageView;

    open spec fn view(&self) -> ImageView {
        ImageView { width: self.width as nat, height: self.height as nat, pixels: self.bytes@ }
    }
}

impl ImageView {
    /// Both dimensions fit 32 bits and the pixels fill the image exactly.
    pub open spec fn wf(self) -> bool {
        &&& self.width <= u32::MAX
        &&& self.height <= u32::MAX
        &&& self.pixels.len() == self.width * self.height * 4
    }

    /// Neither dimension is zero.
    pub open spec fn has_pixels(self) -> bool {
        self.width > 0 && self.height > 0
    }
}

/// The PNG file that `PngEncoder::write_image` of the `image` crate writes for
/// these pixels as 8-bit RGBA with its default settings, or the text of its
/// error.
pub uninterp spec fn png_encoding(pixels: Seq<u8>, width: nat, height: nat) -> Result<
    Seq<u8>,
    Seq<char>,
>;

/// The PNG file that `RustImage::to_png` of `clipboard-rs` gives for an image
/// of these pixels, or the text of its error.
pub uninterp spec fn clipboard_png(pixels: Seq<u8>, width: nat, height: nat) -> Result<
    Seq<u8>,
    Seq<char>,
>;

/// The text that the standard base64 engine of the `base64` crate encodes the
/// bytes to.
pub uninterp spec fn base64_text(bytes: Seq<u8>) -> Seq<char>;

/// The bytes that the standard base64 engine of the `base64` crate decodes the
/// text to, or the text of its error.
pub uninterp spec fn base64_bytes(text: Seq<char>) -> Result<Seq<u8>, Seq<char>>;

/// The length of the base64 text for this many bytes can be computed in a
/// `usize`.
pub open spec fn base64_fits(length: nat) -> bool {
    length / 3 * 4 + 4 <= usize::MAX
}

/// Why bytes were not encoded as base64.
pub open spec fn too_long_for_base64() -> Seq<char> {
    "Image is too large to encode as base64"@
}

/// Bytes or an error, as sequences.
pub open spec fn bytes_view(outcome: Result<Vec<u8>, String>) -> Result<Seq<u8>, Seq<char>> {
    match outcome {
        Ok(bytes) => Ok(bytes@),
        Err(description) => Err(description@),
    }
}

/// Text or an error, as sequences.
pub open spec fn text_view(outcome: Result<String, String>) -> Result<Seq<char>, Seq<char>> {
    match outcome {
        Ok(text) => Ok(text@),
        Err(description) => Err(description@),
    }
}

/// An image or an error, by their views.
pub open spec fn image_view(outcome: Result<ImageData, String>) -> Result<ImageView, Seq<char>> {
    match outcome {
        Ok(image) => Ok(image@),
        Err(description) => Err(description@),
    }
}

/// What the host gets for an encoded image: the error as it is, or the file
/// as base64 text.
pub open spec fn base64_of(encoded: Result<Seq<u8>, Seq<char>>) -> Result<Seq<char>, Seq<char>> {
    match encoded {
        Ok(bytes) => if base64_fits(bytes.len()) {
            Ok(base64_text(bytes))
        } else {
            Err(too_long_for_base64())
        },
        Err(description) => Err(description),
    }
}

/// Why an image that a decoder handed out is refused.
pub open spec fn malformed_image() -> Seq<char> {
    "Image buffer does not match its dimensions"@
}

/// What becomes of what a decoder returned: its error as it is, its image if
/// the pixels fill the dimensions, and a refusal otherwise.
pub open spec fn accepted_image(read: Result<ImageView, Seq<char>>) -> Result<
    ImageView,
    Seq<char>,
> {
    match read {
        Ok(image) => if image.wf() {
            Ok(image)
        } else {
            Err(malformed_image())
        },
        Err(description) => Err(description),
    }
}

/// Calls `PngEncoder::new(..).write_image(pixels, width, height, Rgba8)` of the
/// `image` crate on a buffer in memory. The call panics unless the pixels fill
/// the image exactly; it fails for an image without pixels. What it writes
/// depends on the pixels and the dimensions alone.
#[verifier::external_body]
fn encode_png(pixels: &[u8], width: u32, height: u32) -> (file: Result<Vec<u8>, String>)
    requires
        pixels@.len() == width * height * 4,
    ensures
        bytes_view(file) == png_encoding(pixels@, width as nat, height as nat),
{
    let mut file: Vec<u8> = Vec::new();
    let encoder = PngEncoder::new(BufWriter::new(Cursor::new(&mut file)));
    match encoder.write_image(pixels, width, height, ExtendedColorType::Rgba8) {
        Ok(()) => Ok(file),
        Err(error) => Err(error.to_string()),
    }
}

/// Calls `RustImage::to_png` of `clipboard-rs` on the image made of these
/// pixels. The image is converted to 8-bit RGBA and written as PNG; an error
/// comes back as its text. The PNG writer refuses an image whose width or
/// height is zero.
#[verifier::external_body]
fn clipboard_image_to_png(pixels: &[u8], width: u32, height: u32) -> (file: Result<Vec<u8>, String>)
    requires
        pixels@.len() == width * height * 4,
    ensures
        bytes_view(file) == clipboard_png(pixels@, width as nat, height as nat),
        width == 0 || height == 0 ==> file is Err,
{
    let buffer = RgbaImage::from_raw(width, height, pixels.to_vec()).unwrap();
    let image = RustImageData::from_dynamic_image(DynamicImage::ImageRgba8(buffer));
    match image.to_png() {
        Ok(file) => Ok(file.get_bytes().to_vec()),
        Err(error) => Err(error.to_string()),
    }
}

/// Calls `RustImage::from_bytes` of `clipboard-rs`, which guesses the format
/// of the file and decodes it, and hands the image out as 8-bit RGBA pixels.
/// An error comes back as its text. Which formats are known, and how they are
/// decoded, depends on the decoders registered in the process as well as on
/// the bytes, so nothing is claimed of the result.
#[verifier::external_body]
fn clipboard_image_from_bytes(file: &[u8]) -> (image: Result<ImageData, String>) {
    match RustImageData::from_bytes(file) {
        Ok(image) => match image.to_rgba8() {
            Ok(buffer) => Ok(
                ImageData {
                    width: buffer.width() as usize,
                    height: buffer.height() as usize,
                    bytes: buffer.into_raw(),
                },
            ),
            Err(error) => Err(error.to_string()),
        },
        Err(error) => Err(error.to_string()),
    }
}

/// Calls `Engine::encode` of the `base64` crate on its standard engine. The
/// call panics where the length of the text overflows a `usize`.
#[verifier::external_body]
fn encode_base64(bytes: &[u8]) -> (text: String)
    requires
        base64_fits(bytes@.len()),
    ensures
        text@ == base64_text(bytes@),
{
    STANDARD.encode(bytes)
}

/// Calls `Engine::decode` of the `base64` crate on its standard engine. An
/// error comes back as its text.
#[verifier::external_body]
fn decode_base64(text: &str) -> (bytes: Result<Vec<u8>, String>)
    ensures
        bytes_view(bytes) == base64_bytes(text@),
{
    match STANDARD.decode(text) {
        Ok(bytes) => Ok(bytes),
        Err(error) => Err(error.to_string()),
    }
}

impl ImageData {
    /// Whether both dimensions fit 32 bits and the pixels fill the image
    /// exactly.
    pub fn is_well_formed(&self) -> (well_formed: bool)
        ensures
            well_formed == self@.wf(),
    {
        if self.width > u32::MAX as usize || self.height > u32::MAX as usize {
            return false;
        }
        let length = self.bytes.len();
        assert(self.width * self.height >= 0) by (nonlinear_arith);
        match self.width.checked_mul(self.height) {
            Some(area) => match area.checked_mul(4) {
                Some(expected) => expected == length,
                None => false,
            },
            None => false,
        }
    }

    /// Whether neither dimension is zero.
    pub fn has_pixels(&self) -> (has_pixels: bool)
        ensures
            has_pixels == self@.has_pixels(),
    {
        self.width > 0 && self.height > 0
    }
}

/// The image as a PNG file, written by the `image` crate's PNG encoder. An
/// image without pixels cannot be written as PNG and is not admitted.
pub fn image_data_to_bytes(img: &ImageData) -> (file: Result<Vec<u8>, String>)
    requires
        img@.wf(),
        img@.has_pixels(),
    ensures
        bytes_view(file) == png_encoding(img@.pixels, img@.width, img@.height),
{
    encode_png(img.bytes.as_slice(), img.width as u32, img.height as u32)
}

/// The image as a PNG file in base64 text, written by the `image` crate's PNG
/// encoder. An image without pixels is not admitted.
pub fn image_data_to_base64(img: &ImageData) -> (text: Result<String, String>)
    requires
        img@.wf(),
        img@.has_pixels(),
    ensures
        text_view(text) == base64_of(png_encoding(img@.pixels, img@.width, img@.height)),
{
    base64_from_encoded(image_data_to_bytes(img))
}

/// The image read from the clipboard as a PNG file, as `clipboard-rs` writes
/// it. An image without pixels gives an error.
pub fn png_from_clipboard_image(image: &ImageData) -> (file: Result<Vec<u8>, String>)
    requires
        image@.wf(),
    ensures
        bytes_view(file) == clipboard_png(image@.pixels, image@.width, image@.height),
        !image@.has_pixels() ==> file is Err,
{
    clipboard_image_to_png(image.bytes.as_slice(), image.width as u32, image.height as u32)
}

/// The image read from the clipboard as a PNG file in base64 text. An image
/// without pixels gives an error.
pub fn base64_from_clipboard_image(image: &ImageData) -> (text: Result<String, String>)
    requires
        image@.wf(),
    ensures
        text_view(text) == base64_of(clipboard_png(image@.pixels, image@.width, image@.height)),
        !image@.has_pixels() ==> text is Err,
{
    base64_from_encoded(png_from_clipboard_image(image))
}

/// Passes an encoding error on; encodes a file as base64 text, unless the
/// length of the text cannot be computed in a `usize`.
pub fn base64_from_encoded(encoded: Result<Vec<u8>, String>) -> (text: Result<String, String>)
    ensures
        text_view(text) == base64_of(bytes_view(encoded)),
{
    match encoded {
        Ok(file) => {
            if file.len() / 3 <= (usize::MAX - 4) / 4 {
                Ok(encode_base64(file.as_slice()))
            } else {
                Err(String::from_str("Image is too large to encode as base64"))
            }
        },
        Err(description) => Err(description),
    }
}

/// What becomes of what the decoder returned. Its error is passed on. Its
/// image is accepted if the pixels fill the dimensions, and refused otherwise.
pub fn image_from_read(read: Result<ImageData, String>) -> (image: Result<ImageData, String>)
    ensures
        image_view(image) == accepted_image(image_view(read)),
{
    match read {
        Ok(pixels) => {
            if pixels.is_well_formed() {
                Ok(pixels)
            } else {
                Err(String::from_str("Image buffer does not match its dimensions"))
            }
        },
        Err(description) => Err(description),
    }
}

/// The image to write to the clipboard for an encoded image file. The file is
/// handed to the decoder as it is. Whether the decoder knows the format is
/// for the decoder to say; an image that comes back is well formed.
pub fn image_from_bytes(file: &[u8]) -> (image: Result<ImageData, String>)
    ensures
        image matches Ok(pixels) ==> pixels@.wf(),
{
    image_from_read(clipboard_image_from_bytes(file))
}

/// The image to write to the clipboard for an encoded image file in base64
/// text. Text that is no base64 gives the error of the base64 decoding; the
/// bytes that it stands for are otherwise handed to the image decoder as they
/// are.
pub fn image_from_base64(text: &str) -> (image: Result<ImageData, String>)
    ensures
        base64_bytes(text@) matches Err(description) ==> image_view(image) == Err::<
            ImageView,
            Seq<char>,
        >(description),
        image matches Ok(pixels) ==> pixels@.wf(),
{
    image_from_decoded(decode_base64(text))
}

/// Passes the error of a base64 decoding on; hands the decoded file to the
/// image decoder as it is.
pub fn image_from_decoded(decoded: Result<Vec<u8>, String>) -> (image: Result<ImageData, String>)
    ensures
        decoded matches Err(description) ==> image_view(image) == Err::<ImageView, Seq<char>>(
            description@,
        ),
        image matches Ok(pixels) ==> pixels@.wf(),
{
    match decoded {
        Ok(file) => image_from_bytes(file.as_slice()),
        Err(description) => Err(description),
    }
}

} // verus!
