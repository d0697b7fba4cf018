//! Profile pictures: how an uploaded image is normalised, and how the
//! stored picture is written as hexadecimal text and read back.

use vstd::prelude::*;

use super::error::Error;

verus! {

// ---------------------------------------------------------------------------
// Hexadecimal text (hex)
// ---------------------------------------------------------------------------

/// The lowercase hexadecimal digit of `n` (for `0 <= n < 16`).
pub open spec fn hex_digit(n: int) -> char {
    if n < 10 {
        (48 + n) as char
    } else {
        (87 + n) as char
    }
}

/// The value of a hexadecimal digit of either case, `-1` for any other
/// character.
pub open spec fn hex_value(c: char) -> int {
    if '0' <= c <= '9' {
        c as int - 48
    } else if 'a' <= c <= 'f' {
        c as int - 87
    } else if 'A' <= c <= 'F' {
        c as int - 55
    } else {
        -1
    }
}

/// Bytes written as lowercase hexadecimal, two digits per byte, high nibble
/// first.
pub open spec fn hex_encoding(bytes: Seq<u8>) -> Seq<char> {
    Seq::new(
        2 * bytes.len(),
        |i: int|
            if i % 2 == 0 {
                hex_digit((bytes[i / 2] / 16) as int)
            } else {
                hex_digit((bytes[i / 2] % 16) as int)
            },
    )
}

/// The bytes that a hexadecimal text stands for: `None` unless the text has
/// an even number of characters, all of them hexadecimal digits of either
/// case.
pub open spec fn hex_decoding(text: Seq<char>) -> Option<Seq<u8>> {
    if text.len() % 2 == 0 && forall|i: int| 0 <= i < text.len() ==> hex_value(#[trigger] text[i]) >= 0 {
        Some(
            Seq::new(
                text.len() / 2,
                |i: int| (hex_value(text[2 * i]) * 16 + hex_value(text[2 * i + 1])) as u8,
            ),
        )
    } else {
        None
    }
}

/// `hex::encode`: lowercase hexadecimal, high nibble first, as the crate's
/// source writes it.
#[verifier::external_body]
fn hex_encode(bytes: &[u8]) -> (r: String)
    ensures
        r@ == hex_encoding(bytes@),
{
    hex::encode(bytes)
}

/// `hex::decode(..).ok()` on the bytes of a text: the crate refuses an odd
/// number of bytes and any byte that is not an ASCII hexadecimal digit; a
/// character outside ASCII has only such bytes, so on characters this is
/// `hex_decoding`.
#[verifier::external_body]
fn hex_decode(text: &str) -> (r: Option<Vec<u8>>)
    ensures
        r matches Some(v) ==> hex_decoding(text@) == Some(v@),
        r is None ==> hex_decoding(text@) is None,
{
    hex::decode(text).ok()
}

proof fn lemma_hex_digit_value(n: int)
    requires
        0 <= n < 16,
    ensures
        hex_value(hex_digit(n)) == n,
{
    if n < 10 {
        assert(((48 + n) as char) as u32 == 48 + n);
    } else {
        assert(((87 + n) as char) as u32 == 87 + n);
    }
}

/// A picture written as hexadecimal reads back as the same bytes.
pub proof fn lemma_hex_round_trip(bytes: Seq<u8>)
    ensures
        hex_decoding(hex_encoding(bytes)) == Some(bytes),
{
    let text = hex_encoding(bytes);
    assert forall|i: int| 0 <= i < text.len() implies hex_value(#[trigger] text[i]) >= 0 by {
        if i % 2 == 0 {
            lemma_hex_digit_value((bytes[i / 2] / 16) as int);
        } else {
            lemma_hex_digit_value((bytes[i / 2] % 16) as int);
        }
    }
    let decoded = hex_decoding(text).unwrap();
    assert forall|k: int| 0 <= k < bytes.len() implies decoded[k] == bytes[k] by {
        assert((2 * k) / 2 == k);
        assert((2 * k + 1) / 2 == k);
        assert((2 * k) % 2 == 0);
        assert((2 * k + 1) % 2 == 1);
        lemma_hex_digit_value((bytes[k] / 16) as int);
        lemma_hex_digit_value((bytes[k] % 16) as int);
        assert(text[2 * k] == hex_digit((bytes[k] / 16) as int));
        assert(text[2 * k + 1] == hex_digit((bytes[k] % 16) as int));
    }
    assert(decoded =~= bytes);
}

/// The picture as it is stored: hexadecimal text.
pub fn encode_profile_picture(bytes: &[u8]) -> (r: String)
    ensures
        r@ == hex_encoding(bytes@),
{
    hex_encode(bytes)
}

/// Reads a stored picture back: nothing stored, or text that is not
/// hexadecimal, gives no picture.
pub fn decode_profile_picture(stored: Option<&str>) -> (r: Option<Vec<u8>>)
    ensures
        stored is None ==> r is None,
        stored matches Some(text) ==> match hex_decoding(text@) {
            Some(b) => r matches Some(v) && v@ == b,
            None => r is None,
        },
{
    match stored {
        Some(text) => hex_decode(text),
        None => None,
    }
}

// ---------------------------------------------------------------------------
// Images (image)
// ---------------------------------------------------------------------------

/// Largest width and height, in pixels, of a stored profile picture.
pub const MAX_PROFILE_PICTURE_DIMENSION: u32 = 800;

/// JPEG quality of a stored profile picture.
pub const PROFILE_PICTURE_JPEG_QUALITY: u8 = 75;

#[verifier::external_type_specification]
#[verifier::external_body]
pub struct ExDynamicImage(image::DynamicImage);

/// Name for whether `image::load_from_memory` (format guessed from the
/// bytes) decodes the bytes as an image.
pub uninterp spec fn image_decodes(bytes: Seq<u8>) -> bool;

/// How an image in memory was made: decoded from these uploaded bytes and,
/// where the second part is `Some(max)`, then scaled to fit `max` × `max`.
pub type PictureSource = (Seq<u8>, Option<u32>);

/// Name for the width and height in pixels (`GenericImageView::dimensions`)
/// of the image made as `source` says.
pub uninterp spec fn picture_size(source: PictureSource) -> (u32, u32);

/// Name for the bytes that `JpegEncoder::new_with_quality(.., quality)`
/// writes with `encode_image` for the image made as `source` says.
pub uninterp spec fn jpeg_encoding(source: PictureSource, quality: u8) -> Seq<u8>;

/// A decoded image together with how it was made.
struct Picture {
    image: image::DynamicImage,
    source: Ghost<Seq<u8>>,
    fitted: Ghost<Option<u32>>,
}

impl View for Picture {
    type V = PictureSource;

    closed spec fn view(&self) -> PictureSource {
        (self.source@, self.fitted@)
    }
}

/// Whether `fitted` is `size` scaled to fit `max` × `max` keeping the aspect
/// ratio: the longer side becomes `max` (the width when both are equal) and
/// the other lies within one pixel of the same scaling, and is at least 1.
pub open spec fn keeps_ratio(size: (u32, u32), fitted: (u32, u32), max: u32) -> bool {
    let (w, h) = size;
    let (w2, h2) = fitted;
    if w >= h {
        &&& w2 == max
        &&& 1 <= h2
        &&& -(w as int) <= h2 * w - h * max <= w
    } else {
        &&& h2 == max
        &&& 1 <= w2
        &&& -(h as int) <= w2 * h - w * max <= h
    }
}

/// `image::load_from_memory(..).ok()`, kept with the bytes it was decoded
/// from.
#[verifier::external_body]
fn load_image(bytes: &[u8]) -> (r: Option<Picture>)
    ensures
        r is Some == image_decodes(bytes@),
        r matches Some(p) ==> p@ == (bytes@, None::<u32>),
{
    match image::load_from_memory(bytes) {
        Ok(image) => Some(Picture { image, source: Ghost(bytes@), fitted: Ghost(None) }),
        Err(_) => None,
    }
}

/// `GenericImageView::dimensions`: width and height in pixels.
#[verifier::external_body]
fn image_dimensions(p: &Picture) -> (r: (u32, u32))
    ensures
        r == picture_size(p@),
{
    image::GenericImageView::dimensions(&p.image)
}

/// `DynamicImage::resize(max, max, Lanczos3)`: the image scaled, keeping its
/// aspect ratio, to the largest size that fits `max` × `max`. By the source
/// (`resize_dimensions` in `math/utils.rs`), each new side is the old one
/// times the smaller of the two ratios, rounded, and at least 1, so for
/// `1 <= max` both sides lie in `1..=max`.
///
/// Where the image is wider than tall (or square) the new width is `max`,
/// since the width times `max / width` rounds back to `max`, and the new
/// height is the height times `max / width`, rounded and at least 1, so
/// within one pixel of the exact ratio; the other way round likewise.
#[verifier::external_body]
fn resize_to_fit(p: &Picture, max: u32) -> (r: Picture)
    requires
        p@.1 is None,
        1 <= max,
    ensures
        r@ == (p@.0, Some(max)),
        1 <= picture_size(r@).0 <= max,
        1 <= picture_size(r@).1 <= max,
        1 <= picture_size(p@).0 || 1 <= picture_size(p@).1 ==> keeps_ratio(
            picture_size(p@),
            picture_size(r@),
            max,
        ),
{
    Picture {
        image: p.image.resize(max, max, image::imageops::FilterType::Lanczos3),
        source: Ghost(p.source@),
        fitted: Ghost(Some(max)),
    }
}

/// Encodes an image as JPEG with `JpegEncoder::new_with_quality` and
/// `encode_image`. By the source of the encoder, writing into a `Vec` does
/// not fail, and the only refusal is `InvalidSize`: a width or height of 0
/// or above 65535.
#[verifier::external_body]
fn encode_jpeg(p: &Picture, quality: u8) -> (r: Option<Vec<u8>>)
    ensures
        r is Some <==> (1 <= picture_size(p@).0 <= 65535 && 1 <= picture_size(p@).1 <= 65535),
        r matches Some(v) ==> v@ == jpeg_encoding(p@, quality),
{
    let mut buffer = Vec::new();
    let mut encoder = image::codecs::jpeg::JpegEncoder::new_with_quality(&mut buffer, quality);
    match encoder.encode_image(&p.image) {
        Ok(()) => Some(buffer),
        Err(_) => None,
    }
}

/// Whether an image of this size must be scaled down before it is stored.
pub fn needs_downscale(width: u32, height: u32) -> (b: bool)
    ensures
        b == (width > MAX_PROFILE_PICTURE_DIMENSION || height > MAX_PROFILE_PICTURE_DIMENSION),
{
    width > MAX_PROFILE_PICTURE_DIMENSION || height > MAX_PROFILE_PICTURE_DIMENSION
}

pub open spec fn is_invalid_data(r: Result<Vec<u8>, Error>, message: Seq<char>) -> bool {
    r matches Err(Error::InvalidData { msg }) && msg@ == message
}

/// How the stored picture is made from an upload: decoded, and scaled to
/// fit 800 × 800 where it is larger either way.
pub open spec fn stored_picture_source(bytes: Seq<u8>) -> PictureSource {
    let (w, h) = picture_size((bytes, None));
    if w > MAX_PROFILE_PICTURE_DIMENSION || h > MAX_PROFILE_PICTURE_DIMENSION {
        (bytes, Some(MAX_PROFILE_PICTURE_DIMENSION))
    } else {
        (bytes, None)
    }
}

/// Whether the stored picture made from an upload has both sides of at
/// least one pixel, so that it can be encoded.
pub open spec fn stored_picture_encodable(bytes: Seq<u8>) -> bool {
    let (w, h) = picture_size(stored_picture_source(bytes));
    1 <= w && 1 <= h
}

/// The JPEG (quality 75) stored for an upload.
pub open spec fn stored_picture(bytes: Seq<u8>) -> Seq<u8> {
    jpeg_encoding(stored_picture_source(bytes), PROFILE_PICTURE_JPEG_QUALITY)
}

/// Turns an uploaded picture into the JPEG that is stored: bytes that do not
/// decode as an image are refused as invalid data; an image larger than
/// 800 pixels either way is scaled down to fit; the result is encoded as
/// JPEG of quality 75. An image with a side of 0 pixels cannot be encoded
/// and is refused as invalid data.
pub fn prepare_profile_picture(bytes: &[u8]) -> (r: Result<Vec<u8>, Error>)
    ensures
        !image_decodes(bytes@) ==> is_invalid_data(r, "invalid image data"@),
        image_decodes(bytes@) && stored_picture_encodable(bytes@) ==> (r matches Ok(v) && v@
            == stored_picture(bytes@)),
        image_decodes(bytes@) && !stored_picture_encodable(bytes@) ==> is_invalid_data(
            r,
            "failed to encode image data"@,
        ),
        image_decodes(bytes@) ==> picture_size(stored_picture_source(bytes@)).0
            <= MAX_PROFILE_PICTURE_DIMENSION && picture_size(stored_picture_source(bytes@)).1
            <= MAX_PROFILE_PICTURE_DIMENSION,
        image_decodes(bytes@) ==> ({
            let (w, h) = picture_size((bytes@, None::<u32>));
            if w > MAX_PROFILE_PICTURE_DIMENSION || h > MAX_PROFILE_PICTURE_DIMENSION {
                keeps_ratio(
                    (w, h),
                    picture_size(stored_picture_source(bytes@)),
                    MAX_PROFILE_PICTURE_DIMENSION,
                )
            } else {
                picture_size(stored_picture_source(bytes@)) == (w, h)
            }
        }),
{
    let image = match load_image(bytes) {
        Some(image) => image,
        None => {
            return Err(Error::InvalidData { msg: "invalid image data" });
        },
    };
    let (width, height) = image_dimensions(&image);
    let image = if needs_downscale(width, height) {
        resize_to_fit(&image, MAX_PROFILE_PICTURE_DIMENSION)
    } else {
        image
    };
    match encode_jpeg(&image, PROFILE_PICTURE_JPEG_QUALITY) {
        Some(buffer) => Ok(buffer),
        None => Err(Error::InvalidData { msg: "failed to encode image data" }),
    }
}

} // verus!
