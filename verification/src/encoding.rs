//! Base64 and timestamp conversions, done by the outside crates `base64` and
//! `chrono`, and the data URLs and file names built from them.

use vstd::prelude::*;
use base64::Engine;
use vstd::string::StringExecFns;
use crate::text::{
    ascii_lower_chars, ascii_lower_seq, chars_of, concat2, concat3, ends_with, ends_with_exec,
};

verus! {

broadcast use vstd::string::group_string_axioms;

/// The character of a 6-bit value in the standard base64 alphabet
/// (RFC 4648: `A`-`Z`, `a`-`z`, `0`-`9`, `+`, `/`).
pub open spec fn base64_digit(v: int) -> char {
    if v < 26 {
        (65 + v) as char
    } else if v < 52 {
        (97 + v - 26) as char
    } else if v < 62 {
        (48 + v - 52) as char
    } else if v == 62 {
        '+'
    } else {
        '/'
    }
}

/// The standard, padded base64 text of a byte sequence (RFC 4648): every
/// three bytes become four characters of six bits each; a last group of
/// one or two bytes is padded with zero bits and ends with `==` or `=`.
pub open spec fn base64_encoded(bytes: Seq<u8>) -> Seq<char>
    decreases bytes.len(),
{
    if bytes.len() == 0 {
        Seq::empty()
    } else if bytes.len() == 1 {
        let b0 = bytes[0] as int;
        seq![base64_digit(b0 / 4), base64_digit((b0 % 4) * 16), '=', '=']
    } else if bytes.len() == 2 {
        let b0 = bytes[0] as int;
        let b1 = bytes[1] as int;
        seq![
            base64_digit(b0 / 4),
            base64_digit((b0 % 4) * 16 + b1 / 16),
            base64_digit((b1 % 16) * 4),
            '=',
        ]
    } else {
        let b0 = bytes[0] as int;
        let b1 = bytes[1] as int;
        let b2 = bytes[2] as int;
        seq![
            base64_digit(b0 / 4),
            base64_digit((b0 % 4) * 16 + b1 / 16),
            base64_digit((b1 % 16) * 4 + b2 / 64),
            base64_digit(b2 % 64),
        ] + base64_encoded(bytes.skip(3))
    }
}

/// Distinct 6-bit values have distinct base64 characters, none of them `=`.
pub proof fn lemma_base64_digit_injective(v: int, w: int)
    requires
        0 <= v < 64,
        0 <= w < 64,
    ensures
        base64_digit(v) != '=',
        base64_digit(v) == base64_digit(w) ==> v == w,
{
    assert(base64_digit(v) as int != '=' as int);
}

/// The base64 text of a byte sequence is empty exactly when the sequence is.
pub proof fn lemma_base64_empty(b: Seq<u8>)
    ensures
        base64_encoded(b).len() == 0 <==> b.len() == 0,
    decreases b.len(),
{
}

/// Base64 encoding is one to one: a text encodes at most one byte sequence.
pub proof fn lemma_base64_injective(a: Seq<u8>, b: Seq<u8>)
    requires
        base64_encoded(a) == base64_encoded(b),
    ensures
        a == b,
    decreases a.len(),
{
    let e = base64_encoded(a);
    lemma_base64_empty(a);
    lemma_base64_empty(b);
    if a.len() == 0 {
        assert(b.len() == 0);
        assert(a =~= b);
    } else {
        let a0 = a[0] as int;
        let b0 = b[0] as int;
        lemma_base64_digit_injective(a0 / 4, b0 / 4);
        assert(e[0] == base64_digit(a0 / 4));
        assert(e[0] == base64_digit(b0 / 4));
        if a.len() >= 3 && b.len() >= 3 {
            let (a1, a2) = (a[1] as int, a[2] as int);
            let (b1, b2) = (b[1] as int, b[2] as int);
            assert(e[1] == base64_digit((a0 % 4) * 16 + a1 / 16));
            assert(e[1] == base64_digit((b0 % 4) * 16 + b1 / 16));
            lemma_base64_digit_injective((a0 % 4) * 16 + a1 / 16, (b0 % 4) * 16 + b1 / 16);
            assert(e[2] == base64_digit((a1 % 16) * 4 + a2 / 64));
            assert(e[2] == base64_digit((b1 % 16) * 4 + b2 / 64));
            lemma_base64_digit_injective((a1 % 16) * 4 + a2 / 64, (b1 % 16) * 4 + b2 / 64);
            assert(e[3] == base64_digit(a2 % 64));
            assert(e[3] == base64_digit(b2 % 64));
            lemma_base64_digit_injective(a2 % 64, b2 % 64);
            assert(0 <= a1 / 16 < 16 && 0 <= b1 / 16 < 16);
            assert(0 <= a2 / 64 < 4 && 0 <= b2 / 64 < 4);
            assert(a0 % 4 == b0 % 4 && a1 / 16 == b1 / 16);
            assert(a1 % 16 == b1 % 16 && a2 / 64 == b2 / 64);
            assert(a0 == 4 * (a0 / 4) + a0 % 4 && b0 == 4 * (b0 / 4) + b0 % 4);
            assert(a1 == 16 * (a1 / 16) + a1 % 16 && b1 == 16 * (b1 / 16) + b1 % 16);
            assert(a2 == 64 * (a2 / 64) + a2 % 64 && b2 == 64 * (b2 / 64) + b2 % 64);
            assert(a0 / 4 == b0 / 4);
            assert(a0 == b0);
            assert(a1 == b1);
            assert(a2 % 64 == b2 % 64);
            assert(a2 == b2);
            assert(base64_encoded(a.skip(3)) =~= e.skip(4));
            assert(base64_encoded(b.skip(3)) =~= e.skip(4));
            lemma_base64_injective(a.skip(3), b.skip(3));
            assert(a =~= seq![a[0], a[1], a[2]] + a.skip(3));
            assert(b =~= seq![b[0], b[1], b[2]] + b.skip(3));
        } else if a.len() >= 3 || b.len() >= 3 {
            // One ends here with padding, the other goes on with a digit
            // (or, with exactly three bytes, with a digit where padding is).
            let (x, y) = if a.len() >= 3 { (a, b) } else { (b, a) };
            lemma_base64_empty(x.skip(3));
            assert(e.len() == 4);
            assert(base64_encoded(x.skip(3)).len() == 0);
            assert(x.skip(3).len() == 0);
            let x2 = x[2] as int;
            lemma_base64_digit_injective(x2 % 64, 0);
            assert(base64_encoded(x)[3] == base64_digit(x2 % 64));
            assert(base64_encoded(y)[3] == '=');
        } else if a.len() == 1 && b.len() == 1 {
            lemma_base64_digit_injective((a0 % 4) * 16, (b0 % 4) * 16);
            assert(a0 % 4 == b0 % 4);
            assert(a0 == 4 * (a0 / 4) + a0 % 4 && b0 == 4 * (b0 / 4) + b0 % 4);
            assert(a =~= b);
        } else if a.len() == 2 && b.len() == 2 {
            let (a1, b1) = (a[1] as int, b[1] as int);
            lemma_base64_digit_injective((a0 % 4) * 16 + a1 / 16, (b0 % 4) * 16 + b1 / 16);
            lemma_base64_digit_injective((a1 % 16) * 4, (b1 % 16) * 4);
            assert(0 <= a1 / 16 < 16 && 0 <= b1 / 16 < 16);
            assert(a0 % 4 == b0 % 4 && a1 / 16 == b1 / 16);
            assert(a1 % 16 == b1 % 16);
            assert(a0 == 4 * (a0 / 4) + a0 % 4 && b0 == 4 * (b0 / 4) + b0 % 4);
            assert(a1 == 16 * (a1 / 16) + a1 % 16 && b1 == 16 * (b1 / 16) + b1 % 16);
            assert(a =~= b);
        } else {
            let (x, y) = if a.len() == 2 { (a, b) } else { (b, a) };
            let x1 = x[1] as int;
            lemma_base64_digit_injective((x1 % 16) * 4, 0);
            assert(base64_encoded(x)[2] == base64_digit((x1 % 16) * 4));
            assert(base64_encoded(y)[2] == '=');
        }
    }
}

/// `text` is the standard base64 text of some byte sequence.
pub open spec fn is_base64_text(text: Seq<char>) -> bool {
    exists|b: Seq<u8>| base64_encoded(b) == text
}

/// The `chrono` pattern of a compact stamp `YYYYmmdd_HHMMSS`.
pub const COMPACT_STAMP_PATTERN: &'static str = "%Y%m%d_%H%M%S";

/// What `chrono` formats with `pattern` for an RFC 3339 date-time, in its
/// own offset, or nothing when `DateTime::parse_from_rfc3339` rejects the
/// text.
pub uninterp spec fn rfc3339_formatted(text: Seq<char>, pattern: Seq<char>) -> Option<Seq<char>>;

/// The compact stamp of an RFC 3339 date-time, or nothing when it does not
/// parse.
pub open spec fn rfc3339_compact_stamp(text: Seq<char>) -> Option<Seq<char>> {
    rfc3339_formatted(text, COMPACT_STAMP_PATTERN@)
}

/// Standard base64 encoding (`base64` crate, `STANDARD.encode`: standard
/// alphabet, with padding). Claimed: the text is the RFC 4648 encoding
/// `base64_encoded` of the bytes.
#[verifier::external_body]
pub(crate) fn encode_base64(bytes: &[u8]) -> (r: String)
    ensures
        r@ == base64_encoded(bytes@),
{
    base64::engine::general_purpose::STANDARD.encode(bytes)
}

/// Standard base64 decoding (`base64` crate, `STANDARD.decode`, which
/// demands canonical padding and rejects set trailing bits). Claimed: it
/// gives the bytes whose standard encoding is the text, and fails exactly
/// when the text is the encoding of no bytes; the error text is the crate's
/// message and is not stated.
#[verifier::external_body]
pub(crate) fn decode_base64(text: &str) -> (r: Result<Vec<u8>, String>)
    ensures
        match r {
            Ok(v) => base64_encoded(v@) == text@,
            Err(_) => !is_base64_text(text@),
        },
{
    base64::engine::general_purpose::STANDARD.decode(text).map_err(|e| e.to_string())
}

/// `DateTime::parse_from_rfc3339` followed by `format(pattern)` (`chrono`
/// crate). Claimed: the result is `rfc3339_formatted` of the text and the
/// pattern. Only the compact stamp pattern is admitted: formatting with a
/// malformed pattern panics.
#[verifier::external_body]
pub(crate) fn format_rfc3339(text: &str, pattern: &str) -> (r: Option<String>)
    requires
        pattern@ == COMPACT_STAMP_PATTERN@,
    ensures
        match r {
            Some(v) => rfc3339_formatted(text@, pattern@) == Some(v@),
            None => rfc3339_formatted(text@, pattern@) is None,
        },
{
    chrono::DateTime::parse_from_rfc3339(text).ok().map(|dt| dt.format(pattern).to_string())
}

/// The PNG bytes the `image` crate writes (`DynamicImage::write_to` with
/// `ImageFormat::Png`) for an image file it decodes
/// (`image::load_from_memory`), or nothing when either step fails.
pub uninterp spec fn png_of_image_file(data: Seq<u8>) -> Option<Seq<u8>>;

/// The PNG bytes the `image` crate writes for an RGBA pixel buffer of the
/// given size, or nothing when writing fails.
pub uninterp spec fn png_of_rgba(width: u32, height: u32, rgba: Seq<u8>) -> Option<Seq<u8>>;

/// Width, height and RGBA pixels of an image file as the `image` crate
/// decodes it (`load_from_memory`, then `to_rgba8`), or nothing when it
/// cannot be decoded.
pub uninterp spec fn rgba_of_image_file(data: Seq<u8>) -> Option<(u32, u32, Seq<u8>)>;

/// An RGBA buffer of `width` by `height` pixels fits in `len` bytes (the
/// test of `ImageBuffer::from_raw`: `4 * width`, then that times `height`,
/// computed without overflowing `usize`, is at most `len`).
pub open spec fn rgba_fits(width: u32, height: u32, len: nat) -> bool {
    &&& 4 * width <= usize::MAX
    &&& 4 * width * height <= usize::MAX
    &&& 4 * width * height <= len
}

/// Re-encodes an image file as PNG (`image::load_from_memory`, then
/// `write_to` with `ImageFormat::Png`). Claimed: success exactly when
/// `png_of_image_file` gives bytes, and then those bytes; the error text is
/// the crate's message and is not stated.
#[verifier::external_body]
fn transcode_to_png(data: &[u8]) -> (r: Result<Vec<u8>, String>)
    ensures
        match r {
            Ok(v) => png_of_image_file(data@) == Some(v@),
            Err(_) => png_of_image_file(data@) is None,
        },
{
    let img = image::load_from_memory(data).map_err(|e| e.to_string())?;
    let mut out: Vec<u8> = Vec::new();
    img.write_to(&mut std::io::Cursor::new(&mut out), image::ImageFormat::Png).map_err(|e| e.to_string())?;
    Ok(out)
}

/// Writes an RGBA pixel buffer as PNG (`RgbaImage::from_raw`, then
/// `write_to` with `ImageFormat::Png`). Claimed: no result exactly when the
/// buffer does not fit (`from_raw` refuses it); otherwise success exactly
/// when `png_of_rgba` gives bytes, and then those bytes; the error text is
/// the crate's message and is not stated.
#[verifier::external_body]
fn rgba_to_png(width: u32, height: u32, rgba: Vec<u8>) -> (r: Option<Result<Vec<u8>, String>>)
    ensures
        r is None <==> !rgba_fits(width, height, rgba@.len()),
        r matches Some(Ok(v)) ==> png_of_rgba(width, height, rgba@) == Some(v@),
        r matches Some(Err(_)) ==> png_of_rgba(width, height, rgba@) is None,
{
    let buf = image::RgbaImage::from_raw(width, height, rgba)?;
    let img = image::DynamicImage::ImageRgba8(buf);
    let mut out: Vec<u8> = Vec::new();
    Some(img.write_to(&mut std::io::Cursor::new(&mut out), image::ImageFormat::Png).map(|_| out).map_err(|e| e.to_string()))
}

/// Decodes an image file into RGBA pixels (`image::load_from_memory`, then
/// `to_rgba8`). Claimed: success exactly when `rgba_of_image_file` gives a
/// result, and then that result; the error text is the crate's message and
/// is not stated.
#[verifier::external_body]
fn decode_to_rgba(data: &[u8]) -> (r: Result<(u32, u32, Vec<u8>), String>)
    ensures
        match r {
            Ok(v) => rgba_of_image_file(data@) == Some((v.0, v.1, v.2@)),
            Err(_) => rgba_of_image_file(data@) is None,
        },
{
    let img = image::load_from_memory(data).map_err(|e| e.to_string())?;
    let rgba = img.to_rgba8();
    let (w, h) = rgba.dimensions();
    Ok((w, h, rgba.into_raw()))
}

/// The base64 text sent to the model for an image's PNG bytes.
pub fn encode_image_base64(png_bytes: &[u8]) -> (r: String)
    ensures
        r@ == base64_encoded(png_bytes@),
{
    encode_base64(png_bytes)
}

/// An image file of any supported format, as PNG bytes.
pub fn image_file_to_png(data: &[u8]) -> (r: Result<Vec<u8>, String>)
    ensures
        match r {
            Ok(v) => png_of_image_file(data@) == Some(v@),
            Err(_) => png_of_image_file(data@) is None,
        },
{
    transcode_to_png(data)
}

/// Prefix of the error of a clipboard image that could not be written.
pub const CLIPBOARD_ENCODE_ERROR: &'static str = "Failed to encode clipboard image: ";

/// Error of clipboard pixels that do not fit the stated size.
pub const CLIPBOARD_BUFFER_ERROR: &'static str = "Failed to create image buffer from clipboard data";

/// What a clipboard capture gives once the pixels went to the `image` crate:
/// no buffer is an error, a write error is prefixed, PNG bytes pass.
pub fn clipboard_png_result(encoded: Option<Result<Vec<u8>, String>>) -> (r: Result<Vec<u8>, String>)
    ensures
        match encoded {
            None => r matches Err(e) && e@ == CLIPBOARD_BUFFER_ERROR@,
            Some(Ok(v)) => r matches Ok(w) && w@ == v@,
            Some(Err(c)) => r matches Err(e) && e@ == CLIPBOARD_ENCODE_ERROR@ + c@,
        },
{
    match encoded {
        None => Err(crate::text::owned(CLIPBOARD_BUFFER_ERROR)),
        Some(Ok(v)) => Ok(v),
        Some(Err(cause)) => Err(concat2(CLIPBOARD_ENCODE_ERROR, cause.as_str())),
    }
}

/// A clipboard image (RGBA pixels) as PNG bytes; the error tells whether the
/// pixels did not fit the size or could not be written.
pub fn clipboard_image_to_png(width: u32, height: u32, rgba: Vec<u8>) -> (r: Result<Vec<u8>, String>)
    ensures
        !rgba_fits(width, height, rgba@.len()) ==> (r matches Err(e) && e@
            == CLIPBOARD_BUFFER_ERROR@),
        rgba_fits(width, height, rgba@.len()) ==> match r {
            Ok(v) => png_of_rgba(width, height, rgba@) == Some(v@),
            Err(e) => png_of_rgba(width, height, rgba@) is None && e@.len() >= CLIPBOARD_ENCODE_ERROR@.len()
                && e@.subrange(0, CLIPBOARD_ENCODE_ERROR@.len() as int) == CLIPBOARD_ENCODE_ERROR@,
        },
{
    let encoded = rgba_to_png(width, height, rgba);
    let ghost outcome = encoded;
    let r = clipboard_png_result(encoded);
    proof {
        if let Some(Err(c)) = outcome {
            assert((CLIPBOARD_ENCODE_ERROR@ + c@).subrange(0, CLIPBOARD_ENCODE_ERROR@.len() as int)
                =~= CLIPBOARD_ENCODE_ERROR@);
        }
    }
    r
}

/// An image file as RGBA pixels with its width and height.
pub fn image_file_to_rgba(data: &[u8]) -> (r: Result<(u32, u32, Vec<u8>), String>)
    ensures
        match r {
            Ok(v) => rgba_of_image_file(data@) == Some((v.0, v.1, v.2@)),
            Err(_) => rgba_of_image_file(data@) is None,
        },
{
    decode_to_rgba(data)
}

/// The file name of a saved PNG image.
pub fn png_file_name(stem: &str) -> (r: String)
    ensures
        r@ == stem@ + ".png"@,
{
    concat2(stem, ".png")
}

/// A data URL of PNG bytes already in base64.
pub fn png_data_url(image_base64: &str) -> (r: String)
    ensures
        r@ == "data:image/png;base64,"@ + image_base64@,
{
    concat2("data:image/png;base64,", image_base64)
}

/// The MIME type chosen for an image path: JPEG for `.jpg`/`.jpeg`, GIF for
/// `.gif` (letter case ignored), PNG otherwise.
pub open spec fn image_mime(path: Seq<char>) -> Seq<char> {
    let lower = ascii_lower_seq(path);
    if ends_with(lower, ".jpg"@) || ends_with(lower, ".jpeg"@) {
        "image/jpeg"@
    } else if ends_with(lower, ".gif"@) {
        "image/gif"@
    } else {
        "image/png"@
    }
}

/// The MIME type for an image path.
pub fn image_mime_for_path(path: &str) -> (r: &'static str)
    ensures
        r@ == image_mime(path@),
{
    let p = chars_of(path);
    let lower = ascii_lower_chars(p.as_slice());
    let jpg = chars_of(".jpg");
    let jpeg = chars_of(".jpeg");
    let gif = chars_of(".gif");
    if ends_with_exec(lower.as_slice(), jpg.as_slice()) || ends_with_exec(
        lower.as_slice(),
        jpeg.as_slice(),
    ) {
        "image/jpeg"
    } else if ends_with_exec(lower.as_slice(), gif.as_slice()) {
        "image/gif"
    } else {
        "image/png"
    }
}

/// A data URL: `data:`, the MIME type, `;base64,` and the base64 text.
pub fn data_url(mime: &str, encoded: &str) -> (r: String)
    ensures
        r@ == "data:"@ + mime@ + ";base64,"@ + encoded@,
{
    let mut r = concat3("data:", mime, ";base64,");
    r.append(encoded);
    r
}

/// A data URL of an image file's bytes, typed by the file's extension.
pub fn image_data_url(path: &str, bytes: &[u8]) -> (r: String)
    ensures
        r@ == "data:"@ + image_mime(path@) + ";base64,"@ + base64_encoded(bytes@),
{
    let mime = image_mime_for_path(path);
    let encoded = encode_base64(bytes);
    data_url(mime, encoded.as_str())
}

/// Prefix of the error of image data that is not valid base64.
pub const BASE64_IMAGE_ERROR: &'static str = "Failed to decode base64 image: ";

/// What a base64 image gives once decoded: the bytes, or the decoder's
/// error after a prefix naming the cause.
pub fn base64_image_result(decoded: Result<Vec<u8>, String>) -> (r: Result<Vec<u8>, String>)
    ensures
        match decoded {
            Ok(v) => r matches Ok(w) && w@ == v@,
            Err(c) => r matches Err(e) && e@ == BASE64_IMAGE_ERROR@ + c@,
        },
{
    match decoded {
        Ok(v) => Ok(v),
        Err(cause) => Err(concat2(BASE64_IMAGE_ERROR, cause.as_str())),
    }
}

/// Decodes an image given in base64; the error names the cause.
pub fn decode_image_base64(image_base64: &str) -> (r: Result<Vec<u8>, String>)
    ensures
        match r {
            Ok(v) => base64_encoded(v@) == image_base64@,
            Err(e) => !is_base64_text(image_base64@) && e@.len() >= BASE64_IMAGE_ERROR@.len()
                && e@.subrange(0, BASE64_IMAGE_ERROR@.len() as int) == BASE64_IMAGE_ERROR@,
        },
{
    let decoded = decode_base64(image_base64);
    let ghost outcome = decoded;
    let r = base64_image_result(decoded);
    proof {
        if let Err(c) = outcome {
            assert((BASE64_IMAGE_ERROR@ + c@).subrange(0, BASE64_IMAGE_ERROR@.len() as int)
                =~= BASE64_IMAGE_ERROR@);
        }
    }
    r
}

/// The file stem of a saved recognition image once the creation time was
/// read: its compact stamp (or `now_stamp` when it did not parse), `_`, and
/// the item id.
pub fn stem_from_stamp(stamp: Option<String>, id: &str, now_stamp: &str) -> (r: String)
    ensures
        r@ == match stamp {
            Some(s) => s@,
            None => now_stamp@,
        } + "_"@ + id@,
{
    match stamp {
        Some(s) => concat3(s.as_str(), "_", id),
        None => concat3(now_stamp, "_", id),
    }
}

/// The file stem of a saved recognition image: the compact stamp of its
/// creation time (or of `now_stamp` when that time does not parse), `_`, and
/// the item id.
pub fn image_file_stem(created_at: &str, id: &str, now_stamp: &str) -> (r: String)
    ensures
        r@ == match rfc3339_compact_stamp(created_at@) {
            Some(stamp) => stamp,
            None => now_stamp@,
        } + "_"@ + id@,
{
    stem_from_stamp(format_rfc3339(created_at, COMPACT_STAMP_PATTERN), id, now_stamp)
}

} // verus!
