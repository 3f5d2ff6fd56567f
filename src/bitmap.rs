//! Raw RGBA images from the clipboard: the buffer is checked against the
//! dimensions, encoded as PNG, and given a destination `img_<timestamp>.png`.

use vstd::prelude::*;
use crate::clock::{is_timestamp, timestamp};
use crate::error::PasteError;
use crate::naming::{join_path, joined};

verus! {

#[verifier::external_type_specification]
#[verifier::external_body]
pub struct ExImageError(image::ImageError);

/// What the PNG encoder of the `image` crate produces for a tightly packed,
/// row-major RGBA buffer of the given dimensions.
pub uninterp spec fn png_of(pixels: Seq<u8>, width: u32, height: u32) -> Seq<u8>;

/// Relies on `image::write_buffer_with_format` with `ImageFormat::Png` and
/// `ExtendedColorType::Rgba8`, writing into memory: on success the bytes are
/// the PNG encoding of the buffer. The PNG encoder refuses only a zero width
/// or a zero height; it panics unless the buffer holds exactly four bytes per
/// pixel, which `requires` rules out.
#[verifier::external_body]
fn encode_png(pixels: &[u8], width: u32, height: u32) -> (r: Result<Vec<u8>, image::ImageError>)
    requires
        pixels@.len() == width * height * 4,
    ensures
        r matches Ok(b) ==> b@ == png_of(pixels@, width, height),
        width > 0 && height > 0 ==> r is Ok,
{
    let mut out = std::io::Cursor::new(Vec::new());
    image::write_buffer_with_format(
        &mut out,
        pixels,
        width,
        height,
        image::ExtendedColorType::Rgba8,
        image::ImageFormat::Png,
    )?;
    Ok(out.into_inner())
}

/// A raw image: width and height in pixels and the RGBA bytes, four per pixel,
/// row by row from the top.
pub struct RawImage {
    pub width: usize,
    pub height: usize,
    pub bytes: Vec<u8>,
}

/// An encoded image to write, and the line to print once it is written.
pub struct ImageStep {
    pub dest: String,
    pub png: Vec<u8>,
    pub line: String,
}

/// The error that stops an image from being encoded, if any: a buffer whose
/// length is not four bytes per pixel, or dimensions that a pixel grid cannot
/// have.
pub open spec fn image_error(width: usize, height: usize, len: nat) -> Option<PasteError> {
    if len != width * height * 4 {
        Some(PasteError::InvalidImageBuffer)
    } else if width > u32::MAX || height > u32::MAX {
        Some(PasteError::ImageDecodeFailed)
    } else {
        None
    }
}

/// The name an image is written under: `img_<stamp>.png`.
pub open spec fn image_name(stamp: Seq<char>) -> Seq<char> {
    seq!['i', 'm', 'g', '_'] + stamp + seq!['.', 'p', 'n', 'g']
}

pub open spec fn image_dest(dir: Seq<char>, stamp: Seq<char>) -> Seq<char> {
    joined(dir, image_name(stamp))
}

/// The Markdown line for a written image: `![](<dest>)`.
pub open spec fn image_line(dir: Seq<char>, stamp: Seq<char>) -> Seq<char> {
    seq!['!', '[', ']', '('] + image_dest(dir, stamp) + seq![')']
}

/// Checks the buffer against the dimensions and returns them as `u32`.
pub fn check_image(img: &RawImage) -> (r: Result<(u32, u32), PasteError>)
    ensures
        match r {
            Ok((w, h)) => image_error(img.width, img.height, img.bytes@.len()) is None
                && w == img.width && h == img.height,
            Err(e) => image_error(img.width, img.height, img.bytes@.len()) == Some(e),
        },
{
    let len = img.bytes.len();
    proof {
        let w = img.width as int;
        let h = img.height as int;
        assert(w * h >= 0) by (nonlinear_arith)
            requires
                w >= 0,
                h >= 0,
        ;
    }
    let fits = match img.width.checked_mul(img.height) {
        Some(p) => match p.checked_mul(4) {
            Some(q) => q == len,
            None => false,
        },
        None => false,
    };
    if !fits {
        return Err(PasteError::InvalidImageBuffer);
    }
    if img.width > 0xffff_ffffusize || img.height > 0xffff_ffffusize {
        return Err(PasteError::ImageDecodeFailed);
    }
    Ok((img.width as u32, img.height as u32))
}

/// Builds the step for an image from what the encoder returned.
pub fn finish_image(encoded: Result<Vec<u8>, image::ImageError>, dest_dir: &str, stamp: &str) -> (r:
    Result<ImageStep, PasteError>)
    ensures
        match encoded {
            Ok(b) => r matches Ok(step) && step.png@ == b@ && step.dest@ == image_dest(
                dest_dir@,
                stamp@,
            ) && step.line@ == image_line(dest_dir@, stamp@),
            Err(_) => r == Err::<ImageStep, PasteError>(PasteError::EncodeFailed),
        },
{
    let png = match encoded {
        Ok(b) => b,
        Err(_) => return Err(PasteError::EncodeFailed),
    };
    let mut name = String::from_str("img_");
    name.append(stamp);
    name.append(".png");
    let dest = join_path(dest_dir, name.as_str());
    let mut line = String::from_str("![](");
    line.append(dest.as_str());
    line.append(")");
    proof {
        reveal_strlit("img_");
        reveal_strlit(".png");
        reveal_strlit("![](");
        reveal_strlit(")");
        assert(name@ =~= image_name(stamp@));
        assert(line@ =~= image_line(dest_dir@, stamp@));
    }
    Ok(ImageStep { dest, png, line })
}

/// `step` writes the PNG encoding of `img` to `img_<stamp>.png` in `dir`.
pub open spec fn encoded_step(img: &RawImage, dir: Seq<char>, stamp: Seq<char>, step: ImageStep) -> bool {
    &&& step.png@ == png_of(img.bytes@, img.width as u32, img.height as u32)
    &&& step.dest@ == image_dest(dir, stamp)
    &&& step.line@ == image_line(dir, stamp)
}

/// Checks and encodes an image, to be written under the given timestamp. A
/// buffer of the wrong length is refused and nothing is encoded; otherwise the
/// result is the PNG encoding of the buffer, unless the encoder fails.
pub fn plan_image_at(img: &RawImage, dest_dir: &str, stamp: &str) -> (r: Result<
    ImageStep,
    PasteError,
>)
    ensures
        match r {
            Ok(step) => image_error(img.width, img.height, img.bytes@.len()) is None
                && encoded_step(img, dest_dir@, stamp@, step),
            Err(e) => image_error(img.width, img.height, img.bytes@.len()) == Some(e) || (
            image_error(img.width, img.height, img.bytes@.len()) is None && e
                == PasteError::EncodeFailed),
        },
        image_error(img.width, img.height, img.bytes@.len()) is None && img.width > 0 && img.height
            > 0 ==> r is Ok,
{
    let (w, h) = match check_image(img) {
        Ok(d) => d,
        Err(e) => return Err(e),
    };
    let encoded = encode_png(img.bytes.as_slice(), w, h);
    finish_image(encoded, dest_dir, stamp)
}

/// Checks and encodes an image, to be written under a timestamp read from the
/// clock.
pub fn plan_image(img: &RawImage, dest_dir: &str) -> (r: Result<ImageStep, PasteError>)
    ensures
        match r {
            Ok(step) => image_error(img.width, img.height, img.bytes@.len()) is None && exists|
                stamp: Seq<char>,
            |
                is_timestamp(stamp) && encoded_step(img, dest_dir@, stamp, step),
            Err(e) => image_error(img.width, img.height, img.bytes@.len()) == Some(e) || (
            image_error(img.width, img.height, img.bytes@.len()) is None && (e
                == PasteError::EncodeFailed || e == PasteError::TimestampFailed)),
        },
        r is Err && image_error(img.width, img.height, img.bytes@.len()) is None && img.width > 0
            && img.height > 0 ==> r == Err::<ImageStep, PasteError>(PasteError::TimestampFailed),
{
    if let Err(e) = check_image(img) {
        return Err(e);
    }
    let stamp = match timestamp() {
        Some(s) => s,
        None => return Err(PasteError::TimestampFailed),
    };
    plan_image_at(img, dest_dir, stamp.as_str())
}

} // verus!
