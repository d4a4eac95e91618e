//! Frame encoding: a raw 8-bit RGB pixel buffer becomes a PNG image in
//! memory. Writing the encoded bytes to disk is the caller's business.

use crate::task::TaskError;
use vstd::prelude::*;

verus! {

/// The bytes of the standard 8-bit RGB PNG encoding (no palette, no alpha)
/// of a `width x height` row-major pixel buffer. The encoding depends on the
/// geometry and the pixels alone.
pub uninterp spec fn png_encoding(width: nat, height: nat, pixels: Seq<u8>) -> Seq<u8>;

/// The buffer length a row-major 8-bit RGB frame of this geometry has:
/// three bytes per pixel.
pub open spec fn rgb_len(width: nat, height: nat) -> nat {
    3 * width * height
}

#[verifier::external_type_specification]
#[verifier::external_body]
pub struct ExEncodingError(png::EncodingError);

/// Relies on png::Encoder with 8-bit RGB color and an in-memory sink: the
/// written bytes depend on the geometry and the pixels alone, and encoding
/// succeeds if and only if both dimensions are positive and the buffer holds
/// exactly three bytes per pixel (Writer::init rejects a zero dimension,
/// Writer::write_image_data rejects a mismatched buffer length, and writes
/// to a Vec cannot fail).
#[verifier::external_body]
fn encode_png_bytes(width: u32, height: u32, pixels: &Vec<u8>) -> (r: Result<
    Vec<u8>,
    png::EncodingError,
>)
    requires
        3 * (width as int) * (height as int) <= usize::MAX,
    ensures
        r matches Ok(out) ==> out@ == png_encoding(width as nat, height as nat, pixels@),
        r is Ok <==> (width > 0 && height > 0 && pixels@.len() == rgb_len(
            width as nat,
            height as nat,
        )),
{
    let mut out: Vec<u8> = Vec::new();
    let mut enc = png::Encoder::new(&mut out, width, height);
    enc.set_color(png::ColorType::Rgb);
    enc.set_depth(png::BitDepth::Eight);
    let res = enc.write_header().and_then(|mut w| {
        w.write_image_data(pixels)?;
        w.finish()
    });
    match res {
        Ok(()) => Ok(out),
        Err(e) => Err(e),
    }
}

/// Encodes one captured frame as an 8-bit RGB PNG. Succeeds exactly when
/// both dimensions are positive and the buffer holds three bytes per pixel;
/// any other frame is rejected as `TaskError::Encode`, which aborts the
/// remaining samples of the task.
pub fn encode_frame(width: u32, height: u32, pixels: &Vec<u8>) -> (r: Result<Vec<u8>, TaskError>)
    ensures
        r is Ok <==> (width > 0 && height > 0 && pixels@.len() == rgb_len(
            width as nat,
            height as nat,
        )),
        r matches Ok(out) ==> out@ == png_encoding(width as nat, height as nat, pixels@),
        r matches Err(e) ==> e == TaskError::Encode,
{
    proof {
        assert(3 * (width as int) * (height as int) <= 3 * 0xffff_ffff * 0xffff_ffff)
            by (nonlinear_arith)
            requires
                width <= 0xffff_ffffu32,
                height <= 0xffff_ffffu32,
        ;
    }
    let need: u128 = 3u128 * (width as u128) * (height as u128);
    if width == 0 || height == 0 || (pixels.len() as u128) != need {
        return Err(TaskError::Encode);
    }
    match encode_png_bytes(width, height, pixels) {
        Ok(out) => Ok(out),
        Err(_) => Err(TaskError::Encode),
    }
}

} // verus!
