use vstd::prelude::*;

verus! {

/// Pixels of a PNG file, as rows of RGB bytes; none where the bytes are no
/// PNG file that can be decoded.
pub uninterp spec fn rgb8_pixels(bytes: Seq<u8>) -> Option<Seq<u8>>;

/// PNG file of a picture given as rows of RGB bytes; none where encoding fails.
pub uninterp spec fn png_file(pixels: Seq<u8>, width: u32, height: u32) -> Option<Seq<u8>>;

/// Why a picture could not be encoded.
#[derive(Clone, Copy, Debug, PartialEq, Eq, Structural)]
pub enum SaveError {
    /// The buffer does not hold three bytes for each pixel.
    SizeMismatch,
    /// The encoder refused the picture.
    Encoding,
}

/// Relies on image::ImageReader::with_format and ImageReader::decode, which
/// decode the bytes with the built-in PNG decoder under the default limits,
/// and on DynamicImage::to_rgb8 and ImageBuffer::into_raw, which give the
/// pixels as RGB bytes, row by row.
#[verifier::external_body]
fn decode_rgb8(bytes: &[u8]) -> (r: Option<Vec<u8>>)
    ensures
        match r {
            Some(v) => rgb8_pixels(bytes@) == Some(v@),
            None => rgb8_pixels(bytes@) is None,
        },
{
    let reader = image::ImageReader::with_format(std::io::Cursor::new(bytes), image::ImageFormat::Png);
    match reader.decode() {
        Ok(picture) => Some(picture.to_rgb8().into_raw()),
        Err(_) => None,
    }
}

/// Relies on image::write_buffer_with_format with ImageFormat::Png, which
/// encodes RGB rows into a PNG file in memory; it panics unless the buffer
/// holds exactly three bytes per pixel.
#[verifier::external_body]
fn encode_png(pixels: &[u8], width: u32, height: u32) -> (r: Option<Vec<u8>>)
    requires
        pixels@.len() == width * height * 3,
    ensures
        match r {
            Some(v) => png_file(pixels@, width, height) == Some(v@),
            None => png_file(pixels@, width, height) is None,
        },
{
    let mut out = std::io::Cursor::new(Vec::new());
    match image::write_buffer_with_format(&mut out, pixels, width, height, image::ColorType::Rgb8, image::ImageFormat::Png) {
        Ok(()) => Some(out.into_inner()),
        Err(_) => None,
    }
}

/// Decodes a PNG file into RGB bytes, row by row.
pub fn read_image(bytes: &[u8]) -> (r: Option<Vec<u8>>)
    ensures
        match r {
            Some(v) => rgb8_pixels(bytes@) == Some(v@),
            None => rgb8_pixels(bytes@) is None,
        },
{
    decode_rgb8(bytes)
}

/// Encodes a picture of `width` by `height` RGB pixels as a PNG file, to be
/// written out by the caller.
pub fn save_image(data: &[u8], width: u32, height: u32) -> (r: Result<Vec<u8>, SaveError>)
    ensures
        data@.len() != width * height * 3 ==> r == Err::<Vec<u8>, SaveError>(SaveError::SizeMismatch),
        data@.len() == width * height * 3 ==> match r {
            Ok(v) => png_file(data@, width, height) == Some(v@),
            Err(e) => e == SaveError::Encoding && png_file(data@, width, height) is None,
        },
{
    assert(width * height <= 0xFFFF_FFFE_0000_0001) by (nonlinear_arith)
        requires width <= 0xFFFF_FFFF, height <= 0xFFFF_FFFF;
    let expected = (width as u64) * (height as u64);
    let n = data.len();
    if expected > (usize::MAX / 3) as u64 || n != (expected as usize) * 3 {
        assert(data@.len() != width * height * 3) by (nonlinear_arith)
            requires
                expected == width * height,
                expected > usize::MAX / 3 || n != expected * 3,
                n == data@.len(),
                n <= usize::MAX;
        return Err(SaveError::SizeMismatch);
    }
    match encode_png(data, width, height) {
        Some(v) => Ok(v),
        None => Err(SaveError::Encoding),
    }
}

} // verus!
