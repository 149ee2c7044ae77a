use vstd::prelude::*;

use crate::handle::cimage_image;
use crate::handle::cimage_rgba8;
use crate::utf8::is_utf8;
use crate::utf8::validate_utf8;

verus! {

/// The error type of the codec: decoding can fail on a missing or
/// unreadable file, corrupt data, or an unsupported format.
#[verifier::external_type_specification]
#[verifier::external_body]
pub struct ExImageError(image::ImageError);

/// Why a decode request produced no handle.
#[derive(Clone, Copy, PartialEq, Eq, Structural, Debug)]
pub enum DecodeError {
    /// The path bytes are not valid UTF-8.
    InvalidPathEncoding,
    /// The codec could not open, parse, or convert the file.
    DecodeFailure,
}

/// The pixel whose four channel bytes start at byte `4 * idx` of `bytes`.
pub open spec fn pixel_at(bytes: Seq<u8>, idx: int) -> cimage_rgba8 {
    cimage_rgba8 {
        r: bytes[4 * idx],
        g: bytes[4 * idx + 1],
        b: bytes[4 * idx + 2],
        a: bytes[4 * idx + 3],
    }
}

/// The pixel that lands at (`row`, `col`) of the vertically flipped buffer:
/// the source pixel at the same column of row `height - 1 - row`, read from
/// raw RGBA bytes laid out row-major with the source's top row first.
pub open spec fn flipped_pixel(bytes: Seq<u8>, width: int, height: int, row: int, col: int)
    -> cimage_rgba8 {
    pixel_at(bytes, (height - 1 - row) * width + col)
}

/// Relies on `image::open` to read and decode the file at `path`, on
/// `DynamicImage::into_rgba8` to convert the decoded image to 8-bit-per-channel
/// RGBA, and on `ImageBuffer::dimensions` and `ImageBuffer::into_raw`: every
/// `ImageBuffer` is constructed with a container of at least
/// `width * height * 4` bytes (`check_image_fits`), holding the pixels
/// row-major with the source's top row first, four bytes per pixel in
/// red, green, blue, alpha order. `str::from_utf8` accepts exactly the byte
/// sequences that `is_utf8` admits, so the unwrap cannot panic.
#[verifier::external_body]
fn decode_rgba_bytes(path: &Vec<u8>) -> (r: Result<(u32, u32, Vec<u8>), image::ImageError>)
    requires
        is_utf8(path@),
    ensures
        r matches Ok(t) ==> t.2@.len() >= 4 * (t.0 as int) * (t.1 as int),
{
    let path_str = std::str::from_utf8(path.as_slice()).unwrap();
    match image::open(path_str) {
        Err(e) => Err(e),
        Ok(img) => {
            let rgba = img.into_rgba8();
            let (width, height) = rgba.dimensions();
            Ok((width, height, rgba.into_raw()))
        },
    }
}

/// Builds the caller-visible pixel buffer from raw top-down RGBA bytes,
/// applying the vertical flip: buffer row 0 is the source's bottom row.
pub fn from_raw_rgba(width: u32, height: u32, bytes: &Vec<u8>) -> (img: cimage_image)
    requires
        bytes@.len() >= 4 * (width as int) * (height as int),
    ensures
        img.width == width,
        img.height == height,
        img.wf(),
        img.pixels@.len() == (width as int) * (height as int),
        forall|row: int, col: int|
            0 <= row < height && 0 <= col < width ==> img.pixels@[row * (width as int) + col]
                == #[trigger] flipped_pixel(bytes@, width as int, height as int, row, col),
{
    proof {
        assert(bytes.len() == bytes@.len());
    }
    let ghost wi: int = width as int;
    let ghost hi: int = height as int;
    let w = width as usize;
    let mut pixels: Vec<cimage_rgba8> = Vec::new();
    let mut row: u32 = 0;
    while row < height
        invariant
            row <= height,
            w == wi,
            wi == width as int,
            hi == height as int,
            bytes@.len() >= 4 * wi * hi,
            bytes@.len() <= usize::MAX,
            pixels@.len() == row * wi,
            forall|r: int, c: int|
                0 <= r < row && 0 <= c < wi ==> pixels@[r * wi + c] == #[trigger] flipped_pixel(
                    bytes@,
                    wi,
                    hi,
                    r,
                    c,
                ),
        decreases height - row,
    {
        let src_row = (height - 1 - row) as usize;
        let mut col: u32 = 0;
        while col < width
            invariant
                row < height,
                col <= width,
                w == wi,
                wi == width as int,
                hi == height as int,
                src_row == hi - 1 - row,
                bytes@.len() >= 4 * wi * hi,
                bytes@.len() <= usize::MAX,
                pixels@.len() == row * wi + col,
                forall|r: int, c: int|
                    0 <= r < row && 0 <= c < wi ==> pixels@[r * wi + c]
                        == #[trigger] flipped_pixel(bytes@, wi, hi, r, c),
                forall|c: int|
                    0 <= c < col ==> pixels@[row * wi + c] == #[trigger] flipped_pixel(
                        bytes@,
                        wi,
                        hi,
                        row as int,
                        c,
                    ),
            decreases width - col,
        {
            proof {
                assert(4 * ((src_row as int) * wi + (col as int)) + 3 < 4 * wi * hi)
                    by (nonlinear_arith)
                    requires
                        0 <= (src_row as int) < hi,
                        0 <= (col as int) < wi,
                ;
            }
            let pix_index: usize = src_row * w + (col as usize);
            let base: usize = 4 * pix_index;
            let px = cimage_rgba8 {
                r: bytes[base],
                g: bytes[base + 1],
                b: bytes[base + 2],
                a: bytes[base + 3],
            };
            pixels.push(px);
            proof {
                assert(pixels@[row * wi + col] == flipped_pixel(bytes@, wi, hi, row as int, col as int));
                assert forall|r: int, c: int| 0 <= r < row && 0 <= c < wi implies pixels@[r * wi
                    + c] == #[trigger] flipped_pixel(bytes@, wi, hi, r, c) by {
                    assert(r * wi + c < row * wi + col) by (nonlinear_arith)
                        requires
                            0 <= r < (row as int),
                            0 <= c < wi,
                            0 <= (col as int),
                    ;
                }
            }
            col = col + 1;
        }
        proof {
            assert((row + 1) * wi == row * wi + wi) by (nonlinear_arith);
        }
        row = row + 1;
    }
    proof {
        assert(hi * wi == wi * hi) by (nonlinear_arith);
    }
    cimage_image { width, height, pixels }
}

/// Decodes the image file named by the UTF-8 path bytes into a handle.
///
/// The path bytes are first checked to be valid text; a path that is not
/// is reported as `InvalidPathEncoding`, and that is the only input on
/// which this error comes. A file the codec cannot open, parse, or convert
/// is reported as `DecodeFailure`. On either failure no handle exists and
/// no memory stays allocated. On success the handle is well formed: its
/// buffer holds exactly `width * height` pixels.
pub fn decode_from_path(path: &Vec<u8>) -> (r: Result<cimage_image, DecodeError>)
    ensures
        (r == Err::<cimage_image, DecodeError>(DecodeError::InvalidPathEncoding)) <==> !is_utf8(
            path@,
        ),
        r matches Ok(img) ==> img.wf(),
{
    if !validate_utf8(path) {
        return Err(DecodeError::InvalidPathEncoding);
    }
    match decode_rgba_bytes(path) {
        Ok((width, height, bytes)) => Ok(from_raw_rgba(width, height, &bytes)),
        Err(_) => Err(DecodeError::DecodeFailure),
    }
}

} // verus!
