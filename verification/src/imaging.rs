use vstd::prelude::*;

use rxing::multi::MultipleBarcodeReader;

use crate::error::Error;
use crate::framesize::FourCC;
use crate::yuv::yuv422_frame_ok;
use crate::yuv::yuv422_raster;

verus! {

#[verifier::external_type_specification]
#[verifier::external_body]
pub struct ExDynamicImage(image::DynamicImage);

/// The RGB raster (bytes, width, height) the external still-image codec
/// decodes a byte stream to, or `None` where it recognizes no format.
/// Detection reads only the codec's fixed magic-byte table and decoding
/// dispatches straight to the built-in decoder for the detected format,
/// so the result is a function of the bytes alone.
pub uninterp spec fn guessed_raster(src: Seq<u8>) -> Option<(Seq<u8>, u32, u32)>;

/// Relies on image::guess_format, which consults only the fixed
/// magic-byte table (never the registrable detection hooks), and on
/// image::load_from_memory_with_format, which selects the built-in
/// decoder for that format (never the registrable decoding hooks);
/// `guessed_raster` names the decoded RGB raster. The RGB8 buffer of a
/// decoded image holds exactly 3*width*height bytes.
#[verifier::external_body]
pub(crate) fn decode_guessed_raster(src: &[u8]) -> (r: Option<(Vec<u8>, u32, u32)>)
    ensures
        r is Some <==> guessed_raster(src@) is Some,
        r matches Some(t) ==> {
            &&& guessed_raster(src@) == Some((t.0@, t.1, t.2))
            &&& t.0@.len() == 3 * t.1 * t.2
            &&& t.0@.len() <= usize::MAX
        },
{
    let format = match image::guess_format(src) {
        Ok(f) => f,
        Err(_) => return None,
    };
    let img = match image::load_from_memory_with_format(src, format) {
        Ok(i) => i,
        Err(_) => return None,
    };
    let rgb = img.to_rgb8();
    let (width, height) = rgb.dimensions();
    Some((rgb.into_raw(), width, height))
}

/// The texts of the symbols the barcode scanner reports on a still image
/// given as its RGB raster, in report order; where no image can be built
/// from the raster (a length mismatch) the report is empty.
pub uninterp spec fn symbols_of(rgb: Seq<u8>, width: u32, height: u32) -> Seq<String>;

/// Relies on image::RgbImage::from_vec and on rxing's
/// GenericMultipleBarcodeReader over a MultiUseMultiFormatReader with
/// default hints: the reader order and the deduplication are then fixed,
/// so the report is a function of the raster alone, and `symbols_of`
/// names the texts that parsed, in report order. A whole-scan "not
/// found" error is rendered as the empty report. Which symbols an image
/// yields is promised nowhere.
#[verifier::external_body]
fn scan_raster(rgb: Vec<u8>, width: u32, height: u32) -> (r: Vec<Result<String, Error>>)
    ensures
        ok_texts(r@) == symbols_of(rgb@, width, height),
{
    let img = match image::RgbImage::from_vec(width, height, rgb) {
        Some(i) => image::DynamicImage::ImageRgb8(i),
        None => return Vec::new(),
    };
    let mut reader = rxing::multi::GenericMultipleBarcodeReader::new(
        rxing::MultiUseMultiFormatReader::default(),
    );
    let source = rxing::BufferedImageLuminanceSource::new(img);
    let mut bitmap = rxing::BinaryBitmap::new(rxing::common::HybridBinarizer::new(source));
    match reader.decode_multiple_with_hints(&mut bitmap, &rxing::DecodeHints::default()) {
        Ok(results) => results.iter().map(|x| Ok(x.getText().to_string())).collect(),
        Err(_) => Vec::new(),
    }
}

/// Relies on image::RgbImage::from_vec (ImageBuffer::from_raw): it returns
/// an image exactly when the pixel count fits in memory — `3*width` is
/// checked first, then `3*width*height` — and the buffer holds at least
/// that many bytes.
#[verifier::external_body]
fn rgb_image_from_vec(width: u32, height: u32, rgb: Vec<u8>) -> (r: Option<image::DynamicImage>)
    ensures
        r is Some <==> {
            &&& 3 * width <= usize::MAX
            &&& 3 * width * height <= usize::MAX
            &&& 3 * width * height <= rgb@.len()
        },
{
    image::RgbImage::from_vec(width, height, rgb).map(image::DynamicImage::ImageRgb8)
}

/// The uniform error value for a buffer the converters reject.
pub fn image_decode_error() -> (r: Result<image::DynamicImage, Error>)
    ensures
        r matches Err(e) && e == Error::DecodeFailure,
{
    Err(Error::DecodeFailure)
}

/// Convert a packed-YUV-4:2:2 capture buffer into a still image for the
/// decoder; the raster itself is built by `yuv422_to_rgb`.
pub fn yuv422_to_image(src: &[u8], width: u32, height: u32) -> (r: Result<
    image::DynamicImage,
    Error,
>)
    ensures
        r is Ok <==> yuv422_frame_ok(src@, width, height),
        r matches Err(e) ==> e == Error::DecodeFailure,
{
    let rgb = match crate::yuv::yuv422_to_rgb(src, width, height) {
        Ok(rgb) => rgb,
        Err(e) => {
            return Err(e);
        },
    };
    match rgb_image_from_vec(width, height, rgb) {
        Some(img) => Ok(img),
        None => image_decode_error(),
    }
}

/// Decode an already-compressed still image (e.g. Motion-JPEG) through
/// the external codec, which auto-detects the encoding from its fixed
/// magic-byte table; width and height are informational only, since the
/// codec recovers true dimensions from the stream itself.
pub fn guess_image(src: &[u8], _width: u32, _height: u32) -> (r: Result<image::DynamicImage, Error>)
    ensures
        r is Ok <==> (guessed_raster(src@) matches Some(t) && 3 * t.1 <= usize::MAX),
        r matches Err(e) ==> e == Error::DecodeFailure,
{
    let (rgb, width, height) = match decode_guessed_raster(src) {
        Some(t) => t,
        None => {
            return image_decode_error();
        },
    };
    match rgb_image_from_vec(width, height, rgb) {
        Some(img) => Ok(img),
        None => image_decode_error(),
    }
}

/// The two interchangeable pixel-converter implementations.
#[derive(Clone, Copy, Debug, PartialEq, Eq, Structural)]
pub enum PixelConverter {
    /// The packed-YUV-4:2:2 path, computed by this crate.
    Yuv422,
    /// The generic-codec path for already-encoded frames.
    Codec,
}

/// The packed-YUV-4:2:2 format tag.
pub open spec fn yuyv_fourcc() -> FourCC {
    FourCC { b0: 89, b1: 85, b2: 89, b3: 86 }
}

/// The Motion-JPEG format tag.
pub open spec fn mjpg_fourcc() -> FourCC {
    FourCC { b0: 77, b1: 74, b2: 80, b3: 71 }
}

/// The fixed mapping from pixel format to converter implementation.
pub open spec fn converter_for(f: FourCC) -> Option<PixelConverter> {
    if f == yuyv_fourcc() {
        Some(PixelConverter::Yuv422)
    } else if f == mjpg_fourcc() {
        Some(PixelConverter::Codec)
    } else {
        None
    }
}

/// Select the converter bound to a pixel format; an unmapped format is
/// rejected before any capture begins.
pub fn converter_for_fourcc(fourcc: &FourCC) -> (r: Result<PixelConverter, Error>)
    ensures
        match r {
            Ok(c) => converter_for(*fourcc) == Some(c),
            Err(e) => converter_for(*fourcc) is None && e == Error::UnsupportedFormat,
        },
{
    // the ASCII tags "YUYV" and "MJPG"
    let yuyv = FourCC::new(&[89u8, 85u8, 89u8, 86u8]);
    let mjpg = FourCC::new(&[77u8, 74u8, 80u8, 71u8]);
    if *fourcc == yuyv {
        Ok(PixelConverter::Yuv422)
    } else if *fourcc == mjpg {
        Ok(PixelConverter::Codec)
    } else {
        Err(Error::UnsupportedFormat)
    }
}

/// The formats the scanner can consume, in negotiation priority order:
/// the packed-YUV format first, so that a cost tie between modes of the
/// two formats falls to the raw one.
pub fn preferred_fourccs() -> (r: Vec<FourCC>)
    ensures
        r@ == seq![yuyv_fourcc(), mjpg_fourcc()],
{
    // the ASCII tags "YUYV" and "MJPG"
    let mut out: Vec<FourCC> = Vec::new();
    out.push(FourCC::new(&[89u8, 85u8, 89u8, 86u8]));
    out.push(FourCC::new(&[77u8, 74u8, 80u8, 71u8]));
    proof {
        assert(out@ =~= seq![yuyv_fourcc(), mjpg_fourcc()]);
    }
    out
}

/// Whether the converter bound to a format accepts a raw frame.
pub open spec fn frame_decodes(conv: PixelConverter, src: Seq<u8>, width: u32, height: u32) -> bool {
    match conv {
        PixelConverter::Yuv422 => yuv422_frame_ok(src, width, height),
        PixelConverter::Codec => guessed_raster(src) is Some,
    }
}

/// The texts a raw frame yields once converted and scanned, for a frame
/// its converter accepts.
pub open spec fn frame_texts(conv: PixelConverter, src: Seq<u8>, width: u32, height: u32) -> Seq<
    String,
> {
    match conv {
        PixelConverter::Yuv422 => symbols_of(yuv422_raster(src), width, height),
        PixelConverter::Codec => {
            let t = guessed_raster(src)->Some_0;
            symbols_of(t.0, t.1, t.2)
        },
    }
}

/// The texts of the symbols that decoded, in report order.
pub open spec fn ok_texts(results: Seq<Result<String, Error>>) -> Seq<String>
    decreases results.len(),
{
    if results.len() == 0 {
        Seq::empty()
    } else {
        let rest = ok_texts(results.drop_last());
        match results.last() {
            Ok(t) => rest.push(t),
            Err(_) => rest,
        }
    }
}

/// Normalize a per-symbol decode report into one session outcome: symbols
/// that individually failed to parse are dropped, never escalated, and
/// the order of the successes is kept.
pub fn decoded_results_to_vec(results: Vec<Result<String, Error>>) -> (r: Vec<String>)
    ensures
        r@ == ok_texts(results@),
{
    let mut out: Vec<String> = Vec::new();
    let mut i: usize = 0;
    while i < results.len()
        invariant
            i <= results@.len(),
            out@ == ok_texts(results@.take(i as int)),
        decreases results@.len() - i,
    {
        match &results[i] {
            Ok(t) => {
                out.push(t.clone());
            },
            Err(_) => {},
        }
        proof {
            assert(results@.take(i + 1).drop_last() =~= results@.take(i as int));
            assert(results@.take(i + 1).last() == results@[i as int]);
        }
        i = i + 1;
    }
    proof {
        assert(results@.take(results@.len() as int) =~= results@);
    }
    out
}

/// Scan one still image, given as its tightly packed RGB raster, and
/// normalize the decode report: symbols that individually failed to
/// parse are dropped, and an image yielding no recognizable symbol gives
/// the empty list, never an error.
pub fn scan_image(rgb: Vec<u8>, width: u32, height: u32) -> (r: Vec<String>)
    ensures
        r@ == symbols_of(rgb@, width, height),
{
    let symbols = scan_raster(rgb, width, height);
    decoded_results_to_vec(symbols)
}

} // verus!
