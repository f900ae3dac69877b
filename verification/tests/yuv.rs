use ffimage::color::Rgb;
use ffimage::iter::BytesExt;
use ffimage::iter::ColorConvertExt;
use ffimage::iter::PixelsExt;
use ffimage_yuv::yuv::Yuv;
use ffimage_yuv::yuv422::Yuv422;
use image::GenericImageView;

use qrcode_scanner::Error;
use qrcode_scanner::yuv422_to_rgb;
use qrcode_scanner::yuv422_to_image;

/// The fixed-point BT.601 transform the converter promises, written out
/// independently as a reference.
fn reference_rgb(y: u8, u: u8, v: u8) -> (u8, u8, u8) {
    let c = y as i32 - 16;
    let d = u as i32 - 128;
    let e = v as i32 - 128;
    let r = ((298 * c + 409 * e + 128) >> 8).clamp(0, 255);
    let g = ((298 * c - 100 * d - 208 * e + 128) >> 8).clamp(0, 255);
    let b = ((298 * c + 516 * d + 128) >> 8).clamp(0, 255);
    (r as u8, g as u8, b as u8)
}

fn flat_frame(y: u8, u: u8, v: u8, width: u32, height: u32) -> Vec<u8> {
    let pairs = (width * height / 2) as usize;
    let mut buf = Vec::new();
    for _ in 0..pairs {
        buf.push(y);
        buf.push(u);
        buf.push(y);
        buf.push(v);
    }
    buf
}

#[test]
fn flat_frame_matches_reference() {
    let (y, u, v) = (82u8, 90u8, 240u8);
    let buf = flat_frame(y, u, v, 4, 2);
    let rgb = yuv422_to_rgb(&buf, 4, 2).unwrap();
    assert_eq!(rgb.len(), 4 * 2 * 3);
    let expected = reference_rgb(y, u, v);
    assert_eq!(expected, (255, 1, 0));
    for p in 0..8 {
        assert_eq!(
            (rgb[3 * p], rgb[3 * p + 1], rgb[3 * p + 2]),
            expected,
            "pixel {}",
            p
        );
    }
}

#[test]
fn clamps_at_both_extremes() {
    // Saturated V drives red past 255; it must clamp to 255.
    let buf = flat_frame(235, 128, 255, 2, 2);
    let rgb = yuv422_to_rgb(&buf, 2, 2).unwrap();
    assert_eq!((rgb[0], rgb[1], rgb[2]), (255, 152, 255));
    assert_eq!((rgb[0], rgb[1], rgb[2]), reference_rgb(235, 128, 255));

    // Zero V drives red below 0; it must clamp to 0.
    let buf = flat_frame(16, 128, 0, 2, 2);
    let rgb = yuv422_to_rgb(&buf, 2, 2).unwrap();
    assert_eq!((rgb[0], rgb[1], rgb[2]), (0, 104, 0));
    assert_eq!((rgb[0], rgb[1], rgb[2]), reference_rgb(16, 128, 0));
}

#[test]
fn black_and_white_pair() {
    // One packed group holding a black pixel and a white pixel: the
    // shared chroma applies to both lumas.
    let buf = vec![16u8, 128u8, 235u8, 128u8];
    let rgb = yuv422_to_rgb(&buf, 2, 1).unwrap();
    assert_eq!(&rgb[..], &[0, 0, 0, 255, 255, 255]);
}

#[test]
fn malformed_lengths_are_decode_failures() {
    // Too short for the resolution.
    assert_eq!(
        yuv422_to_rgb(&[0u8; 10], 4, 2).unwrap_err(),
        Error::DecodeFailure
    );
    // Too long for the resolution.
    assert_eq!(
        yuv422_to_rgb(&[0u8; 20], 4, 2).unwrap_err(),
        Error::DecodeFailure
    );
    // Right byte count but not whole 4-byte groups (1x1 frame).
    assert_eq!(
        yuv422_to_rgb(&[0u8; 2], 1, 1).unwrap_err(),
        Error::DecodeFailure
    );
}

#[test]
fn yuv422_to_image_carries_the_raster() {
    let buf = flat_frame(82, 90, 240, 4, 2);
    let rgb = yuv422_to_rgb(&buf, 4, 2).unwrap();
    let img = yuv422_to_image(&buf, 4, 2).unwrap();
    assert_eq!(img.dimensions(), (4, 2));
    assert_eq!(img.to_rgb8().into_raw(), rgb);
}

#[test]
fn agrees_with_ffimage_pipeline() {
    // Cross-check the converter against the ffimage/ffimage_yuv iterator
    // pipeline on a buffer that sweeps luma and both chroma channels.
    let width = 64u32;
    let height = 8u32;
    let n = (width * height * 2) as usize;
    let mut src = Vec::with_capacity(n);
    for i in 0..n {
        src.push((i * 13 % 256) as u8);
    }

    let mut expected = vec![0u8; (width * height * 3) as usize];
    src.iter()
        .copied()
        .pixels::<Yuv422<u8, 0, 2, 1, 3>>()
        .colorconvert::<[Yuv<u8>; 2]>()
        .flatten()
        .colorconvert::<Rgb<u8>>()
        .bytes()
        .write(&mut expected);

    let rgb = yuv422_to_rgb(&src, width, height).unwrap();
    assert_eq!(rgb, expected);
}

#[test]
fn yuv422_to_image_rejects_malformed_input() {
    assert_eq!(
        yuv422_to_image(&[0u8; 7], 4, 2).unwrap_err(),
        Error::DecodeFailure
    );
}
