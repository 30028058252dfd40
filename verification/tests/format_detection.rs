use pi_natives::errors::ErrorKind;
use pi_natives::format::{detect, ImageFormatKind, SHORTEST_SIGNATURE};
use pi_natives::transcode::PhotonImage;

fn detection_sample_png(w: u32, h: u32) -> Vec<u8> {
    let mut img = image::RgbaImage::new(w, h);
    for (x, y, p) in img.enumerate_pixels_mut() {
        *p = image::Rgba([(x % 256) as u8, (y % 256) as u8, ((x + y) % 256) as u8, 255]);
    }
    let dynimg = image::DynamicImage::ImageRgba8(img);
    let mut buf = Vec::new();
    dynimg
        .write_to(&mut std::io::Cursor::new(&mut buf), image::ImageFormat::Png)
        .unwrap();
    buf
}

#[test]
fn detects_each_supported_format() {
    let png = detection_sample_png(5, 4);
    assert_eq!(detect(&png), Some(ImageFormatKind::Png));

    let handle = PhotonImage::new_from_byteslice(&png).unwrap();
    let jpeg = handle.get_bytes_jpeg(80).unwrap();
    assert_eq!(detect(&jpeg), Some(ImageFormatKind::Jpeg));
    let webp = handle.get_bytes_webp().unwrap();
    assert_eq!(detect(&webp), Some(ImageFormatKind::Webp));
    let gif = handle.get_bytes_gif().unwrap();
    assert_eq!(detect(&gif), Some(ImageFormatKind::Gif));
}

#[test]
fn short_buffer_is_unknown() {
    assert_eq!(SHORTEST_SIGNATURE, 3);
    assert_eq!(detect(&[]), None);
    assert_eq!(detect(&[0x89]), None);
    assert_eq!(detect(&[0x89, 0x50]), None);
    assert_eq!(detect(&[0xff, 0xd8]), None);
}

#[test]
fn zero_bytes_are_unknown_and_yield_no_handle() {
    let zeros = vec![0u8; 64];
    assert_eq!(detect(&zeros), None);
    let err = PhotonImage::new_from_byteslice(&zeros).unwrap_err();
    assert_eq!(err.kind(), ErrorKind::FormatUnknown);
}

#[test]
fn random_bytes_without_signature_are_unknown() {
    let garbage = vec![0x01u8, 0x23, 0x45, 0x67, 0x89, 0xab, 0xcd, 0xef, 0x10, 0x32, 0x54, 0x76];
    assert_eq!(detect(&garbage), None);
    let err = PhotonImage::new_from_byteslice(&garbage).unwrap_err();
    assert_eq!(err.kind(), ErrorKind::FormatUnknown);
}

#[test]
fn gif_signature_variants_are_detected() {
    let mut gif87 = b"GIF87a".to_vec();
    gif87.extend_from_slice(&[0u8; 10]);
    assert_eq!(detect(&gif87), Some(ImageFormatKind::Gif));
    let mut gif89 = b"GIF89a".to_vec();
    gif89.extend_from_slice(&[0u8; 10]);
    assert_eq!(detect(&gif89), Some(ImageFormatKind::Gif));
    let mut gif88 = b"GIF88a".to_vec();
    gif88.extend_from_slice(&[0u8; 10]);
    assert_eq!(detect(&gif88), None);
}

#[test]
fn webp_size_bytes_do_not_matter() {
    let mut buf = b"RIFF".to_vec();
    buf.extend_from_slice(&[0xde, 0xad, 0xbe, 0xef]);
    buf.extend_from_slice(b"WEBP");
    assert_eq!(detect(&buf), Some(ImageFormatKind::Webp));
    let mut wave = b"RIFF".to_vec();
    wave.extend_from_slice(&[0, 0, 0, 0]);
    wave.extend_from_slice(b"WAVE");
    assert_eq!(detect(&wave), None);
}

#[test]
fn detection_ignores_trailing_garbage() {
    let mut png = detection_sample_png(2, 2);
    png.extend_from_slice(&[0u8; 32]);
    assert_eq!(detect(&png), Some(ImageFormatKind::Png));
}

#[test]
fn signature_with_malformed_payload_is_decode_error() {
    let mut buf = vec![0x89u8, 0x50, 0x4e, 0x47, 0x0d, 0x0a, 0x1a, 0x0a];
    buf.extend_from_slice(&[0xffu8; 16]);
    assert_eq!(detect(&buf), Some(ImageFormatKind::Png));
    let err = PhotonImage::new_from_byteslice(&buf).unwrap_err();
    assert_eq!(err.kind(), ErrorKind::DecodeError);
}
