use img_decode::color::classify;
use img_decode::color::ColorModel;
use img_decode::decode::decode_from_buffer;
use img_decode::decode::decode_from_path;
use img_decode::decode::from_file;
use img_decode::decode::from_memory;
use img_decode::decode::DecodedImage;
use img_decode::decode::DecodeError;

/// A 4x3 8-bit RGB image, encoded as a PNG, together with its raw bytes.
fn rgb8_png() -> (Vec<u8>, Vec<u8>) {
    let mut raw: Vec<u8> = Vec::new();
    for i in 0..(4 * 3 * 3) {
        raw.push((i * 7 % 256) as u8);
    }
    let buffer = image::RgbImage::from_raw(4, 3, raw.clone()).unwrap();
    let img = image::DynamicImage::ImageRgb8(buffer);
    let mut png: Vec<u8> = Vec::new();
    img.write_to(&mut png, image::ImageOutputFormat::Png).unwrap();
    (png, raw)
}

/// A 5x2 16-bit grayscale image, encoded as a PNG.
fn l16_png() -> Vec<u8> {
    let mut raw: Vec<u16> = Vec::new();
    for i in 0..(5 * 2) {
        raw.push((i * 300) as u16);
    }
    let buffer =
        image::ImageBuffer::<image::Luma<u16>, Vec<u16>>::from_raw(5, 2, raw).unwrap();
    let img = image::DynamicImage::ImageLuma16(buffer);
    let mut png: Vec<u8> = Vec::new();
    img.write_to(&mut png, image::ImageOutputFormat::Png).unwrap();
    png
}

#[test]
fn classify_8bit_rows() {
    assert_eq!(classify(ColorModel::L8), (1, "l", "u8"));
    assert_eq!(classify(ColorModel::La8), (2, "la", "u8"));
    assert_eq!(classify(ColorModel::Rgb8), (3, "rgb", "u8"));
    assert_eq!(classify(ColorModel::Rgba8), (4, "rgba", "u8"));
    assert_eq!(classify(ColorModel::Bgr8), (3, "bgr", "u8"));
    assert_eq!(classify(ColorModel::Bgra8), (4, "bgra", "u8"));
}

#[test]
fn classify_16bit_rows() {
    assert_eq!(classify(ColorModel::L16), (1, "l", "u16"));
    assert_eq!(classify(ColorModel::La16), (2, "la", "u16"));
    assert_eq!(classify(ColorModel::Rgb16), (3, "rgb", "u16"));
    assert_eq!(classify(ColorModel::Rgba16), (4, "rgba", "u16"));
}

#[test]
fn classify_unknown_row() {
    assert_eq!(classify(ColorModel::Other), (0, "unknown", "unknown"));
}

#[test]
fn from_parts_keeps_bytes_and_table_row() {
    let d = DecodedImage::from_parts(ColorModel::Bgra8, 2, 5, vec![1, 2, 3]);
    assert_eq!(d.width, 2);
    assert_eq!(d.height, 5);
    assert_eq!(d.channels, 4);
    assert_eq!(d.layout, "bgra");
    assert_eq!(d.element, "u8");
    assert_eq!(d.bytes, vec![1, 2, 3]);
    assert_eq!(d.shape(), (5, 2, 4));
}

#[test]
fn unknown_model_is_not_an_error() {
    let d = DecodedImage::from_parts(ColorModel::Other, 8, 8, Vec::new());
    assert_eq!(d.channels, 0);
    assert_eq!(d.layout, "unknown");
    assert_eq!(d.element, "unknown");
    let t = d.into_tuple();
    assert_eq!(t.1, (8, 8, 0));
    assert_eq!(t.2, "unknown");
    assert_eq!(t.3, "unknown");
    assert!(t.0.is_empty());
}

#[test]
fn tuple_order_is_bytes_shape_element_layout() {
    let d = DecodedImage::from_parts(ColorModel::Rgb8, 4, 3, vec![9; 36]);
    let (bytes, shape, element, layout) = d.into_tuple();
    assert_eq!(bytes, vec![9; 36]);
    assert_eq!(shape, (3, 4, 3));
    assert_eq!(element, "u8");
    assert_eq!(layout, "rgb");
}

#[test]
fn decode_rgb8_buffer() {
    let (png, raw) = rgb8_png();
    let d = decode_from_buffer(&png).unwrap();
    assert_eq!(d.channels, 3);
    assert_eq!(d.layout, "rgb");
    assert_eq!(d.element, "u8");
    assert_eq!(d.shape(), (3, 4, 3));
    assert_eq!(d.bytes.len(), 3 * 4 * 3);
    assert_eq!(d.bytes, raw);
}

#[test]
fn decode_l16_buffer() {
    let png = l16_png();
    let d = decode_from_buffer(&png).unwrap();
    assert_eq!(d.channels, 1);
    assert_eq!(d.layout, "l");
    assert_eq!(d.element, "u16");
    assert_eq!(d.shape(), (2, 5, 1));
    assert_eq!(d.bytes.len(), 2 * 5 * 2);
}

#[test]
fn decode_rgb8_file() {
    let (png, raw) = rgb8_png();
    let path = "/tmp/img_decode_test_rgb8.png";
    let buffer = image::RgbImage::from_raw(4, 3, raw).unwrap();
    image::DynamicImage::ImageRgb8(buffer).save(path).unwrap();
    let d = decode_from_path(path).unwrap();
    assert_eq!(d.channels, 3);
    assert_eq!(d.layout, "rgb");
    assert_eq!(d.element, "u8");
    assert_eq!(d.shape(), (3, 4, 3));
    assert_eq!(d.bytes.len(), 3 * 4 * 3);
    let t = from_file(path).unwrap();
    let m = from_memory(&png).unwrap();
    assert_eq!(t, m);
}

#[test]
fn nonexistent_path_fails() {
    let r = decode_from_path("/tmp/img_decode_no_such_file.png");
    assert_eq!(r, Err(DecodeError::DecodeFailure));
    let t = from_file("/tmp/img_decode_no_such_file.png");
    assert_eq!(t, Err("cannot decode image"));
}

#[test]
fn non_image_bytes_fail() {
    let junk: Vec<u8> = (0..64u32).map(|i| (i * 31 % 251) as u8).collect();
    let r = decode_from_buffer(&junk);
    assert_eq!(r, Err(DecodeError::DecodeFailure));
    let t = from_memory(&junk);
    assert_eq!(t, Err("cannot decode image"));
}

#[test]
fn empty_buffer_fails() {
    let r = decode_from_buffer(&[]);
    assert_eq!(r, Err(DecodeError::DecodeFailure));
}

#[test]
fn repeated_decode_is_identical() {
    let (png, _) = rgb8_png();
    let a = from_memory(&png).unwrap();
    let b = from_memory(&png).unwrap();
    assert_eq!(a, b);
    let c = from_memory(&png).unwrap();
    assert_eq!(a, c);
}

#[test]
fn failure_message_text() {
    assert_eq!(DecodeError::DecodeFailure.message(), "cannot decode image");
}

#[test]
fn shared_layout_shares_channels() {
    let pairs = [
        (ColorModel::L8, ColorModel::L16),
        (ColorModel::La8, ColorModel::La16),
        (ColorModel::Rgb8, ColorModel::Rgb16),
        (ColorModel::Rgba8, ColorModel::Rgba16),
    ];
    for (a, b) in pairs {
        let (ca, la, _) = classify(a);
        let (cb, lb, _) = classify(b);
        assert_eq!(la, lb);
        assert_eq!(ca, cb);
    }
}

/// A 2x1 24-bit BMP written out byte by byte: pixels (1,2,3) and (4,5,6),
/// stored bottom-up in blue-green-red order with the row padded to four
/// bytes. Decoding must not depend on this crate's own encoding path.
#[test]
fn decode_handwritten_bmp() {
    let bmp: Vec<u8> = vec![
        0x42, 0x4D, // magic
        62, 0, 0, 0, // file size
        0, 0, 0, 0, // reserved
        54, 0, 0, 0, // pixel data offset
        40, 0, 0, 0, // header size
        2, 0, 0, 0, // width
        1, 0, 0, 0, // height
        1, 0, // planes
        24, 0, // bits per pixel
        0, 0, 0, 0, // no compression
        8, 0, 0, 0, // pixel data size
        0, 0, 0, 0, // x pixels per meter
        0, 0, 0, 0, // y pixels per meter
        0, 0, 0, 0, // colors used
        0, 0, 0, 0, // important colors
        3, 2, 1, 6, 5, 4, 0, 0, // one row, padded
    ];
    let d = decode_from_buffer(&bmp).unwrap();
    assert_eq!(d.channels, 3);
    assert_eq!(d.layout, "rgb");
    assert_eq!(d.element, "u8");
    assert_eq!(d.shape(), (1, 2, 3));
    assert_eq!(d.bytes, vec![1, 2, 3, 4, 5, 6]);
}
