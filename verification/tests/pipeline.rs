use screenlapse::compose::compose;
use screenlapse::errors::CompositionError;
use screenlapse::image_model::{CanonicalImage, ChannelOrder, RawFrame};
use screenlapse::cycle::{run_mode, RunMode};
use screenlapse::naming::{combined_filename, Date, Timestamp};
use screenlapse::png::encode_image;
use screenlapse::transcode::transcode;

/// A canonical image filled with one RGBA color.
fn solid_image(width: usize, height: usize, rgba: [u8; 4]) -> CanonicalImage {
    let mut data = Vec::new();
    for _ in 0..width * height {
        data.extend_from_slice(&rgba);
    }
    CanonicalImage { width, height, data }
}

fn pixel(img: &CanonicalImage, x: usize, y: usize) -> [u8; 4] {
    let base = (y * img.width + x) * 4;
    [img.data[base], img.data[base + 1], img.data[base + 2], img.data[base + 3]]
}

#[test]
fn transcode_solid_fill_with_stride_padding() {
    // 3x2 frame, BGRA source order, stride 16 (4 bytes of row padding).
    let width = 3;
    let height = 2;
    let stride = 16;
    let mut data = Vec::new();
    for _ in 0..height {
        for _ in 0..width {
            data.extend_from_slice(&[10, 20, 30, 40]); // b, g, r, a
        }
        data.extend_from_slice(&[99, 99, 99, 99]); // row padding, never read
    }
    let raw = RawFrame { width, height, stride, data };
    let img = transcode(&raw, &ChannelOrder::bgra());
    assert_eq!(img.width, 3);
    assert_eq!(img.height, 2);
    assert_eq!(img.data.len(), 3 * 2 * 4);
    for y in 0..2 {
        for x in 0..3 {
            assert_eq!(pixel(&img, x, y), [30, 20, 10, 255]);
        }
    }
}

#[test]
fn transcode_forces_opaque_alpha() {
    let raw = RawFrame { width: 1, height: 1, stride: 4, data: vec![1, 2, 3, 0] };
    let img = transcode(&raw, &ChannelOrder::rgba());
    assert_eq!(img.data, vec![1, 2, 3, 255]);
}

#[test]
fn compose_single_input_is_identity() {
    let img = solid_image(2, 2, [255, 0, 0, 255]);
    let out = compose(&vec![solid_image(2, 2, [255, 0, 0, 255])]).unwrap();
    assert_eq!(out.width, img.width);
    assert_eq!(out.height, img.height);
    assert_eq!(out.data, img.data);
}

#[test]
fn compose_width_sum_height_max() {
    let imgs = vec![
        solid_image(2, 3, [1, 1, 1, 255]),
        solid_image(4, 1, [2, 2, 2, 255]),
        solid_image(1, 5, [3, 3, 3, 255]),
    ];
    let out = compose(&imgs).unwrap();
    assert_eq!(out.width, 7);
    assert_eq!(out.height, 5);
    assert_eq!(out.data.len(), 7 * 5 * 4);
}

#[test]
fn compose_places_left_to_right() {
    let imgs = vec![
        solid_image(2, 2, [255, 0, 0, 255]),
        solid_image(2, 2, [0, 0, 255, 255]),
    ];
    let out = compose(&imgs).unwrap();
    assert_eq!(out.width, 4);
    assert_eq!(out.height, 2);
    for y in 0..2 {
        for x in 0..2 {
            assert_eq!(pixel(&out, x, y), [255, 0, 0, 255]);
        }
        for x in 2..4 {
            assert_eq!(pixel(&out, x, y), [0, 0, 255, 255]);
        }
    }
}

#[test]
fn compose_zero_inputs_fails() {
    let out = compose(&vec![]);
    assert!(matches!(out, Err(CompositionError::NoInputImages)));
}

#[test]
fn compose_pads_shorter_images_with_opaque_black() {
    // Once-off combined capture of two displays, 100x50 green and 80x60
    // red: one 180x60 artifact, the left band's bottom 10 rows holding the
    // documented fill.
    assert_eq!(run_mode(0), RunMode::Once);
    let stamp = Timestamp {
        date: Date { year: 2024, month: 3, day: 1 },
        hour: 8,
        minute: 0,
        second: 0,
    };
    assert_eq!(combined_filename("screen", &stamp), "screen_20240301_080000.png");
    let imgs = vec![
        solid_image(100, 50, [0, 255, 0, 255]),
        solid_image(80, 60, [255, 0, 0, 255]),
    ];
    let out = compose(&imgs).unwrap();
    assert_eq!(out.width, 180);
    assert_eq!(out.height, 60);
    for y in 0..60 {
        for x in 0..100 {
            let expected = if y < 50 { [0, 255, 0, 255] } else { [0, 0, 0, 255] };
            assert_eq!(pixel(&out, x, y), expected);
        }
        for x in 100..180 {
            assert_eq!(pixel(&out, x, y), [255, 0, 0, 255]);
        }
    }
}

#[test]
fn encode_image_yields_png_stream() {
    let img = solid_image(2, 2, [9, 8, 7, 255]);
    let bytes = encode_image(&img);
    // A real PNG stream, not the pixel bytes handed back.
    assert!(bytes.len() >= 8);
    assert_eq!(&bytes[..8], &[0x89, 0x50, 0x4E, 0x47, 0x0D, 0x0A, 0x1A, 0x0A]);
    assert_ne!(bytes, img.data);
}

#[test]
fn encode_image_decodes_back_to_same_pixels() {
    let mut img = solid_image(3, 2, [0, 0, 0, 255]);
    for i in 0..img.data.len() {
        if i % 4 != 3 {
            img.data[i] = (i * 7 % 251) as u8;
        }
    }
    let bytes = encode_image(&img);
    let decoded = image::load_from_memory(&bytes).unwrap().to_rgba8();
    assert_eq!(decoded.width(), 3);
    assert_eq!(decoded.height(), 2);
    assert_eq!(decoded.into_raw(), img.data);
}
