use headless_sdk::frame::{encode_frame, format_code, format_index, ImageFormat, LatestFrame};
use headless_sdk::handler::HeadlessHandler;
use headless_sdk::frame::ImageRgb;

fn frame(fmt: ImageFormat) -> LatestFrame {
    LatestFrame { data: vec![9, 8, 7, 6, 5, 4, 3, 2], w: 1, h: 2, fmt, stride: 4 }
}

#[test]
fn frame_message_layout() {
    let bytes = encode_frame(&frame(ImageFormat::ARGB));
    assert_eq!(
        bytes,
        vec![
            b'R', b'S', b'D', b'K', 1, 0, 0, 0, 2, 0, 0, 0, 1, 0, 0, 0, 4, 0, 0, 0, 9, 8, 7, 6, 5,
            4, 3, 2
        ]
    );
    assert_eq!(u32::from_le_bytes([bytes[0], bytes[1], bytes[2], bytes[3]]), 0x4B445352);
}

#[test]
fn frame_message_numbers_are_little_endian() {
    let big = LatestFrame {
        data: Vec::new(),
        w: 1920,
        h: 1080,
        fmt: ImageFormat::Raw,
        stride: 0x0102_0304,
    };
    let bytes = encode_frame(&big);
    assert_eq!(bytes.len(), 20);
    assert_eq!(&bytes[4..8], &1920u32.to_le_bytes());
    assert_eq!(&bytes[8..12], &1080u32.to_le_bytes());
    assert_eq!(&bytes[12..16], &[2, 0, 0, 0]);
    assert_eq!(&bytes[16..20], &[4, 3, 2, 1]);
}

#[test]
fn frame_message_keeps_the_low_bits_of_large_sizes() {
    let wide = LatestFrame {
        data: vec![1],
        w: 0x1_0000_0005,
        h: usize::MAX,
        fmt: ImageFormat::ABGR,
        stride: 0,
    };
    let bytes = encode_frame(&wide);
    assert_eq!(&bytes[4..8], &[5, 0, 0, 0]);
    assert_eq!(&bytes[8..12], &[255, 255, 255, 255]);
    assert_eq!(&bytes[20..], &[1]);
}

#[test]
fn formats_have_words_and_numbers() {
    assert_eq!(format_code(ImageFormat::ABGR), "abgr");
    assert_eq!(format_code(ImageFormat::ARGB), "argb");
    assert_eq!(format_code(ImageFormat::Raw), "rgb");
    assert_eq!(format_index(ImageFormat::ABGR), 0);
    assert_eq!(format_index(ImageFormat::ARGB), 1);
    assert_eq!(format_index(ImageFormat::Raw), 2);
}

#[test]
fn stride_divides_the_buffer_among_the_rows() {
    let image = |len: usize, h: usize| ImageRgb {
        raw: vec![0; len],
        w: 3,
        h,
        fmt: ImageFormat::ABGR,
    };
    assert_eq!(HeadlessHandler::calc_stride(&image(24, 2)), 12);
    assert_eq!(HeadlessHandler::calc_stride(&image(25, 2)), 12);
    assert_eq!(HeadlessHandler::calc_stride(&image(24, 0)), 0);
    assert_eq!(HeadlessHandler::calc_stride(&image(0, 7)), 0);
    assert_eq!(HeadlessHandler::calc_stride(&image(3, 5)), 0);
}
