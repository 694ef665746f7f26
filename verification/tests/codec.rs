use podo_std_eye::codec::{
    decode_frame, decode_image, decode_meta, encode_frame, encode_image, encode_meta,
};
use podo_std_eye::frame::elem_size;
use podo_std_eye::{Error, Frame, Image, VideoColor, VideoMeta};

// Type code 6 is a one-channel image of 8-byte elements.
const TYP_64F_C1: u32 = 6;

fn image_64f(rows: u32, cols: u32) -> Image {
    let data = vec![0u8; (rows * cols * 8) as usize];
    Image::from_bytes(rows, cols, TYP_64F_C1, data).unwrap()
}

fn put_f64(img: &mut Image, row: u32, col: u32, value: f64) {
    let off = ((row * img.cols + col) * 8) as usize;
    img.data[off..off + 8].copy_from_slice(&value.to_le_bytes());
}

fn get_f64(img: &Image, row: u32, col: u32) -> f64 {
    let off = ((row * img.cols + col) * 8) as usize;
    f64::from_le_bytes(img.data[off..off + 8].try_into().unwrap())
}

#[test]
fn serde_support() {
    let mut image = image_64f(42, 37);
    put_f64(&mut image, 11, 22, 42.0);

    let image_byte = encode_image(&image);
    let image_clone: Image = decode_image(&image_byte).unwrap();

    assert_eq!(image.rows, image_clone.rows);
    assert_eq!(image.cols, image_clone.cols);
    assert_eq!(image.typ, image_clone.typ);

    assert_eq!(get_f64(&image_clone, 11, 22), 42.0);
    assert_eq!(get_f64(&image_clone, 22, 11), 0.0);
}

#[test]
fn image_round_trip_bytes() {
    let img = Image::from_bytes(2, 3, 16, vec![7u8; 2 * 3 * 3]).unwrap();
    let bytes = encode_image(&img);
    // 20-byte header plus the pixel bytes.
    assert_eq!(bytes.len(), 20 + 18);
    // Header fields, little-endian.
    assert_eq!(&bytes[0..4], &[2, 0, 0, 0]);
    assert_eq!(&bytes[4..8], &[3, 0, 0, 0]);
    assert_eq!(&bytes[8..12], &[16, 0, 0, 0]);
    assert_eq!(&bytes[12..20], &[18, 0, 0, 0, 0, 0, 0, 0]);
    let back = decode_image(&bytes).unwrap();
    assert_eq!(back, img);
}

#[test]
fn image_decode_rejects_short_buffer() {
    assert_eq!(decode_image(&[0u8; 19]), Err(Error::Decode));
}

#[test]
fn image_decode_rejects_wrong_length_field() {
    let img = image_64f(1, 2);
    let mut bytes = encode_image(&img);
    bytes[12] = 99;
    assert_eq!(decode_image(&bytes), Err(Error::Decode));
}

#[test]
fn image_decode_rejects_geometry_mismatch() {
    let img = image_64f(1, 2);
    let mut bytes = encode_image(&img);
    // Claim three columns over the same 16 pixel bytes.
    bytes[4] = 3;
    assert_eq!(decode_image(&bytes), Err(Error::Decode));
}

#[test]
fn elem_size_follows_type_code() {
    // One channel of 8 bytes.
    assert_eq!(elem_size(6), 8);
    // Type code 16: three channels of one byte.
    assert_eq!(elem_size(16), 3);
    // Type code 0: one channel of one byte.
    assert_eq!(elem_size(0), 1);
}

#[test]
fn meta_round_trip() {
    let metas = [
        VideoMeta { codec: None, color: None, width: 640, height: 480, fps: 30 },
        VideoMeta {
            codec: Some(0x47504A4D),
            color: Some(VideoColor::Grayscale),
            width: 1920,
            height: 1080,
            fps: 0,
        },
        VideoMeta {
            codec: Some(0),
            color: Some(VideoColor::Color),
            width: 0,
            height: 0,
            fps: u32::MAX,
        },
    ];
    for m in metas {
        let bytes = encode_meta(&m);
        assert_eq!(bytes.len(), 19);
        assert_eq!(decode_meta(&bytes).unwrap(), m);
    }
}

#[test]
fn meta_decode_rejects_bad_tags() {
    let m = VideoMeta { codec: None, color: None, width: 1, height: 1, fps: 1 };
    let mut bytes = encode_meta(&m);
    bytes[0] = 2;
    assert_eq!(decode_meta(&bytes), Err(Error::Decode));
    let mut bytes = encode_meta(&m);
    bytes[5] = 7;
    assert_eq!(decode_meta(&bytes), Err(Error::Decode));
}

#[test]
fn frame_round_trip() {
    let mut image = image_64f(4, 5);
    put_f64(&mut image, 3, 2, -1.5);
    let meta = VideoMeta {
        codec: Some(0x3247504D),
        color: Some(VideoColor::Color),
        width: 5,
        height: 4,
        fps: 25,
    };
    let frame = Frame { image, meta, timestamp: -123_456_789, count: 42 };
    let bytes = encode_frame(&frame);
    let back: Frame = decode_frame(&bytes).unwrap();
    assert_eq!(back.image, frame.image);
    assert_eq!(back.meta, frame.meta);
    assert_eq!(back.timestamp, frame.timestamp);
    assert_eq!(back.count, frame.count);
}

#[test]
fn frame_decode_rejects_truncation() {
    let frame = Frame {
        image: image_64f(1, 1),
        meta: VideoMeta { codec: None, color: None, width: 1, height: 1, fps: 1 },
        timestamp: 0,
        count: 0,
    };
    let bytes = encode_frame(&frame);
    assert!(matches!(decode_frame(&bytes[..bytes.len() - 1]), Err(Error::Decode)));
    assert!(matches!(decode_frame(&[]), Err(Error::Decode)));
}
