use video_sampler::encode::encode_frame;
use video_sampler::task::TaskError;

fn tiny_frame() -> Vec<u8> {
    // 2x2 RGB: red, green, blue, white.
    vec![
        255, 0, 0, //
        0, 255, 0, //
        0, 0, 255, //
        255, 255, 255,
    ]
}

#[test]
fn encoded_frame_round_trips_through_a_decoder() {
    let pixels = tiny_frame();
    let bytes = encode_frame(2, 2, &pixels).expect("valid frame must encode");

    let decoder = png::Decoder::new(std::io::Cursor::new(&bytes[..]));
    let mut reader = decoder.read_info().expect("output must be a readable PNG");
    let mut buf = vec![0u8; reader.output_buffer_size().expect("sane buffer size")];
    let info = reader.next_frame(&mut buf).expect("one frame");
    assert_eq!(info.width, 2);
    assert_eq!(info.height, 2);
    assert_eq!(info.color_type, png::ColorType::Rgb);
    assert_eq!(info.bit_depth, png::BitDepth::Eight);
    assert_eq!(&buf[..info.buffer_size()], &pixels[..]);
}

#[test]
fn encoding_starts_with_png_signature() {
    let bytes = encode_frame(2, 2, &tiny_frame()).unwrap();
    assert_eq!(&bytes[..8], &[137, 80, 78, 71, 13, 10, 26, 10]);
}

#[test]
fn encoding_is_a_function_of_its_input() {
    let first = encode_frame(2, 2, &tiny_frame()).unwrap();
    let second = encode_frame(2, 2, &tiny_frame()).unwrap();
    assert_eq!(first, second);
}

#[test]
fn zero_width_is_rejected() {
    let empty: Vec<u8> = Vec::new();
    assert_eq!(encode_frame(0, 2, &empty), Err(TaskError::Encode));
}

#[test]
fn zero_height_is_rejected() {
    let empty: Vec<u8> = Vec::new();
    assert_eq!(encode_frame(2, 0, &empty), Err(TaskError::Encode));
}

#[test]
fn mismatched_buffer_is_rejected() {
    let short = vec![0u8; 11];
    assert_eq!(encode_frame(2, 2, &short), Err(TaskError::Encode));
}
