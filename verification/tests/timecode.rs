use video_sampler::timecode::decimal_string;
use video_sampler::timecode::padded2_string;
use video_sampler::timecode::padded3_string;
use video_sampler::timecode::sample_file_name;
use video_sampler::timecode::timecode_parts;

#[test]
fn parts_of_nine_and_a_half_seconds() {
    assert_eq!(timecode_parts(9_500_000_000), (0, 9, 500));
}

#[test]
fn parts_carry_minutes() {
    // 125.678 s = 2 min 5 s 678 ms.
    assert_eq!(timecode_parts(125_678_000_000), (2, 5, 678));
}

#[test]
fn parts_of_zero() {
    assert_eq!(timecode_parts(0), (0, 0, 0));
}

#[test]
fn parts_truncate_sub_millisecond() {
    assert_eq!(timecode_parts(1_999_999), (0, 0, 1));
}

#[test]
fn decimal_renders_zero_and_long_numbers() {
    assert_eq!(decimal_string(0), "0");
    assert_eq!(decimal_string(7), "7");
    assert_eq!(decimal_string(10230), "10230");
    assert_eq!(decimal_string(u64::MAX), "18446744073709551615");
}

#[test]
fn padding_widths() {
    assert_eq!(padded2_string(0), "00");
    assert_eq!(padded2_string(7), "07");
    assert_eq!(padded2_string(59), "59");
    assert_eq!(padded2_string(100), "100");
    assert_eq!(padded3_string(5), "005");
    assert_eq!(padded3_string(45), "045");
    assert_eq!(padded3_string(999), "999");
}

#[test]
fn file_name_for_short_clip_sample() {
    assert_eq!(sample_file_name("clip", 2, 9_500_000_000), "clip-2-00-09-500.png");
}

#[test]
fn file_name_with_minutes_and_empty_prefix() {
    assert_eq!(sample_file_name("", 10, 125_678_000_000), "-10-02-05-678.png");
}
