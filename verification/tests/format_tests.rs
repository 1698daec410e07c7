use scope_radio::fixed::{normalize, SAMPLE_ONE};
use scope_radio::format::{parse_stream, SampleParser, Signed16PCM};

#[test]
fn pcm16_most_negative_is_minus_one() {
    let sample = Signed16PCM::parse(&[0x00, 0x80]);
    assert_eq!(sample, -1_000_000);
    assert_eq!(sample as f64 / SAMPLE_ONE as f64, -1.0);
}

#[test]
fn pcm16_most_positive_is_just_under_one() {
    let sample = Signed16PCM::parse(&[0xFF, 0x7F]);
    assert_eq!(sample, 999_969);
    assert!((sample as f64 / SAMPLE_ONE as f64 - 0.999969).abs() < 1e-6);
}

#[test]
fn pcm16_zero_and_small_values() {
    assert_eq!(Signed16PCM::parse(&[0x00, 0x00]), 0);
    assert_eq!(Signed16PCM::parse(&[0x01, 0x00]), 30);
    assert_eq!(Signed16PCM::parse(&[0xFF, 0xFF]), -30);
    assert_eq!(Signed16PCM::parse(&[0x00, 0x40]), 500_000);
    assert_eq!(Signed16PCM::parse(&[0x00, 0xC0]), -500_000);
}

#[test]
fn pcm16_chunk_width_is_two() {
    assert_eq!(Signed16PCM::chunk_width(), 2);
}

#[test]
fn normalize_rounds_toward_zero_and_saturates() {
    assert_eq!(normalize(1, 3), 333_333);
    assert_eq!(normalize(-1, 3), -333_333);
    assert_eq!(normalize(5, 1_000_000), 5);
    assert_eq!(normalize(-7, 1_000_000), -7);
    assert_eq!(normalize(i32::MAX, 1), i32::MAX);
    assert_eq!(normalize(i32::MIN, 1), i32::MIN);
    assert_eq!(normalize(3000, 1), i32::MAX);
    assert_eq!(normalize(-3000, 1), i32::MIN);
    assert_eq!(normalize(2147, 1), 2_147_000_000);
}

#[test]
fn parse_stream_decodes_chunk_by_chunk() {
    let bytes = [0x00u8, 0x80, 0xFF, 0x7F, 0x00, 0x00, 0x00, 0x40];
    assert_eq!(
        parse_stream::<Signed16PCM>(&bytes),
        vec![-1_000_000, 999_969, 0, 500_000]
    );
    assert_eq!(parse_stream::<Signed16PCM>(&[]), Vec::<i32>::new());
}
