use mixcore::sample::{
    clamp_sample, convert_to_i16, convert_to_u16, normalize_pcm, sample_to_i16, sample_to_u16,
    AdditiveSample, UNIT,
};
use mixcore::stream::{StreamBuffer, StreamInfo};
use mixcore::system::AudioError;

#[test]
fn signed_conversion_maps_full_scale_to_the_extremes() {
    // Normalized 1.0 is UNIT; it maps to the largest representable positive
    // value, and -1.0 to the smallest.
    assert_eq!(sample_to_i16(UNIT), i16::MAX);
    assert_eq!(sample_to_i16(-UNIT), i16::MIN);
    assert_eq!(sample_to_i16(0), 0);
    assert_eq!(sample_to_i16(1000), 1000);
    // Saturation outside the nominal range.
    assert_eq!(sample_to_i16(1_000_000), i16::MAX);
    assert_eq!(sample_to_i16(-1_000_000), i16::MIN);
}

#[test]
fn unsigned_conversion_maps_full_scale_to_the_extremes() {
    assert_eq!(sample_to_u16(UNIT), u16::MAX);
    assert_eq!(sample_to_u16(-UNIT), u16::MIN);
    assert_eq!(sample_to_u16(0), 32768);
}

#[test]
fn whole_buffer_conversion_matches_per_sample_conversion() {
    let mixed = vec![UNIT, -UNIT, 0, 123, -456];
    assert_eq!(convert_to_i16(&mixed), vec![32767, -32768, 0, 123, -456]);
    assert_eq!(convert_to_u16(&mixed), vec![65535, 0, 32768, 32891, 32312]);
}

#[test]
fn clamping_keeps_the_nominal_range() {
    assert_eq!(clamp_sample(40000), UNIT);
    assert_eq!(clamp_sample(-40000), -UNIT);
    assert_eq!(clamp_sample(-5), -5);
}

#[test]
fn pcm_normalization_scales_by_the_encoded_width() {
    // 16-bit PCM divides by two: the scale is 2^15 / 2^bits.
    assert_eq!(normalize_pcm(32767, 16), 16383);
    assert_eq!(normalize_pcm(-32768, 16), -16384);
    // 15-bit PCM is already at the fixed-point scale.
    assert_eq!(normalize_pcm(12345, 15), 12345);
    // Narrow encodings scale up...
    assert_eq!(normalize_pcm(127, 8), 16256);
    // ...and wide ones scale down, truncating toward zero.
    assert_eq!(normalize_pcm(i32::MAX, 32), 16383);
    assert_eq!(normalize_pcm(i32::MIN, 32), -16384);
}

#[test]
fn additive_samples_accumulate() {
    let mut slot: i32 = 5;
    slot.write(7);
    slot.write(-2);
    assert_eq!(slot, 10);
}

#[test]
fn format_negotiation_rejects_zero_rate_or_channels() {
    assert_eq!(StreamInfo::new(0, 2), Err(AudioError::ConfigNegotiation));
    assert_eq!(StreamInfo::new(44100, 0), Err(AudioError::ConfigNegotiation));
    let info = StreamInfo::new(48000, 2).unwrap();
    assert_eq!(info.sample_rate, 48000);
    assert_eq!(info.channels, 2);
}

#[test]
fn frame_iteration_groups_channels() {
    let info = StreamInfo::new(44100, 2).unwrap();
    let buf = StreamBuffer { info, data: vec![1, 2, 3, 4, 5, 6, 7, 8] };
    let frames = buf.into_frames();
    assert_eq!(frames.len(), 4);
    for frame in &frames {
        assert_eq!(frame.len(), 2);
    }
    assert_eq!(frames[0], vec![1, 2]);
    assert_eq!(frames[3], vec![7, 8]);
}

#[test]
fn scratch_buffer_resizes_and_zeroes() {
    let info = StreamInfo::new(44100, 2).unwrap();
    let mut buf = StreamBuffer { info, data: vec![9, 9, 9] };
    buf.resize_and_zero(6);
    assert_eq!(buf.data, vec![0; 6]);
    buf.resize_and_zero(2);
    assert_eq!(buf.data, vec![0, 0]);
}
