use mic_capture::config::{
    CaptureConfig, BITS_PER_SAMPLE, CHANNEL_COUNT, CHUNK_SAMPLES, SAMPLE_RATE_HZ,
};

#[test]
fn config_holds_the_supported_format() {
    let config = CaptureConfig::new();
    assert_eq!(config.sample_rate_hz(), 16000);
    assert_eq!(config.channel_count(), 1);
    assert_eq!(config.bits_per_sample(), 16);
    assert_eq!(config.chunk_samples(), 4096);
}

#[test]
fn config_constants_name_the_supported_format() {
    assert_eq!(SAMPLE_RATE_HZ, 16000);
    assert_eq!(CHANNEL_COUNT, 1);
    assert_eq!(BITS_PER_SAMPLE, 16);
    assert_eq!(CHUNK_SAMPLES, 4096);
}

#[test]
fn one_chunk_takes_two_bytes_per_sample() {
    assert_eq!(CaptureConfig::new().chunk_bytes(), 8192);
}

#[test]
fn config_copies_are_the_same_format() {
    let config = CaptureConfig::new();
    let copy = config;
    assert_eq!(copy.sample_rate_hz(), config.sample_rate_hz());
    assert_eq!(copy.chunk_samples(), config.chunk_samples());
}
