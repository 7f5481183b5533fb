use mic_capture::waveform::{normalize, Waveform};

fn to_values(wave: Waveform) -> Vec<f32> {
    wave.into_bits().into_iter().map(f32::from_bits).collect()
}

#[test]
fn normalize_matches_division_for_every_sample() {
    let mut sample: i16 = i16::MIN;
    loop {
        let expected = (sample as f32 / 32768.0).to_bits();
        assert_eq!(normalize(sample), expected, "sample {}", sample);
        if sample == i16::MAX {
            break;
        }
        sample += 1;
    }
}

#[test]
fn normalize_gives_known_bit_patterns() {
    assert_eq!(normalize(0), 0x0000_0000);
    assert_eq!(normalize(1), 0x3800_0000);
    assert_eq!(normalize(-1), 0xB800_0000);
    assert_eq!(normalize(16384), 0x3F00_0000);
    assert_eq!(normalize(-16384), 0xBF00_0000);
    assert_eq!(normalize(32767), 0x3F7F_FE00);
    assert_eq!(normalize(-32768), 0xBF80_0000);
    assert_eq!(normalize(3), 0x38C0_0000);
}

#[test]
fn zero_converts_to_positive_zero() {
    let zero = f32::from_bits(normalize(0));
    assert_eq!(zero, 0.0);
    assert!(zero.is_sign_positive());
}

#[test]
fn reference_samples_convert_to_reference_values() {
    let raw: Vec<i16> = vec![0, 16384, -16384, 32767, -32768];
    let values = to_values(Waveform::from_samples(&raw));
    assert_eq!(values.len(), 5);
    assert_eq!(values[0], 0.0);
    assert_eq!(values[1], 0.5);
    assert_eq!(values[2], -0.5);
    assert!((values[3] - 0.999969).abs() < 1e-6);
    assert_eq!(values[3], 32767.0 / 32768.0);
    assert_eq!(values[4], -1.0);
}

#[test]
fn rescaling_reproduces_every_sample() {
    let mut sample: i16 = i16::MIN;
    loop {
        let value = f32::from_bits(normalize(sample));
        assert_eq!(value * 32768.0, sample as f32);
        assert!(-1.0 <= value && value < 1.0);
        if sample == i16::MAX {
            break;
        }
        sample += 1;
    }
}

#[test]
fn conversion_preserves_sign_and_order() {
    let raw: Vec<i16> = vec![-32768, -300, -1, 0, 1, 2, 300, 32767];
    let values = to_values(Waveform::from_samples(&raw));
    for pair in values.windows(2) {
        assert!(pair[0] < pair[1]);
    }
    for (value, sample) in values.iter().zip(raw.iter()) {
        assert_eq!(*value < 0.0, *sample < 0);
    }
}

#[test]
fn from_samples_keeps_length_and_order() {
    let raw: Vec<i16> = vec![7, -7, 7, 100, 0];
    let wave = Waveform::from_samples(&raw);
    assert_eq!(wave.len(), 5);
    assert!(!wave.is_empty());
    for (i, sample) in raw.iter().enumerate() {
        assert_eq!(wave.bits_at(i), normalize(*sample));
    }
    assert_eq!(wave.bits_at(0), wave.bits_at(2));
    assert_ne!(wave.bits_at(0), wave.bits_at(1));
}

#[test]
fn empty_buffer_converts_to_empty_waveform() {
    let wave = Waveform::from_samples(&Vec::new());
    assert_eq!(wave.len(), 0);
    assert!(wave.is_empty());
    assert_eq!(wave.into_bits(), Vec::<u32>::new());
}

#[test]
fn empty_waveform_is_empty() {
    let wave = Waveform::empty();
    assert!(wave.is_empty());
    assert_eq!(wave.len(), 0);
}

#[test]
fn conversion_is_reproducible() {
    let raw: Vec<i16> = vec![123, -456, 789, -32768, 32767];
    let first = Waveform::from_samples(&raw).into_bits();
    let second = Waveform::from_samples(&raw).into_bits();
    assert_eq!(first, second);
}
