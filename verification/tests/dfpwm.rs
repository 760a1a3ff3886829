use radio_server::dfpwm::DfpwmEncoder;

#[test]
fn test_encoder_basic() {
    let mut encoder = DfpwmEncoder::new();
    let input = vec![0i8, 64, 127, 64, 0, -64, -128, -64];
    let mut output = Vec::new();

    encoder.encode(&input, &mut output);

    assert_eq!(output.len(), 1); // 8 samples = 1 byte
}

#[test]
fn encoder_basic_exact_byte_and_state() {
    let mut encoder = DfpwmEncoder::new();
    let input = vec![0i8, 64, 127, 64, 0, -64, -128, -64];
    let mut output = Vec::new();
    encoder.encode(&input, &mut output);
    assert_eq!(output, vec![14u8]);
    assert_eq!(encoder.charge(), -16);
    assert_eq!(encoder.strength(), 8);
    assert!(!encoder.previous_bit());
}

#[test]
fn fresh_encoder_state() {
    let encoder = DfpwmEncoder::new();
    assert_eq!(encoder.charge(), 0);
    assert_eq!(encoder.strength(), 8);
    assert!(!encoder.previous_bit());
    let other = DfpwmEncoder::default();
    assert_eq!(other.charge(), 0);
    assert_eq!(other.strength(), 8);
    assert!(!other.previous_bit());
}

#[test]
fn empty_input_changes_nothing() {
    let mut encoder = DfpwmEncoder::new();
    let mut output = vec![7u8];
    encoder.encode(&[], &mut output);
    assert_eq!(output, vec![7u8]);
    assert_eq!(encoder.charge(), 0);
    assert_eq!(encoder.strength(), 8);
}

#[test]
fn partial_byte_is_flushed_with_zero_padding() {
    let mut encoder = DfpwmEncoder::new();
    let mut output = Vec::new();
    encoder.encode(&[10, -10, 10], &mut output);
    assert_eq!(output, vec![5u8]);
    assert_eq!(encoder.charge(), 8);
    assert!(encoder.previous_bit());
}

#[test]
fn twenty_high_samples_fill_three_bytes() {
    let mut encoder = DfpwmEncoder::new();
    let mut output = Vec::new();
    encoder.encode(&[127i8; 20], &mut output);
    assert_eq!(output, vec![255u8, 255, 15]);
    assert_eq!(encoder.charge(), 160);
    assert_eq!(encoder.strength(), 8);
    assert!(encoder.previous_bit());
}

#[test]
fn nine_high_samples_spill_one_bit_into_a_second_byte() {
    let mut encoder = DfpwmEncoder::new();
    let mut output = Vec::new();
    encoder.encode(&[127i8; 9], &mut output);
    assert_eq!(output, vec![0xFFu8, 0x01]);
    assert_eq!(encoder.charge(), 72);
    assert_eq!(encoder.strength(), 8);
}

#[test]
fn strength_is_in_range_from_the_start() {
    let mut encoder = DfpwmEncoder::new();
    assert!(encoder.strength() >= 8 && encoder.strength() <= 2047);
    let mut output = Vec::new();
    for sample in [127i8, -128, 0, 5, -5, 127, 127, 127, -128] {
        encoder.encode(&[sample], &mut output);
        assert!(encoder.strength() >= 8 && encoder.strength() <= 2047);
    }
}

#[test]
fn nine_low_samples_give_two_zero_bytes() {
    let mut encoder = DfpwmEncoder::new();
    let mut output = Vec::new();
    encoder.encode(&[-128i8; 9], &mut output);
    assert_eq!(output, vec![0u8, 0]);
    assert_eq!(encoder.charge(), -72);
}

#[test]
fn output_is_appended_after_existing_bytes() {
    let mut encoder = DfpwmEncoder::new();
    let mut output = vec![1u8, 2, 3];
    encoder.encode(&[0, 64, 127, 64, 0, -64, -128, -64], &mut output);
    assert_eq!(output, vec![1u8, 2, 3, 14]);
}

#[test]
fn state_carries_over_between_calls() {
    let mut encoder = DfpwmEncoder::new();
    let mut first = Vec::new();
    encoder.encode(&[0, 64, 127, 64, 0], &mut first);
    assert_eq!(first, vec![14u8]);
    assert_eq!(encoder.charge(), 8);
    let mut second = Vec::new();
    encoder.encode(&[-64, -128, -64], &mut second);
    assert_eq!(second, vec![0u8]);
    assert_eq!(encoder.charge(), -16);
}

#[test]
fn same_input_and_state_give_same_bytes() {
    let input: Vec<i8> = (0..1000).map(|i| ((i * 37) % 256 - 128) as i8).collect();
    let mut a = DfpwmEncoder::new();
    let mut b = DfpwmEncoder::new();
    let mut out_a = Vec::new();
    let mut out_b = Vec::new();
    a.encode(&input, &mut out_a);
    b.encode(&input, &mut out_b);
    assert_eq!(out_a, out_b);
    assert_eq!(out_a.len(), 125);
    assert_eq!(a.charge(), b.charge());
    assert_eq!(a.strength(), b.strength());
    assert_eq!(a.previous_bit(), b.previous_bit());
}

#[test]
fn strength_stays_within_bounds() {
    let mut encoder = DfpwmEncoder::new();
    let mut output = Vec::new();
    for round in 0..200 {
        let sample: i8 = if round % 3 == 0 { 127 } else { -128 };
        encoder.encode(&[sample; 33], &mut output);
        assert!(encoder.strength() >= 8);
        assert!(encoder.strength() <= 2047);
        assert!(encoder.charge() >= -32768);
        assert!(encoder.charge() <= 32767);
    }
}

#[test]
fn charge_saturates_at_the_top() {
    let mut encoder = DfpwmEncoder::new();
    let mut output = Vec::new();
    encoder.encode(&[127i8; 5000], &mut output);
    assert_eq!(output.len(), 625);
    assert_eq!(encoder.charge(), 32512);
    assert_eq!(encoder.strength(), 8);
}
