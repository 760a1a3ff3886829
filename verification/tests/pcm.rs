use radio_server::pcm::{
    downmix, normalization_gain, packet_fits, peak_amplitude, quantize, quantize_all, resample,
    to_pcm8, TARGET_RATE,
};

#[test]
fn downmix_stereo_takes_the_mean_of_each_frame() {
    let samples = [100i16, 200, -300, -301, 7, 8, 32767, 32767, -32768, -32768, 5];
    assert_eq!(downmix(&samples, 2), vec![150i16, -300, 7, 32767, -32768, 5]);
}

#[test]
fn downmix_rounds_towards_zero() {
    assert_eq!(downmix(&[-1, -2, -3, 0, -7, 2], 2), vec![-1i16, -1, -2]);
}

#[test]
fn downmix_three_channels_with_incomplete_last_frame() {
    assert_eq!(downmix(&[1, 2, 3, 4, 5, 6, 7], 3), vec![2i16, 5, 7]);
}

#[test]
fn downmix_mono_and_zero_channels_pass_through() {
    let samples = [5i16, -6, 7];
    assert_eq!(downmix(&samples, 1), samples.to_vec());
    assert_eq!(downmix(&samples, 0), samples.to_vec());
    assert_eq!(downmix(&[], 2), Vec::<i16>::new());
}

#[test]
fn resample_equal_rates_pass_through() {
    let mono = [1i16, -2, 3, 32767, -32768];
    assert_eq!(resample(&mono, 48000, 48000), mono.to_vec());
}

#[test]
fn resample_doubling_interpolates_between_samples() {
    let mono = [0i16, 1000, 2000, 3000, 4000, 5000, -6000, 7000];
    assert_eq!(
        resample(&mono, 24000, 48000),
        vec![0i16, 500, 1000, 1500, 2000, 2500, 3000, 3500, 4000, 6000, 5000, -2000, -6000, 500, 7000, 7000]
    );
}

#[test]
fn resample_from_cd_rate() {
    let mono = [0i16, 1000, 2000, 3000, 4000, 5000, -6000, 7000];
    assert_eq!(
        resample(&mono, 44100, 48000),
        vec![0i16, 918, 1745, 2661, 3598, 6267, -2180, -393]
    );
}

#[test]
fn resample_halving_picks_every_other_sample() {
    let mono = [0i16, 1000, 2000, 3000, 4000, 5000, -6000, 7000];
    assert_eq!(resample(&mono, 96000, 48000), vec![0i16, 2000, 4000, -6000]);
}

#[test]
fn resample_short_buffers_use_the_line_and_the_last_sample() {
    assert_eq!(
        resample(&[100, -100], 8000, 48000),
        vec![100i16, 66, 33, 0, -33, -66, -100, -100, -100, -100, -100, -100]
    );
    assert_eq!(resample(&[123], 22050, 48000), vec![123i16, 123]);
    assert_eq!(resample(&[], 22050, 48000), Vec::<i16>::new());
}

#[test]
fn resample_limits_overshoot_to_sixteen_bits() {
    assert_eq!(
        resample(&[0, -32768, 32767, 32767, -32768, 0], 16000, 48000),
        vec![
            0i16, -10922, -21845, -32768, -15777, 8494, 32767, 32767, 32767, 32767, 8494, -15777,
            -32768, -21845, -10922, 0, 0, 0
        ]
    );
}

#[test]
fn resample_to_rate_zero_gives_nothing() {
    assert_eq!(resample(&[1, 2, 3], 44100, 0), Vec::<i16>::new());
}

#[test]
fn resampled_length_is_within_one_of_the_rounded_ratio() {
    let mono = vec![0i16; 1152];
    let out = resample(&mono, 44100, 48000);
    assert_eq!(out.len(), 1253);
    let exact = 1152.0f64 * 48000.0 / 44100.0;
    assert!((out.len() as f64 - exact.round()).abs() <= 1.0);
    for (n, source) in [(1usize, 8000u32), (7, 11025), (999, 22050), (1000, 96000), (4096, 44100)] {
        let out = resample(&vec![0i16; n], source, TARGET_RATE);
        let exact = n as f64 * 48000.0 / source as f64;
        assert!((out.len() as f64 - exact.round()).abs() <= 1.0);
        assert_eq!(out.len() as u64, n as u64 * 48000 / source as u64);
    }
}

#[test]
fn peak_is_the_largest_magnitude() {
    assert_eq!(peak_amplitude(&[3, -9, 8]), 9);
    assert_eq!(peak_amplitude(&[0, 0]), 0);
    assert_eq!(peak_amplitude(&[-32768, 32767]), 32768);
    assert_eq!(peak_amplitude(&[-5]), 5);
    assert_eq!(peak_amplitude(&[]), 1);
}

#[test]
fn gain_by_peak() {
    let pairs = |peak: u16| {
        let g = normalization_gain(peak);
        (g.num(), g.den())
    };
    assert_eq!(pairs(0), (1, 1));
    assert_eq!(pairs(1), (2, 1));
    assert_eq!(pairs(8191), (2, 1));
    assert_eq!(pairs(8192), (1, 1));
    assert_eq!(pairs(16384), (1, 1));
    assert_eq!(pairs(16385), (16384, 16385));
    assert_eq!(pairs(20000), (16384, 20000));
    assert_eq!(pairs(32768), (16384, 32768));
    assert_eq!(pairs(65535), (16384, 65535));
}

#[test]
fn quantize_with_each_kind_of_gain() {
    let loud = normalization_gain(20000);
    let got: Vec<i8> = [20000i16, -20000, 1, -1, 0, 10000].iter().map(|s| quantize(*s, loud)).collect();
    assert_eq!(got, vec![64i8, -63, 0, 0, 0, 32]);
    let quiet = normalization_gain(100);
    let got: Vec<i8> =
        [8191i16, -8191, 64, 63, -64, -65, 32767, -32768].iter().map(|s| quantize(*s, quiet)).collect();
    assert_eq!(got, vec![64i8, -63, 1, 0, 0, 0, 127, -128]);
    let unit = normalization_gain(10000);
    let got: Vec<i8> = [16384i16, -16384, 127, 128, -128, -129, 32767, -32768, 383, 384]
        .iter()
        .map(|s| quantize(*s, unit))
        .collect();
    assert_eq!(got, vec![64i8, -63, 0, 1, 0, 0, 127, -127, 1, 2]);
}

#[test]
fn quantize_all_scales_by_the_packets_own_peak() {
    assert_eq!(quantize_all(&[100, -200, 300, 8000]), vec![1i8, -1, 2, 63]);
    assert_eq!(quantize_all(&[30000, -15000, 100, -32768]), vec![59i8, -28, 0, -63]);
    assert_eq!(quantize_all(&[10000, -9000, 128]), vec![39i8, -34, 1]);
    assert_eq!(quantize_all(&[0, 0]), vec![0i8, 0]);
    assert_eq!(quantize_all(&[]), Vec::<i8>::new());
}

#[test]
fn whole_conversion_of_a_stereo_packet() {
    let samples = [1000i16, 3000, -2000, -4000, 500, 700, 8000, 8200];
    assert!(packet_fits(samples.len(), 2, 24000));
    assert_eq!(to_pcm8(&samples, 2, 24000), vec![16i8, -3, -22, -21, 5, 34, 63, 63]);
}

#[test]
fn whole_conversion_at_the_target_rate() {
    assert_eq!(to_pcm8(&[1000, -1000, 20000], 1, 48000), vec![3i8, -2, 64]);
}

#[test]
fn packet_fits_refuses_rate_zero_only_for_small_packets() {
    assert!(!packet_fits(10, 2, 0));
    assert!(packet_fits(10, 2, 1));
    assert!(packet_fits(0, 0, 44100));
    assert!(packet_fits(usize::MAX, 1, 48000));
    assert!(!packet_fits(usize::MAX, 1, 47999));
    assert!(packet_fits(usize::MAX, 1, 48001));
}
