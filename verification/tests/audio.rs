use dikt::audio::{
    check_sample_kind, clamp_level, current_level, encode_recording, is_recording, push_mono_i16, recenter_u16,
    reset_levels, AudioRecorder, FrameStats, LevelMeter, DEFAULT_SAMPLE_RATE,
    FULL_SCALE_DB_BITS, MAX_SAMPLE_RATE, NEGATIVE_ZERO_BITS, POSITIVE_INFINITY_BITS,
    SampleKind, SILENT_DB_BITS, WAV_HEADER_LEN,
};

fn level(db: f32) -> u32 {
    db.to_bits()
}

fn db(bits: u32) -> f32 {
    f32::from_bits(bits)
}

#[test]
fn the_level_constants_are_the_bit_patterns_they_are_named_after() {
    assert_eq!(SILENT_DB_BITS, (-60.0f32).to_bits());
    assert_eq!(FULL_SCALE_DB_BITS, 0.0f32.to_bits());
    assert_eq!(NEGATIVE_ZERO_BITS, (-0.0f32).to_bits());
    assert_eq!(POSITIVE_INFINITY_BITS, f32::INFINITY.to_bits());
}

#[test]
fn a_new_meter_reads_the_silence_floor() {
    let meter = LevelMeter::new();
    assert_eq!(current_level(&meter), (SILENT_DB_BITS, SILENT_DB_BITS));
    assert_eq!(db(current_level(&meter).0), -60.0);
    assert_eq!(db(current_level(&meter).1), -60.0);
    assert!(!is_recording(&meter));
}

#[test]
fn reset_puts_both_levels_back_to_the_floor() {
    let mut meter = LevelMeter::new();
    meter.set_recording(true);
    meter.store(level(-12.5), level(-3.0));
    assert_eq!(current_level(&meter), (level(-12.5), level(-3.0)));
    reset_levels(&mut meter);
    assert_eq!(current_level(&meter), (SILENT_DB_BITS, SILENT_DB_BITS));
    assert!(is_recording(&meter));
    meter.set_recording(false);
    assert!(!is_recording(&meter));
}

#[test]
fn stored_levels_are_clamped_to_the_reportable_range() {
    assert_eq!(db(clamp_level(level(-30.0))), -30.0);
    assert_eq!(db(clamp_level(level(-60.0))), -60.0);
    assert_eq!(db(clamp_level(level(0.0))), 0.0);
    assert_eq!(clamp_level(level(-0.0)), level(-0.0));
    assert_eq!(db(clamp_level(level(-1.0e-30))), -1.0e-30);
    assert_eq!(db(clamp_level(level(-60.000004))), -60.0);
    assert_eq!(db(clamp_level(level(-75.0))), -60.0);
    assert_eq!(db(clamp_level(level(f32::NEG_INFINITY))), -60.0);
    assert_eq!(db(clamp_level(level(f32::NAN))), -60.0);
    assert_eq!(db(clamp_level(level(-f32::NAN))), -60.0);
    assert_eq!(db(clamp_level(level(0.000265))), 0.0);
    assert_eq!(db(clamp_level(level(12.0))), 0.0);
    assert_eq!(db(clamp_level(level(f32::INFINITY))), 0.0);

    let mut meter = LevelMeter::new();
    meter.store(level(3.0), level(-90.0));
    assert_eq!(current_level(&meter), (FULL_SCALE_DB_BITS, SILENT_DB_BITS));
}

#[test]
fn unsigned_samples_are_recentred() {
    assert_eq!(recenter_u16(0), -32768);
    assert_eq!(recenter_u16(32768), 0);
    assert_eq!(recenter_u16(32767), -1);
    assert_eq!(recenter_u16(65535), 32767);
}

#[test]
fn mono_data_is_appended_as_it_is() {
    let mut buffer = vec![7i16];
    let stats = push_mono_i16(&mut buffer, &[1, -2, 3], 1);
    assert_eq!(buffer, vec![7, 1, -2, 3]);
    assert_eq!(stats, FrameStats { frames: 3, sum_squares: 14, peak: 3 });
}

#[test]
fn channels_are_averaged_towards_zero() {
    let mut buffer = Vec::new();
    let stats = push_mono_i16(&mut buffer, &[10, 20, -3, -4, 3, 4, -1, 0], 2);
    // (10+20)/2 = 15, (-7)/2 = -3, 7/2 = 3, (-1)/2 = 0
    assert_eq!(buffer, vec![15, -3, 3, 0]);
    assert_eq!(stats, FrameStats { frames: 4, sum_squares: 225 + 9 + 9, peak: 15 });
}

#[test]
fn a_shorter_last_frame_is_averaged_over_what_it_has() {
    let mut buffer = Vec::new();
    let stats = push_mono_i16(&mut buffer, &[3, 6, 9, 100, 50], 3);
    assert_eq!(buffer, vec![6, 75]);
    assert_eq!(stats.frames, 2);
    assert_eq!(stats.peak, 75);
    assert_eq!(stats.sum_squares, 36 + 5625);
}

#[test]
fn extreme_samples_do_not_overflow() {
    let mut buffer = Vec::new();
    let stats = push_mono_i16(&mut buffer, &[i16::MIN, i16::MIN, i16::MAX, i16::MAX], 2);
    assert_eq!(buffer, vec![i16::MIN, i16::MAX]);
    assert_eq!(stats.peak, 32768);
    assert_eq!(stats.sum_squares, 32768u128 * 32768 + 32767u128 * 32767);

    let data = vec![i16::MIN; 65535];
    let mut buffer = Vec::new();
    let stats = push_mono_i16(&mut buffer, &data, 65535);
    assert_eq!(buffer, vec![i16::MIN]);
    assert_eq!(stats.frames, 1);
}

#[test]
fn without_channels_or_data_nothing_is_appended() {
    let mut buffer = vec![1i16];
    let stats = push_mono_i16(&mut buffer, &[5, 6, 7], 0);
    assert_eq!(buffer, vec![1]);
    assert_eq!(stats, FrameStats { frames: 0, sum_squares: 0, peak: 0 });
    let stats = push_mono_i16(&mut buffer, &[], 2);
    assert_eq!(buffer, vec![1]);
    assert_eq!(stats, FrameStats { frames: 0, sum_squares: 0, peak: 0 });
}

#[test]
fn an_empty_recording_is_no_audio_captured() {
    assert_eq!(encode_recording(&[], 16000).unwrap_err(), "No audio captured");
    assert_eq!(encode_recording(&[], 0).unwrap_err(), "No audio captured");
}

#[test]
fn a_rate_that_overflows_the_header_is_refused() {
    assert_eq!(
        encode_recording(&[1], MAX_SAMPLE_RATE + 1).unwrap_err(),
        "Sample rate too high to encode"
    );
    assert!(encode_recording(&[1], MAX_SAMPLE_RATE).is_ok());
}

#[test]
fn a_recording_is_encoded_as_mono_16_bit_pcm() {
    let bytes = encode_recording(&[0, 1, -1, 0x1234], 44100).unwrap();
    assert_eq!(bytes.len(), WAV_HEADER_LEN + 8);
    assert_eq!(&bytes[0..4], b"RIFF");
    assert_eq!(u32::from_le_bytes([bytes[4], bytes[5], bytes[6], bytes[7]]), 36 + 8);
    assert_eq!(&bytes[8..16], b"WAVEfmt ");
    assert_eq!(u32::from_le_bytes([bytes[16], bytes[17], bytes[18], bytes[19]]), 16);
    assert_eq!(u16::from_le_bytes([bytes[20], bytes[21]]), 1); // integer PCM
    assert_eq!(u16::from_le_bytes([bytes[22], bytes[23]]), 1); // one channel
    assert_eq!(u32::from_le_bytes([bytes[24], bytes[25], bytes[26], bytes[27]]), 44100);
    assert_eq!(u32::from_le_bytes([bytes[28], bytes[29], bytes[30], bytes[31]]), 88200);
    assert_eq!(u16::from_le_bytes([bytes[32], bytes[33]]), 2);
    assert_eq!(u16::from_le_bytes([bytes[34], bytes[35]]), 16);
    assert_eq!(&bytes[36..40], b"data");
    assert_eq!(u32::from_le_bytes([bytes[40], bytes[41], bytes[42], bytes[43]]), 8);
    assert_eq!(&bytes[44..], &[0, 0, 1, 0, 0xff, 0xff, 0x34, 0x12]);
}

#[test]
fn the_encoded_recording_reads_back() {
    let samples: Vec<i16> = (0..1000).map(|i| ((i * 37) % 2000 - 1000) as i16).collect();
    let bytes = encode_recording(&samples, 48000).unwrap();
    let mut reader = hound::WavReader::new(std::io::Cursor::new(bytes)).unwrap();
    assert_eq!(reader.spec().channels, 1);
    assert_eq!(reader.spec().sample_rate, 48000);
    assert_eq!(reader.spec().bits_per_sample, 16);
    let read: Vec<i16> = reader.samples::<i16>().map(|s| s.unwrap()).collect();
    assert_eq!(read, samples);
}

#[test]
fn an_undiscovered_rate_is_encoded_as_one() {
    let bytes = encode_recording(&[5], 0).unwrap();
    assert_eq!(u32::from_le_bytes([bytes[24], bytes[25], bytes[26], bytes[27]]), 1);
}

#[test]
fn starting_twice_is_a_no_op() {
    let mut meter = LevelMeter::new();
    let mut recorder = AudioRecorder::default();
    assert!(recorder.start(&mut meter));
    assert!(is_recording(&meter));
    recorder.set_sample_rate(44100);
    recorder.capture(&[1, 2, 3], 1);
    meter.store(level(-20.0), level(-10.0));

    assert!(!recorder.start(&mut meter));
    assert_eq!(current_level(&meter), (level(-20.0), level(-10.0)));
    let bytes = recorder.stop(&mut meter).unwrap();
    assert_eq!(bytes.len(), WAV_HEADER_LEN + 6);
    assert_eq!(u32::from_le_bytes([bytes[24], bytes[25], bytes[26], bytes[27]]), 44100);
}

#[test]
fn a_new_start_forgets_the_previous_recording() {
    let mut meter = LevelMeter::new();
    let mut recorder = AudioRecorder::default();
    recorder.start(&mut meter);
    recorder.set_sample_rate(8000);
    recorder.capture(&[1, 2, 3, 4], 2);
    recorder.stop(&mut meter).unwrap();

    assert!(recorder.start(&mut meter));
    assert_eq!(current_level(&meter), (SILENT_DB_BITS, SILENT_DB_BITS));
    recorder.capture(&[9], 1);
    let bytes = recorder.stop(&mut meter).unwrap();
    assert_eq!(&bytes[44..], &[9, 0]);
    assert_eq!(
        u32::from_le_bytes([bytes[24], bytes[25], bytes[26], bytes[27]]),
        DEFAULT_SAMPLE_RATE
    );
}

#[test]
fn stopping_resets_the_meter_and_fails_without_samples() {
    let mut meter = LevelMeter::new();
    let mut recorder = AudioRecorder::default();
    recorder.start(&mut meter);
    meter.store(level(-5.0), level(-1.0));
    assert_eq!(recorder.stop(&mut meter).unwrap_err(), "No audio captured");
    assert_eq!(current_level(&meter), (SILENT_DB_BITS, SILENT_DB_BITS));
    assert!(!is_recording(&meter));
}

#[test]
fn samples_are_dropped_while_capture_is_off() {
    let mut meter = LevelMeter::new();
    let mut recorder = AudioRecorder::default();
    let stats = recorder.capture(&[1, 2, 3], 1);
    assert_eq!(stats, FrameStats { frames: 0, sum_squares: 0, peak: 0 });
    recorder.start(&mut meter);
    recorder.capture(&[4], 1);
    recorder.halt(&mut meter);
    assert!(!is_recording(&meter));
    recorder.capture(&[5], 1);
    let bytes = recorder.stop(&mut meter).unwrap();
    assert_eq!(&bytes[44..], &[4, 0]);
}

#[test]
fn only_three_sample_formats_are_understood() {
    assert!(check_sample_kind(SampleKind::Signed16).is_ok());
    assert!(check_sample_kind(SampleKind::Unsigned16).is_ok());
    assert!(check_sample_kind(SampleKind::Float32).is_ok());
    assert_eq!(
        check_sample_kind(SampleKind::Other).unwrap_err(),
        "Unsupported sample format"
    );
}

#[test]
fn the_recorder_tells_whether_it_captures() {
    let mut meter = LevelMeter::new();
    let mut recorder = AudioRecorder::default();
    assert!(!recorder.is_capturing());
    recorder.start(&mut meter);
    assert!(recorder.is_capturing());
    recorder.halt(&mut meter);
    assert!(!recorder.is_capturing());
}
