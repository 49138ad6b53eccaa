use fm_synth::analyser::{SpectralAnalyser, DEFAULT_WINDOW_SIZE};
use fm_synth::engine::{FmOsc, OscId, Oscillator};
use fm_synth::gain::{clamp_gain, GAIN_UNIT};
use fm_synth::matrix::{ModulationMatrix, Path, PATH_GAIN_PER_HZ, RATIO_UNIT};
use fm_synth::pitch::{midi_to_freq, MICRO_HZ};
use fm_synth::waveform::{parse_waveform, Waveform};

const ALL_PATHS: [Path; 4] = [Path::OneToOne, Path::OneToTwo, Path::TwoToOne, Path::TwoToTwo];

fn hz(f: i64) -> i64 {
    f * MICRO_HZ
}

#[test]
fn concert_pitch_is_440_hz() {
    assert_eq!(midi_to_freq(69), 440_000_000);
    assert_eq!(midi_to_freq(81), 880_000_000);
    assert_eq!(midi_to_freq(57), 220_000_000);
    assert_eq!(midi_to_freq(21), 27_500_000);
}

#[test]
fn pitch_table_edges() {
    assert_eq!(midi_to_freq(0), 8_175_799);
    assert_eq!(midi_to_freq(60), 261_625_568);
    assert_eq!(midi_to_freq(255), 9_722_718 * (1u64 << 21));
}

#[test]
fn pitch_is_increasing_over_all_notes() {
    for note in 0u8..255 {
        assert!(midi_to_freq(note) < midi_to_freq(note + 1), "note {}", note);
    }
}

#[test]
fn pitch_near_equal_temperament() {
    for note in 0u8..=255 {
        let exact = 27.5f64 * 2f64.powf((note as f64 - 21.0) / 12.0) * 1e6;
        let got = midi_to_freq(note) as f64;
        assert!((got - exact).abs() / exact < 1e-6, "note {}", note);
    }
}

#[test]
fn clamp_keeps_gain_in_unit_range() {
    assert_eq!(clamp_gain(-5 * GAIN_UNIT), 0);
    assert_eq!(clamp_gain(5 * GAIN_UNIT), GAIN_UNIT as u32);
    assert_eq!(clamp_gain(370_000), 370_000);
    assert_eq!(clamp_gain(0), 0);
    assert_eq!(clamp_gain(GAIN_UNIT), GAIN_UNIT as u32);
    assert_eq!(clamp_gain(i64::MIN), 0);
    assert_eq!(clamp_gain(i64::MAX), GAIN_UNIT as u32);
    for g in [-1_000_001i64, -1, 1, 999_999, 1_000_001, 123_456_789] {
        let r = clamp_gain(g) as i64;
        assert!(0 <= r && r <= GAIN_UNIT);
    }
}

#[test]
fn wave_names() {
    assert_eq!(parse_waveform("sin"), Waveform::Sine);
    assert_eq!(parse_waveform("tri"), Waveform::Triangle);
    assert_eq!(parse_waveform("sqr"), Waveform::Square);
    assert_eq!(parse_waveform("saw"), Waveform::Sawtooth);
    assert_eq!(parse_waveform("xyz"), Waveform::Unrecognized);
    assert_eq!(parse_waveform(""), Waveform::Unrecognized);
    assert_eq!(parse_waveform("sine"), Waveform::Unrecognized);
    assert_eq!(parse_waveform("SIN"), Waveform::Unrecognized);
    assert_eq!(parse_waveform("sí"), Waveform::Unrecognized);
}

#[test]
fn new_engine_is_silent() {
    let e = FmOsc::new();
    let silent = Oscillator { waveform: Waveform::Sine, frequency: 0, gain: 0, bypass: 0 };
    assert_eq!(e.base_freq, 0);
    assert_eq!(e.osc1, silent);
    assert_eq!(e.osc2, silent);
    assert_eq!(e.matrix, ModulationMatrix::new());
    assert_eq!(e.master_gain, 0);
    assert_eq!(e.analyser.window_size, DEFAULT_WINDOW_SIZE);
    assert!(!e.closed);
}

#[test]
fn coefficient_is_not_clamped() {
    let mut e = FmOsc::new();
    e.set_osc_frequency(hz(100));
    e.set_fm1to1(5 * RATIO_UNIT);
    assert_eq!(e.matrix.ratio_of(Path::OneToOne), 5 * RATIO_UNIT);
    assert_eq!(e.matrix.gain_of(Path::OneToOne), 500 * PATH_GAIN_PER_HZ);
}

#[test]
fn recompute_scales_path_gain() {
    let mut m = ModulationMatrix::new();
    m.set_ratio(Path::TwoToTwo, 5 * RATIO_UNIT);
    assert_eq!(m.gain_of(Path::TwoToTwo), 0);
    m.recompute(hz(100));
    assert_eq!(m.gain_of(Path::TwoToTwo), 500 * PATH_GAIN_PER_HZ);
    assert_eq!(m.gain_of(Path::OneToOne), 0);
}

#[test]
fn negative_frequency_is_accepted() {
    let mut e = FmOsc::new();
    e.set_fm2to1(RATIO_UNIT);
    e.set_osc_frequency(hz(-3));
    assert_eq!(e.base_freq, hz(-3));
    assert_eq!(e.osc1.frequency, hz(-3));
    assert_eq!(e.osc2.frequency, hz(-3));
    assert_eq!(e.matrix.gain_of(Path::TwoToOne), -3 * PATH_GAIN_PER_HZ);
}

#[test]
fn close_twice_releases_once() {
    let mut e = FmOsc::new();
    assert!(e.close());
    let after_first = e;
    assert!(!e.close());
    assert_eq!(e, after_first);
    assert!(e.closed);
}

#[test]
fn note_change_scales_all_paths() {
    let mut e = FmOsc::new();
    e.set_fm1to1(250_000);
    e.set_fm1to2(1_500_000);
    e.set_fm2to1(-750_000);
    e.set_fm2to2(3 * RATIO_UNIT);
    e.set_note(57);
    let before: Vec<i128> = ALL_PATHS.iter().map(|p| e.matrix.gain_of(*p)).collect();
    let f1 = e.base_freq as i128;
    e.set_note(64);
    let f2 = e.base_freq as i128;
    for (i, p) in ALL_PATHS.iter().enumerate() {
        let after = e.matrix.gain_of(*p);
        assert_eq!(after * f1, before[i] * f2);
        assert_eq!(after, e.matrix.ratio_of(*p) as i128 * f2);
    }
}

#[test]
fn each_fm_setter_touches_its_own_path() {
    let mut e = FmOsc::new();
    e.set_note(69);
    e.set_fm1to1(1);
    e.set_fm1to2(2);
    e.set_fm2to1(3);
    e.set_fm2to2(4);
    for (i, p) in ALL_PATHS.iter().enumerate() {
        assert_eq!(e.matrix.ratio_of(*p), i as i64 + 1);
        assert_eq!(e.matrix.gain_of(*p), (i as i128 + 1) * 440_000_000);
    }
}

#[test]
fn analyser_buffer_is_half_the_window() {
    let a = SpectralAnalyser::new();
    assert_eq!(a.buffer_length(), 1024);
    for _ in 0..2 {
        let time = a.snapshot_buffer();
        let freq = a.snapshot_buffer();
        assert_eq!(time.len(), 1024);
        assert_eq!(freq.len(), 1024);
    }
    let e = FmOsc::new();
    assert_eq!(e.get_buffer_length(), DEFAULT_WINDOW_SIZE / 2);
}

#[test]
fn analyser_window_must_be_power_of_two() {
    assert_eq!(SpectralAnalyser::with_window_size(0), None);
    assert_eq!(SpectralAnalyser::with_window_size(1), None);
    assert_eq!(SpectralAnalyser::with_window_size(1000), None);
    assert_eq!(SpectralAnalyser::with_window_size(3 << 10), None);
    assert_eq!(SpectralAnalyser::with_window_size(u32::MAX), None);
    let a = SpectralAnalyser::with_window_size(2).unwrap();
    assert_eq!(a.buffer_length(), 1);
    assert_eq!(a.snapshot_buffer(), vec![0u8]);
    let b = SpectralAnalyser::with_window_size(1 << 31).unwrap();
    assert_eq!(b.buffer_length(), 1 << 30);
    assert_eq!(SpectralAnalyser::with_window_size(32768).unwrap().buffer_length(), 16384);
}

#[test]
fn note_then_coefficient_then_note() {
    let mut e = FmOsc::new();
    e.set_note(69);
    assert_eq!(e.base_freq, hz(440));
    e.set_fm_coefficient(Path::OneToTwo, RATIO_UNIT / 2);
    assert_eq!(e.matrix.gain_of(Path::OneToTwo), 220 * PATH_GAIN_PER_HZ);
    e.set_note(81);
    assert_eq!(e.base_freq, hz(880));
    assert_eq!(e.matrix.gain_of(Path::OneToTwo), 440 * PATH_GAIN_PER_HZ);
}

#[test]
fn unknown_wave_name_keeps_frequency_and_gain() {
    let mut e = FmOsc::new();
    e.set_note(60);
    e.set_osc1_gain(400_000);
    e.set_osc1_bypass(600_000);
    e.set_osc1_wave_type("sqr");
    assert_eq!(e.osc1.waveform, Waveform::Square);
    let before = e;
    e.set_osc1_wave_type("xyz");
    assert_eq!(e.osc1.waveform, Waveform::Unrecognized);
    assert_eq!(e.osc1.frequency, before.osc1.frequency);
    assert_eq!(e.osc1.gain, 400_000);
    assert_eq!(e.osc1.bypass, 600_000);
    assert_eq!(e.osc2, before.osc2);
}

#[test]
fn oscillator_setters_are_per_slot() {
    let mut e = FmOsc::new();
    e.set_osc1_gain(300_000);
    e.set_osc2_gain(700_000);
    e.set_osc2_bypass(-1);
    e.set_osc1_bypass(2 * GAIN_UNIT);
    e.set_osc2_wave_type("saw");
    e.set_waveform(OscId::Osc1, Waveform::Custom);
    assert_eq!(e.osc1.gain, 300_000);
    assert_eq!(e.osc2.gain, 700_000);
    assert_eq!(e.osc1.bypass, GAIN_UNIT as u32);
    assert_eq!(e.osc2.bypass, 0);
    assert_eq!(e.osc1.waveform, Waveform::Custom);
    assert_eq!(e.osc2.waveform, Waveform::Sawtooth);
    e.set_gain(OscId::Osc1, -7);
    e.set_bypass(OscId::Osc2, 250_000);
    e.set_wave_type(OscId::Osc2, "tri");
    assert_eq!(e.osc1.gain, 0);
    assert_eq!(e.osc2.bypass, 250_000);
    assert_eq!(e.osc2.waveform, Waveform::Triangle);
}

#[test]
fn master_gain_is_clamped() {
    let mut e = FmOsc::new();
    e.set_ms_gain(5 * GAIN_UNIT);
    assert_eq!(e.master_gain, GAIN_UNIT as u32);
    e.set_ms_gain(-5 * GAIN_UNIT);
    assert_eq!(e.master_gain, 0);
    e.set_ms_gain(370_000);
    assert_eq!(e.master_gain, 370_000);
}

#[test]
fn adjust_matrix_follows_base_frequency() {
    let mut e = FmOsc::new();
    e.set_note(69);
    e.matrix.set_ratio(Path::TwoToTwo, 2 * RATIO_UNIT);
    e.adjust_fm_matrix();
    assert_eq!(e.matrix.gain_of(Path::TwoToTwo), 880 * PATH_GAIN_PER_HZ);
}
