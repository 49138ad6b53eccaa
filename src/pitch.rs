//! Note numbers to frequencies in equal temperament, with A4 (note 69) at
//! 440 Hz. Frequencies are integers in micro-hertz.
use vstd::prelude::*;

verus! {

/// Micro-hertz in one hertz.
pub const MICRO_HZ: i64 = 1_000_000;

/// Frequency in micro-hertz of each of the twelve notes 0 to 11 (C-1 to B-1),
/// rounded to the nearest micro-hertz. Note 9 (A-1) is exactly 13.75 Hz.
pub open spec fn lowest_octave_uhz(pitch_class: int) -> int {
    if pitch_class == 0 {
        8_175_799
    } else if pitch_class == 1 {
        8_661_957
    } else if pitch_class == 2 {
        9_177_024
    } else if pitch_class == 3 {
        9_722_718
    } else if pitch_class == 4 {
        10_300_861
    } else if pitch_class == 5 {
        10_913_382
    } else if pitch_class == 6 {
        11_562_326
    } else if pitch_class == 7 {
        12_249_857
    } else if pitch_class == 8 {
        12_978_272
    } else if pitch_class == 9 {
        13_750_000
    } else if pitch_class == 10 {
        14_567_618
    } else {
        15_433_853
    }
}

/// Two to the power `octave`.
pub open spec fn octave_factor(octave: nat) -> nat
    decreases octave,
{
    if octave == 0 {
        1
    } else {
        2 * octave_factor((octave - 1) as nat)
    }
}

/// Frequency in micro-hertz of `note`: the note of the same pitch class in
/// the lowest octave, doubled once per octave above it.
pub open spec fn pitch_uhz(note: int) -> int {
    lowest_octave_uhz(note % 12) * octave_factor((note / 12) as nat)
}

fn lowest_octave_frequency(pitch_class: u8) -> (r: u64)
    requires
        pitch_class < 12,
    ensures
        r == lowest_octave_uhz(pitch_class as int),
{
    match pitch_class {
        0 => 8_175_799,
        1 => 8_661_957,
        2 => 9_177_024,
        3 => 9_722_718,
        4 => 10_300_861,
        5 => 10_913_382,
        6 => 11_562_326,
        7 => 12_249_857,
        8 => 12_978_272,
        9 => 13_750_000,
        10 => 14_567_618,
        _ => 15_433_853,
    }
}

proof fn lemma_octave_factor_bound(octave: nat)
    requires
        octave <= 21,
    ensures
        1 <= octave_factor(octave) <= 0x20_0000,
{
    reveal_with_fuel(octave_factor, 22);
    assert(octave_factor(21) == 0x20_0000);
    lemma_octave_factor_monotone(0, octave);
    lemma_octave_factor_monotone(octave, 21);
}

/// Converts a note number to its frequency in micro-hertz. Every `u8` is
/// accepted; the usual piano range is 21 to 108.
pub fn midi_to_freq(note: u8) -> (r: u64)
    ensures
        r == pitch_uhz(note as int),
        r < 0x40_0000_0000_0000,
{
    let octave: u8 = note / 12;
    let mut r: u64 = lowest_octave_frequency(note % 12);
    let mut i: u8 = 0;
    proof {
        lemma_octave_factor_bound(octave as nat);
    }
    while i < octave
        invariant
            i <= octave <= 21,
            r == lowest_octave_uhz(note as int % 12) * octave_factor(i as nat),
            octave_factor(octave as nat) <= 0x20_0000,
        decreases octave - i,
    {
        proof {
            lemma_octave_factor_monotone((i + 1) as nat, octave as nat);
            let base = lowest_octave_uhz(note as int % 12);
            let f = octave_factor(i as nat);
            assert(base <= 15_433_853);
            assert(octave_factor((i + 1) as nat) == 2 * f);
            assert(2 * (base * f) == base * (2 * f) && 2 * (base * f) <= 15_433_853 * 0x20_0000)
                by (nonlinear_arith)
                requires
                    0 <= base <= 15_433_853,
                    0 <= 2 * f <= 0x20_0000,
            ;
        }
        r = r * 2;
        i = i + 1;
    }
    r
}

proof fn lemma_octave_factor_monotone(a: nat, b: nat)
    requires
        a <= b,
    ensures
        octave_factor(a) <= octave_factor(b),
    decreases b - a,
{
    if a < b {
        lemma_octave_factor_monotone(a, (b - 1) as nat);
    }
}

proof fn lemma_pitch_step(note: int)
    requires
        0 <= note,
    ensures
        pitch_uhz(note) < pitch_uhz(note + 1),
{
    let q = (note / 12) as nat;
    let f = octave_factor(q);
    assert(f >= 1) by {
        lemma_octave_factor_monotone(0, q);
    }
    if note % 12 == 11 {
        assert((note + 1) % 12 == 0 && (note + 1) / 12 == q + 1);
        assert(octave_factor(q + 1) == 2 * f);
        assert(15_433_853 * f < 8_175_799 * (2 * f)) by (nonlinear_arith)
            requires
                f >= 1,
        ;
    } else {
        assert((note + 1) % 12 == note % 12 + 1 && (note + 1) / 12 == q);
        let a = lowest_octave_uhz(note % 12);
        let b = lowest_octave_uhz(note % 12 + 1);
        assert(a < b);
        assert(a * f < b * f) by (nonlinear_arith)
            requires
                a < b,
                f >= 1,
        ;
    }
}

/// A higher note never has a lower frequency: `midi_to_freq` is strictly
/// increasing over all of `u8`.
pub proof fn lemma_pitch_increasing(lo: u8, hi: u8)
    requires
        lo < hi,
    ensures
        pitch_uhz(lo as int) < pitch_uhz(hi as int),
    decreases hi - lo,
{
    lemma_pitch_step(hi as int - 1);
    if lo + 1 < hi {
        lemma_pitch_increasing(lo, (hi - 1) as u8);
    }
}

/// A4 (note 69) sounds at exactly 440 Hz, and every A is an exact power of
/// two times 13.75 Hz.
pub proof fn lemma_concert_pitch(note: u8)
    ensures
        pitch_uhz(69) == 440 * MICRO_HZ,
        note % 12 == 9 ==> pitch_uhz(note as int) == 13_750_000 * octave_factor(
            (note / 12) as nat,
        ),
{
    reveal_with_fuel(octave_factor, 6);
    assert(octave_factor(5) == 32);
}

} // verus!
