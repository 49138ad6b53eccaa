//! The synthesizer's parameter state: two oscillators, the modulation matrix
//! between them, the master gain and the analysis tap. The audio host reads
//! this state to drive its graph; every setter leaves it consistent.
use vstd::prelude::*;

use crate::analyser::{SpectralAnalyser, DEFAULT_WINDOW_SIZE};
use crate::gain::{clamp_gain, clamped, GAIN_UNIT};
use crate::matrix::{lemma_path_gain_proportional, path_gain, ModulationMatrix, Path};
use crate::pitch::{midi_to_freq, pitch_uhz};
use crate::waveform::{parse_waveform, waveform_named, Waveform};

verus! {

/// One of the engine's two oscillator slots.
#[derive(Clone, Copy, Debug, PartialEq, Eq, Structural)]
pub enum OscId {
    Osc1,
    Osc2,
}

/// The parameters of one oscillator: its shape, its frequency in
/// micro-hertz, the gain into the modulation matrix and the gain of its
/// direct (bypass) path to the master bus, both in parts of `GAIN_UNIT`.
#[derive(Clone, Copy, Debug, PartialEq, Eq, Structural)]
pub struct Oscillator {
    pub waveform: Waveform,
    pub frequency: i64,
    pub gain: u32,
    pub bypass: u32,
}

impl Oscillator {
    /// Both gains lie in `[0, GAIN_UNIT]`.
    pub open spec fn wf(&self) -> bool {
        self.gain <= GAIN_UNIT && self.bypass <= GAIN_UNIT
    }
}

/// An oscillator as the engine starts it: a silent sine at 0 Hz.
pub open spec fn initial_oscillator() -> Oscillator {
    Oscillator { waveform: Waveform::Sine, frequency: 0, gain: 0, bypass: 0 }
}

/// The state of one FM synthesizer.
#[derive(Clone, Copy, Debug, PartialEq, Eq, Structural)]
pub struct FmOsc {
    /// The last frequency set by a note or directly, in micro-hertz.
    pub base_freq: i64,
    pub osc1: Oscillator,
    pub osc2: Oscillator,
    pub matrix: ModulationMatrix,
    /// Gain of the master bus, in parts of `GAIN_UNIT`.
    pub master_gain: u32,
    pub analyser: SpectralAnalyser,
    /// Whether the audio resources have been released.
    pub closed: bool,
}

impl FmOsc {
    /// Gains are in range and the analyser window is valid.
    pub open spec fn settings_wf(&self) -> bool {
        &&& self.osc1.wf()
        &&& self.osc2.wf()
        &&& self.master_gain <= GAIN_UNIT
        &&& self.analyser.wf()
    }

    /// The settings are valid and every path gain of the matrix is derived
    /// from the current base frequency.
    pub open spec fn wf(&self) -> bool {
        &&& self.settings_wf()
        &&& self.matrix.in_tune_with(self.base_freq as int)
    }

    /// The oscillator in slot `id`.
    pub open spec fn osc(&self, id: OscId) -> Oscillator {
        match id {
            OscId::Osc1 => self.osc1,
            OscId::Osc2 => self.osc2,
        }
    }

    /// This state with the oscillator in slot `id` replaced by `o`.
    pub open spec fn with_osc(self, id: OscId, o: Oscillator) -> FmOsc {
        match id {
            OscId::Osc1 => FmOsc { osc1: o, ..self },
            OscId::Osc2 => FmOsc { osc2: o, ..self },
        }
    }

    /// This state retuned to `freq`: the base frequency and both oscillators
    /// at `freq`, with the matrix `m`.
    pub open spec fn retuned(self, freq: i64, m: ModulationMatrix) -> FmOsc {
        FmOsc {
            base_freq: freq,
            osc1: Oscillator { frequency: freq, ..self.osc1 },
            osc2: Oscillator { frequency: freq, ..self.osc2 },
            matrix: m,
            ..self
        }
    }

    /// A new engine: base frequency 0, both oscillators silent sines at
    /// 0 Hz, all coupling ratios 0, the master bus muted, the default
    /// analysis window, and not closed.
    pub fn new() -> (e: FmOsc)
        ensures
            e.wf(),
            e.base_freq == 0,
            e.osc1 == initial_oscillator(),
            e.osc2 == initial_oscillator(),
            forall|p: Path| e.matrix.ratio(p) == 0 && e.matrix.gain(p) == 0,
            e.master_gain == 0,
            e.analyser.window_size == DEFAULT_WINDOW_SIZE,
            !e.closed,
    {
        let o = Oscillator { waveform: Waveform::Sine, frequency: 0, gain: 0, bypass: 0 };
        let m = ModulationMatrix::new();
        let e = FmOsc {
            base_freq: 0,
            osc1: o,
            osc2: o,
            matrix: m,
            master_gain: 0,
            analyser: SpectralAnalyser::new(),
            closed: false,
        };
        assert(forall|p: Path| #[trigger] m.gain(p) == path_gain(m.ratio(p), 0));
        e
    }

    fn replace_osc(&mut self, id: OscId, o: Oscillator)
        ensures
            *final(self) == old(self).with_osc(id, o),
    {
        match id {
            OscId::Osc1 => self.osc1 = o,
            OscId::Osc2 => self.osc2 = o,
        }
    }

    fn osc_of(&self, id: OscId) -> (o: Oscillator)
        ensures
            o == self.osc(id),
    {
        match id {
            OscId::Osc1 => self.osc1,
            OscId::Osc2 => self.osc2,
        }
    }

    /// Selects the shape of oscillator `id`; its frequency and gains stay.
    pub fn set_waveform(&mut self, id: OscId, w: Waveform)
        requires
            old(self).wf(),
        ensures
            final(self).wf(),
            *final(self) == old(self).with_osc(id, Oscillator { waveform: w, ..old(self).osc(id) }),
    {
        let o = self.osc_of(id);
        self.replace_osc(id, Oscillator { waveform: w, ..o });
    }

    /// Selects the shape of oscillator `id` by name ("sin", "tri", "sqr",
    /// "saw"). Any other name is accepted and leaves the oscillator in the
    /// `Unrecognized` state, with its frequency and gains unchanged.
    pub fn set_wave_type(&mut self, id: OscId, wave: &str)
        requires
            old(self).wf(),
        ensures
            final(self).wf(),
            *final(self) == old(self).with_osc(
                id,
                Oscillator { waveform: waveform_named(wave@), ..old(self).osc(id) },
            ),
    {
        let w = parse_waveform(wave);
        self.set_waveform(id, w);
    }

    /// Selects the shape of the first oscillator by name.
    pub fn set_osc1_wave_type(&mut self, wave: &str)
        requires
            old(self).wf(),
        ensures
            final(self).wf(),
            *final(self) == (FmOsc {
                osc1: Oscillator { waveform: waveform_named(wave@), ..old(self).osc1 },
                ..*old(self)
            }),
    {
        self.set_wave_type(OscId::Osc1, wave);
    }

    /// Selects the shape of the second oscillator by name.
    pub fn set_osc2_wave_type(&mut self, wave: &str)
        requires
            old(self).wf(),
        ensures
            final(self).wf(),
            *final(self) == (FmOsc {
                osc2: Oscillator { waveform: waveform_named(wave@), ..old(self).osc2 },
                ..*old(self)
            }),
    {
        self.set_wave_type(OscId::Osc2, wave);
    }

    /// Sets the gain of oscillator `id` into the modulation matrix, clamped
    /// to `[0, GAIN_UNIT]`.
    pub fn set_gain(&mut self, id: OscId, gain: i64)
        requires
            old(self).wf(),
        ensures
            final(self).wf(),
            *final(self) == old(self).with_osc(
                id,
                Oscillator { gain: clamped(gain as int) as u32, ..old(self).osc(id) },
            ),
    {
        let g = clamp_gain(gain);
        let o = self.osc_of(id);
        self.replace_osc(id, Oscillator { gain: g, ..o });
    }

    /// Sets the gain of the direct path of oscillator `id` to the master
    /// bus, clamped to `[0, GAIN_UNIT]`.
    pub fn set_bypass(&mut self, id: OscId, gain: i64)
        requires
            old(self).wf(),
        ensures
            final(self).wf(),
            *final(self) == old(self).with_osc(
                id,
                Oscillator { bypass: clamped(gain as int) as u32, ..old(self).osc(id) },
            ),
    {
        let g = clamp_gain(gain);
        let o = self.osc_of(id);
        self.replace_osc(id, Oscillator { bypass: g, ..o });
    }

    /// Sets the first oscillator's gain, clamped to `[0, GAIN_UNIT]`.
    pub fn set_osc1_gain(&mut self, gain: i64)
        requires
            old(self).wf(),
        ensures
            final(self).wf(),
            *final(self) == (FmOsc {
                osc1: Oscillator { gain: clamped(gain as int) as u32, ..old(self).osc1 },
                ..*old(self)
            }),
    {
        self.set_gain(OscId::Osc1, gain);
    }

    /// Sets the second oscillator's gain, clamped to `[0, GAIN_UNIT]`.
    pub fn set_osc2_gain(&mut self, gain: i64)
        requires
            old(self).wf(),
        ensures
            final(self).wf(),
            *final(self) == (FmOsc {
                osc2: Oscillator { gain: clamped(gain as int) as u32, ..old(self).osc2 },
                ..*old(self)
            }),
    {
        self.set_gain(OscId::Osc2, gain);
    }

    /// Sets the first oscillator's bypass gain, clamped to `[0, GAIN_UNIT]`.
    pub fn set_osc1_bypass(&mut self, gain: i64)
        requires
            old(self).wf(),
        ensures
            final(self).wf(),
            *final(self) == (FmOsc {
                osc1: Oscillator { bypass: clamped(gain as int) as u32, ..old(self).osc1 },
                ..*old(self)
            }),
    {
        self.set_bypass(OscId::Osc1, gain);
    }

    /// Sets the second oscillator's bypass gain, clamped to `[0, GAIN_UNIT]`.
    pub fn set_osc2_bypass(&mut self, gain: i64)
        requires
            old(self).wf(),
        ensures
            final(self).wf(),
            *final(self) == (FmOsc {
                osc2: Oscillator { bypass: clamped(gain as int) as u32, ..old(self).osc2 },
                ..*old(self)
            }),
    {
        self.set_bypass(OscId::Osc2, gain);
    }

    /// Sets the master bus gain, clamped to `[0, GAIN_UNIT]`.
    pub fn set_ms_gain(&mut self, gain: i64)
        requires
            old(self).wf(),
        ensures
            final(self).wf(),
            *final(self) == (FmOsc { master_gain: clamped(gain as int) as u32, ..*old(self) }),
    {
        self.master_gain = clamp_gain(gain);
    }

    /// Rewrites all four path gains from their ratios and the current base
    /// frequency.
    pub fn adjust_fm_matrix(&mut self)
        requires
            old(self).settings_wf(),
        ensures
            final(self).wf(),
            forall|p: Path| #[trigger] final(self).matrix.ratio(p) == old(self).matrix.ratio(p),
            *final(self) == (FmOsc { matrix: final(self).matrix, ..*old(self) }),
    {
        let f = self.base_freq;
        self.matrix.recompute(f);
    }

    /// Sets the base frequency and both oscillators to `freq` (micro-hertz,
    /// any sign), then rewrites all four path gains for it.
    pub fn set_osc_frequency(&mut self, freq: i64)
        requires
            old(self).wf(),
        ensures
            final(self).wf(),
            final(self).base_freq == freq,
            forall|p: Path| #[trigger] final(self).matrix.ratio(p) == old(self).matrix.ratio(p),
            *final(self) == old(self).retuned(freq, final(self).matrix),
    {
        self.base_freq = freq;
        self.osc1.frequency = freq;
        self.osc2.frequency = freq;
        self.adjust_fm_matrix();
    }

    /// Tunes the engine to `note`: the base frequency and both oscillators go
    /// to the note's frequency, and all four path gains follow.
    pub fn set_note(&mut self, note: u8)
        requires
            old(self).wf(),
        ensures
            final(self).wf(),
            final(self).base_freq == pitch_uhz(note as int),
            forall|p: Path| #[trigger] final(self).matrix.ratio(p) == old(self).matrix.ratio(p),
            *final(self) == old(self).retuned(final(self).base_freq, final(self).matrix),
    {
        let freq = midi_to_freq(note);
        self.set_osc_frequency(freq as i64);
    }

    /// Sets the coupling ratio of path `p` (in parts of `RATIO_UNIT`, not
    /// clamped), then rewrites all four path gains from the base frequency.
    pub fn set_fm_coefficient(&mut self, p: Path, ratio: i64)
        requires
            old(self).wf(),
        ensures
            final(self).wf(),
            final(self).matrix.ratio(p) == ratio,
            forall|q: Path|
                q != p ==> #[trigger] final(self).matrix.ratio(q) == old(self).matrix.ratio(q),
            *final(self) == (FmOsc { matrix: final(self).matrix, ..*old(self) }),
    {
        self.matrix.set_ratio(p, ratio);
        self.adjust_fm_matrix();
    }

    /// Sets how strongly the first oscillator modulates itself.
    pub fn set_fm1to1(&mut self, ratio: i64)
        requires
            old(self).wf(),
        ensures
            final(self).wf(),
            final(self).matrix.ratio(Path::OneToOne) == ratio,
            forall|q: Path|
                q != Path::OneToOne ==> #[trigger] final(self).matrix.ratio(q) == old(
                    self,
                ).matrix.ratio(q),
            *final(self) == (FmOsc { matrix: final(self).matrix, ..*old(self) }),
    {
        self.set_fm_coefficient(Path::OneToOne, ratio);
    }

    /// Sets how strongly the first oscillator modulates the second.
    pub fn set_fm1to2(&mut self, ratio: i64)
        requires
            old(self).wf(),
        ensures
            final(self).wf(),
            final(self).matrix.ratio(Path::OneToTwo) == ratio,
            forall|q: Path|
                q != Path::OneToTwo ==> #[trigger] final(self).matrix.ratio(q) == old(
                    self,
                ).matrix.ratio(q),
            *final(self) == (FmOsc { matrix: final(self).matrix, ..*old(self) }),
    {
        self.set_fm_coefficient(Path::OneToTwo, ratio);
    }

    /// Sets how strongly the second oscillator modulates the first.
    pub fn set_fm2to1(&mut self, ratio: i64)
        requires
            old(self).wf(),
        ensures
            final(self).wf(),
            final(self).matrix.ratio(Path::TwoToOne) == ratio,
            forall|q: Path|
                q != Path::TwoToOne ==> #[trigger] final(self).matrix.ratio(q) == old(
                    self,
                ).matrix.ratio(q),
            *final(self) == (FmOsc { matrix: final(self).matrix, ..*old(self) }),
    {
        self.set_fm_coefficient(Path::TwoToOne, ratio);
    }

    /// Sets how strongly the second oscillator modulates itself.
    pub fn set_fm2to2(&mut self, ratio: i64)
        requires
            old(self).wf(),
        ensures
            final(self).wf(),
            final(self).matrix.ratio(Path::TwoToTwo) == ratio,
            forall|q: Path|
                q != Path::TwoToTwo ==> #[trigger] final(self).matrix.ratio(q) == old(
                    self,
                ).matrix.ratio(q),
            *final(self) == (FmOsc { matrix: final(self).matrix, ..*old(self) }),
    {
        self.set_fm_coefficient(Path::TwoToTwo, ratio);
    }

    /// Number of byte samples in each analyser snapshot: half the window.
    pub fn get_buffer_length(&self) -> (r: u32)
        requires
            self.wf(),
        ensures
            r == self.analyser.window_size / 2,
    {
        self.analyser.buffer_length()
    }

    /// Marks the engine closed. Returns `true` on the first call, when the
    /// caller must release the audio resources, and `false` on every later
    /// call, which changes nothing.
    pub fn close(&mut self) -> (release: bool)
        ensures
            release == !old(self).closed,
            *final(self) == closed_state(*old(self)),
    {
        let release = !self.closed;
        self.closed = true;
        release
    }
}

/// Retuning keeps the matrix consistent: between two well-formed states
/// with the same coupling ratios (as before and after `set_note` or
/// `set_osc_frequency`), every path gain changes in proportion to the base
/// frequency.
pub proof fn lemma_retune_scales_all_paths(before: FmOsc, after: FmOsc)
    requires
        before.wf(),
        after.wf(),
        forall|p: Path| #[trigger] after.matrix.ratio(p) == before.matrix.ratio(p),
    ensures
        forall|p: Path|
            #[trigger] after.matrix.gain(p) * before.base_freq == before.matrix.gain(p)
                * after.base_freq,
{
    assert forall|p: Path|
        #[trigger] after.matrix.gain(p) * before.base_freq == before.matrix.gain(p)
            * after.base_freq by {
        assert(after.matrix.gain(p) == path_gain(after.matrix.ratio(p), after.base_freq as int));
        assert(before.matrix.gain(p) == path_gain(before.matrix.ratio(p), before.base_freq as int));
        lemma_path_gain_proportional(
            before.matrix.ratio(p),
            after.base_freq as int,
            before.base_freq as int,
        );
    }
}

/// The state that `close` leaves behind `e`.
pub open spec fn closed_state(e: FmOsc) -> FmOsc {
    FmOsc { closed: true, ..e }
}

/// Closing is idempotent: a second close finds the engine closed, so it asks
/// for no second release and leaves the state as the first close left it.
pub proof fn lemma_close_idempotent(e: FmOsc)
    ensures
        closed_state(e).closed,
        closed_state(closed_state(e)) == closed_state(e),
{
}

} // verus!
