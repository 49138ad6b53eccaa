//! The FM cross-modulation matrix: four coupling ratios, one per routing
//! path, each scaled by the base frequency into the gain of its path.
use vstd::prelude::*;

verus! {

/// Fixed-point parts that make a coupling ratio of exactly 1.0.
pub const RATIO_UNIT: i64 = 1_000_000;

/// A path gain is a ratio in parts of `RATIO_UNIT` times a frequency in
/// micro-hertz, so this many units make one hertz.
pub const PATH_GAIN_PER_HZ: i128 = 1_000_000_000_000;

/// One routing path: the oscillator whose output is taken, then the
/// oscillator whose frequency input it drives.
#[derive(Clone, Copy, Debug, PartialEq, Eq, Structural)]
pub enum Path {
    OneToOne,
    OneToTwo,
    TwoToOne,
    TwoToTwo,
}

/// The gain of a path with coupling ratio `ratio` at base frequency
/// `base_freq`. Ratios are not clamped: a ratio above one is a modulation
/// index above one.
pub open spec fn path_gain(ratio: int, base_freq: int) -> int {
    ratio * base_freq
}

/// The coupling ratios of the four paths and the gains last derived from
/// them.
#[derive(Clone, Copy, Debug, PartialEq, Eq, Structural)]
pub struct ModulationMatrix {
    pub ratio_one_to_one: i64,
    pub ratio_one_to_two: i64,
    pub ratio_two_to_one: i64,
    pub ratio_two_to_two: i64,
    pub gain_one_to_one: i128,
    pub gain_one_to_two: i128,
    pub gain_two_to_one: i128,
    pub gain_two_to_two: i128,
}

impl ModulationMatrix {
    /// The coupling ratio of path `p`.
    pub open spec fn ratio(&self, p: Path) -> int {
        match p {
            Path::OneToOne => self.ratio_one_to_one as int,
            Path::OneToTwo => self.ratio_one_to_two as int,
            Path::TwoToOne => self.ratio_two_to_one as int,
            Path::TwoToTwo => self.ratio_two_to_two as int,
        }
    }

    /// The gain currently applied on path `p`.
    pub open spec fn gain(&self, p: Path) -> int {
        match p {
            Path::OneToOne => self.gain_one_to_one as int,
            Path::OneToTwo => self.gain_one_to_two as int,
            Path::TwoToOne => self.gain_two_to_one as int,
            Path::TwoToTwo => self.gain_two_to_two as int,
        }
    }

    /// Every path gain is its ratio scaled by `base_freq`.
    pub open spec fn in_tune_with(&self, base_freq: int) -> bool {
        forall|p: Path| #[trigger] self.gain(p) == path_gain(self.ratio(p), base_freq)
    }

    /// A matrix with every ratio and every gain at zero.
    pub fn new() -> (m: ModulationMatrix)
        ensures
            forall|p: Path| m.ratio(p) == 0 && m.gain(p) == 0,
    {
        ModulationMatrix {
            ratio_one_to_one: 0,
            ratio_one_to_two: 0,
            ratio_two_to_one: 0,
            ratio_two_to_two: 0,
            gain_one_to_one: 0,
            gain_one_to_two: 0,
            gain_two_to_one: 0,
            gain_two_to_two: 0,
        }
    }

    /// The coupling ratio of path `p`.
    pub fn ratio_of(&self, p: Path) -> (r: i64)
        ensures
            r == self.ratio(p),
    {
        match p {
            Path::OneToOne => self.ratio_one_to_one,
            Path::OneToTwo => self.ratio_one_to_two,
            Path::TwoToOne => self.ratio_two_to_one,
            Path::TwoToTwo => self.ratio_two_to_two,
        }
    }

    /// The gain currently applied on path `p`.
    pub fn gain_of(&self, p: Path) -> (r: i128)
        ensures
            r == self.gain(p),
    {
        match p {
            Path::OneToOne => self.gain_one_to_one,
            Path::OneToTwo => self.gain_one_to_two,
            Path::TwoToOne => self.gain_two_to_one,
            Path::TwoToTwo => self.gain_two_to_two,
        }
    }

    /// Stores `ratio` for path `p` as given, without clamping; the gains are
    /// left for `recompute`.
    pub fn set_ratio(&mut self, p: Path, ratio: i64)
        ensures
            final(self).ratio(p) == ratio,
            forall|q: Path| q != p ==> #[trigger] final(self).ratio(q) == old(self).ratio(q),
            forall|q: Path| #[trigger] final(self).gain(q) == old(self).gain(q),
    {
        match p {
            Path::OneToOne => self.ratio_one_to_one = ratio,
            Path::OneToTwo => self.ratio_one_to_two = ratio,
            Path::TwoToOne => self.ratio_two_to_one = ratio,
            Path::TwoToTwo => self.ratio_two_to_two = ratio,
        }
    }

    /// Rewrites all four path gains from their ratios and `base_freq`
    /// (micro-hertz), used or not.
    pub fn recompute(&mut self, base_freq: i64)
        ensures
            forall|q: Path| #[trigger] final(self).ratio(q) == old(self).ratio(q),
            final(self).in_tune_with(base_freq as int),
    {
        proof {
            lemma_path_gain_fits(self.ratio_one_to_one, base_freq);
            lemma_path_gain_fits(self.ratio_one_to_two, base_freq);
            lemma_path_gain_fits(self.ratio_two_to_one, base_freq);
            lemma_path_gain_fits(self.ratio_two_to_two, base_freq);
        }
        let f = base_freq as i128;
        self.gain_one_to_one = self.ratio_one_to_one as i128 * f;
        self.gain_one_to_two = self.ratio_one_to_two as i128 * f;
        self.gain_two_to_one = self.ratio_two_to_one as i128 * f;
        self.gain_two_to_two = self.ratio_two_to_two as i128 * f;
    }
}

proof fn lemma_path_gain_fits(ratio: i64, base_freq: i64)
    ensures
        i128::MIN <= path_gain(ratio as int, base_freq as int) <= i128::MAX,
{
    let r = ratio as int;
    let f = base_freq as int;
    assert(-0x8000_0000_0000_0000 * 0x8000_0000_0000_0000 <= r * f <= 0x8000_0000_0000_0000
        * 0x8000_0000_0000_0000) by (nonlinear_arith)
        requires
            -0x8000_0000_0000_0000 <= r < 0x8000_0000_0000_0000,
            -0x8000_0000_0000_0000 <= f < 0x8000_0000_0000_0000,
    ;
}

/// Path gains follow the base frequency in proportion: for one ratio, the
/// gains at two base frequencies stand as the frequencies do.
pub proof fn lemma_path_gain_proportional(ratio: int, freq1: int, freq2: int)
    ensures
        path_gain(ratio, freq1) * freq2 == path_gain(ratio, freq2) * freq1,
{
    assert(ratio * freq1 * freq2 == ratio * freq2 * freq1) by (nonlinear_arith);
}

} // verus!
