//! The analysis tap on the master bus: a fixed power-of-two window whose
//! snapshots hold half as many byte samples as the window is long.
use vstd::prelude::*;

verus! {

/// Window size of the analyser that an engine is built with.
pub const DEFAULT_WINDOW_SIZE: u32 = 2048;

/// Whether `n` is a power of two (one, two, four, ...).
pub open spec fn is_power_of_two(n: nat) -> bool
    decreases n,
{
    if n == 0 {
        false
    } else if n == 1 {
        true
    } else {
        n % 2 == 0 && is_power_of_two(n / 2)
    }
}

/// A spectral analyser with its window size, which never changes once set.
#[derive(Clone, Copy, Debug, PartialEq, Eq, Structural)]
pub struct SpectralAnalyser {
    pub window_size: u32,
}

impl SpectralAnalyser {
    /// The window is a power of two, at least two samples long.
    pub open spec fn wf(&self) -> bool {
        is_power_of_two(self.window_size as nat) && self.window_size >= 2
    }

    /// Number of samples in each snapshot.
    pub open spec fn bins(&self) -> nat {
        (self.window_size / 2) as nat
    }

    /// An analyser with the default window of 2048 samples.
    pub fn new() -> (a: SpectralAnalyser)
        ensures
            a.wf(),
            a.window_size == DEFAULT_WINDOW_SIZE,
    {
        proof {
            reveal_with_fuel(is_power_of_two, 12);
        }
        SpectralAnalyser { window_size: DEFAULT_WINDOW_SIZE }
    }

    /// An analyser with a window of `window_size` samples, or `None` where
    /// that is not a power of two of at least two.
    pub fn with_window_size(window_size: u32) -> (r: Option<SpectralAnalyser>)
        ensures
            r is Some <==> is_power_of_two(window_size as nat) && window_size >= 2,
            r matches Some(a) ==> a.window_size == window_size && a.wf(),
    {
        let mut n: u32 = window_size;
        while n > 1 && n % 2 == 0
            invariant
                is_power_of_two(n as nat) == is_power_of_two(window_size as nat),
            decreases n,
        {
            n = n / 2;
        }
        if n == 1 && window_size >= 2 {
            Some(SpectralAnalyser { window_size })
        } else {
            None
        }
    }

    /// Number of byte samples in each snapshot: half the window size.
    pub fn buffer_length(&self) -> (r: u32)
        requires
            self.wf(),
        ensures
            r == self.window_size / 2,
            r >= 1,
    {
        self.window_size / 2
    }

    /// A fresh zeroed buffer of `buffer_length()` bytes for one snapshot,
    /// which the audio host fills with the bus's current time-domain or
    /// frequency-domain samples. No buffer is kept between snapshots.
    pub fn snapshot_buffer(&self) -> (r: Vec<u8>)
        requires
            self.wf(),
        ensures
            r@.len() == self.bins(),
            forall|i: int| 0 <= i < r@.len() ==> r@[i] == 0,
    {
        let len: u32 = self.buffer_length();
        let mut r: Vec<u8> = Vec::new();
        let mut i: u32 = 0;
        while i < len
            invariant
                i <= len,
                len == self.bins(),
                r@.len() == i,
                forall|j: int| 0 <= j < r@.len() ==> r@[j] == 0,
            decreases len - i,
        {
            r.push(0);
            i = i + 1;
        }
        r
    }
}

} // verus!
