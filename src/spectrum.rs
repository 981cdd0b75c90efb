//! Spectrum analyzer configuration and frame preparation.
use vstd::prelude::*;
use crate::window::WindowType;

verus! {

/// Spectrum analyzer configuration.
#[derive(Debug, Clone)]
pub struct AnalyzerConfig {
    /// FFT size in samples (a power of two).
    pub fft_size: usize,
    /// Window applied before the FFT.
    pub window_type: WindowType,
    /// Sample rate in Hz.
    pub sample_rate: u32,
    /// Whether magnitudes are scaled by the window's amplitude correction.
    pub apply_correction: bool,
}

impl Default for AnalyzerConfig {
    /// 2048-point FFT, Hamming window, 48 kHz, corrected.
    fn default() -> (c: Self)
        ensures
            c.fft_size == 2048,
            c.window_type == WindowType::Hamming,
            c.sample_rate == 48000,
            c.apply_correction,
    {
        AnalyzerConfig {
            fft_size: 2048,
            window_type: WindowType::Hamming,
            sample_rate: 48000,
            apply_correction: true,
        }
    }
}

impl AnalyzerConfig {
    /// Number of non-negative-frequency bins of a real FFT: fft_size/2 + 1.
    pub fn num_bins(&self) -> (n: usize)
        ensures
            n == self.fft_size / 2 + 1,
    {
        self.fft_size / 2 + 1
    }

    /// Whether moving to `next` needs a new FFT plan: only when the FFT size
    /// changes.
    pub fn needs_new_plan(&self, next: &AnalyzerConfig) -> (b: bool)
        ensures
            b == (self.fft_size != next.fft_size),
    {
        self.fft_size != next.fft_size
    }
}

/// The analysis frame of a block: its first min(len, fft_size) samples,
/// then `zero`s up to `fft_size` samples.
pub open spec fn frame_spec<T>(block: Seq<T>, fft_size: nat, zero: T) -> Seq<T> {
    Seq::new(fft_size, |i: int| if i < block.len() { block[i] } else { zero })
}

/// Overwrites `frame` in place (no allocation) with `block` zero-padded or
/// truncated to the frame's length.
pub fn fill_frame<T: Copy>(block: &[T], frame: &mut Vec<T>, zero: T)
    ensures
        final(frame)@ == frame_spec(block@, old(frame)@.len(), zero),
{
    let n = frame.len();
    let mut i: usize = 0;
    while i < n
        invariant
            i <= n,
            n == frame@.len(),
            n == old(frame)@.len(),
            forall|k: int| 0 <= k < i ==> #[trigger] frame@[k] == frame_spec(block@, n as nat, zero)[k],
        decreases n - i,
    {
        if i < block.len() {
            frame.set(i, block[i]);
        } else {
            frame.set(i, zero);
        }
        i = i + 1;
    }
    assert(frame@ =~= frame_spec(block@, n as nat, zero));
}

/// The segment of `signal` around `center`: samples [center − L/2,
/// center + L/2) clipped to the signal, placed from the start of an
/// L-sample frame whose rest is `zero`.
pub open spec fn segment_spec<T>(signal: Seq<T>, center: nat, window_length: nat, zero: T) -> Seq<T> {
    let half = window_length / 2;
    let start: int = if center >= half {
        center - half
    } else {
        0
    };
    let end: int = if center + half <= signal.len() {
        (center + half) as int
    } else {
        signal.len() as int
    };
    Seq::new(
        window_length,
        |i: int| if start + i < end { signal[start + i] } else { zero },
    )
}

/// Cuts the `window_length`-sample segment centred at `center` out of
/// `signal`, zero-filled where it runs past either end.
pub fn segment_frame<T: Copy>(signal: &[T], center: usize, window_length: usize, zero: T) -> (frame: Vec<T>)
    ensures
        frame@ == segment_spec(signal@, center as nat, window_length as nat, zero),
        frame@.len() == window_length,
{
    let half = window_length / 2;
    let start = if center >= half {
        center - half
    } else {
        0
    };
    let end = if center <= signal.len() && half <= signal.len() - center {
        center + half
    } else {
        signal.len()
    };
    let mut frame: Vec<T> = Vec::new();
    let mut i: usize = 0;
    while i < window_length
        invariant
            i <= window_length,
            start == (if center >= half { center - half } else { 0 }),
            end == (if center + half <= signal@.len() { center + half } else { signal@.len() as int }),
            half == window_length / 2,
            frame@ =~= segment_spec(signal@, center as nat, window_length as nat, zero).take(i as int),
        decreases window_length - i,
    {
        if i < end && start < end - i {
            frame.push(signal[start + i]);
        } else {
            frame.push(zero);
        }
        i = i + 1;
        assert(frame@ =~= segment_spec(signal@, center as nat, window_length as nat, zero).take(i as int));
    }
    frame
}

} // verus!
