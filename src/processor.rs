//! The processor's decisions: filter design requests, the choice between
//! the two filter implementations, noise-gate slot changes and the plan of
//! each processed block. The host runs the processing thread and the sample
//! arithmetic and follows these decisions.
use vstd::prelude::*;
use crate::window::{WindowType, filter_length_spec};

verus! {

/// Longest filter run by direct convolution; longer ones use FFT
/// overlap-add.
pub const TIME_DOMAIN_MAX_TAPS: usize = 128;

/// Block size of the overlap-add filter.
pub const FAST_FILTER_BLOCK_SIZE: usize = 2048;

/// Samples read from the input channel per block.
pub const READ_BLOCK_SIZE: usize = 2048;

/// Capacity of the input and output channels (2 s at 48 kHz).
pub const CHANNEL_CAPACITY: usize = 96000;

/// Most waveform samples carried by one snapshot.
pub const MAX_WAVEFORM_SIZE: usize = 4096;

/// Most spectrum bins carried by one snapshot (8192-point FFT).
pub const MAX_SPECTRUM_SIZE: usize = 4097;

/// Idle time of the processing thread when no sample is waiting, in µs.
pub const IDLE_SLEEP_MICROS: u64 = 100;

/// Kinds of designed FIR filter.
#[derive(Debug, Clone, Copy, PartialEq, Eq, Structural)]
pub enum FilterType {
    Bandpass,
    Lowpass,
    Highpass,
}

/// The two real-time filter implementations.
#[derive(Debug, Clone, Copy, PartialEq, Eq, Structural)]
pub enum FilterKind {
    /// Circular delay line, O(M) per sample.
    TimeDomain,
    /// FFT overlap-add, O(N log N) per block.
    FrequencyDomain,
}

/// Rejected filter design requests.
#[derive(Debug, Clone, Copy, PartialEq, Eq, Structural)]
pub enum DesignError {
    /// A bandpass request whose lower edge is not below its upper edge.
    InvalidBandEdges,
    /// A transition width that is not positive.
    NonPositiveWidth,
}

/// What a design request produces before any coefficient is computed.
#[derive(Debug, Clone, Copy, PartialEq, Eq, Structural)]
pub struct FilterPlan {
    /// Number of taps M (odd).
    pub taps: usize,
    /// Group delay (M − 1)/2 in samples.
    pub group_delay: usize,
    /// Implementation installed in the user-filter slot.
    pub kind: FilterKind,
}

pub open spec fn kind_for(taps: nat) -> FilterKind {
    if taps > TIME_DOMAIN_MAX_TAPS {
        FilterKind::FrequencyDomain
    } else {
        FilterKind::TimeDomain
    }
}

/// The implementation for a filter of `taps` taps.
pub fn choose_kind(taps: usize) -> (k: FilterKind)
    ensures
        k == kind_for(taps as nat),
{
    if taps > TIME_DOMAIN_MAX_TAPS {
        FilterKind::FrequencyDomain
    } else {
        FilterKind::TimeDomain
    }
}

/// The plan for a window and a positive transition width: M taps by the
/// window rule, group delay (M − 1)/2, and the implementation for M.
pub open spec fn plan_spec(w: WindowType, width: nat) -> FilterPlan {
    let m = filter_length_spec(w, width);
    FilterPlan { taps: m as usize, group_delay: ((m - 1) / 2) as usize, kind: kind_for(m) }
}

/// Validates a design request and plans the filter. Edges and width are in
/// frequency units (see `window::FREQ_UNITS_PER_PI`); `omega1` is the lower
/// and `omega2` the upper band edge (a highpass uses `omega1`, a lowpass
/// `omega2`).
pub fn plan_filter(
    omega1: i64,
    omega2: i64,
    width: u64,
    window_type: WindowType,
    filter_type: FilterType,
) -> (r: Result<FilterPlan, DesignError>)
    ensures
        filter_type == FilterType::Bandpass && omega1 >= omega2 ==> r == Err::<
            FilterPlan,
            DesignError,
        >(DesignError::InvalidBandEdges),
        !(filter_type == FilterType::Bandpass && omega1 >= omega2) && width == 0 ==> r == Err::<
            FilterPlan,
            DesignError,
        >(DesignError::NonPositiveWidth),
        !(filter_type == FilterType::Bandpass && omega1 >= omega2) && width > 0 ==> r == Ok::<
            FilterPlan,
            DesignError,
        >(plan_spec(window_type, width as nat)),
{
    if filter_type == FilterType::Bandpass && omega1 >= omega2 {
        return Err(DesignError::InvalidBandEdges);
    }
    if width == 0 {
        return Err(DesignError::NonPositiveWidth);
    }
    let taps = window_type.calculate_filter_length(width);
    Ok(FilterPlan { taps, group_delay: (taps - 1) / 2, kind: choose_kind(taps) })
}

/// What configuring the noise gate does to the noise-gate slot.
#[derive(Debug, Clone, Copy, PartialEq, Eq, Structural)]
pub enum GateChange {
    /// Put a new gate in the empty slot.
    Install,
    /// Change the installed gate's parameters in place, keeping its state.
    Reconfigure,
    /// Empty the slot.
    Remove,
}

/// The change for a request to enable or disable the noise gate, given whether
/// one is installed.
pub fn gate_change(enabled: bool, installed: bool) -> (c: GateChange)
    ensures
        !enabled ==> c == GateChange::Remove,
        enabled && installed ==> c == GateChange::Reconfigure,
        enabled && !installed ==> c == GateChange::Install,
{
    if !enabled {
        GateChange::Remove
    } else if installed {
        GateChange::Reconfigure
    } else {
        GateChange::Install
    }
}

/// The work for one block of samples.
#[derive(Debug, Clone, Copy, PartialEq, Eq, Structural)]
pub struct BlockPlan {
    /// Samples processed (and carried by the snapshot).
    pub len: usize,
    /// Whether the noise-gate slot runs over the block.
    pub run_gate: bool,
    /// Whether the user-filter slot runs over the block.
    pub run_filter: bool,
    /// Filtered samples copied into the FFT frame (the rest is zero).
    pub frame_len: usize,
    /// Spectrum bins carried by the snapshot.
    pub spectrum_len: usize,
    /// Whether the filtered block goes to the output channel.
    pub push_output: bool,
}

/// One turn of the processing loop: sleep, or process a block.
#[derive(Debug, Clone, Copy, PartialEq, Eq, Structural)]
pub enum BlockStep {
    /// Nothing was read: sleep briefly instead of spinning.
    Idle,
    Process(BlockPlan),
}

/// The state the processing loop reads once per turn.
#[derive(Debug, Clone, Copy, PartialEq, Eq, Structural)]
pub struct LoopState {
    pub bypass: bool,
    pub monitoring: bool,
    pub gate_installed: bool,
    pub filter_installed: bool,
    pub fft_size: usize,
}

pub open spec fn min_nat(a: nat, b: nat) -> nat {
    if a < b {
        a
    } else {
        b
    }
}

/// The block plan after `read` samples were read in state `s`.
pub open spec fn block_step_spec(read: nat, s: LoopState) -> BlockStep {
    if read == 0 {
        BlockStep::Idle
    } else {
        let len = min_nat(read, MAX_WAVEFORM_SIZE as nat);
        BlockStep::Process(
            BlockPlan {
                len: len as usize,
                run_gate: !s.bypass && s.gate_installed,
                run_filter: !s.bypass && s.filter_installed,
                frame_len: min_nat(len, s.fft_size as nat) as usize,
                spectrum_len: min_nat((s.fft_size / 2 + 1) as nat, MAX_SPECTRUM_SIZE as nat) as usize,
                push_output: s.monitoring,
            },
        )
    }
}

/// Decides one turn of the processing loop from the number of samples read.
pub fn plan_block(read: usize, s: LoopState) -> (step: BlockStep)
    ensures
        step == block_step_spec(read as nat, s),
{
    if read == 0 {
        return BlockStep::Idle;
    }
    let len = if read < MAX_WAVEFORM_SIZE {
        read
    } else {
        MAX_WAVEFORM_SIZE
    };
    let frame_len = if len < s.fft_size {
        len
    } else {
        s.fft_size
    };
    let bins = s.fft_size / 2 + 1;
    let spectrum_len = if bins < MAX_SPECTRUM_SIZE {
        bins
    } else {
        MAX_SPECTRUM_SIZE
    };
    BlockStep::Process(
        BlockPlan {
            len,
            run_gate: !s.bypass && s.gate_installed,
            run_filter: !s.bypass && s.filter_installed,
            frame_len,
            spectrum_len,
            push_output: s.monitoring,
        },
    )
}

/// A processed block never holds more samples than were read, nor more than
/// a snapshot carries, and its FFT frame never more than the FFT size; with
/// bypass set no filter runs.
pub proof fn lemma_block_plan_bounds(read: nat, s: LoopState)
    requires
        read <= usize::MAX,
    ensures
        read == 0 <==> block_step_spec(read, s) == BlockStep::Idle,
        block_step_spec(read, s) matches BlockStep::Process(p) ==> (p.len <= read && p.len
            <= MAX_WAVEFORM_SIZE && p.len > 0 && p.frame_len <= p.len && p.frame_len <= s.fft_size
            && p.spectrum_len <= MAX_SPECTRUM_SIZE && (s.bypass ==> !p.run_gate && !p.run_filter)),
{
}

} // verus!
