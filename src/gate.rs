//! The open/closed switch of the noise gate, with fixed 3 dB hysteresis.
//!
//! Levels and thresholds are integers in milli-decibels (mdB). The noise gate's
//! envelope follower and gain smoother work on samples and live with the
//! caller; this switch decides, per sample, whether the noise gate is open.
use vstd::prelude::*;

verus! {

/// The hysteresis between opening and closing levels: 3 dB.
pub const HYSTERESIS_MDB: i64 = 3000;

/// The switch state after a sample at `level`: an open gate closes when the
/// level drops below threshold − 3 dB; a closed gate opens when the level
/// reaches the threshold.
pub open spec fn next_open(open: bool, level: int, threshold: int) -> bool {
    if open {
        !(level < threshold - HYSTERESIS_MDB)
    } else {
        level >= threshold
    }
}

/// The switch state after a run of sample levels, starting from `open`.
pub open spec fn run_levels(open: bool, levels: Seq<int>, threshold: int) -> bool
    decreases levels.len(),
{
    if levels.len() == 0 {
        open
    } else {
        run_levels(next_open(open, levels[0], threshold), levels.skip(1), threshold)
    }
}

/// Hysteretic gate switch: two states, Closed (initial) and Open.
pub struct GateSwitch {
    open: bool,
    threshold_mdb: i64,
}

impl GateSwitch {
    pub closed spec fn is_open_spec(&self) -> bool {
        self.open
    }

    pub closed spec fn threshold_spec(&self) -> int {
        self.threshold_mdb as int
    }

    /// A closed switch with the given threshold.
    pub fn new(threshold_mdb: i64) -> (r: Self)
        ensures
            !r.is_open_spec(),
            r.threshold_spec() == threshold_mdb,
    {
        GateSwitch { open: false, threshold_mdb }
    }

    /// Whether the noise gate is open.
    pub fn is_open(&self) -> (b: bool)
        ensures
            b == self.is_open_spec(),
    {
        self.open
    }

    /// The threshold in mdB.
    pub fn threshold_mdb(&self) -> (t: i64)
        ensures
            t == self.threshold_spec(),
    {
        self.threshold_mdb
    }

    /// Changes the threshold; the open/closed state is kept.
    pub fn set_threshold(&mut self, threshold_mdb: i64)
        ensures
            final(self).threshold_spec() == threshold_mdb,
            final(self).is_open_spec() == old(self).is_open_spec(),
    {
        self.threshold_mdb = threshold_mdb;
    }

    /// Takes one sample level (mdB) and returns whether the noise gate is now open.
    pub fn step(&mut self, level_mdb: i64) -> (open: bool)
        ensures
            open == next_open(old(self).is_open_spec(), level_mdb as int, old(self).threshold_spec()),
            final(self).is_open_spec() == open,
            final(self).threshold_spec() == old(self).threshold_spec(),
    {
        let level = level_mdb as i128;
        let threshold = self.threshold_mdb as i128;
        if self.open {
            if level < threshold - HYSTERESIS_MDB as i128 {
                self.open = false;
            }
        } else {
            if level >= threshold {
                self.open = true;
            }
        }
        self.open
    }

    /// Forces the noise gate closed.
    pub fn reset(&mut self)
        ensures
            !final(self).is_open_spec(),
            final(self).threshold_spec() == old(self).threshold_spec(),
    {
        self.open = false;
    }
}

/// Hysteresis: once open, a sustained level anywhere within 3 dB below the
/// threshold (or above it) never closes the noise gate; a sustained level at or
/// above the threshold opens a closed gate at its first sample and keeps it
/// open; a sustained level more than 3 dB below the threshold closes an
/// open gate at its first sample and keeps it closed.
pub proof fn lemma_hysteresis(open: bool, levels: Seq<int>, threshold: int)
    ensures
        open && (forall|i: int| 0 <= i < levels.len() ==> levels[i] >= threshold - HYSTERESIS_MDB)
            ==> run_levels(open, levels, threshold),
        levels.len() > 0 && (forall|i: int| 0 <= i < levels.len() ==> levels[i] >= threshold)
            ==> run_levels(open, levels, threshold),
        levels.len() > 0 && (forall|i: int|
            0 <= i < levels.len() ==> levels[i] < threshold - HYSTERESIS_MDB) ==> !run_levels(
            open,
            levels,
            threshold,
        ),
    decreases levels.len(),
{
    if levels.len() > 0 {
        let rest = levels.skip(1);
        lemma_hysteresis(next_open(open, levels[0], threshold), rest, threshold);
        if levels.len() > 1 {
            lemma_hysteresis(true, rest, threshold);
            lemma_hysteresis(false, rest, threshold);
        }
        assert forall|i: int| 0 <= i < rest.len() implies rest[i] == levels[i + 1] by {}
    }
}

} // verus!
