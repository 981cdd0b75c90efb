//! Window families and the FIR length rule of the windowing method.
use vstd::prelude::*;

verus! {

/// Normalized frequencies and transition widths are integers in units of
/// π / `FREQ_UNITS_PER_PI` rad/sample (so `FREQ_UNITS_PER_PI` stands for π).
pub const FREQ_UNITS_PER_PI: u64 = 1_000_000;

/// Window function families.
#[derive(Debug, Clone, Copy, PartialEq, Eq, Structural)]
pub enum WindowType {
    /// w[n] = 0.5 - 0.5 cos(2πn/(M-1))
    Hann,
    /// w[n] = 0.54 - 0.46 cos(2πn/(M-1))
    Hamming,
    /// w[n] = 0.42 - 0.5 cos(2πn/(M-1)) + 0.08 cos(4πn/(M-1))
    Blackman,
    /// w[n] = 1
    Rectangular,
}

/// The mainlobe factor A of a window: its mainlobe is A·π/M wide.
pub open spec fn mainlobe_factor(w: WindowType) -> nat {
    match w {
        WindowType::Hann => 8,
        WindowType::Hamming => 8,
        WindowType::Blackman => 12,
        WindowType::Rectangular => 4,
    }
}

/// Smallest integer not below a / b.
pub open spec fn ceil_div(a: nat, b: nat) -> nat
    recommends
        b > 0,
{
    ((a + b - 1) as nat) / b
}

/// m itself when odd, m + 1 when even.
pub open spec fn round_up_to_odd(m: nat) -> nat {
    if m % 2 == 0 {
        m + 1
    } else {
        m
    }
}

/// M = ceil(A·π/Δω) rounded up to the next odd integer, with Δω given in
/// frequency units.
pub open spec fn filter_length_spec(w: WindowType, width: nat) -> nat
    recommends
        width > 0,
{
    round_up_to_odd(ceil_div((mainlobe_factor(w) * FREQ_UNITS_PER_PI) as nat, width))
}

impl WindowType {
    /// Required filter length M for transition width `width` (frequency units).
    pub fn calculate_filter_length(&self, width: u64) -> (m: usize)
        requires
            width > 0,
        ensures
            m == filter_length_spec(*self, width as nat),
            m % 2 == 1,
    {
        let a = self.mainlobe_width_factor();
        let num = a * FREQ_UNITS_PER_PI;
        let q = num / width;
        let base = if num % width == 0 {
            q
        } else {
            q + 1
        };
        proof {
            lemma_ceil_div_from_quotient(num as nat, width as nat);
        }
        let m = if base % 2 == 0 {
            base + 1
        } else {
            base
        };
        m as usize
    }

    /// The mainlobe width factor A (8 for Hann and Hamming, 12 for
    /// Blackman, 4 for Rectangular).
    pub fn mainlobe_width_factor(&self) -> (a: u64)
        ensures
            a == mainlobe_factor(*self),
    {
        match self {
            WindowType::Hann => 8,
            WindowType::Hamming => 8,
            WindowType::Blackman => 12,
            WindowType::Rectangular => 4,
        }
    }

    /// Approximate stopband attenuation in dB.
    pub fn stopband_attenuation_db(&self) -> (db: i32)
        ensures
            db == match *self {
                WindowType::Hann => -44int,
                WindowType::Hamming => -53int,
                WindowType::Blackman => -74int,
                WindowType::Rectangular => -21int,
            },
    {
        match self {
            WindowType::Hann => -44,
            WindowType::Hamming => -53,
            WindowType::Blackman => -74,
            WindowType::Rectangular => -21,
        }
    }
}

proof fn lemma_ceil_div_from_quotient(a: nat, b: nat)
    requires
        b > 0,
    ensures
        a % b == 0 ==> ceil_div(a, b) == a / b,
        a % b != 0 ==> ceil_div(a, b) == a / b + 1,
        ceil_div(a, b) <= a,
{
    let q = (a / b) as int;
    let r = (a % b) as int;
    vstd::arithmetic::div_mod::lemma_fundamental_div_mod(a as int, b as int);
    assert(a == b * q + r);
    assert(q * b <= a) by (nonlinear_arith)
        requires
            a == b * q + r,
            r >= 0,
    ;
    if r == 0 {
        assert(a + b - 1 == b * q + (b - 1));
        vstd::arithmetic::div_mod::lemma_div_multiples_vanish_fancy(q, b - 1, b as int);
    } else {
        assert(a + b - 1 == b * (q + 1) + (r - 1)) by (nonlinear_arith)
            requires
                a == b * q + r,
        ;
        vstd::arithmetic::div_mod::lemma_div_multiples_vanish_fancy(q + 1, r - 1, b as int);
        assert(q + 1 <= a) by (nonlinear_arith)
            requires
                a == b * q + r,
                r >= 1,
                b >= 1,
                q >= 0,
        ;
    }
    assert(q <= a) by (nonlinear_arith)
        requires
            a == b * q + r,
            r >= 0,
            b >= 1,
            q >= 0,
    ;
}

/// Every length produced by the window rule is odd, as a Type I
/// linear-phase FIR filter requires.
pub proof fn lemma_filter_length_is_odd(w: WindowType, width: nat)
    requires
        width > 0,
    ensures
        filter_length_spec(w, width) % 2 == 1,
{
}

} // verus!
