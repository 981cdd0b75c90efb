use spectral_workbench::processor::{
    choose_kind, plan_filter, DesignError, FilterKind, FilterPlan, FilterType,
};
use spectral_workbench::window::{WindowType, FREQ_UNITS_PER_PI};

#[test]
fn test_filter_length_calculation() {
    // 0.05π rad/sample
    let delta_omega = FREQ_UNITS_PER_PI / 20;

    let m_hann = WindowType::Hann.calculate_filter_length(delta_omega);
    let m_hamming = WindowType::Hamming.calculate_filter_length(delta_omega);
    let m_blackman = WindowType::Blackman.calculate_filter_length(delta_omega);

    assert_eq!(m_hann, 161);
    assert_eq!(m_hamming, 161);
    assert_eq!(m_blackman, 241);

    assert_eq!(m_hann % 2, 1);
    assert_eq!(m_hamming % 2, 1);
    assert_eq!(m_blackman % 2, 1);
}

#[test]
fn filter_length_rounds_up_and_stays_odd() {
    // 8·10^6 / 3 = 2666666.67 -> 2666667 (odd)
    assert_eq!(WindowType::Hann.calculate_filter_length(3), 2_666_667);
    // 4·10^6 / 10^6 = 4 -> 5
    assert_eq!(WindowType::Rectangular.calculate_filter_length(FREQ_UNITS_PER_PI), 5);
    // 12 / 1.5 = 8 -> 9
    assert_eq!(WindowType::Blackman.calculate_filter_length(1_500_000), 9);
    for width in [1u64, 7, 999, 50_000, 123_457, 2_000_000] {
        for w in [
            WindowType::Hann,
            WindowType::Hamming,
            WindowType::Blackman,
            WindowType::Rectangular,
        ] {
            assert_eq!(w.calculate_filter_length(width) % 2, 1);
        }
    }
}

#[test]
fn window_factors() {
    assert_eq!(WindowType::Hann.mainlobe_width_factor(), 8);
    assert_eq!(WindowType::Hamming.mainlobe_width_factor(), 8);
    assert_eq!(WindowType::Blackman.mainlobe_width_factor(), 12);
    assert_eq!(WindowType::Rectangular.mainlobe_width_factor(), 4);
    assert_eq!(WindowType::Hann.stopband_attenuation_db(), -44);
    assert_eq!(WindowType::Hamming.stopband_attenuation_db(), -53);
    assert_eq!(WindowType::Blackman.stopband_attenuation_db(), -74);
    assert_eq!(WindowType::Rectangular.stopband_attenuation_db(), -21);
}

#[test]
fn plan_bandpass_part_a() {
    let r = plan_filter(400_000, 600_000, 50_000, WindowType::Hamming, FilterType::Bandpass);
    assert_eq!(
        r,
        Ok(FilterPlan { taps: 161, group_delay: 80, kind: FilterKind::FrequencyDomain })
    );
}

#[test]
fn plan_short_filter_uses_time_domain() {
    // 4·10^6 / 100000 = 40 -> 41 taps
    let r = plan_filter(0, 500_000, 100_000, WindowType::Rectangular, FilterType::Lowpass);
    assert_eq!(r, Ok(FilterPlan { taps: 41, group_delay: 20, kind: FilterKind::TimeDomain }));
    assert_eq!(choose_kind(128), FilterKind::TimeDomain);
    assert_eq!(choose_kind(129), FilterKind::FrequencyDomain);
}

#[test]
fn plan_rejects_bad_requests() {
    assert_eq!(
        plan_filter(600_000, 400_000, 50_000, WindowType::Hann, FilterType::Bandpass),
        Err(DesignError::InvalidBandEdges)
    );
    assert_eq!(
        plan_filter(500_000, 500_000, 0, WindowType::Hann, FilterType::Bandpass),
        Err(DesignError::InvalidBandEdges)
    );
    assert_eq!(
        plan_filter(400_000, 600_000, 0, WindowType::Hann, FilterType::Bandpass),
        Err(DesignError::NonPositiveWidth)
    );
    // edge order only matters for a bandpass
    assert_eq!(
        plan_filter(600_000, 400_000, 0, WindowType::Hann, FilterType::Highpass),
        Err(DesignError::NonPositiveWidth)
    );
    assert!(plan_filter(600_000, 400_000, 50_000, WindowType::Hann, FilterType::Highpass).is_ok());
}
