use spectral_workbench::overlap::{frame_size, next_power_of_two, OverlapAdd};
use spectral_workbench::spectrum::{fill_frame, segment_frame, AnalyzerConfig};
use spectral_workbench::window::WindowType;

#[test]
fn next_power_of_two_values() {
    assert_eq!(next_power_of_two(0), 1);
    assert_eq!(next_power_of_two(1), 1);
    assert_eq!(next_power_of_two(2), 2);
    assert_eq!(next_power_of_two(3), 4);
    assert_eq!(next_power_of_two(1024), 1024);
    assert_eq!(next_power_of_two(1025), 2048);
}

#[test]
fn frame_size_holds_block_and_tail() {
    // 2048 + 241 - 1 = 2288 -> 4096
    assert_eq!(frame_size(2048, 241), 4096);
    // 32 + 5 - 1 = 36 -> 64
    assert_eq!(frame_size(32, 5), 64);
    assert_eq!(frame_size(512, 161), 1024);
}

#[test]
fn overlap_add_sizes_and_tail() {
    let mut ola = OverlapAdd::new(4, 3, 0i64);
    assert_eq!(ola.fft_size(), 8);
    assert_eq!(ola.block_size(), 4);
    assert_eq!(ola.filter_length(), 3);
    assert_eq!(ola.tail_at(0), 0);
    assert_eq!(ola.tail_at(1), 0);
    // a short block: 2 of at most 4 samples
    assert_eq!(ola.block_len(2), 2);
    assert_eq!(ola.block_len(9), 4);
    let frame = vec![10, 11, 12, 13, 14, 15, 16, 17];
    ola.carry_tail(&frame, 2);
    assert_eq!(ola.tail_at(0), 12);
    assert_eq!(ola.tail_at(1), 13);
    ola.carry_tail(&frame, 4);
    assert_eq!(ola.tail_at(0), 14);
    assert_eq!(ola.tail_at(1), 15);
    ola.reset(0);
    assert_eq!(ola.tail_at(0), 0);
    assert_eq!(ola.tail_at(1), 0);
}

#[test]
fn short_block_after_long_filter_design() {
    // 241 taps, 2048-sample blocks: a 10-sample block still fits its frame
    let mut ola = OverlapAdd::new(2048, 241, 0.0f64);
    let n = ola.block_len(10);
    assert_eq!(n, 10);
    let frame = vec![1.0; ola.fft_size()];
    ola.carry_tail(&frame, n);
    assert_eq!(ola.tail_at(239), 1.0);
}

#[test]
fn fill_frame_pads_and_truncates() {
    let mut frame = vec![7; 5];
    fill_frame(&[1, 2, 3], &mut frame, 0);
    assert_eq!(frame, vec![1, 2, 3, 0, 0]);
    let mut short = vec![7; 2];
    fill_frame(&[1, 2, 3], &mut short, 0);
    assert_eq!(short, vec![1, 2]);
    let mut empty_block = vec![7; 3];
    fill_frame::<i32>(&[], &mut empty_block, 9);
    assert_eq!(empty_block, vec![9, 9, 9]);
}

#[test]
fn overlap_add_frame_size_is_least_power_of_two() {
    let ola = OverlapAdd::new(2048, 161, 0.0f64);
    // 2048 + 161 - 1 = 2208 -> 4096
    assert_eq!(ola.fft_size(), 4096);
    let exact = OverlapAdd::new(1020, 5, 0i32);
    assert_eq!(exact.fft_size(), 1024);
}

#[test]
fn overlap_add_keeps_old_tail_after_short_block() {
    // 4 taps: tail of 3; frames of 8 for blocks of up to 4
    let mut ola = OverlapAdd::new(4, 4, 0i64);
    let mut frame = vec![1, 2, 3, 4, 5, 6, 7, 0];
    ola.add_tail(&mut frame, |a, b| a + b);
    ola.carry_tail(&frame, 4);
    assert_eq!((ola.tail_at(0), ola.tail_at(1), ola.tail_at(2)), (5, 6, 7));
    // a 1-sample block: output 10 + 5, then the unconsumed old tail (6, 7)
    // is carried on, added to the new frame
    let mut frame = vec![10, 20, 30, 40, 0, 0, 0, 0];
    ola.add_tail(&mut frame, |a, b| a + b);
    assert_eq!(frame, vec![15, 26, 37, 40, 0, 0, 0, 0]);
    ola.carry_tail(&frame, 1);
    assert_eq!((ola.tail_at(0), ola.tail_at(1), ola.tail_at(2)), (26, 37, 40));
}

#[test]
fn segment_frame_clips_at_edges() {
    let signal = [1, 2, 3, 4, 5, 6];
    assert_eq!(segment_frame(&signal, 3, 4, 0), vec![2, 3, 4, 5]);
    assert_eq!(segment_frame(&signal, 1, 4, 0), vec![1, 2, 3, 0]);
    assert_eq!(segment_frame(&signal, 5, 4, 0), vec![4, 5, 6, 0]);
    assert_eq!(segment_frame(&signal, 9, 4, 0), vec![0, 0, 0, 0]);
}

#[test]
fn analyzer_config_default_and_bins() {
    let c = AnalyzerConfig::default();
    assert_eq!(c.fft_size, 2048);
    assert_eq!(c.window_type, WindowType::Hamming);
    assert_eq!(c.sample_rate, 48000);
    assert!(c.apply_correction);
    assert_eq!(c.num_bins(), 1025);
    let small = AnalyzerConfig { fft_size: 1024, ..c.clone() };
    assert_eq!(small.num_bins(), 513);
    assert!(c.needs_new_plan(&small));
    let other_window = AnalyzerConfig { window_type: WindowType::Hann, ..c.clone() };
    assert!(!c.needs_new_plan(&other_window));
}
