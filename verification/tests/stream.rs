use dashcmafsink::clock::ClockTime;
use dashcmafsink::settings::DashCmafSinkSettings;
use dashcmafsink::stream::{bandwidth_estimate, DashCmafSinkStream, Phase};

#[test]
fn bandwidth_is_bits_per_second() {
    assert_eq!(bandwidth_estimate(1_250_000, 10), 1_000_000);
    assert_eq!(bandwidth_estimate(0, 10), 0);
}

#[test]
fn bandwidth_rounds_down() {
    assert_eq!(bandwidth_estimate(1, 10), 0);
    assert_eq!(bandwidth_estimate(2, 10), 1);
    assert_eq!(bandwidth_estimate(1_000_001, 3), 2_666_669);
    assert_eq!(bandwidth_estimate(7, 3), 18);
}

#[test]
fn bandwidth_of_the_largest_size() {
    let most = (u64::MAX / 8) as usize;
    assert_eq!(bandwidth_estimate(most, 1), u64::MAX - 7);
}

#[test]
fn default_stream_has_nothing_recorded() {
    let s = DashCmafSinkStream::default();
    assert_eq!(s.segment_idx(), 0);
    assert_eq!(s.start_time().nseconds(), 0);
    assert_eq!(s.end_time().nseconds(), 0);
    assert_eq!(s.bandwidth(), 0);
    assert_eq!(s.fragment_duration().seconds(), 10);
    assert_eq!(s.latency().mseconds(), 5000);
    assert!(s.sync());
    assert_eq!(s.phase(), Phase::AwaitingInit);
    assert_eq!(s.window_mseconds(), 0);
}

#[test]
fn new_stream_takes_its_muxer_from_the_settings() {
    let mut settings = DashCmafSinkSettings::default();
    settings.set_target_duration(4);
    settings.set_latency(ClockTime::from_mseconds(250));
    settings.set_sync(false);
    let s = DashCmafSinkStream::new(&settings);
    assert_eq!(s.segment_idx(), 0);
    assert_eq!(s.fragment_duration().nseconds(), 4_000_000_000);
    assert_eq!(s.latency().nseconds(), 250_000_000);
    assert!(!s.sync());
}

#[test]
fn recording_raises_the_count_by_one() {
    let mut s = DashCmafSinkStream::default();
    for n in 1..=5usize {
        assert!(s.can_record(10, 1000));
        s.record_segment(10, 1000);
        assert_eq!(s.segment_idx(), n);
        assert_eq!(s.phase(), Phase::Streaming);
    }
}

#[test]
fn window_is_count_times_target_duration() {
    let mut s = DashCmafSinkStream::default();
    s.record_segment(10, 1);
    assert_eq!(s.start_time().nseconds(), 0);
    assert_eq!(s.end_time().seconds(), 10);
    assert_eq!(s.window_mseconds(), 10_000);
    s.record_segment(10, 1);
    assert_eq!(s.window_mseconds(), 20_000);
    s.record_segment(3, 1);
    assert_eq!(s.end_time().seconds(), 9);
    assert_eq!(s.window_mseconds(), 9_000);
}

#[test]
fn bandwidth_is_that_of_the_last_segment_alone() {
    let mut s = DashCmafSinkStream::default();
    s.record_segment(10, 1_250_000);
    assert_eq!(s.bandwidth(), 1_000_000);
    s.record_segment(10, 125);
    assert_eq!(s.bandwidth(), 100);
    s.record_segment(10, 0);
    assert_eq!(s.bandwidth(), 0);
}

#[test]
fn recording_keeps_the_muxer() {
    let mut settings = DashCmafSinkSettings::default();
    settings.set_target_duration(7);
    let mut s = DashCmafSinkStream::new(&settings);
    s.record_segment(2, 10);
    assert_eq!(s.fragment_duration().seconds(), 7);
    assert_eq!(s.latency().nseconds(), 5_000_000_000);
    assert!(s.sync());
}

#[test]
fn limits_of_recording() {
    let s = DashCmafSinkStream::default();
    assert!(!s.can_record(0, 1));
    assert!(s.can_record(1, 0));
    assert!(s.can_record(u32::MAX, 0));
    assert!(s.can_record(10, (u64::MAX / 8) as usize));
    assert!(!s.can_record(10, (u64::MAX / 8) as usize + 1));
}

#[test]
fn end_time_must_fit_the_clock() {
    let mut s = DashCmafSinkStream::default();
    s.record_segment(u32::MAX, 0);
    s.record_segment(u32::MAX, 0);
    s.record_segment(u32::MAX, 0);
    s.record_segment(u32::MAX, 0);
    // Four windows of the longest target duration fit; the fifth does not.
    assert_eq!(s.end_time().seconds(), 4 * (u32::MAX as u64));
    assert!(!s.can_record(u32::MAX, 0));
    assert!(s.can_record(10, 0));
}
