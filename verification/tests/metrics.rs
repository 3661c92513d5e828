use metric_video_player::metrics::FrameMetrics;
use metric_video_player::metrics::MetricsCollector;
use metric_video_player::metrics::SystemSnapshot;
use metric_video_player::metrics::FPS_WINDOW;
use metric_video_player::ratio::Ratio;
use metric_video_player::video_player::VideoFrame;

const SPACING: u64 = 33_333_333;

fn frame(number: u64, timestamp: u64) -> VideoFrame {
    VideoFrame { data: vec![0; 12], width: 2, height: 2, timestamp, frame_number: number }
}

fn snap(memory_bytes: u64, cpu_millipercent: u64) -> SystemSnapshot {
    SystemSnapshot { memory_bytes, cpu_millipercent }
}

fn value(r: Ratio) -> f64 {
    r.num as f64 / r.den as f64
}

/// Frames 1..=count, recorded and stamped `SPACING` apart.
fn steady(count: u64) -> MetricsCollector {
    let mut m = MetricsCollector::new(1_700_000_000_000_000);
    for n in 1..=count {
        m.record_frame_at(n * SPACING, n, &frame(n, n * SPACING), snap(50 * 1_048_576, 12_500));
    }
    m
}

#[test]
fn new_session_is_empty() {
    let m = MetricsCollector::new(1_700_000_000_000_000);
    assert_eq!(m.get_total_frames(), 0);
    assert_eq!(m.get_dropped_frames(), 0);
    assert_eq!(m.get_peak_memory_mb(), Ratio { num: 0, den: 1_048_576 });
    assert_eq!(m.get_peak_cpu_percent(), Ratio { num: 0, den: 1000 });
    assert_eq!(m.get_average_memory_mb(), Ratio::zero());
    assert_eq!(m.get_average_cpu_percent(), Ratio::zero());
    assert_eq!(m.get_max_fps(), Ratio::zero());
    assert_eq!(m.get_min_fps(), None);
    assert!(m.get_frame_metrics().is_empty());
}

#[test]
fn current_fps_is_zero_with_an_empty_window() {
    let m = MetricsCollector::new(1_700_000_000_000_000);
    assert_eq!(m.get_current_fps(), Ratio::zero());
    assert_eq!(value(m.get_current_fps()), 0.0);
}

#[test]
fn current_fps_is_zero_with_a_single_entry() {
    let mut m = MetricsCollector::new(0);
    m.record_frame_at(5_000_000, 1, &frame(1, 0), snap(1, 1));
    assert_eq!(m.get_current_fps(), Ratio::zero());
    assert_eq!(value(m.get_current_fps()), 0.0);
}

#[test]
fn current_fps_is_zero_when_no_time_has_passed() {
    let mut m = MetricsCollector::new(0);
    m.record_frame_at(7, 1, &frame(1, 0), snap(1, 1));
    m.record_frame_at(7, 2, &frame(2, 1), snap(1, 1));
    m.record_frame_at(7, 3, &frame(3, 2), snap(1, 1));
    assert_eq!(m.get_current_fps(), Ratio::zero());
}

#[test]
fn current_fps_is_frames_over_time_across_the_window() {
    let mut m = MetricsCollector::new(0);
    m.record_frame_at(1_000_000_000, 10, &frame(10, 0), snap(1, 1));
    m.record_frame_at(1_500_000_000, 11, &frame(11, 0), snap(1, 1));
    assert_eq!(m.get_current_fps(), Ratio { num: 1_000_000_000, den: 500_000_000 });
    m.record_frame_at(2_000_000_000, 40, &frame(40, 0), snap(1, 1));
    assert_eq!(m.get_current_fps(), Ratio { num: 30_000_000_000, den: 1_000_000_000 });
    assert_eq!(value(m.get_current_fps()), 30.0);
}

#[test]
fn current_fps_is_zero_where_frame_numbers_fall_or_the_clock_goes_back() {
    let mut m = MetricsCollector::new(0);
    m.record_frame_at(1_000, 10, &frame(10, 0), snap(1, 1));
    m.record_frame_at(2_000, 9, &frame(9, 0), snap(1, 1));
    assert_eq!(m.get_current_fps(), Ratio::zero());
    let mut m = MetricsCollector::new(0);
    m.record_frame_at(2_000, 1, &frame(1, 0), snap(1, 1));
    m.record_frame_at(1_000, 2, &frame(2, 0), snap(1, 1));
    assert_eq!(m.get_current_fps(), Ratio::zero());
}

#[test]
fn window_holds_the_last_sixty_recordings() {
    assert_eq!(FPS_WINDOW, 60);
    let m = steady(100);
    // The window runs from frame 41 to frame 100.
    assert_eq!(
        m.get_current_fps(),
        Ratio { num: 59 * 1_000_000_000, den: (59 * SPACING) as u128 }
    );
    let exactly_full = steady(60);
    assert_eq!(
        exactly_full.get_current_fps(),
        Ratio { num: 59 * 1_000_000_000, den: (59 * SPACING) as u128 }
    );
    let one_more = steady(61);
    assert_eq!(
        one_more.get_current_fps(),
        Ratio { num: 59 * 1_000_000_000, den: (59 * SPACING) as u128 }
    );
    let not_full = steady(59);
    assert_eq!(
        not_full.get_current_fps(),
        Ratio { num: 58 * 1_000_000_000, den: (58 * SPACING) as u128 }
    );
}

#[test]
fn window_reacts_to_a_change_of_pace_while_the_average_lags() {
    let mut m = steady(100);
    let mut now = 100 * SPACING;
    for n in 101..=160u64 {
        now += 4 * SPACING;
        m.record_frame_at(now, n, &frame(n, n * SPACING), snap(1, 1));
    }
    let current = value(m.get_current_fps());
    let average = value(m.get_average_fps_at(now));
    assert!((current - 7.5).abs() < 0.001);
    assert_eq!(m.get_average_fps_at(now), Ratio { num: 160_000_000_000, den: (340 * SPACING) as u128 });
    assert!(average > 14.0 && average < 14.2);
}

#[test]
fn steady_thirty_frames_per_second() {
    let m = steady(100);
    assert_eq!(m.get_total_frames(), 100);
    let average = m.get_average_fps_at(100 * SPACING);
    assert_eq!(average, Ratio { num: 100_000_000_000, den: (100 * SPACING) as u128 });
    assert!((value(average) - 30.0).abs() < 0.001);
    let max = m.get_max_fps();
    assert_eq!(max, Ratio { num: 1_000_000_000, den: SPACING as u128 });
    assert!((value(max) - 30.0).abs() < 0.001);
    let min = m.get_min_fps().unwrap();
    assert_eq!(min, Ratio { num: 1_000_000_000, den: SPACING as u128 });
    assert!((value(min) - 30.0).abs() < 0.001);
    assert!((value(m.get_current_fps()) - 30.0).abs() < 0.001);
}

#[test]
fn average_fps_is_zero_before_any_time_has_passed() {
    let m = steady(10);
    assert_eq!(m.get_average_fps_at(0), Ratio::zero());
    assert_eq!(m.get_average_fps_at(1), Ratio { num: 10_000_000_000, den: 1 });
    let empty = MetricsCollector::new(0);
    assert_eq!(empty.get_average_fps_at(5), Ratio { num: 0, den: 5 });
}

#[test]
fn average_fps_on_the_clock_counts_the_frames_recorded() {
    let mut m = MetricsCollector::new(1_700_000_000_000_000);
    for n in 1..=3 {
        m.record_frame(n, &frame(n, n * SPACING), snap(10, 10));
    }
    let r = m.get_average_fps();
    assert!(r == Ratio::zero() || r.num == 3_000_000_000);
    assert!(r.den > 0);
    let elapsed = m.get_session_duration();
    assert!(r == Ratio::zero() || (r.den as u64) <= elapsed);
}

#[test]
fn max_and_min_come_from_stream_timestamps() {
    let mut m = MetricsCollector::new(0);
    let stamps = [0u64, 10_000_000, 50_000_000, 70_000_000, 170_000_000];
    for (i, t) in stamps.iter().enumerate() {
        let n = i as u64 + 1;
        // Wall-clock times are deliberately unrelated to the stamps.
        m.record_frame_at(n * 1_000, n, &frame(n, *t), snap(1, 1));
    }
    assert_eq!(m.get_max_fps(), Ratio { num: 1_000_000_000, den: 10_000_000 });
    assert_eq!(m.get_min_fps(), Some(Ratio { num: 1_000_000_000, den: 100_000_000 }));
    assert_eq!(value(m.get_max_fps()), 100.0);
    assert_eq!(value(m.get_min_fps().unwrap()), 10.0);
}

#[test]
fn all_zero_deltas_have_no_defined_rate() {
    let mut m = MetricsCollector::new(0);
    for n in 1..=5u64 {
        m.record_frame_at(n, n, &frame(n, 42), snap(1, 1));
    }
    assert_eq!(m.get_max_fps(), Ratio::zero());
    assert_eq!(value(m.get_max_fps()), 0.0);
    assert_eq!(m.get_min_fps(), None);
}

#[test]
fn zero_and_negative_deltas_are_left_out() {
    let mut m = MetricsCollector::new(0);
    let stamps = [100u64, 100, 90, 110, 110, 160];
    for (i, t) in stamps.iter().enumerate() {
        let n = i as u64 + 1;
        m.record_frame_at(n, n, &frame(n, *t), snap(1, 1));
    }
    assert_eq!(m.get_max_fps(), Ratio { num: 1_000_000_000, den: 20 });
    assert_eq!(m.get_min_fps(), Some(Ratio { num: 1_000_000_000, den: 50 }));
}

#[test]
fn single_sample_has_no_pair() {
    let mut m = MetricsCollector::new(0);
    m.record_frame_at(1, 1, &frame(1, 5), snap(1, 1));
    assert_eq!(m.get_max_fps(), Ratio::zero());
    assert_eq!(m.get_min_fps(), None);
    m.record_frame_at(2, 2, &frame(2, 6), snap(1, 1));
    assert_eq!(m.get_max_fps(), Ratio { num: 1_000_000_000, den: 1 });
    assert_eq!(m.get_min_fps(), Some(Ratio { num: 1_000_000_000, den: 1 }));
}

#[test]
fn peaks_never_fall() {
    let mut m = MetricsCollector::new(0);
    let memory = [500u64, 100, 900, 900, 0, 899, 1_000, 3];
    let cpu = [20_000u64, 90_000, 10, 90_001, 0, 50_000, 1, 2];
    let mut peak_memory = 0;
    let mut peak_cpu = 0;
    for i in 0..memory.len() {
        let n = i as u64 + 1;
        m.record_frame_at(n, n, &frame(n, n), snap(memory[i], cpu[i]));
        let now_memory = m.get_peak_memory_mb();
        let now_cpu = m.get_peak_cpu_percent();
        assert!(now_memory.num >= peak_memory);
        assert!(now_cpu.num >= peak_cpu);
        assert!(now_memory.num >= memory[i] as u128);
        assert!(now_cpu.num >= cpu[i] as u128);
        peak_memory = now_memory.num;
        peak_cpu = now_cpu.num;
    }
    assert_eq!(m.get_peak_memory_mb(), Ratio { num: 1_000, den: 1_048_576 });
    assert_eq!(m.get_peak_cpu_percent(), Ratio { num: 90_001, den: 1000 });
    m.increment_dropped_frames();
    assert_eq!(m.get_peak_memory_mb(), Ratio { num: 1_000, den: 1_048_576 });
    let _ = m.finalize_session(1_700_000_000_000_001);
    assert_eq!(m.get_peak_cpu_percent(), Ratio { num: 90_001, den: 1000 });
}

#[test]
fn peak_memory_is_in_megabytes() {
    let mut m = MetricsCollector::new(0);
    m.record_frame_at(1, 1, &frame(1, 1), snap(3 * 1_048_576 / 2, 37_500));
    assert_eq!(value(m.get_peak_memory_mb()), 1.5);
    assert_eq!(value(m.get_peak_cpu_percent()), 37.5);
    assert_eq!(m.get_peak_memory_mb().scaled_floor(1000), Some(1500));
}

#[test]
fn averages_are_sums_over_counts() {
    let mut m = MetricsCollector::new(0);
    m.record_frame_at(1, 1, &frame(1, 1), snap(1_048_576, 10_000));
    m.record_frame_at(2, 2, &frame(2, 2), snap(3 * 1_048_576, 20_000));
    m.record_frame_at(3, 3, &frame(3, 3), snap(5 * 1_048_576, 60_000));
    assert_eq!(m.get_average_memory_mb(), Ratio { num: 9 * 1_048_576, den: 3 * 1_048_576 });
    assert_eq!(value(m.get_average_memory_mb()), 3.0);
    assert_eq!(m.get_average_cpu_percent(), Ratio { num: 90_000, den: 3_000 });
    assert_eq!(value(m.get_average_cpu_percent()), 30.0);
}

#[test]
fn averages_do_not_overflow_on_the_largest_snapshots() {
    let mut m = MetricsCollector::new(0);
    for n in 1..=4u64 {
        m.record_frame_at(n, n, &frame(n, n), snap(u64::MAX, u64::MAX));
    }
    assert_eq!(
        m.get_average_memory_mb(),
        Ratio { num: 4 * (u64::MAX as u128), den: 4 * 1_048_576 }
    );
    assert_eq!(m.get_average_cpu_percent(), Ratio { num: 4 * (u64::MAX as u128), den: 4_000 });
    assert_eq!(m.get_peak_memory_mb().num, u64::MAX as u128);
}

#[test]
fn processing_time_is_the_time_since_the_recording_before() {
    let mut m = MetricsCollector::new(0);
    m.record_frame_at(1_000, 1, &frame(1, 11), snap(7, 8));
    m.record_frame_at(1_250, 2, &frame(2, 22), snap(9, 10));
    m.record_frame_at(1_250, 3, &frame(3, 33), snap(1, 2));
    m.record_frame_at(900, 4, &frame(4, 44), snap(1, 2));
    m.record_frame_at(1_000, 5, &frame(5, 55), snap(1, 2));
    let log: Vec<FrameMetrics> = m.get_frame_metrics();
    assert_eq!(log.len(), 5);
    assert_eq!(log[0].processing_time_nanos, 0);
    assert_eq!(log[1].processing_time_nanos, 250);
    assert_eq!(log[2].processing_time_nanos, 0);
    assert_eq!(log[3].processing_time_nanos, 0);
    assert_eq!(log[4].processing_time_nanos, 100);
    assert_eq!(log[0].frame_number, 1);
    assert_eq!(log[0].timestamp_nanos, 11);
    assert_eq!(log[0].memory_usage_bytes, 7);
    assert_eq!(log[0].cpu_usage_millipercent, 8);
    assert_eq!(log[1].timestamp_nanos, 22);
    assert_eq!(log[1].memory_usage_bytes, 9);
    assert_eq!(log[1].cpu_usage_millipercent, 10);
    assert_eq!(log[4].frame_number, 5);
}

#[test]
fn recording_counts_frames_whatever_their_numbers() {
    let mut m = MetricsCollector::new(0);
    m.record_frame_at(1, 7, &frame(7, 1), snap(1, 1));
    m.record_frame_at(2, 7, &frame(7, 2), snap(1, 1));
    m.record_frame_at(3, 1_000, &frame(1_000, 3), snap(1, 1));
    assert_eq!(m.get_total_frames(), 3);
    assert_eq!(m.get_frame_metrics().len(), 3);
    assert_eq!(m.get_frame_metrics()[2].frame_number, 1_000);
}

#[test]
fn recording_on_the_clock_logs_the_frame() {
    let mut m = MetricsCollector::new(1_700_000_000_000_000);
    m.record_frame(1, &frame(1, 40_000_000), snap(2_097_152, 5_000));
    m.record_frame(2, &frame(2, 80_000_000), snap(1_048_576, 7_000));
    assert_eq!(m.get_total_frames(), 2);
    let log = m.get_frame_metrics();
    assert_eq!(log[0].timestamp_nanos, 40_000_000);
    assert_eq!(log[0].processing_time_nanos, 0);
    assert_eq!(log[1].frame_number, 2);
    assert_eq!(log[1].memory_usage_bytes, 1_048_576);
    assert_eq!(m.get_peak_memory_mb(), Ratio { num: 2_097_152, den: 1_048_576 });
    assert_eq!(m.get_peak_cpu_percent(), Ratio { num: 7_000, den: 1000 });
    assert_eq!(m.get_max_fps(), Ratio { num: 1_000_000_000, den: 40_000_000 });
    let current = m.get_current_fps();
    assert!(current == Ratio::zero() || current.num == 1_000_000_000);
}

#[test]
fn dropped_frames_are_counted_only_on_request() {
    let mut m = steady(10);
    assert_eq!(m.get_dropped_frames(), 0);
    m.increment_dropped_frames();
    m.increment_dropped_frames();
    assert_eq!(m.get_dropped_frames(), 2);
    assert_eq!(m.get_total_frames(), 10);
    assert_eq!(m.finalize_session_at(1, 2).dropped_frames, 2);
}

#[test]
fn session_duration_grows() {
    let m = MetricsCollector::new(1_700_000_000_000_000);
    let a = m.get_session_duration();
    let b = m.get_session_duration();
    assert!(b >= a);
}

#[test]
fn account_reflects_the_state() {
    let mut m = steady(100);
    m.increment_dropped_frames();
    let r = m.finalize_session_at(100 * SPACING, 1_700_000_003_333_333);
    assert_eq!(r.start_time, 1_700_000_000_000_000);
    assert_eq!(r.end_time, Some(1_700_000_003_333_333));
    assert_eq!(r.total_frames, 100);
    assert_eq!(r.total_duration_nanos, 100 * SPACING);
    assert_eq!(r.average_fps, Ratio { num: 100_000_000_000, den: (100 * SPACING) as u128 });
    assert_eq!(r.max_fps, Ratio { num: 1_000_000_000, den: SPACING as u128 });
    assert_eq!(r.min_fps, Some(Ratio { num: 1_000_000_000, den: SPACING as u128 }));
    assert_eq!(r.peak_memory_mb, Ratio { num: 50 * 1_048_576, den: 1_048_576 });
    assert_eq!(r.average_memory_mb, Ratio { num: 100 * 50 * 1_048_576, den: 100 * 1_048_576 });
    assert_eq!(r.average_cpu_percent, Ratio { num: 100 * 12_500, den: 100_000 });
    assert_eq!(r.peak_cpu_percent, Ratio { num: 12_500, den: 1000 });
    assert_eq!(r.dropped_frames, 1);
    assert_eq!(r.frame_metrics.len(), 100);
    assert_eq!(r.frame_metrics[99].frame_number, 100);
    assert_eq!(r.frame_metrics[99].timestamp_nanos, 100 * SPACING);
    assert_eq!(r.frame_metrics[99].processing_time_nanos, SPACING);
}

#[test]
fn account_can_be_drawn_up_twice() {
    let m = steady(100);
    let a = m.finalize_session_at(5_000_000_000, 10);
    let b = m.finalize_session_at(5_000_000_000, 11);
    assert_eq!(a.total_frames, b.total_frames);
    assert_eq!(a.peak_memory_mb, b.peak_memory_mb);
    assert_eq!(a.average_fps, b.average_fps);
    assert_eq!(a.max_fps, b.max_fps);
    assert_eq!(a.min_fps, b.min_fps);
    assert_eq!(a.average_memory_mb, b.average_memory_mb);
    assert_eq!(a.average_cpu_percent, b.average_cpu_percent);
    assert_eq!(a.peak_cpu_percent, b.peak_cpu_percent);
    assert_eq!(a.dropped_frames, b.dropped_frames);
    assert_eq!(a.total_duration_nanos, b.total_duration_nanos);
    assert_eq!(a.frame_metrics.len(), b.frame_metrics.len());
    assert_eq!(a.start_time, b.start_time);
    assert_eq!(a.end_time, Some(10));
    assert_eq!(b.end_time, Some(11));
    assert_eq!(m.get_total_frames(), 100);
}

#[test]
fn account_on_the_clock_does_not_reset_anything() {
    let mut m = MetricsCollector::new(1_700_000_000_000_000);
    for n in 1..=5 {
        m.record_frame(n, &frame(n, n * SPACING), snap(n * 1_000, n * 100));
    }
    let a = m.finalize_session(1_700_000_000_000_100);
    let b = m.finalize_session(1_700_000_000_000_200);
    assert_eq!(a.total_frames, 5);
    assert_eq!(b.total_frames, 5);
    assert_eq!(a.peak_memory_mb, b.peak_memory_mb);
    assert_eq!(a.peak_memory_mb, Ratio { num: 5_000, den: 1_048_576 });
    assert_eq!(a.max_fps, b.max_fps);
    assert_eq!(a.start_time, 1_700_000_000_000_000);
    assert_eq!(b.start_time, 1_700_000_000_000_000);
    assert_eq!(a.end_time, Some(1_700_000_000_000_100));
    assert_eq!(b.end_time, Some(1_700_000_000_000_200));
    assert!(b.total_duration_nanos >= a.total_duration_nanos);
    assert_eq!(a.average_fps, m.get_average_fps_at(a.total_duration_nanos));
    assert_eq!(b.average_fps, m.get_average_fps_at(b.total_duration_nanos));
    m.record_frame(6, &frame(6, 6 * SPACING), snap(1, 1));
    assert_eq!(m.finalize_session(0).total_frames, 6);
}

#[test]
fn session_clock_runs_on_through_recordings_and_drops() {
    let mut m = MetricsCollector::new(0);
    let mut before = m.get_session_duration();
    for n in 1..=200u64 {
        m.record_frame_at(n, n, &frame(n, n), snap(1, 1));
        m.increment_dropped_frames();
        let now = m.get_session_duration();
        assert!(now >= before);
        before = now;
    }
    m.record_frame(201, &frame(201, 201), snap(1, 1));
    let account = m.finalize_session(5);
    assert!(account.total_duration_nanos >= before);
    assert!(m.get_session_duration() >= account.total_duration_nanos);
}

#[test]
fn session_start_is_kept() {
    let m = MetricsCollector::new(-5);
    assert_eq!(m.finalize_session_at(0, 0).start_time, -5);
    assert_eq!(m.finalize_session_at(0, 0).average_fps, Ratio::zero());
    assert_eq!(m.finalize_session_at(0, 0).total_frames, 0);
}

#[test]
fn snapshot_is_normalised_to_megabytes_and_percent() {
    let s = snap(5 * 1_048_576 / 2, 12_345);
    assert_eq!(s.memory_mb(), Ratio { num: 2_621_440, den: 1_048_576 });
    assert_eq!(value(s.memory_mb()), 2.5);
    assert_eq!(s.cpu_percent(), Ratio { num: 12_345, den: 1000 });
    assert_eq!(value(s.cpu_percent()), 12.345);
    assert_eq!(snap(0, 0).memory_mb(), Ratio { num: 0, den: 1_048_576 });
    assert_eq!(snap(u64::MAX, u64::MAX).cpu_percent().num, u64::MAX as u128);
}
