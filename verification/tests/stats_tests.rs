use mcraw_tui::stats::{PhaseTimer, PipelineStats};

#[test]
fn phase_timer_sums_and_extremes() {
    let mut t = PhaseTimer::new();
    for ms in [10u64, 20, 30, 40, 50, 60, 70, 80, 90, 100] {
        t.record(ms * 1_000_000);
    }
    assert_eq!(t.frames(), 10);
    assert_eq!(t.total(), 550_000_000);
    assert_eq!(t.avg(), 55_000_000);
    assert_eq!(t.min(), 10_000_000);
    assert_eq!(t.max(), 100_000_000);
    // squares of whole microseconds: 10000^2 + ... + 100000^2
    let expected: u64 = (1..=10u64).map(|k| (k * 10_000) * (k * 10_000)).sum();
    assert_eq!(t.sum_sq_scaled(), expected);
}

#[test]
fn phase_timer_with_no_samples_reads_zero() {
    let t = PhaseTimer::new();
    assert_eq!(t.frames(), 0);
    assert_eq!(t.avg(), 0);
    assert_eq!(t.min(), 0);
    assert_eq!(t.max(), 0);
}

#[test]
fn phase_timer_ignores_zero_durations() {
    let mut t = PhaseTimer::new();
    t.record(0);
    t.record(5);
    t.record(0);
    assert_eq!(t.frames(), 1);
    assert_eq!(t.min(), 5);
}

#[test]
fn phase_timer_mean_lies_between_extremes() {
    let mut t = PhaseTimer::new();
    for ns in [7u64, 3, 1_000, 42, 9] {
        t.record(ns);
    }
    assert!(t.min() <= t.avg() && t.avg() <= t.max());
    assert_eq!(t.avg(), 1061 / 5);
}

#[test]
fn phase_timer_saturates_huge_squares_and_wraps_sums() {
    let mut t = PhaseTimer::new();
    t.record(u64::MAX);
    t.record(2);
    assert_eq!(t.total(), 1); // wrapped
    assert_eq!(t.sum_sq_scaled(), u64::MAX); // saturated square, then + 0
    assert_eq!(t.max(), u64::MAX);
    assert_eq!(t.min(), 2);
}

#[test]
fn encode_push_is_recorded_per_frame() {
    let mut s = PipelineStats::new();
    s.record_encode_push_frame(3, 1500);
    s.record_encode_push_frame(4, 0);
    assert_eq!(s.encode_push_per_frame, vec![(3, 1500), (4, 0)]);
    assert_eq!(s.encode_push.frames(), 1);
    assert_eq!(s.encode_push.total(), 1500);
}

#[test]
fn phase_timer_avg_min_max_fps() {
    let mut t = PhaseTimer::new();
    for ms in [10u64, 20, 30, 40, 50, 60, 70, 80, 90, 100] {
        t.record(ms * 1_000_000);
    }
    assert_eq!(t.frames(), 10);
    assert_eq!(t.avg() / 1_000, 55_000);
    assert_eq!(t.min() / 1_000, 10_000);
    assert_eq!(t.max() / 1_000, 100_000);
    // fps = frames / total_seconds = 10 / 0.55 = ~18.18
    let fps = t.frames() as f64 / (t.total() as f64 / 1e9);
    assert!((fps - 18.18).abs() < 0.1, "fps={}", fps);
}

#[test]
fn phase_timer_zero_samples() {
    let t = PhaseTimer::new();
    assert_eq!(t.frames(), 0);
    assert_eq!(t.avg() / 1_000, 0);
    let fps = if t.total() == 0 { 0.0 } else { t.frames() as f64 / (t.total() as f64 / 1e9) };
    assert_eq!(fps, 0.0);
}
