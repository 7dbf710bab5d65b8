use smart_channel::performance_panel::MetricsSnapshot;
use smart_channel::performance_panel::PerformancePanel;
use smart_channel::performance_panel::PhaseTimings;

const MILLI: u64 = 1_000_000;

#[test]
fn test_performance_panel_frame_tracking() {
    let mut panel = PerformancePanel::new();
    panel.enabled = true;

    // Simulate frames of 15 milliseconds each
    let mut now: u64 = 0;
    for _ in 0..10 {
        panel.begin_frame(now);
        now += 15_000 * 1_000;
        panel.end_frame(now, MetricsSnapshot::default());
    }

    // Check we have data
    assert_eq!(panel.frame_times.len(), 10);
    assert_eq!(panel.total_frames, 10);
}

#[test]
fn test_percentile_calculation() {
    let mut panel = PerformancePanel::new();
    panel.enabled = true;

    // Add known frame times
    panel.frame_times.push_back(10 * MILLI);
    panel.frame_times.push_back(15 * MILLI);
    panel.frame_times.push_back(20 * MILLI);

    let p50 = panel.percentile(50);
    assert!(p50 >= 14 * MILLI && p50 <= 16 * MILLI);
}

#[test]
fn test_baseline_comparison() {
    let mut panel = PerformancePanel::new();
    panel.enabled = true;

    // Add some frame times
    for _ in 0..10 {
        panel.frame_times.push_back(20 * MILLI);
    }

    // Set baseline
    panel.set_baseline();
    assert!(panel.baseline.is_some());

    // Clear baseline
    panel.clear_baseline();
    assert!(panel.baseline.is_none());
}

#[test]
fn test_pause_resume() {
    let mut panel = PerformancePanel::new();
    panel.enabled = true;

    // Collect some frames
    for _ in 0..5 {
        panel.begin_frame(0);
        panel.end_frame(0, MetricsSnapshot::default());
    }
    assert_eq!(panel.total_frames, 5);

    // Pause
    panel.paused = true;
    for _ in 0..5 {
        panel.begin_frame(0); // Should do nothing
        panel.end_frame(0, MetricsSnapshot::default()); // Should do nothing
    }
    assert_eq!(panel.total_frames, 5); // No change

    // Resume
    panel.paused = false;
    for _ in 0..5 {
        panel.begin_frame(0);
        panel.end_frame(0, MetricsSnapshot::default());
    }
    assert_eq!(panel.total_frames, 10);
}

#[test]
fn test_bottleneck_phase_detection() {
    let mut timings = PhaseTimings::default();
    timings.blueprint_query = 2 * MILLI;
    timings.query_results = 15 * MILLI; // Slowest
    timings.update_overrides = 3 * MILLI;
    timings.execute_systems = 4 * MILLI;
    timings.ui_rendering = 5 * MILLI;
    timings.gc = 1 * MILLI;

    assert_eq!(timings.bottleneck_phase(), "Query Results");
}

#[test]
fn bottleneck_phase_is_none_when_idle() {
    let timings = PhaseTimings::default();
    assert_eq!(timings.bottleneck_phase(), "None");
}

#[test]
fn bottleneck_phase_first_of_equal_maxima() {
    let mut timings = PhaseTimings::default();
    timings.update_overrides = 5 * MILLI;
    timings.gc = 5 * MILLI;
    assert_eq!(timings.bottleneck_phase(), "Update Overrides");
}

#[test]
fn phase_total_is_exact_sum() {
    let timings = PhaseTimings {
        blueprint_query: 1,
        query_results: 2,
        update_overrides: 3,
        execute_systems: 4,
        ui_rendering: 5,
        gc: 6,
    };
    assert_eq!(timings.total(), 21);
}

#[test]
fn percentile_of_no_data_is_zero() {
    let panel = PerformancePanel::new();
    assert_eq!(panel.percentile(50), 0);
    assert_eq!(panel.percentile(99), 0);
}

#[test]
fn frame_window_keeps_only_newest() {
    let mut panel = PerformancePanel::new();
    panel.enabled = true;

    // One more frame than the window holds; each frame takes i nanoseconds.
    let mut now: u64 = 0;
    for i in 0..61u64 {
        panel.begin_frame(now);
        now += i;
        panel.end_frame(now, MetricsSnapshot::default());
        now += 1;
    }

    assert_eq!(panel.frame_times.len(), 60);
    // The oldest frame (duration 0) fell out of the window.
    assert_eq!(*panel.frame_times.front().unwrap(), 1);
    assert_eq!(*panel.frame_times.back().unwrap(), 60);
    assert_eq!(panel.total_frames, 61);
}

#[test]
fn baseline_holds_current_percentiles() {
    let mut panel = PerformancePanel::new();
    panel.enabled = true;
    panel.frame_times.push_back(10 * MILLI);
    panel.frame_times.push_back(20 * MILLI);
    panel.frame_times.push_back(30 * MILLI);
    panel.frame_times.push_back(40 * MILLI);

    panel.set_baseline();
    let baseline = panel.baseline.unwrap();
    // Sorted times: 10, 20, 30, 40 ms; index = len * pct / 100.
    assert_eq!(baseline.p50, 30 * MILLI);
    assert_eq!(baseline.p95, 40 * MILLI);
    assert_eq!(baseline.p99, 40 * MILLI);
}

#[test]
fn reset_clears_collected_data() {
    let mut panel = PerformancePanel::new();
    panel.enabled = true;
    panel.begin_frame(0);
    panel.end_frame(5 * MILLI, MetricsSnapshot::default());
    assert_eq!(panel.total_frames, 1);

    panel.reset();
    assert_eq!(panel.total_frames, 0);
    assert_eq!(panel.frame_times.len(), 0);
    assert_eq!(panel.cache_stats.query_cache_hits, 0);
}

#[test]
fn end_frame_publishes_metrics_snapshot() {
    let mut panel = PerformancePanel::new();
    panel.enabled = true;
    let snapshot = MetricsSnapshot {
        annotation_loads: 3,
        entity_tree_walks: 1,
        transform_invalidations: 7,
        blueprint_tree_rebuilds: 2,
        query_traversals: 9,
        query_cache_hits: 10,
        query_cache_misses: 4,
        transform_cache_hits: 8,
        transform_cache_misses: 2,
        blueprint_tree_cache_hits: 5,
        blueprint_tree_cache_misses: 1,
    };
    panel.begin_frame(100);
    panel.end_frame(200, snapshot);

    assert_eq!(panel.bottleneck_metrics.annotation_loads_per_frame, 3);
    assert_eq!(panel.bottleneck_metrics.query_traversals_per_frame, 9);
    assert_eq!(panel.cache_stats.query_cache_hits, 10);
    assert_eq!(panel.cache_stats.blueprint_tree_cache_misses, 1);
    assert_eq!(*panel.frame_times.back().unwrap(), 100);
}
