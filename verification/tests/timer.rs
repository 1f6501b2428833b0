use pathtracer::metrics::PerformanceMetrics;

#[test]
fn empty_timer_reports_zero() {
    let m = PerformanceMetrics::<4>::default();
    assert_eq!(m.avg_frame_time(), 0);
    assert_eq!(m.curr_frame_time(), 0);
    assert_eq!(m.time_since_start(), 0);
}

#[test]
fn window_sum_and_average() {
    let mut m = PerformanceMetrics::<3>::default();
    m.record_frame(10);
    assert_eq!(m.curr_frame_time(), 10);
    assert_eq!(m.avg_frame_time(), 10);
    m.record_frame(20);
    assert_eq!(m.avg_frame_time(), 15);
    m.record_frame(30);
    assert_eq!(m.avg_frame_time(), 20);
    // The buffer is full: the oldest entry leaves the window.
    m.record_frame(40);
    assert_eq!(m.avg_frame_time(), 30);
    m.record_frame(50);
    assert_eq!(m.avg_frame_time(), 40);
    assert_eq!(m.curr_frame_time(), 50);
    // Total elapsed time keeps every duration, also the evicted ones.
    assert_eq!(m.time_since_start(), 150);
}

#[test]
fn single_slot_window() {
    let mut m = PerformanceMetrics::<1>::default();
    m.record_frame(7);
    m.record_frame(9);
    assert_eq!(m.avg_frame_time(), 9);
    assert_eq!(m.time_since_start(), 16);
}

#[test]
fn first_next_frame_only_anchors() {
    let mut m = PerformanceMetrics::<4>::default();
    m.next_frame();
    assert_eq!(m.avg_frame_time(), 0);
    assert_eq!(m.time_since_start(), 0);
}

#[test]
fn pause_forgets_anchor() {
    let mut m = PerformanceMetrics::<4>::default();
    m.next_frame();
    m.pause();
    // The first call after a pause anchors again without recording a
    // duration spanning the paused interval.
    m.next_frame();
    assert_eq!(m.avg_frame_time(), 0);
    assert_eq!(m.time_since_start(), 0);
}

#[test]
fn next_frame_records_after_anchor() {
    let mut m = PerformanceMetrics::<8>::default();
    m.next_frame();
    m.next_frame();
    m.next_frame();
    assert!(m.time_since_start() >= m.curr_frame_time() as u128);
}
