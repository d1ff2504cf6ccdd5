use ruwm::state::StateSnapshot;
use ruwm::time::Duration;
use ruwm::water_meter::WaterMeterState;
use ruwm::water_meter_stats::{
    edges_figure, process, window_duration, FlowMeasurement, FlowSnapshot, WaterMeterStats,
    WaterMeterStatsState, FLOW_STATS_INSTANCES, UPDATE_PERIOD_SECS,
};

fn at(secs: u64, edges_count: u64) -> FlowSnapshot {
    FlowSnapshot::new(Duration::from_secs(secs), edges_count)
}

#[test]
fn eight_windows_of_fixed_length() {
    let secs = [300u64, 1_800, 3_600, 21_600, 43_200, 86_400, 604_800, 2_592_000];
    assert_eq!(FLOW_STATS_INSTANCES, 8);
    assert_eq!(UPDATE_PERIOD_SECS, 10);
    for (index, expected) in secs.iter().enumerate() {
        assert_eq!(window_duration(index), Duration::from_secs(*expected));
    }
}

#[test]
fn snapshot_keeps_time_and_count() {
    let snapshot = at(12, 34);
    assert_eq!(snapshot.time(), Duration::from_secs(12));
    assert_eq!(snapshot.edges_count(), 34);
}

#[test]
fn statistics_is_the_difference() {
    let snapshot = at(0, 10);
    assert_eq!(snapshot.statistics(10), 0);
    assert_eq!(snapshot.statistics(25), 15);
    assert_eq!(at(0, 0).statistics(u64::MAX), u64::MAX);
}

#[test]
fn flow_needs_more_than_one_edge() {
    let snapshot = at(0, 10);
    assert!(!snapshot.flow_detected(10));
    assert!(!snapshot.flow_detected(11));
    assert!(snapshot.flow_detected(12));
}

#[test]
fn nonaligned_due_counts_from_start() {
    let five_minutes = Duration::from_secs(300);
    let start = Duration::from_secs(100);
    assert!(!FlowSnapshot::is_nonaligned_measurement_due(
        start,
        Duration::from_secs(399),
        five_minutes
    ));
    assert!(FlowSnapshot::is_nonaligned_measurement_due(
        start,
        Duration::from_secs(400),
        five_minutes
    ));
    assert!(!FlowSnapshot::is_nonaligned_measurement_due(
        start,
        Duration::new(399, 999_999_999),
        five_minutes
    ));
}

#[test]
fn nonaligned_due_is_false_before_start() {
    assert!(!FlowSnapshot::is_nonaligned_measurement_due(
        Duration::from_secs(100),
        Duration::from_secs(50),
        Duration::from_secs(10)
    ));
}

#[test]
fn aligned_due_counts_from_boundary() {
    let five_minutes = Duration::from_secs(300);
    // The window began at 305 s, in the period that started at 300 s.
    let start = Duration::from_secs(305);
    assert!(!FlowSnapshot::is_aligned_measurement_due(
        start,
        Duration::from_secs(599),
        five_minutes
    ));
    assert!(!FlowSnapshot::is_aligned_measurement_due(
        start,
        Duration::new(599, 999_999_999),
        five_minutes
    ));
    assert!(FlowSnapshot::is_aligned_measurement_due(
        start,
        Duration::from_secs(600),
        five_minutes
    ));
    assert!(at(305, 0).is_measurement_due(five_minutes, Duration::from_secs(600)));
    assert!(!at(305, 0).is_measurement_due(five_minutes, Duration::from_secs(305)));
}

#[test]
fn aligned_due_with_largest_times() {
    let start = Duration::new(u64::MAX, 999_999_999);
    assert!(!FlowSnapshot::is_aligned_measurement_due(start, start, Duration::from_secs(1)));
    assert!(FlowSnapshot::is_aligned_measurement_due(
        Duration::from_secs(0),
        start,
        Duration::from_secs(u64::MAX)
    ));
}

#[test]
fn measurement_keeps_start_and_end() {
    let measurement = FlowMeasurement::new(at(0, 0), at(305, 9));
    assert_eq!(*measurement.start(), at(0, 0));
    assert_eq!(*measurement.end(), at(305, 9));
}

#[test]
fn default_state_is_at_zero() {
    let state = WaterMeterStatsState::default();
    assert_eq!(state.installation, at(0, 0));
    assert_eq!(state.most_recent, at(0, 0));
    assert_eq!(state.snapshots, [at(0, 0); 8]);
    assert_eq!(state.measurements, [None; 8]);
}

#[test]
fn update_moves_most_recent() {
    let mut state = WaterMeterStatsState::default();
    assert!(state.update(4, Duration::from_secs(10)));
    assert_eq!(state.most_recent, at(10, 4));
    assert!(state.update(3, Duration::from_secs(20)));
    assert_eq!(state.most_recent, at(20, 7));
    assert_eq!(state.installation, at(0, 0));
    assert_eq!(state.snapshots, [at(0, 0); 8]);
    assert_eq!(state.measurements, [None; 8]);
}

#[test]
fn update_without_change_reports_none() {
    let mut state = WaterMeterStatsState::default();
    assert!(!state.update(0, Duration::from_secs(0)));
    assert_eq!(state, WaterMeterStatsState::default());
    assert!(state.update(0, Duration::from_secs(1)));
    assert!(!state.update(0, Duration::from_secs(1)));
}

#[test]
fn five_minute_window_turns_over_at_305_seconds() {
    let mut state = WaterMeterStatsState::default();
    let mut now = 5;
    let mut total = 0;
    while now < 305 {
        assert!(state.update(1, Duration::from_secs(now)));
        total += 1;
        assert_eq!(state.most_recent, at(now, total));
        assert_eq!(state.snapshots[0], at(0, 0));
        assert_eq!(state.measurements[0], None);
        now += 10;
    }
    assert_eq!(now, 305);
    assert!(state.update(1, Duration::from_secs(305)));
    total += 1;
    assert_eq!(state.measurements[0], Some(FlowMeasurement::new(at(0, 0), at(305, total))));
    assert_eq!(state.snapshots[0], at(305, total));
    for index in 1..8 {
        assert_eq!(state.snapshots[index], at(0, 0));
        assert_eq!(state.measurements[index], None);
    }
    // The window began anew at 305 s; its period ends at 600 s.
    assert!(state.update(1, Duration::from_secs(595)));
    assert_eq!(state.snapshots[0], at(305, total));
    assert!(state.update(1, Duration::from_secs(605)));
    assert_eq!(
        state.measurements[0],
        Some(FlowMeasurement::new(at(305, total), at(605, total + 2)))
    );
    assert_eq!(state.snapshots[0], at(605, total + 2));
}

#[test]
fn windows_turn_over_independently() {
    let mut state = WaterMeterStatsState::default();
    assert!(state.update(2, Duration::from_secs(1_800)));
    let recent = at(1_800, 2);
    let done = Some(FlowMeasurement::new(at(0, 0), recent));
    assert_eq!(state.measurements[0], done);
    assert_eq!(state.measurements[1], done);
    assert_eq!(state.measurements[2], None);
    assert_eq!(state.snapshots[0], recent);
    assert_eq!(state.snapshots[1], recent);
    assert_eq!(state.snapshots[2], at(0, 0));

    assert!(state.update(0, Duration::from_secs(2_592_000)));
    let last = at(2_592_000, 2);
    for index in 0..8 {
        assert_eq!(state.snapshots[index], last);
    }
    assert_eq!(state.measurements[0], Some(FlowMeasurement::new(recent, last)));
    assert_eq!(state.measurements[7], Some(FlowMeasurement::new(at(0, 0), last)));
}

#[test]
fn due_window_reports_update_without_new_count() {
    let mut state = WaterMeterStatsState::default();
    state.most_recent = at(300, 0);
    assert!(state.update(0, Duration::from_secs(300)));
    assert_eq!(state.measurements[0], Some(FlowMeasurement::new(at(0, 0), at(300, 0))));
}

#[test]
fn updated_leaves_the_state_alone() {
    let state = WaterMeterStatsState::default();
    let next = state.updated(5, Duration::from_secs(10));
    assert_eq!(state, WaterMeterStatsState::default());
    assert_eq!(next.most_recent, at(10, 5));
}

#[test]
fn edges_figure_prefers_arrived_state() {
    let mut stats = WaterMeterStatsState::default();
    stats.most_recent = at(1, 40);
    let arrived = WaterMeterState { edges_count: 7, ..WaterMeterState::default() };
    assert_eq!(edges_figure(Some(arrived), stats), 7);
    assert_eq!(edges_figure(None, stats), 40);
}

#[test]
fn process_adds_the_figure_onto_the_total() {
    let mut cell = StateSnapshot::new(WaterMeterStatsState::default());
    let arrived = WaterMeterState { edges_count: 7, ..WaterMeterState::default() };
    let forward = process(&mut cell, Some(arrived), Duration::from_secs(10)).unwrap();
    assert_eq!(forward.most_recent, at(10, 7));
    // On the timer the latest count itself goes into the update.
    let forward = process(&mut cell, None, Duration::from_secs(20)).unwrap();
    assert_eq!(forward.most_recent, at(20, 14));
    assert_eq!(cell.get(), forward);
    assert_eq!(process(&mut cell, Some(WaterMeterState::default()), Duration::from_secs(20)), None);
}

#[test]
fn stats_task_takes_the_waiting_state() {
    let mut stats = WaterMeterStats::new();
    assert_eq!(stats.state().get(), WaterMeterStatsState::default());
    stats.wm_state_sink(WaterMeterState { edges_count: 1, ..WaterMeterState::default() });
    stats.wm_state_sink(WaterMeterState { edges_count: 3, ..WaterMeterState::default() });
    let forward = stats.process(Duration::from_secs(10)).unwrap();
    assert_eq!(forward.most_recent, at(10, 3));
    let forward = stats.process(Duration::from_secs(20)).unwrap();
    assert_eq!(forward.most_recent, at(20, 6));
    assert_eq!(stats.state().get(), forward);
}
