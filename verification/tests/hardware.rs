use clarigggz::hardware::{
    HardwareManager, HardwareMetrics, SharedHardware, INITIAL_BATTERY_LEVEL, INITIAL_TEMPERATURE,
};

fn bits(x: f32, y: f32, z: f32) -> [u32; 3] {
    [x.to_bits(), y.to_bits(), z.to_bits()]
}

fn set(manager: &mut HardwareManager, x: f32, y: f32, z: f32) {
    manager.update_rotation(x.to_bits(), y.to_bits(), z.to_bits());
}

#[test]
fn initial_constants_are_the_documented_floats() {
    assert_eq!(f32::from_bits(INITIAL_TEMPERATURE), 25.0);
    assert_eq!(f32::from_bits(INITIAL_BATTERY_LEVEL), 100.0);
    assert_eq!(INITIAL_TEMPERATURE, 25.0f32.to_bits());
    assert_eq!(INITIAL_BATTERY_LEVEL, 100.0f32.to_bits());
}

#[test]
fn new_manager_reports_defaults() {
    let manager = HardwareManager::new();
    let metrics = manager.get_metrics();
    assert_eq!(f32::from_bits(metrics.cpu_load), 0.0);
    assert_eq!(f32::from_bits(metrics.temperature), 25.0);
    assert_eq!(f32::from_bits(metrics.battery_level), 100.0);
    assert_eq!(metrics.rotation, bits(0.0, 0.0, 0.0));
    assert_eq!(metrics.acceleration, bits(0.0, 0.0, 0.0));
    assert!(metrics.display_on);
    assert!(!manager.recording);
    assert!(manager.history.is_empty());
}

#[test]
fn toggle_display_flips_and_returns_new_value() {
    let mut manager = HardwareManager::new();
    assert!(!manager.toggle_display());
    assert!(!manager.get_metrics().display_on);
    assert!(manager.toggle_display());
    assert!(manager.get_metrics().display_on);
}

#[test]
fn toggle_display_leaves_other_fields_alone() {
    let mut manager = HardwareManager::new();
    set(&mut manager, 1.0, 2.0, 3.0);
    let before = manager.get_metrics();
    manager.toggle_display();
    let after = manager.get_metrics();
    assert_eq!(after, HardwareMetrics { display_on: false, ..before });
}

#[test]
fn update_rotation_touches_only_rotation() {
    let mut manager = HardwareManager::new();
    let before = manager.get_metrics();
    set(&mut manager, 1.5, -2.25, 90.0);
    let after = manager.get_metrics();
    assert_eq!(after, HardwareMetrics { rotation: bits(1.5, -2.25, 90.0), ..before });
    assert_eq!(f32::from_bits(after.rotation[1]), -2.25);
}

#[test]
fn updates_outside_a_session_are_not_recorded() {
    let mut manager = HardwareManager::new();
    set(&mut manager, 1.0, 2.0, 3.0);
    set(&mut manager, 4.0, 5.0, 6.0);
    assert!(manager.stop_recording().is_empty());
    assert_eq!(manager.get_metrics().rotation, bits(4.0, 5.0, 6.0));
}

#[test]
fn session_records_each_update_in_call_order() {
    let mut manager = HardwareManager::new();
    manager.start_recording();
    assert!(manager.recording);
    let calls = [(1.0f32, 2.0f32, 3.0f32), (4.0, 5.0, 6.0), (-7.0, 0.5, 8.0), (1.0, 2.0, 3.0)];
    for (n, (x, y, z)) in calls.iter().enumerate() {
        set(&mut manager, *x, *y, *z);
        assert_eq!(manager.history.len(), n + 1);
    }
    let snapshots = manager.stop_recording();
    assert_eq!(snapshots.len(), calls.len());
    for (snapshot, (x, y, z)) in snapshots.iter().zip(calls.iter()) {
        assert_eq!(snapshot.rotation, bits(*x, *y, *z));
        assert_eq!(f32::from_bits(snapshot.temperature), 25.0);
        assert!(snapshot.display_on);
    }
}

#[test]
fn snapshot_is_taken_after_the_update() {
    let mut manager = HardwareManager::new();
    set(&mut manager, 9.0, 9.0, 9.0);
    manager.toggle_display();
    manager.start_recording();
    set(&mut manager, 1.0, 2.0, 3.0);
    let snapshots = manager.stop_recording();
    assert_eq!(snapshots.len(), 1);
    assert_eq!(snapshots[0], manager.get_metrics());
    assert_eq!(snapshots[0].rotation, bits(1.0, 2.0, 3.0));
    assert!(!snapshots[0].display_on);
}

#[test]
fn toggle_display_is_not_recorded() {
    let mut manager = HardwareManager::new();
    manager.start_recording();
    manager.toggle_display();
    assert!(manager.stop_recording().is_empty());
}

#[test]
fn start_recording_discards_history_of_a_closed_session() {
    let mut manager = HardwareManager::new();
    manager.start_recording();
    set(&mut manager, 1.0, 2.0, 3.0);
    assert_eq!(manager.stop_recording().len(), 1);
    manager.start_recording();
    assert!(manager.history.is_empty());
    assert!(manager.recording);
    assert!(manager.stop_recording().is_empty());
}

#[test]
fn start_recording_discards_history_of_an_open_session() {
    let mut manager = HardwareManager::new();
    manager.start_recording();
    set(&mut manager, 1.0, 2.0, 3.0);
    set(&mut manager, 4.0, 5.0, 6.0);
    manager.start_recording();
    assert!(manager.history.is_empty());
    assert!(manager.recording);
    set(&mut manager, 7.0, 8.0, 9.0);
    let snapshots = manager.stop_recording();
    assert_eq!(snapshots.len(), 1);
    assert_eq!(snapshots[0].rotation, bits(7.0, 8.0, 9.0));
}

#[test]
fn stop_recording_twice_returns_the_same_snapshots() {
    let mut manager = HardwareManager::new();
    manager.start_recording();
    set(&mut manager, 1.0, 2.0, 3.0);
    set(&mut manager, 4.0, 5.0, 6.0);
    set(&mut manager, 7.0, 8.0, 9.0);
    let first = manager.stop_recording();
    assert!(!manager.recording);
    let second = manager.stop_recording();
    assert_eq!(first.len(), 3);
    assert_eq!(first, second);
    assert_eq!(first[0].rotation, bits(1.0, 2.0, 3.0));
    assert_eq!(first[1].rotation, bits(4.0, 5.0, 6.0));
    assert_eq!(first[2].rotation, bits(7.0, 8.0, 9.0));
}

#[test]
fn stopped_session_cannot_be_reopened_by_updates() {
    let mut manager = HardwareManager::new();
    manager.start_recording();
    set(&mut manager, 1.0, 2.0, 3.0);
    let first = manager.stop_recording();
    set(&mut manager, 4.0, 5.0, 6.0);
    let second = manager.stop_recording();
    assert_eq!(first, second);
    assert_eq!(second.len(), 1);
}

#[test]
fn bit_patterns_survive_unchanged() {
    let mut manager = HardwareManager::new();
    manager.start_recording();
    let nan = f32::NAN.to_bits();
    let negative_zero = (-0.0f32).to_bits();
    manager.update_rotation(nan, negative_zero, u32::MAX);
    assert_eq!(manager.get_metrics().rotation, [nan, negative_zero, u32::MAX]);
    assert_eq!(manager.stop_recording()[0].rotation, [nan, negative_zero, u32::MAX]);
}

#[test]
fn shared_hardware_behaves_like_its_manager() {
    let shared = SharedHardware::new();
    assert_eq!(shared.get_metrics(), HardwareManager::new().get_metrics());
    assert!(!shared.toggle_display());
    shared.update_rotation(1.0f32.to_bits(), 2.0f32.to_bits(), 3.0f32.to_bits());
    assert!(shared.stop_recording().is_empty());
    shared.start_recording();
    shared.update_rotation(4.0f32.to_bits(), 5.0f32.to_bits(), 6.0f32.to_bits());
    shared.update_rotation(7.0f32.to_bits(), 8.0f32.to_bits(), 9.0f32.to_bits());
    let first = shared.stop_recording();
    let second = shared.stop_recording();
    assert_eq!(first.len(), 2);
    assert_eq!(first, second);
    assert_eq!(first[1], shared.get_metrics());
    assert_eq!(first[0].rotation, bits(4.0, 5.0, 6.0));
    assert!(!first[0].display_on);
    shared.start_recording();
    assert!(shared.stop_recording().is_empty());
}

#[test]
fn shared_store_keeps_the_readings_that_no_operation_sets() {
    let shared = SharedHardware::new();
    let initial = shared.get_metrics();
    shared.start_recording();
    shared.update_rotation(1.0f32.to_bits(), 2.0f32.to_bits(), 3.0f32.to_bits());
    shared.toggle_display();
    shared.update_rotation(4.0f32.to_bits(), 5.0f32.to_bits(), 6.0f32.to_bits());
    let live = shared.get_metrics();
    assert_eq!(
        live,
        HardwareMetrics { rotation: live.rotation, display_on: live.display_on, ..initial }
    );
    for snapshot in shared.stop_recording() {
        assert_eq!(
            snapshot,
            HardwareMetrics {
                rotation: snapshot.rotation,
                display_on: snapshot.display_on,
                ..initial
            }
        );
    }
}
