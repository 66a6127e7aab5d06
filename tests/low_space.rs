use disk_space_monitor::disk::{evaluate, get_low_disk_names, DiskInfo, Threshold};
use disk_space_monitor::tray::{
    join_names, next_check_minutes, sampling_tick, tooltip_text, BlinkState, IconUpdate,
    ALL_CLEAR_TOOLTIP, CHECKING_TOOLTIP, CHECK_INTERVAL_DEFAULT_MINUTES, MINUTES_IN_A_DAY,
};
use disk_space_monitor::AppState;
use std::sync::atomic::{AtomicBool, Ordering};
use std::sync::Arc;

fn disk(name: &str, total_space: u64, available_space: u64) -> DiskInfo {
    DiskInfo { name: name.into(), total_space, available_space }
}

#[test]
fn test_low_space_state_lifecycle() {
    let state = AppState { is_low_space: Arc::new(AtomicBool::new(false)) };

    let disks_with_low = vec![DiskInfo { name: "C:".into(), total_space: 100, available_space: 5 }];
    let low_names = get_low_disk_names(&disks_with_low, Threshold::default());
    state.is_low_space.store(!low_names.is_empty(), Ordering::Relaxed);
    assert!(
        state.is_low_space.load(Ordering::Relaxed),
        "Blinking should be ENABLED when a disk is low"
    );

    let disks_healthy = vec![DiskInfo { name: "C:".into(), total_space: 100, available_space: 50 }];
    let low_names_cleared = get_low_disk_names(&disks_healthy, Threshold::default());
    state.is_low_space.store(!low_names_cleared.is_empty(), Ordering::Relaxed);
    assert!(
        !state.is_low_space.load(Ordering::Relaxed),
        "Blinking should be DISABLED when no disks are low"
    );
}

#[test]
fn test_low_disk_threshold_detection() {
    let disks = vec![
        DiskInfo { name: "Healthy".into(), total_space: 100, available_space: 50 },
        DiskInfo { name: "Low".into(), total_space: 100, available_space: 5 },
    ];
    let state = AppState { is_low_space: Arc::new(AtomicBool::new(false)) };
    let low_names: Vec<String> = get_low_disk_names(&disks, Threshold::default());
    state.is_low_space.store(!low_names.is_empty(), Ordering::Relaxed);

    assert_eq!(low_names.len(), 1, "Should have found exactly one low disk");
    assert_eq!(low_names[0], "Low");
    assert!(state.is_low_space.load(Ordering::Relaxed), "AtomicBool should be true");
}

#[test]
fn default_threshold_is_one_tenth() {
    assert_eq!(Threshold::default(), Threshold { num: 1, den: 10 });
}

#[test]
fn empty_snapshot_reports_nothing() {
    let report = evaluate(&[], Threshold::default());
    assert!(!report.any_low);
    assert!(report.low_volume_names.is_empty());
}

#[test]
fn single_low_volume_is_reported() {
    let report = evaluate(&[disk("C", 100, 5)], Threshold::default());
    assert_eq!(report.low_volume_names, vec!["C".to_string()]);
    assert!(report.any_low);
}

#[test]
fn half_free_volume_is_not_low() {
    let report = evaluate(&[disk("C", 100, 50)], Threshold::default());
    assert!(!report.any_low);
    assert!(report.low_volume_names.is_empty());
}

#[test]
fn only_low_volume_listed_after_healthy_one() {
    let report = evaluate(&[disk("Healthy", 100, 50), disk("Low", 100, 5)], Threshold::default());
    assert_eq!(report.low_volume_names, vec!["Low".to_string()]);
    assert!(report.any_low);
}

#[test]
fn input_order_is_kept() {
    let disks = vec![disk("Z", 100, 1), disk("M", 100, 90), disk("A", 100, 2), disk("B", 10, 0)];
    let names = get_low_disk_names(&disks, Threshold::default());
    assert_eq!(names, vec!["Z".to_string(), "A".to_string(), "B".to_string()]);
}

#[test]
fn zero_capacity_is_never_low() {
    let d = disk("empty", 0, 0);
    assert!(!d.is_low(Threshold::default()));
    assert!(!d.is_low(Threshold { num: 1000, den: 1 }));
    assert!(!d.is_low(Threshold { num: 1, den: 0 }));
    let report = evaluate(&[d, disk("odd", 0, 7)], Threshold { num: u64::MAX, den: 1 });
    assert!(!report.any_low);
}

#[test]
fn ratio_exactly_at_threshold_is_not_low() {
    assert!(!disk("C", 100, 10).is_low(Threshold::default()));
    assert!(disk("C", 100, 9).is_low(Threshold::default()));
    assert!(!disk("C", 3, 1).is_low(Threshold { num: 1, den: 3 }));
}

#[test]
fn largest_sizes_do_not_overflow() {
    let max = u64::MAX;
    assert!(!disk("big", max, max).is_low(Threshold { num: max, den: max }));
    assert!(disk("big", max, max - 1).is_low(Threshold { num: max, den: max }));
    assert!(disk("big", max, 0).is_low(Threshold { num: 1, den: max }));
    assert!(!disk("big", max, max).is_low(Threshold { num: 1, den: 1 }));
}

#[test]
fn zero_denominator_is_unbounded() {
    assert!(disk("C", 100, 100).is_low(Threshold { num: 1, den: 0 }));
    assert!(!disk("C", 100, 0).is_low(Threshold { num: 0, den: 0 }));
}

#[test]
fn more_available_than_total_is_not_low() {
    assert!(!disk("C", 10, 50).is_low(Threshold::default()));
}

#[test]
fn evaluation_is_repeatable() {
    let disks = vec![disk("Healthy", 100, 50), disk("Low", 100, 5), disk("Gone", 0, 0)];
    let first = evaluate(&disks, Threshold::default());
    let second = evaluate(&disks, Threshold::default());
    assert_eq!(first.low_volume_names, second.low_volume_names);
    assert_eq!(first.any_low, second.any_low);
}

#[test]
fn join_uses_comma_separator() {
    assert_eq!(join_names(&[]), "");
    assert_eq!(join_names(&["C:".to_string()]), "C:");
    assert_eq!(join_names(&["C:".to_string(), "D:".to_string(), "E:".to_string()]), "C:, D:, E:");
}

#[test]
fn tooltip_texts() {
    assert_eq!(tooltip_text(&[]), "Disk Space Monitor: All clear");
    assert_eq!(ALL_CLEAR_TOOLTIP, "Disk Space Monitor: All clear");
    assert_eq!(CHECKING_TOOLTIP, "Disk Space Monitor: Checking...");
    assert_eq!(
        tooltip_text(&["C:".to_string(), "D:".to_string()]),
        "Low Space Warning: C:, D:"
    );
}

#[test]
fn check_interval_shortens_while_low() {
    assert_eq!(next_check_minutes(true), 15);
    assert_eq!(next_check_minutes(false), 1440);
    assert_eq!(CHECK_INTERVAL_DEFAULT_MINUTES, 15);
    assert_eq!(MINUTES_IN_A_DAY, 1440);
}

#[test]
fn sampling_tick_low_and_clear() {
    let low = sampling_tick(&[disk("Healthy", 100, 50), disk("Low", 100, 5)], Threshold::default());
    assert!(low.report.any_low);
    assert_eq!(low.report.low_volume_names, vec!["Low".to_string()]);
    assert_eq!(low.tooltip, "Low Space Warning: Low");
    assert_eq!(low.next_check_minutes, 15);

    let clear = sampling_tick(&[disk("Healthy", 100, 50)], Threshold::default());
    assert!(!clear.report.any_low);
    assert!(clear.report.low_volume_names.is_empty());
    assert_eq!(clear.tooltip, "Disk Space Monitor: All clear");
    assert_eq!(clear.next_check_minutes, 1440);
}

#[test]
fn blink_starts_visible_and_toggles_while_low() {
    let mut blink = BlinkState::new();
    assert!(blink.visible);
    assert!(!blink.is_low);
    assert_eq!(blink.tick(false), IconUpdate::Unchanged);
    assert!(blink.visible);
    assert_eq!(blink.tick(true), IconUpdate::Hide);
    assert!(!blink.visible);
    assert!(blink.is_low);
    assert_eq!(blink.tick(true), IconUpdate::Show);
    assert!(blink.visible);
    assert_eq!(blink.tick(true), IconUpdate::Hide);
    assert!(!blink.visible);
}

#[test]
fn recovery_restores_icon_within_one_tick() {
    let state = AppState { is_low_space: Arc::new(AtomicBool::new(false)) };
    let mut blink = BlinkState::new();

    let before = sampling_tick(&[disk("C:", 100, 5)], Threshold::default());
    state.is_low_space.store(before.report.any_low, Ordering::Relaxed);
    assert_eq!(blink.tick(state.is_low_space.load(Ordering::Relaxed)), IconUpdate::Hide);
    assert!(!blink.visible);

    let after = sampling_tick(&[disk("C:", 100, 50)], Threshold::default());
    state.is_low_space.store(after.report.any_low, Ordering::Relaxed);
    assert!(!state.is_low_space.load(Ordering::Relaxed));
    assert_eq!(blink.tick(state.is_low_space.load(Ordering::Relaxed)), IconUpdate::Show);
    assert!(blink.visible);
    assert!(!blink.is_low);
}
