use host_alert::checks::cpu_alert;
use host_alert::checks::disk_alert;
use host_alert::checks::disk_alerts;
use host_alert::checks::iteration_alerts;
use host_alert::checks::memory_alert;
use host_alert::checks::DiskSample;
use host_alert::thresholds::cpu_exceeds;
use host_alert::thresholds::disk_exceeds;
use host_alert::thresholds::memory_exceeds;

fn disk(name: &str, total: u64, available: u64) -> DiskSample {
    DiskSample { name: name.to_string(), total_space: total, available_space: available }
}

#[test]
fn memory_at_threshold_does_not_trigger() {
    assert_eq!(memory_alert(70, 100), None);
    assert_eq!(memory_alert(700, 1000), None);
    assert!(!memory_exceeds(700, 1000));
}

#[test]
fn memory_over_threshold_triggers_with_message() {
    assert_eq!(
        memory_alert(75, 100),
        Some("Memory used over 75.00% - alert by Dawn.".to_string())
    );
    assert_eq!(
        memory_alert(701, 1000),
        Some("Memory used over 70.10% - alert by Dawn.".to_string())
    );
}

#[test]
fn memory_percentage_rounds_half_up() {
    // 5610 / 8000 is exactly 70.125%: the display rounds up to 70.13.
    assert_eq!(
        memory_alert(5610, 8000),
        Some("Memory used over 70.13% - alert by Dawn.".to_string())
    );
    // 5 / 6 is 83.3333...%: the display truncates to the nearest 83.33.
    assert_eq!(
        memory_alert(5, 6),
        Some("Memory used over 83.33% - alert by Dawn.".to_string())
    );
}

#[test]
fn memory_without_reported_total_never_triggers() {
    assert_eq!(memory_alert(5, 0), None);
    assert!(!memory_exceeds(5, 0));
}

#[test]
fn disk_volumes_are_evaluated_independently() {
    let volumes = vec![disk("data", 100, 15), disk("scratch", 100, 50)];
    let alerts = disk_alerts(&volumes);
    assert_eq!(alerts, vec!["disk data usage over - 85.00% - alert by Dawn.".to_string()]);
}

#[test]
fn disk_at_threshold_does_not_trigger() {
    assert_eq!(disk_alert(&disk("root", 100, 20)), None);
    assert!(!disk_exceeds(100, 20));
    assert_eq!(
        disk_alert(&disk("root", 1000, 199)),
        Some("disk root usage over - 80.10% - alert by Dawn.".to_string())
    );
}

#[test]
fn disk_with_odd_capacities_never_triggers() {
    assert_eq!(disk_alert(&disk("ghost", 0, 0)), None);
    assert_eq!(disk_alert(&disk("ghost", 10, 20)), None);
}

#[test]
fn cpu_fifteen_minute_average_decides() {
    assert_eq!(
        cpu_alert(100, 200, 801, 4),
        Some("CPU load average too high: 1.00 2.00 8.01 - alert by Dawn.".to_string())
    );
    assert_eq!(cpu_alert(900, 900, 800, 4), None);
    assert!(cpu_exceeds(801, 4));
    assert!(!cpu_exceeds(800, 4));
}

#[test]
fn quiet_iteration_produces_no_alerts() {
    let volumes = vec![disk("data", 100, 50), disk("scratch", 100, 21)];
    let alerts = iteration_alerts(50, 100, &volumes, 100, 100, 100, 4);
    assert!(alerts.is_empty());
}

#[test]
fn loud_iteration_orders_memory_disk_cpu() {
    let volumes = vec![disk("data", 100, 10)];
    let alerts = iteration_alerts(90, 100, &volumes, 100, 200, 900, 4);
    assert_eq!(
        alerts,
        vec![
            "Memory used over 90.00% - alert by Dawn.".to_string(),
            "disk data usage over - 90.00% - alert by Dawn.".to_string(),
            "CPU load average too high: 1.00 2.00 9.00 - alert by Dawn.".to_string(),
        ]
    );
}
