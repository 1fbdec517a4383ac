use host_alert::sampling::disk_check;
use host_alert::sampling::memory_check;

#[test]
fn live_memory_check_message_matches_the_template() {
    let mut sys = sysinfo::System::new_all();
    if let Some(m) = memory_check(&mut sys) {
        assert!(m.starts_with("Memory used over "));
        assert!(m.ends_with("% - alert by Dawn."));
    }
}

#[test]
fn live_disk_check_messages_match_the_template() {
    for m in disk_check() {
        assert!(m.starts_with("disk "));
        assert!(m.ends_with("% - alert by Dawn."));
    }
}
