use loki2nats::tools::{any_name_except_main, do_some_error, event_label, is_recent_file, write_status};

#[test]
fn greeting_text() {
    assert_eq!(any_name_except_main(), "Hello, world, using syscalls!\n");
}

#[test]
fn write_status_values() {
    assert_eq!(write_status(Some(30)), 30);
    assert_eq!(write_status(None), -1);
}

#[test]
fn nothing_to_report() {
    assert!(do_some_error().is_ok());
}

#[test]
fn recent_files_only() {
    assert!(is_recent_file(0, true));
    assert!(is_recent_file(86399, true));
    assert!(!is_recent_file(86400, true));
    assert!(!is_recent_file(10, false));
}

#[test]
fn event_labels() {
    assert_eq!(event_label(true, false, false, true), Some("Directory created".to_string()));
    assert_eq!(event_label(true, true, true, false), Some("File created".to_string()));
    assert_eq!(event_label(false, true, false, false), Some("File deleted".to_string()));
    assert_eq!(event_label(false, false, true, true), Some("Directory modified".to_string()));
    assert_eq!(event_label(false, false, false, true), None);
}
