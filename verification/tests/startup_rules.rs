use event_bridge::format_log_line;
use event_bridge::resolve_initial_screen;

#[test]
fn log_line_has_the_documented_shape() {
    let line = format_log_line("[2024-01-02][03:04:05]", "event_bridge", "INFO", "hello");
    assert_eq!(line, "[2024-01-02][03:04:05] [event_bridge] [INFO] hello");
}

#[test]
fn log_line_keeps_empty_parts() {
    assert_eq!(format_log_line("", "", "", ""), " [] [] ");
}

#[test]
fn configured_screen_is_used_when_the_layout_knows_it() {
    let (screen, invalid) = resolve_initial_screen(Some(String::from("queue")), true);
    assert_eq!(screen, "queue");
    assert!(!invalid);
}

#[test]
fn unknown_screen_falls_back_to_library_and_reports_it() {
    let (screen, invalid) = resolve_initial_screen(Some(String::from("nosuch")), false);
    assert_eq!(screen, "library");
    assert!(invalid);
}

#[test]
fn missing_configuration_opens_the_library() {
    let (screen, invalid) = resolve_initial_screen(None, true);
    assert_eq!(screen, "library");
    assert!(!invalid);
}
